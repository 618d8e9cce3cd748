use vstd::prelude::*;
use vstd::slice::{slice_subrange, slice_to_vec};

use crate::level::{LogLevel, LOG_EXIT_ON_ERROR};
use crate::logger::{exits_after, suppressed, Logger};

verus! {

/// Capacity of the buffer a formatted message is rendered into.
pub const LOG_BUF_SIZE: usize = 4096;

/// What reaches the sink of text rendered for a message: the text itself when
/// it fits the buffer, else its first `LOG_BUF_SIZE` bytes (the cut falls on a
/// byte boundary, even inside a multi-byte character).
pub open spec fn fit_to_buffer(text: Seq<u8>) -> Seq<u8> {
    if text.len() <= LOG_BUF_SIZE {
        text
    } else {
        text.subrange(0, LOG_BUF_SIZE as int)
    }
}

/// The outcome of logging `msg` at `level` under `flags`: nothing when the
/// level is suppressed, else the level, the bytes handed to the sink, and
/// whether the process terminates after the sink call.
pub open spec fn outcome(flags: u32, level: LogLevel, msg: Seq<u8>) -> Option<(LogLevel, Seq<u8>, bool)> {
    if suppressed(flags, level) {
        None
    } else {
        Some((level, msg, exits_after(flags, level)))
    }
}

/// The sink calls that an outcome makes, in order.
pub open spec fn sink_calls(o: Option<(LogLevel, Seq<u8>, bool)>) -> Seq<(LogLevel, Seq<u8>)> {
    match o {
        None => Seq::empty(),
        Some(d) => seq![(d.0, d.1)],
    }
}

/// Whether an outcome terminates the process (after its sink calls).
pub open spec fn terminates(o: Option<(LogLevel, Seq<u8>, bool)>) -> bool {
    match o {
        None => false,
        Some(d) => d.2,
    }
}

/// One message on its way to the sink: the embedder calls the sink with
/// `level` and `msg`, then terminates the process when `exit` is set.
pub struct Delivery {
    pub level: LogLevel,
    pub msg: Vec<u8>,
    pub exit: bool,
}

impl View for Delivery {
    type V = (LogLevel, Seq<u8>, bool);

    open spec fn view(&self) -> (LogLevel, Seq<u8>, bool) {
        (self.level, self.msg@, self.exit)
    }
}

/// The outcome that a logging call returned, as a value of the model.
pub open spec fn sent(d: Option<Delivery>) -> Option<(LogLevel, Seq<u8>, bool)> {
    match d {
        None => None,
        Some(x) => Some(x@),
    }
}

/// Copies rendered text into a buffer of `LOG_BUF_SIZE` bytes, cutting off
/// what does not fit.
pub fn fmt_to_buf(text: &[u8]) -> (buf: Vec<u8>)
    ensures
        buf@ == fit_to_buffer(text@),
        buf@.len() <= LOG_BUF_SIZE,
{
    let len: usize = if text.len() <= LOG_BUF_SIZE {
        text.len()
    } else {
        LOG_BUF_SIZE
    };
    let buf = slice_to_vec(slice_subrange(text, 0, len));
    proof {
        if text@.len() <= LOG_BUF_SIZE {
            assert(buf@ =~= text@);
        }
    }
    buf
}

/// The delivery of `msg` at `level` under `flags`, unless the level is suppressed.
fn deliver(flags: u32, level: LogLevel, msg: Vec<u8>) -> (d: Option<Delivery>)
    ensures
        sent(d) == outcome(flags, level, msg@),
{
    if flags & level.as_disable_flag() != 0 {
        return None;
    }
    let exit = level == LogLevel::Error && flags & LOG_EXIT_ON_ERROR != 0;
    Some(Delivery { level, msg, exit })
}

/// Logs the bytes `msg`, as given, at `level`: returns what is to reach the
/// sink of `logger`, or `None` when the level is suppressed.
pub fn log_with_rs<W>(logger: &Logger<W>, level: LogLevel, msg: &[u8]) -> (d: Option<Delivery>)
    ensures
        sent(d) == outcome(logger.flags, level, msg@),
{
    if logger.is_suppressed(level) {
        return None;
    }
    deliver(logger.flags, level, slice_to_vec(msg))
}

/// Logs a formatted message at `level`. `render` produces the message text
/// and is called only when the level is not suppressed; what it returns is
/// cut to the buffer's capacity before it reaches the sink.
pub fn log_impl<W, F: Fn() -> Vec<u8>>(logger: &Logger<W>, level: LogLevel, render: F) -> (d: Option<Delivery>)
    requires
        render.requires(()),
    ensures
        suppressed(logger.flags, level) ==> d is None,
        !suppressed(logger.flags, level) ==> exists|text: Vec<u8>|
            #![trigger render.ensures((), text)]
            render.ensures((), text) && sent(d) == outcome(logger.flags, level, fit_to_buffer(text@)),
{
    if logger.is_suppressed(level) {
        return None;
    }
    let text = render();
    let buf = fmt_to_buf(text.as_slice());
    deliver(logger.flags, level, buf)
}

/// Logs text that was already rendered at `level`, cut to the buffer's
/// capacity: what `log_impl` returns for a renderer that produced `text`.
pub fn log_rendered<W>(logger: &Logger<W>, level: LogLevel, text: &[u8]) -> (d: Option<Delivery>)
    ensures
        sent(d) == outcome(logger.flags, level, fit_to_buffer(text@)),
{
    if logger.is_suppressed(level) {
        return None;
    }
    deliver(logger.flags, level, fmt_to_buf(text))
}

/// A message of a suppressed level makes no sink call and never terminates
/// the process.
pub proof fn lemma_suppressed_level_is_silent(flags: u32, level: LogLevel, msg: Seq<u8>)
    requires
        suppressed(flags, level),
    ensures
        sink_calls(outcome(flags, level, msg)).len() == 0,
        !terminates(outcome(flags, level, msg)),
{
}

/// A message of a level that is not suppressed makes exactly one sink call,
/// with that level and those bytes.
pub proof fn lemma_enabled_level_calls_sink_once(flags: u32, level: LogLevel, msg: Seq<u8>)
    requires
        !suppressed(flags, level),
    ensures
        sink_calls(outcome(flags, level, msg)) == seq![(level, msg)],
{
}

/// With the exit-on-error bit clear, no sequence of Error-level messages
/// terminates the process.
pub proof fn lemma_no_exit_without_policy(flags: u32, msgs: Seq<Seq<u8>>)
    requires
        flags & LOG_EXIT_ON_ERROR == 0,
    ensures
        forall|i: int|
            0 <= i < msgs.len() ==> !terminates(#[trigger] outcome(flags, LogLevel::Error, msgs[i])),
{
}

/// With the exit-on-error bit set and Error level not suppressed, one
/// Error-level message makes exactly one sink call and then terminates the
/// process.
pub proof fn lemma_error_exits_after_one_call(flags: u32, msg: Seq<u8>)
    requires
        flags & LOG_EXIT_ON_ERROR != 0,
        !suppressed(flags, LogLevel::Error),
    ensures
        sink_calls(outcome(flags, LogLevel::Error, msg)) == seq![(LogLevel::Error, msg)],
        terminates(outcome(flags, LogLevel::Error, msg)),
{
}

/// Text that fits the buffer reaches the sink byte for byte; longer text is
/// cut to its first `LOG_BUF_SIZE` bytes, never more.
pub proof fn lemma_fit_to_buffer(text: Seq<u8>)
    ensures
        text.len() <= LOG_BUF_SIZE ==> fit_to_buffer(text) == text,
        text.len() > LOG_BUF_SIZE ==> fit_to_buffer(text).len() == LOG_BUF_SIZE
            && fit_to_buffer(text) == text.subrange(0, LOG_BUF_SIZE as int),
        fit_to_buffer(text).len() <= LOG_BUF_SIZE,
        forall|i: int| 0 <= i < fit_to_buffer(text).len() ==> #[trigger] fit_to_buffer(text)[i] == text[i],
{
}

} // verus!
