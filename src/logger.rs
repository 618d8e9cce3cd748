use vstd::prelude::*;

use crate::level::{disable_flag, LogLevel, LOG_EXIT_ON_ERROR};

verus! {

/// The flags after the exit-on-error bit is set (`enabled`) or cleared.
pub open spec fn with_exit_on_error(flags: u32, enabled: bool) -> u32 {
    if enabled {
        flags | LOG_EXIT_ON_ERROR
    } else {
        flags & !LOG_EXIT_ON_ERROR
    }
}

/// The flags after `level` is enabled (its suppression bit cleared) or
/// disabled (its suppression bit set).
pub open spec fn with_level_state(flags: u32, level: LogLevel, enabled: bool) -> u32 {
    if enabled {
        flags & !disable_flag(level)
    } else {
        flags | disable_flag(level)
    }
}

/// Whether the flags drop every message of `level`.
pub open spec fn suppressed(flags: u32, level: LogLevel) -> bool {
    flags & disable_flag(level) != 0
}

/// Whether the flags ask for termination after `level` has reached the sink.
pub open spec fn exits_after(flags: u32, level: LogLevel) -> bool {
    level == LogLevel::Error && flags & LOG_EXIT_ON_ERROR != 0
}

/// The logger state: where messages go and how they are filtered.
///
/// `write` is the sink, held for the embedder, which calls it with each
/// delivery; `flags` holds the suppression bits and the exit-on-error bit.
/// Every combination of bits is valid.
#[derive(Clone, Copy)]
pub struct Logger<W> {
    pub write: W,
    pub flags: u32,
}

impl<W> Logger<W> {
    /// A logger with sink `write` and no flag set: nothing suppressed, no exit.
    pub fn new(write: W) -> (r: Self)
        ensures
            r.write == write,
            r.flags == 0,
    {
        Logger { write, flags: 0 }
    }

    /// Whether a message of `level` is dropped before it is rendered.
    pub fn is_suppressed(&self, level: LogLevel) -> (r: bool)
        ensures
            r == suppressed(self.flags, level),
    {
        self.flags & level.as_disable_flag() != 0
    }
}

/// Sets (`b`) or clears the exit-on-error bit, leaving the sink and every
/// other bit as they were.
pub fn exit_on_error<W>(logger: &mut Logger<W>, b: bool)
    ensures
        final(logger).write == old(logger).write,
        final(logger).flags == with_exit_on_error(old(logger).flags, b),
{
    if b {
        logger.flags = logger.flags | LOG_EXIT_ON_ERROR;
    } else {
        logger.flags = logger.flags & !LOG_EXIT_ON_ERROR;
    }
}

/// Enables `level` (clears its suppression bit) or disables it (sets the
/// bit). A level without a suppression bit leaves the flags unchanged.
pub fn set_log_level_state<W>(logger: &mut Logger<W>, level: LogLevel, enabled: bool)
    ensures
        final(logger).write == old(logger).write,
        final(logger).flags == with_level_state(old(logger).flags, level, enabled),
{
    let flag = level.as_disable_flag();
    if enabled {
        logger.flags = logger.flags & !flag;
    } else {
        logger.flags = logger.flags | flag;
    }
}

/// The command-line configuration around the sink `write` (which writes
/// Info-level messages to standard output and the others to standard
/// error): exit-on-error set, no level suppressed.
pub fn cmdline_logging<W>(write: W) -> (r: Logger<W>)
    ensures
        r.write == write,
        r.flags == LOG_EXIT_ON_ERROR,
{
    Logger { write, flags: LOG_EXIT_ON_ERROR }
}

/// Enabling a level, disabling it, then enabling it again leaves the flags
/// as one enabling does; and when the level was enabled to begin with, as
/// they were before the three calls.
pub proof fn lemma_level_toggle_round_trip(flags: u32, level: LogLevel)
    ensures
        with_level_state(
            with_level_state(with_level_state(flags, level, true), level, false),
            level,
            true,
        ) == with_level_state(flags, level, true),
        !suppressed(flags, level) ==> with_level_state(
            with_level_state(with_level_state(flags, level, true), level, false),
            level,
            true,
        ) == flags,
{
    let b = disable_flag(level);
    assert(((flags & !b) | b) & !b == flags & !b) by (bit_vector);
    assert(flags & b == 0 ==> flags & !b == flags) by (bit_vector);
}

} // verus!
