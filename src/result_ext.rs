use vstd::prelude::*;

use crate::dispatch::{fit_to_buffer, log_rendered, outcome, sent, Delivery};
use crate::level::LogLevel;
use crate::logger::Logger;

verus! {

/// Logs the failure of `r`, if any, and hands `r` back unchanged.
///
/// For a success nothing reaches the sink. For a failure `show` renders the
/// error, and its text goes to the sink at Error level, through the same
/// suppression, buffer and exit-on-error policy as any message.
pub fn log_result<T, E, W, F: Fn(&E) -> Vec<u8>>(r: Result<T, E>, logger: &Logger<W>, show: F) -> (out: (Result<T, E>, Option<Delivery>))
    requires
        forall|e: &E| #[trigger] show.requires((e,)),
    ensures
        out.0 == r,
        r is Ok ==> out.1 is None,
        r is Err ==> exists|text: Vec<u8>|
            #![trigger show.ensures((&r->Err_0,), text)]
            show.ensures((&r->Err_0,), text)
                && sent(out.1) == outcome(logger.flags, LogLevel::Error, fit_to_buffer(text@)),
{
    let d = match &r {
        Ok(_) => None,
        Err(e) => {
            let text = show(e);
            log_rendered(logger, LogLevel::Error, text.as_slice())
        },
    };
    (r, d)
}

/// Logging of an outcome that passes it through unchanged.
pub trait ResultExt<E>: Sized {
    /// Hands `self` back unchanged, with what logging it sends to the sink of
    /// `logger`: nothing for a success, the error as `show` renders it, at
    /// Error level, for a failure.
    fn log<W, F: Fn(&E) -> Vec<u8>>(self, logger: &Logger<W>, show: F) -> (Self, Option<Delivery>)
        requires
            forall|e: &E| #[trigger] show.requires((e,)),
    ;
}

impl<T, E> ResultExt<E> for Result<T, E> {
    fn log<W, F: Fn(&E) -> Vec<u8>>(self, logger: &Logger<W>, show: F) -> (out: (Self, Option<Delivery>))
        ensures
            out.0 == self,
            self is Ok ==> out.1 is None,
            self is Err ==> exists|text: Vec<u8>|
                #![trigger show.ensures((&self->Err_0,), text)]
                show.ensures((&self->Err_0,), text)
                    && sent(out.1) == outcome(logger.flags, LogLevel::Error, fit_to_buffer(text@)),
    {
        log_result(self, logger, show)
    }
}

} // verus!
