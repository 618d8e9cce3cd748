use vstd::prelude::*;

verus! {

/// Flag bit: drop every Error-level message.
pub const LOG_DISABLE_ERROR: u32 = 0x1;

/// Flag bit: drop every Warn-level message.
pub const LOG_DISABLE_WARN: u32 = 0x2;

/// Flag bit: drop every Info-level message.
pub const LOG_DISABLE_INFO: u32 = 0x4;

/// Flag bit: drop every Debug-level message.
pub const LOG_DISABLE_DEBUG: u32 = 0x8;

/// Flag bit: terminate the process once an Error-level message has reached the sink.
pub const LOG_EXIT_ON_ERROR: u32 = 0x10;

/// Severity of a log message, most severe first.
///
/// `ErrorCxx` is an error raised on the native side; it has no suppression
/// bit and is never dropped.
#[derive(Clone, Copy, Debug, PartialEq, Eq, Structural, PartialOrd, Ord, Hash)]
pub enum LogLevel {
    Error,
    Warn,
    Info,
    Debug,
    ErrorCxx,
}

/// The suppression bit of `level`, or 0 for a level that has none.
pub open spec fn disable_flag(level: LogLevel) -> u32 {
    match level {
        LogLevel::Error => LOG_DISABLE_ERROR,
        LogLevel::Warn => LOG_DISABLE_WARN,
        LogLevel::Info => LOG_DISABLE_INFO,
        LogLevel::Debug => LOG_DISABLE_DEBUG,
        LogLevel::ErrorCxx => 0,
    }
}

impl LogLevel {
    /// The flag bit that suppresses this level, or 0 for a level without one.
    pub fn as_disable_flag(&self) -> (r: u32)
        ensures
            r == disable_flag(*self),
    {
        match *self {
            LogLevel::Error => LOG_DISABLE_ERROR,
            LogLevel::Warn => LOG_DISABLE_WARN,
            LogLevel::Info => LOG_DISABLE_INFO,
            LogLevel::Debug => LOG_DISABLE_DEBUG,
            LogLevel::ErrorCxx => 0,
        }
    }
}

} // verus!
