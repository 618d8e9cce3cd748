//! A small process-wide logging facility: leveled messages routed to a
//! pluggable sink, with per-level suppression and an exit-on-error policy.
//!
//! The library decides; its embedder acts. Configuration calls update a
//! [`Logger`], and each logging call returns the [`Delivery`] that is to reach
//! the sink (or nothing when the level is suppressed), including whether the
//! process is to terminate once the sink has been called.

pub mod level;
pub mod logger;
pub mod dispatch;
pub mod result_ext;

pub use level::{
    LogLevel, LOG_DISABLE_DEBUG, LOG_DISABLE_ERROR, LOG_DISABLE_INFO, LOG_DISABLE_WARN,
    LOG_EXIT_ON_ERROR,
};
pub use logger::{cmdline_logging, exit_on_error, set_log_level_state, Logger};
pub use dispatch::{fmt_to_buf, log_impl, log_rendered, log_with_rs, Delivery, LOG_BUF_SIZE};
pub use result_ext::{log_result, ResultExt};
