//! A lightweight error-handling library: an error value that carries its
//! message together with the source location (file, line, column) at which it
//! was created, a silent constructor, and a constructor that also emits one
//! log record at error severity.

pub mod digits;
pub mod error;
pub mod facility;

pub use digits::u32_to_dec;
pub use error::DebugError;
pub use error::Location;
pub use facility::debug_error;
pub use facility::debug_error_with_log;
pub use facility::error_log_text;
