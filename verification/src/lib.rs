pub mod builder;
pub mod code;
pub mod error;
pub mod failure;
pub mod logger;
pub mod options;
pub mod text;
pub mod time_format;
pub mod verbosity;

pub use builder::LoggerBuilder;
pub use error::Error;
pub use failure::{Action, Failure, Severity};
pub use logger::Logger;
pub use options::LoggerOptions;
pub use time_format::TimeFormat;
pub use verbosity::Verbosity;
