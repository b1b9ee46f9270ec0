//! A verified command-line front end for an interactive debugger.
//!
//! A raw line of text is tokenized on whitespace, matched against an
//! immutable table of command descriptors, and turned into a typed
//! [`request::DebugRequest`] or a structured [`error::CommandError`].
//! The library performs no I/O and keeps no mutable state: it only
//! validates and translates, and every operation is a pure function of
//! its input line.

pub mod commands;
pub mod error;
pub mod request;
pub mod scalars;
pub mod text;

pub use commands::Commands;
pub use error::CommandError;
pub use error::NumericError;
pub use request::Command;
pub use request::DebugRequest;
pub use scalars::parse_bool;
pub use scalars::parse_u32_from_str;
