//! Format dispatch for reading and writing data objects as files.
//!
//! A path's trailing extension selects one of a fixed set of text formats
//! (JSON, TOML, XML, YAML); every failure is normalized into one error
//! taxonomy. The string-to-object conversions themselves are owned by
//! external codec libraries; this crate owns, and verifies, the extension
//! resolver, the dispatch table, the pretty-printing policy and the error
//! type that everything above them reports.

pub mod dispatch;
pub mod error;
pub mod formats;
pub mod functions;
pub mod laws;
pub mod text;

pub use dispatch::WritePlan;
pub use dispatch::resolve_format;
pub use dispatch::write_plan;
pub use error::Error;
pub use formats::Format;
pub use functions::extension;
