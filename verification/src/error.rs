//! The unified error taxonomy for file reading and writing.

use vstd::prelude::*;
use vstd::string::StringExecFns;

verus! {

/// Error type for de-/serialization operations from/to files.
///
/// Every fallible operation of this crate reports exactly one of these
/// variants. The `Io` and `Serde` payloads carry the rendered message of the
/// underlying failure as a plain string, so that the taxonomy itself is a
/// value the verifier can reason about; callers that need the original cause
/// keep it on their side of the boundary.
#[derive(Debug, PartialEq, Eq)]
pub enum Error {
    /// An I/O error occurred while reading from or writing to the file.
    Io(String),
    /// Serialization or deserialization failed.
    Serde(String),
    /// The provided file extension does not indicate a supported file format.
    UnsupportedFileExtension(String),
    /// No file extension was specified.
    NoFileExtensionsSpecified,
}

impl Error {
    /// The stable human-readable rendering of this error.
    pub open spec fn spec_message(&self) -> Seq<char> {
        match self {
            Error::Io(msg) => msg@,
            Error::Serde(msg) => msg@,
            Error::UnsupportedFileExtension(ext) => "Unsupported file extension: "@ + ext@,
            Error::NoFileExtensionsSpecified => "No file extension specified."@,
        }
    }

    /// Renders the diagnostic text for this error; the offending extension or
    /// the underlying message is part of the text, so the error is actionable
    /// on its own.
    pub fn message(&self) -> (r: String)
        ensures
            r@ == self.spec_message(),
    {
        match self {
            Error::Io(msg) => msg.clone(),
            Error::Serde(msg) => msg.clone(),
            Error::UnsupportedFileExtension(ext) => {
                let mut text = String::from_str("Unsupported file extension: ");
                text.append(ext.as_str());
                text
            },
            Error::NoFileExtensionsSpecified => String::from_str("No file extension specified."),
        }
    }
}

} // verus!
