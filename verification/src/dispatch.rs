//! The format dispatcher: resolve a path to a format back-end, and plan how
//! a write is carried out (pretty or default rendering, XML indentation).

use vstd::prelude::*;

use crate::error::Error;
use crate::formats::Format;
use crate::formats::format_for_extension;
use crate::formats::format_of_extension;
use crate::formats::spec_supports_pretty;
use crate::formats::supports_pretty;
use crate::functions::extension;
use crate::functions::extension_of;
use crate::functions::has_extension;
use crate::functions::raw_extension;
use crate::text::lower_seq;

verus! {

/// Indent character used by default for pretty XML output.
pub const XML_INDENT_CHAR: char = ' ';

/// Indent width used by default for pretty XML output.
pub const XML_INDENT_LEN: usize = 4;

/// The format a path dispatches to, if its extension selects one.
pub open spec fn format_for_path(p: Seq<char>) -> Option<Format> {
    match extension_of(p) {
        Some(ext) => format_of_extension(ext),
        None => None,
    }
}

/// Resolve a path to the format back-end its extension selects.
///
/// The three outcomes are mutually exclusive and exhaustive: a path without
/// an extension segment is rejected as `NoFileExtensionsSpecified`; one whose
/// normalized extension is outside the dispatch table is rejected as
/// `UnsupportedFileExtension` carrying that normalized extension; every other
/// path resolves to the back-end of its extension.
pub fn resolve_format(path: &str) -> (r: Result<Format, Error>)
    ensures
        match r {
            Ok(f) => format_for_path(path@) == Some(f),
            Err(e) => match e {
                Error::NoFileExtensionsSpecified => !has_extension(path@),
                Error::UnsupportedFileExtension(ext) => {
                    &&& has_extension(path@)
                    &&& ext@ == lower_seq(raw_extension(path@))
                    &&& format_of_extension(ext@) is None
                },
                _ => false,
            },
        },
{
    match extension(path) {
        Ok(ext) => match format_for_extension(ext.as_str()) {
            Some(f) => Ok(f),
            None => Err(Error::UnsupportedFileExtension(ext)),
        },
        Err(e) => Err(e),
    }
}

/// How a write request is carried out: the chosen format, whether its pretty
/// rendering is used, and the indentation for pretty XML.
#[derive(Clone, Copy, Debug, PartialEq, Eq, Structural)]
pub struct WritePlan {
    /// The format back-end the file's extension selects.
    pub format: Format,
    /// Whether the back-end's pretty rendering is used.
    pub pretty: bool,
    /// Indent character, relevant to pretty XML output.
    pub indent_char: char,
    /// Indent width, relevant to pretty XML output.
    pub indent_size: usize,
}

/// The plan for writing in format `f` when pretty output is requested or
/// not: a pretty request takes effect only where the format has a pretty
/// rendering, and silently degrades to the default rendering elsewhere.
pub open spec fn plan_for(f: Format, pretty: bool) -> WritePlan {
    WritePlan {
        format: f,
        pretty: pretty && spec_supports_pretty(f),
        indent_char: ' ',
        indent_size: 4,
    }
}

/// Plan a write to `path`: resolve the format as `resolve_format` does, then
/// fix the rendering. Fails exactly where `resolve_format` fails.
pub fn write_plan(path: &str, pretty: bool) -> (r: Result<WritePlan, Error>)
    ensures
        match r {
            Ok(plan) => {
                &&& format_for_path(path@) == Some(plan.format)
                &&& plan == plan_for(plan.format, pretty)
            },
            Err(e) => match e {
                Error::NoFileExtensionsSpecified => !has_extension(path@),
                Error::UnsupportedFileExtension(ext) => {
                    &&& has_extension(path@)
                    &&& ext@ == lower_seq(raw_extension(path@))
                    &&& format_of_extension(ext@) is None
                },
                _ => false,
            },
        },
{
    match resolve_format(path) {
        Ok(f) => Ok(
            WritePlan {
                format: f,
                pretty: pretty && supports_pretty(f),
                indent_char: XML_INDENT_CHAR,
                indent_size: XML_INDENT_LEN,
            },
        ),
        Err(e) => Err(e),
    }
}

} // verus!
