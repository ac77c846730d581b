//! The fixed table of supported formats and the extension that selects each.

use vstd::prelude::*;

use crate::text::str_eq;

verus! {

/// The format back-ends the dispatcher knows. Each stands for one external
/// codec library; `yml` and `yaml` are deliberate aliases for the same
/// back-end.
#[derive(Clone, Copy, Debug, PartialEq, Eq, Structural)]
pub enum Format {
    Json,
    Toml,
    Xml,
    Yaml,
}

/// The dispatch table: the format a normalized extension selects, if any.
pub open spec fn format_of_extension(ext: Seq<char>) -> Option<Format> {
    if ext == "json"@ {
        Some(Format::Json)
    } else if ext == "toml"@ {
        Some(Format::Toml)
    } else if ext == "xml"@ {
        Some(Format::Xml)
    } else if ext == "yml"@ || ext == "yaml"@ {
        Some(Format::Yaml)
    } else {
        None
    }
}

/// Whether a format has a pretty rendering of its own. A pretty write for
/// any other format silently falls back to the default rendering.
pub open spec fn spec_supports_pretty(f: Format) -> bool {
    f == Format::Json || f == Format::Xml
}

/// Select the format back-end for a normalized extension.
pub fn format_for_extension(ext: &str) -> (r: Option<Format>)
    ensures
        r == format_of_extension(ext@),
{
    if str_eq(ext, "json") {
        Some(Format::Json)
    } else if str_eq(ext, "toml") {
        Some(Format::Toml)
    } else if str_eq(ext, "xml") {
        Some(Format::Xml)
    } else if str_eq(ext, "yml") {
        Some(Format::Yaml)
    } else if str_eq(ext, "yaml") {
        Some(Format::Yaml)
    } else {
        None
    }
}

/// Whether a format offers a pretty rendering.
pub fn supports_pretty(f: Format) -> (r: bool)
    ensures
        r == spec_supports_pretty(f),
{
    match f {
        Format::Json => true,
        Format::Xml => true,
        Format::Toml => false,
        Format::Yaml => false,
    }
}

} // verus!
