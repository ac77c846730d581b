//! Laws of the dispatcher, stated and proved once for all inputs: which
//! extensions are rejected, that dispatch ignores letter case, that `yml`
//! and `yaml` are one back-end, and that a pretty request degrades to the
//! default rendering where no pretty rendering exists.

use vstd::prelude::*;

use crate::dispatch::format_for_path;
use crate::dispatch::plan_for;
use crate::formats::Format;
use crate::formats::format_of_extension;
use crate::formats::spec_supports_pretty;
use crate::functions::extension_of;
use crate::functions::has_extension;
use crate::functions::last_dot;
use crate::functions::lemma_no_dot;
use crate::functions::raw_extension;
use crate::text::lower_char;
use crate::text::lower_seq;

verus! {

/// A normalized extension outside `json`, `toml`, `xml`, `yml`, `yaml`
/// selects no back-end: dispatch on it can only be rejected.
pub proof fn lemma_unrecognized_extension(ext: Seq<char>)
    requires
        ext != "json"@,
        ext != "toml"@,
        ext != "xml"@,
        ext != "yml"@,
        ext != "yaml"@,
    ensures
        format_of_extension(ext) is None,
{
}

/// A path without any `.` has no extension segment, so it dispatches to no
/// back-end at all.
pub proof fn lemma_no_dot_no_extension(p: Seq<char>)
    requires
        forall|j: int| 0 <= j < p.len() ==> p[j] != '.',
    ensures
        extension_of(p) is None,
        format_for_path(p) is None,
{
    lemma_no_dot(p);
}

/// A path that ends in `.` has an empty extension segment, which counts as
/// no extension: the resolver never yields an empty extension.
pub proof fn lemma_trailing_dot_no_extension(p: Seq<char>)
    requires
        p.len() > 0,
        p[p.len() - 1] == '.',
    ensures
        extension_of(p) is None,
        format_for_path(p) is None,
{
}

/// ASCII case folding moves no character onto `.` and none away from it.
proof fn lemma_lower_char_dot(c: char)
    ensures
        (lower_char(c) == '.') <==> (c == '.'),
{
}

/// Two sequences that are equal up to ASCII letter case have their last `.`
/// in the same place.
proof fn lemma_last_dot_case_insensitive(p: Seq<char>, q: Seq<char>)
    requires
        p.len() == q.len(),
        forall|i: int| 0 <= i < p.len() ==> lower_char(p[i]) == lower_char(q[i]),
    ensures
        last_dot(p) == last_dot(q),
    decreases p.len(),
{
    if p.len() > 0 {
        lemma_lower_char_dot(p[p.len() - 1]);
        lemma_lower_char_dot(q[q.len() - 1]);
        if p[p.len() - 1] != '.' {
            assert forall|i: int| 0 <= i < p.drop_last().len() implies lower_char(
                p.drop_last()[i],
            ) == lower_char(q.drop_last()[i]) by {
                assert(p.drop_last()[i] == p[i]);
                assert(q.drop_last()[i] == q[i]);
            }
            lemma_last_dot_case_insensitive(p.drop_last(), q.drop_last());
        }
    }
}

/// Extension matching is case-insensitive: two paths that are equal up to
/// ASCII letter case dispatch to the same back-end, or both to none.
pub proof fn lemma_dispatch_case_insensitive(p: Seq<char>, q: Seq<char>)
    requires
        p.len() == q.len(),
        forall|i: int| 0 <= i < p.len() ==> lower_char(p[i]) == lower_char(q[i]),
    ensures
        extension_of(p) == extension_of(q),
        format_for_path(p) == format_for_path(q),
{
    lemma_last_dot_case_insensitive(p, q);
    if has_extension(p) {
        let k = last_dot(p);
        assert forall|i: int| 0 <= i < raw_extension(p).len() implies lower_seq(raw_extension(p))[i]
            == lower_seq(raw_extension(q))[i] by {
            assert(raw_extension(p)[i] == p[k + 1 + i]);
            assert(raw_extension(q)[i] == q[k + 1 + i]);
        }
        assert(lower_seq(raw_extension(p)) =~= lower_seq(raw_extension(q)));
    }
}

/// The positive half of the dispatch table: each of the fixed extensions
/// selects its own back-end.
pub proof fn lemma_supported_extensions()
    ensures
        format_of_extension("json"@) == Some(Format::Json),
        format_of_extension("toml"@) == Some(Format::Toml),
        format_of_extension("xml"@) == Some(Format::Xml),
{
    broadcast use vstd::string::group_string_axioms;

    reveal_strlit("json");
    reveal_strlit("toml");
    reveal_strlit("xml");
    assert("json"@[0] == 'j' && "toml"@[0] == 't' && "xml"@[0] == 'x');
}

/// `yml` and `yaml` are aliases: both dispatch to the YAML back-end.
pub proof fn lemma_yaml_alias()
    ensures
        format_of_extension("yml"@) == Some(Format::Yaml),
        format_of_extension("yaml"@) == Some(Format::Yaml),
{
    broadcast use vstd::string::group_string_axioms;

    reveal_strlit("json");
    reveal_strlit("toml");
    reveal_strlit("xml");
    reveal_strlit("yml");
    reveal_strlit("yaml");
    assert("yml"@[0] == 'y' && "xml"@[0] == 'x' && "yaml"@[0] == 'y' && "json"@[0] == 'j'
        && "toml"@[0] == 't');
    assert("yaml"@[1] == 'a' && "json"@[1] == 's' && "toml"@[1] == 'o');
}

/// A format without a pretty rendering degrades gracefully: requesting
/// pretty output plans exactly the same write as not requesting it.
pub proof fn lemma_pretty_fallback(f: Format, pretty: bool)
    requires
        !spec_supports_pretty(f),
    ensures
        plan_for(f, pretty) == plan_for(f, false),
{
}

} // verus!
