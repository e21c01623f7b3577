//! Choosing the grammar for a request: the ordered fallback chain.
//!
//! Lookup by whole base file name comes first, because some grammars
//! register what looks like an extension but is in fact a complete file name
//! (such as `Dockerfile`); a plain extension lookup would shadow them.  The
//! true extension comes second, the first-line patterns third, and the
//! plain-text grammar last.  The legacy chain never falls back to plain
//! text: it reports failure instead.

use crate::engine::default_ext_index;
use crate::engine::default_first_line_syntax;
use crate::engine::ext_index;
use crate::engine::find_by_extension;
use crate::engine::find_by_first_line;
use crate::engine::find_plain_text;
use crate::engine::first_line_syntax;
use crate::engine::in_set;
use crate::engine::plain_present;
use crate::engine::syntax_name;
use crate::pathsplit::extension_of;
use crate::pathsplit::extension_str;
use crate::pathsplit::file_name_of;
use crate::pathsplit::file_name_str;
use crate::pathsplit::is_parent_component;
use crate::pathsplit::lemma_suffix_no_occurrence;
use crate::pathsplit::norm_path_end;
use syntect::parsing::SyntaxReference;
use syntect::parsing::SyntaxSet;
use vstd::prelude::*;

verus! {

/// The grammar name and plain-text flag that the modern chain settles on.
pub open spec fn spec_resolve(ss: SyntaxSet, filepath: Seq<char>, code: Seq<char>) -> (
    Seq<char>,
    bool,
) {
    let fname = file_name_of(filepath);
    let ext = extension_of(fname);
    if ext_index(ss).contains_key(fname) {
        (ext_index(ss)[fname], false)
    } else if ext_index(ss).contains_key(ext) {
        (ext_index(ss)[ext], false)
    } else if first_line_syntax(ss, code) is Some {
        (first_line_syntax(ss, code)->0, false)
    } else {
        ("Plain Text"@, true)
    }
}

/// Resolves a grammar for the modern request shape; always succeeds, the
/// plain-text grammar being the last resort.
pub fn resolve_syntax<'a>(ss: &'a SyntaxSet, filepath: &str, code: &str) -> (r: (
    &'a SyntaxReference,
    bool,
))
    requires
        plain_present(*ss),
    ensures
        syntax_name(*r.0) == spec_resolve(*ss, filepath@, code@).0,
        r.1 == spec_resolve(*ss, filepath@, code@).1,
        in_set(*r.0, *ss),
{
    let fname = file_name_str(filepath);
    match find_by_extension(ss, fname) {
        Some(sr) => (sr, false),
        None => {
            let ext = extension_str(fname);
            match find_by_extension(ss, ext) {
                Some(sr) => (sr, false),
                None => match find_by_first_line(ss, code) {
                    Some(sr) => (sr, false),
                    None => (find_plain_text(ss), true),
                },
            }
        },
    }
}

/// The grammar name, if any, that the legacy chain settles on.  A nonempty
/// `filepath` is resolved as in the modern chain; otherwise the separate
/// legacy `extension` field is tried.  There is no plain-text fallback.
pub open spec fn spec_resolve_legacy(
    ss: SyntaxSet,
    extension: Seq<char>,
    filepath: Seq<char>,
    code: Seq<char>,
) -> Option<Seq<char>> {
    if filepath.len() > 0 {
        let fname = file_name_of(filepath);
        let ext = extension_of(fname);
        if ext_index(ss).contains_key(fname) {
            Some(ext_index(ss)[fname])
        } else if ext_index(ss).contains_key(ext) {
            Some(ext_index(ss)[ext])
        } else {
            first_line_syntax(ss, code)
        }
    } else {
        if ext_index(ss).contains_key(extension) {
            Some(ext_index(ss)[extension])
        } else {
            first_line_syntax(ss, code)
        }
    }
}

/// Resolves a grammar for the legacy request shape; `None` reports the
/// legacy resolution failure.
pub fn resolve_syntax_legacy<'a>(
    ss: &'a SyntaxSet,
    extension: &str,
    filepath: &str,
    code: &str,
) -> (r: Option<&'a SyntaxReference>)
    ensures
        match r {
            Some(sr) => spec_resolve_legacy(*ss, extension@, filepath@, code@) == Some(
                syntax_name(*sr),
            ) && in_set(*sr, *ss),
            None => spec_resolve_legacy(*ss, extension@, filepath@, code@) is None,
        },
{
    if !filepath.is_empty() {
        let fname = file_name_str(filepath);
        match find_by_extension(ss, fname) {
            Some(sr) => Some(sr),
            None => {
                let ext = extension_str(fname);
                match find_by_extension(ss, ext) {
                    Some(sr) => Some(sr),
                    None => find_by_first_line(ss, code),
                }
            },
        }
    } else {
        match find_by_extension(ss, extension) {
            Some(sr) => Some(sr),
            None => find_by_first_line(ss, code),
        }
    }
}

/// The legacy chain against the built-in grammar registry.
pub open spec fn spec_resolve_legacy_default(
    extension: Seq<char>,
    filepath: Seq<char>,
    code: Seq<char>,
) -> Option<Seq<char>> {
    if filepath.len() > 0 {
        let fname = file_name_of(filepath);
        let ext = extension_of(fname);
        if default_ext_index(0).contains_key(fname) {
            Some(default_ext_index(0)[fname])
        } else if default_ext_index(0).contains_key(ext) {
            Some(default_ext_index(0)[ext])
        } else {
            default_first_line_syntax(code)
        }
    } else {
        if default_ext_index(0).contains_key(extension) {
            Some(default_ext_index(0)[extension])
        } else {
            default_first_line_syntax(code)
        }
    }
}

/// Against a set whose lookups are those of the built-in registry, the
/// legacy chain settles on the built-in result.
pub proof fn lemma_resolve_legacy_default(
    ss: SyntaxSet,
    extension: Seq<char>,
    filepath: Seq<char>,
    code: Seq<char>,
)
    requires
        ext_index(ss) == default_ext_index(0),
        first_line_syntax(ss, code) == default_first_line_syntax(code),
    ensures
        spec_resolve_legacy(ss, extension, filepath, code) == spec_resolve_legacy_default(
            extension,
            filepath,
            code,
        ),
{
}

/// Fallback ordering: a file whose name, with no separator in it and not
/// ending in a dot, is itself a registered lookup key (such as
/// `Dockerfile`) resolves to that grammar, never to an extension match or
/// the plain-text fallback.
pub proof fn lemma_whole_file_name_wins(ss: SyntaxSet, filepath: Seq<char>, code: Seq<char>)
    requires
        filepath.len() > 0,
        forall|j: int| 0 <= j < filepath.len() ==> filepath[j] != '/',
        filepath.last() != '.',
        ext_index(ss).contains_key(filepath),
    ensures
        spec_resolve(ss, filepath, code).0 == ext_index(ss)[filepath],
        spec_resolve(ss, filepath, code).1 == false,
{
    assert(filepath.last() != '/');
    assert(norm_path_end(filepath) == filepath);
    lemma_suffix_no_occurrence(filepath, '/');
    assert(!is_parent_component(filepath));
    assert(file_name_of(filepath) == filepath);
}

} // verus!
