//! Syntax-highlighting pipeline: decides which grammar applies to a piece of
//! source code and renders it as an HTML table with one row per line.
//!
//! A request is first screened by the binary detector; binary content is
//! rejected outright.  A grammar is then resolved by base file name, by
//! extension, or by first-line pattern, with the plain-text grammar as the
//! last resort, and every line is rendered as one table row.  Two request
//! shapes are served: the current one, which never fails on unresolved
//! grammars, and the legacy one, which reports unknown themes and
//! unresolvable extensions as classified errors instead.

pub mod binary;
pub mod engine;
pub mod htmlgen;
pub mod lines;
pub mod num;
pub mod pathsplit;
pub mod render;
pub mod resolve;

use binary::is_binary;
use binary::spec_is_binary;
use engine::default_theme_names;
use engine::load_default_syntaxes;
use engine::load_default_themes;
use engine::theme_by_name;
use engine::theme_names;
use lines::line_segments;
use render::highlight_file;
use render::rows_match;
use render::table_html;
use resolve::lemma_resolve_legacy_default;
use resolve::resolve_syntax;
use resolve::resolve_syntax_legacy;
use resolve::spec_resolve_legacy;
use resolve::spec_resolve_legacy_default;
use syntect::highlighting::ThemeSet;
use syntect::parsing::SyntaxSet;
use vstd::pervasive::unreached;
use vstd::prelude::*;
use vstd::string::StringSliceAdditionalSpecFns;

verus! {

/// The error of the current request shape.
#[derive(Debug, PartialEq, Eq, Structural)]
pub enum HighlightError {
    /// The content was classified as binary.
    Binary,
}

impl HighlightError {
    /// The human-readable message this error is surfaced as.
    pub fn message(&self) -> (m: &'static str)
        ensures
            m@ == "cannot render binary file"@,
    {
        match self {
            HighlightError::Binary => "cannot render binary file",
        }
    }
}

/// The classified errors of the legacy request shape.
#[derive(Debug, PartialEq, Eq, Structural)]
pub enum LegacyError {
    /// The content was classified as binary.
    Binary,
    /// No theme is registered under the requested name.
    InvalidTheme,
    /// No grammar could be resolved, and the legacy shape permits no
    /// plain-text fallback.
    InvalidExtension,
}

impl LegacyError {
    /// The classification code this error is surfaced under in the legacy
    /// shape.
    pub fn code(&self) -> (c: &'static str)
        ensures
            (*self matches LegacyError::Binary) ==> c@ == "Binary"@,
            (*self matches LegacyError::InvalidTheme) ==> c@ == "invalid_theme"@,
            (*self matches LegacyError::InvalidExtension) ==> c@ == "invalid_extension"@,
    {
        match self {
            LegacyError::Binary => "Binary",
            LegacyError::InvalidTheme => "invalid_theme",
            LegacyError::InvalidExtension => "invalid_extension",
        }
    }
}

/// A successful legacy response: the rendered table and whether the
/// plain-text grammar was used (never, under the legacy chain).
pub struct LegacyOutput {
    pub data: String,
    pub plaintext: bool,
}

/// Renders `code` as a highlighted HTML table, resolving a grammar from
/// `filepath` and the code itself.  Binary content is refused; anything else
/// succeeds, falling back to plain-text rendering when no grammar matches.
pub fn highlight(code: &str, filepath: &str, is_light_theme: bool, highlight_long_lines: bool) -> (r:
    Result<String, HighlightError>)
    ensures
        r is Err <==> spec_is_binary(code.spec_bytes()),
        r matches Err(e) ==> e == HighlightError::Binary,
        r matches Ok(html) ==> exists|rows: Seq<Seq<char>>|
            #[trigger] rows_match(rows, line_segments(code@), highlight_long_lines) && html@
                == table_html(rows),
{
    if is_binary(code.as_bytes()) {
        return Err(HighlightError::Binary);
    }
    let ts = load_default_themes();
    let theme_key = if is_light_theme {
        "Solarized (light)"
    } else {
        "Solarized (dark)"
    };
    let theme = match theme_by_name(&ts, theme_key) {
        Some(t) => t,
        None => unreached(),
    };
    let ss = load_default_syntaxes();
    let (syntax, _is_plaintext) = resolve_syntax(&ss, filepath, code);
    Ok(highlight_file(code, &ss, syntax, theme, highlight_long_lines))
}

/// Serves the legacy request shape against explicit registries.  Binary
/// content is refused first; an unregistered theme name and an unresolvable
/// grammar are classified errors; otherwise the table is rendered, long
/// lines always highlighted, and the plain-text flag is false.
pub fn highlight_legacy_with(
    ss: &SyntaxSet,
    ts: &ThemeSet,
    extension: &str,
    filepath: &str,
    theme: &str,
    code: &str,
) -> (r: Result<LegacyOutput, LegacyError>)
    ensures
        r matches Err(LegacyError::Binary) <==> spec_is_binary(code.spec_bytes()),
        !spec_is_binary(code.spec_bytes()) ==> ((r matches Err(LegacyError::InvalidTheme))
            <==> !theme_names(*ts).contains(theme@)),
        !spec_is_binary(code.spec_bytes()) && theme_names(*ts).contains(theme@) ==> ((
        r matches Err(LegacyError::InvalidExtension)) <==> spec_resolve_legacy(
            *ss,
            extension@,
            filepath@,
            code@,
        ) is None),
        r matches Ok(out) ==> out.plaintext == false && exists|rows: Seq<Seq<char>>|
            #[trigger] rows_match(rows, line_segments(code@), true) && out.data@ == table_html(
                rows,
            ),
{
    if is_binary(code.as_bytes()) {
        return Err(LegacyError::Binary);
    }
    let theme_ref = match theme_by_name(ts, theme) {
        Some(t) => t,
        None => {
            return Err(LegacyError::InvalidTheme);
        },
    };
    let syntax = match resolve_syntax_legacy(ss, extension, filepath, code) {
        Some(sr) => sr,
        None => {
            return Err(LegacyError::InvalidExtension);
        },
    };
    let data = highlight_file(code, ss, syntax, theme_ref, true);
    Ok(LegacyOutput { data, plaintext: false })
}

/// Serves the legacy request shape against the built-in registries: the
/// Binary error exactly on binary content, the InvalidTheme error exactly
/// when the built-in theme registry lacks the requested name, the
/// InvalidExtension error exactly when the built-in grammar registry
/// resolves nothing, and the rendered table otherwise.
pub fn highlight_legacy(extension: &str, filepath: &str, theme: &str, code: &str) -> (r: Result<
    LegacyOutput,
    LegacyError,
>)
    ensures
        r matches Err(LegacyError::Binary) <==> spec_is_binary(code.spec_bytes()),
        !spec_is_binary(code.spec_bytes()) ==> ((r matches Err(LegacyError::InvalidTheme))
            <==> !default_theme_names(0).contains(theme@)),
        !spec_is_binary(code.spec_bytes()) && default_theme_names(0).contains(theme@) ==> ((
        r matches Err(LegacyError::InvalidExtension)) <==> spec_resolve_legacy_default(
            extension@,
            filepath@,
            code@,
        ) is None),
        r matches Ok(out) ==> out.plaintext == false && exists|rows: Seq<Seq<char>>|
            #[trigger] rows_match(rows, line_segments(code@), true) && out.data@ == table_html(
                rows,
            ),
{
    let ss = load_default_syntaxes();
    let ts = load_default_themes();
    proof {
        lemma_resolve_legacy_default(ss, extension@, filepath@, code@);
    }
    highlight_legacy_with(&ss, &ts, extension, filepath, theme, code)
}

} // verus!
