//! The lexical engine: grammar and theme registries and the per-line
//! tokenizer, supplied by `syntect` and taken on trust.
//!
//! The registries are modelled as collections of named grammars and themes.
//! `ext_index` maps each registered extension key to the name of the grammar
//! that the registry returns for it; `first_line_syntax` gives the grammar,
//! if any, whose declared first-line pattern matches the code;
//! `syntax_name` is the name a grammar carries; `theme_names` are the keys of
//! the theme registry; `in_set` says that a grammar belongs to a set, which
//! the tokenizer needs because a grammar's parse state holds indexes into
//! its own set.  The built-in registries are compiled-in constants of the
//! engine, so their contents carry names of their own (`default_ext_index`,
//! `default_first_line_syntax`, `default_theme_names`).  What the tokenizer
//! produces for a line is left entirely open: its output depends on the
//! highlighter's evolving internal state, and no contract here constrains
//! it.

use syntect::easy::HighlightLines;
use syntect::highlighting::Style;
use syntect::highlighting::Theme;
use syntect::highlighting::ThemeSet;
use syntect::html::IncludeBackground;
use syntect::html::append_highlighted_html_for_styled_line;
use syntect::parsing::SyntaxReference;
use syntect::parsing::SyntaxSet;
use vstd::prelude::*;

verus! {

#[verifier::external_type_specification]
#[verifier::external_body]
pub struct ExSyntaxSet(SyntaxSet);

#[verifier::external_type_specification]
#[verifier::external_body]
pub struct ExSyntaxReference(SyntaxReference);

#[verifier::external_type_specification]
#[verifier::external_body]
pub struct ExTheme(Theme);

#[verifier::external_type_specification]
#[verifier::external_body]
pub struct ExThemeSet(ThemeSet);

#[verifier::external_type_specification]
#[verifier::external_body]
pub struct ExStyle(Style);

#[verifier::external_type_specification]
#[verifier::external_body]
pub struct ExHighlightLines<'a>(HighlightLines<'a>);

/// For each extension key registered in `ss`, the name of the grammar that a
/// lookup by that key returns.
pub uninterp spec fn ext_index(ss: SyntaxSet) -> Map<Seq<char>, Seq<char>>;

/// The name of the grammar in `ss`, if any, whose declared first-line
/// pattern matches `code`.
pub uninterp spec fn first_line_syntax(ss: SyntaxSet, code: Seq<char>) -> Option<Seq<char>>;

/// Whether `ss` holds the built-in plain-text grammar.
pub uninterp spec fn plain_present(ss: SyntaxSet) -> bool;

/// The name a grammar carries.
pub uninterp spec fn syntax_name(sr: SyntaxReference) -> Seq<char>;

/// Whether the grammar `sr` is one of the set `ss`'s own.  A grammar's
/// parse state holds indexes into the set it was loaded with, so only a
/// grammar of the set may be tokenized against it.
pub uninterp spec fn in_set(sr: SyntaxReference, ss: SyntaxSet) -> bool;

/// The keys of the theme registry `ts`.
pub uninterp spec fn theme_names(ts: ThemeSet) -> Set<Seq<char>>;

/// The extension index of the built-in grammar registry, a compiled-in
/// constant of the engine; the parameter is unused.
pub uninterp spec fn default_ext_index(k: int) -> Map<Seq<char>, Seq<char>>;

/// The first-line resolution of the built-in grammar registry for `code`.
pub uninterp spec fn default_first_line_syntax(code: Seq<char>) -> Option<Seq<char>>;

/// The keys of the built-in theme registry, a compiled-in constant of the
/// engine; the parameter is unused.
pub uninterp spec fn default_theme_names(k: int) -> Set<Seq<char>>;

/// Relies on syntect::parsing::SyntaxSet::load_defaults_newlines: the
/// grammar registry compiled into the binary, always the same one, which
/// holds the "Plain Text" grammar.
#[verifier::external_body]
pub fn load_default_syntaxes() -> (ss: SyntaxSet)
    ensures
        plain_present(ss),
        ext_index(ss) == default_ext_index(0),
        forall|code: Seq<char>| #[trigger] first_line_syntax(ss, code)
            == default_first_line_syntax(code),
{
    SyntaxSet::load_defaults_newlines()
}

/// Relies on syntect::highlighting::ThemeSet::load_defaults: the theme
/// registry compiled into the binary, always the same one, whose documented
/// keys include "Solarized (light)" and "Solarized (dark)".
#[verifier::external_body]
pub fn load_default_themes() -> (ts: ThemeSet)
    ensures
        theme_names(ts) == default_theme_names(0),
        theme_names(ts).contains("Solarized (light)"@),
        theme_names(ts).contains("Solarized (dark)"@),
{
    ThemeSet::load_defaults()
}

/// Relies on syntect::parsing::SyntaxSet::find_syntax_by_extension: the
/// grammar of the set, if any, that lists `key` among its file extensions.
#[verifier::external_body]
pub fn find_by_extension<'a>(ss: &'a SyntaxSet, key: &str) -> (r: Option<&'a SyntaxReference>)
    ensures
        match r {
            Some(sr) => ext_index(*ss).contains_key(key@) && syntax_name(*sr) == ext_index(
                *ss,
            )[key@] && in_set(*sr, *ss),
            None => !ext_index(*ss).contains_key(key@),
        },
{
    ss.find_syntax_by_extension(key)
}

/// Relies on syntect::parsing::SyntaxSet::find_syntax_by_first_line, which
/// matches the grammars' first-line patterns against `code`.
#[verifier::external_body]
pub fn find_by_first_line<'a>(ss: &'a SyntaxSet, code: &str) -> (r: Option<&'a SyntaxReference>)
    ensures
        match r {
            Some(sr) => first_line_syntax(*ss, code@) == Some(syntax_name(*sr)) && in_set(
                *sr,
                *ss,
            ),
            None => first_line_syntax(*ss, code@) is None,
        },
{
    ss.find_syntax_by_first_line(code)
}

/// Relies on syntect::parsing::SyntaxSet::find_syntax_plain_text, which
/// returns the set's grammar named "Plain Text" and panics when the set
/// lacks one.
#[verifier::external_body]
pub fn find_plain_text<'a>(ss: &'a SyntaxSet) -> (r: &'a SyntaxReference)
    requires
        plain_present(*ss),
    ensures
        syntax_name(*r) == "Plain Text"@,
        in_set(*r, *ss),
{
    ss.find_syntax_plain_text()
}

/// Relies on std's BTreeMap::get over the public `themes` field of a
/// ThemeSet: a theme is returned exactly when one is registered under
/// `name`.
#[verifier::external_body]
pub fn theme_by_name<'a>(ts: &'a ThemeSet, name: &str) -> (r: Option<&'a Theme>)
    ensures
        r is Some <==> theme_names(*ts).contains(name@),
{
    ts.themes.get(name)
}

/// A per-call tokenizer: a highlighter paired with the grammar set its
/// grammar came from, so that the two can never be mismatched.
pub struct LineTokenizer<'a> {
    hl: HighlightLines<'a>,
    ss: &'a SyntaxSet,
}

impl<'a> LineTokenizer<'a> {
    /// Relies on syntect::easy::HighlightLines::new: a fresh per-call
    /// highlighter for one grammar and one theme.  The grammar must come
    /// from `ss`, which is stored beside the highlighter: the grammar's
    /// parse state holds raw indexes into its own set, and `tokenize`
    /// resolves them only there.
    #[verifier::external_body]
    pub fn new(ss: &'a SyntaxSet, syntax: &SyntaxReference, theme: &'a Theme) -> (r:
        LineTokenizer<'a>)
        requires
            in_set(*syntax, *ss),
    {
        LineTokenizer { hl: HighlightLines::new(syntax, theme), ss }
    }

    /// Relies on syntect::easy::HighlightLines::highlight: tokenizes one
    /// line against the grammar and the stored set, advancing the
    /// highlighter's internal state.  Nothing is assumed of the styled
    /// spans it returns.
    #[verifier::external_body]
    pub fn tokenize<'b>(&mut self, line: &'b str) -> (r: Vec<(Style, &'b str)>) {
        self.hl.highlight(line, self.ss)
    }
}

/// Relies on syntect::html::append_highlighted_html_for_styled_line with
/// IncludeBackground::No: inline-styled HTML for one tokenized line, with
/// background styling suppressed.  Nothing is assumed of the result.
#[verifier::external_body]
pub fn styled_line_html(regions: &Vec<(Style, &str)>) -> (r: String) {
    let mut s = String::new();
    append_highlighted_html_for_styled_line(&regions[..], IncludeBackground::No, &mut s);
    s
}

} // verus!
