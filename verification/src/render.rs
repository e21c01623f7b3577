//! Rendering lines as table rows, assembling the table, and filtering rows
//! into line ranges.

use crate::engine::LineTokenizer;
use crate::engine::in_set;
use crate::engine::styled_line_html;
use crate::htmlgen::end_highlighted_table;
use crate::htmlgen::end_table_row;
use crate::htmlgen::row_html;
use crate::htmlgen::start_highlighted_table;
use crate::htmlgen::start_table_row;
use crate::htmlgen::table_close_html;
use crate::htmlgen::table_open_html;
use crate::lines::line_segments;
use crate::lines::split_lines;
use syntect::highlighting::Theme;
use syntect::parsing::SyntaxReference;
use syntect::parsing::SyntaxSet;
use vstd::prelude::*;
use vstd::string::StrSliceExecFns;
use vstd::string::StringExecFns;

verus! {

/// Lines longer than this are emitted verbatim when the long-line policy
/// disables their highlighting.
pub const LONG_LINE_LIMIT: usize = 2000;

/// The views of a sequence of owned strings.
pub open spec fn seq_views(v: Seq<String>) -> Seq<Seq<char>> {
    Seq::new(v.len(), |k: int| v[k]@)
}

/// What one rendered row must look like for segment `seg` at 1-based line
/// `n`: the framing is fixed; the content is the raw segment when the
/// long-line guard applies, and otherwise whatever the lexical engine
/// produced.
pub open spec fn is_row_for(row: Seq<char>, n: nat, seg: Seq<char>, highlight_long_lines: bool) -> bool {
    if !highlight_long_lines && seg.len() > LONG_LINE_LIMIT {
        row == row_html(n, seg)
    } else {
        exists|content: Seq<char>| row == row_html(n, content)
    }
}

/// What the whole row sequence must look like for the given segments: one
/// row per segment, in input order.
pub open spec fn rows_match(rows: Seq<Seq<char>>, segs: Seq<Seq<char>>, highlight_long_lines: bool) -> bool {
    &&& rows.len() == segs.len()
    &&& forall|i: int|
        0 <= i < rows.len() ==> #[trigger] is_row_for(
            rows[i],
            (i + 1) as nat,
            segs[i],
            highlight_long_lines,
        )
}

/// The concatenation of all rows.
pub open spec fn concat_segs(rows: Seq<Seq<char>>) -> Seq<char>
    decreases rows.len(),
{
    if rows.len() == 0 {
        Seq::empty()
    } else {
        concat_segs(rows.drop_last()) + rows.last()
    }
}

/// The finished table around a sequence of rows.
pub open spec fn table_html(rows: Seq<Seq<char>>) -> Seq<char> {
    table_open_html() + concat_segs(rows) + table_close_html()
}

/// Renders one row per line of `code`, 1-indexed, each framed as a table
/// row; a line over the threshold is emitted verbatim when
/// `highlight_long_lines` is false, and tokenized by the engine otherwise.
pub fn highlighted_rows(
    code: &str,
    ss: &SyntaxSet,
    syntax: &SyntaxReference,
    theme: &Theme,
    highlight_long_lines: bool,
) -> (rows: Vec<String>)
    requires
        in_set(*syntax, *ss),
    ensures
        rows_match(seq_views(rows@), line_segments(code@), highlight_long_lines),
{
    let lines = split_lines(code);
    let mut hl = LineTokenizer::new(ss, syntax, theme);
    let mut rows: Vec<String> = Vec::new();
    let mut i: usize = 0;
    while i < lines.len()
        invariant
            i <= lines.len(),
            rows@.len() == i,
            lines@.len() == line_segments(code@).len(),
            forall|k: int| 0 <= k < lines@.len() ==> (#[trigger] lines@[k])@ == line_segments(
                code@,
            )[k],
            forall|k: int|
                0 <= k < i ==> #[trigger] is_row_for(
                    rows@[k]@,
                    (k + 1) as nat,
                    line_segments(code@)[k],
                    highlight_long_lines,
                ),
        decreases lines.len() - i,
    {
        let line: &str = lines[i];
        let mut row = String::new();
        start_table_row(&mut row, i + 1);
        let line_chars = line.unicode_len();
        if !highlight_long_lines && line_chars > LONG_LINE_LIMIT {
            row.append(line);
        } else {
            let regions = hl.tokenize(line);
            let html = styled_line_html(&regions);
            row.append(html.as_str());
        }
        end_table_row(&mut row);
        proof {
            let n = (i + 1) as nat;
            let seg = line_segments(code@)[i as int];
            if !highlight_long_lines && seg.len() > LONG_LINE_LIMIT {
                assert(row@ == row_html(n, seg));
            } else {
                let content = row@.subrange(
                    crate::htmlgen::row_open_html(n).len() as int,
                    row@.len() - crate::htmlgen::row_close_html().len(),
                );
                assert(row@ =~= row_html(n, content));
                assert(is_row_for(row@, n, seg, highlight_long_lines));
            }
        }
        rows.push(row);
        i = i + 1;
    }
    rows
}

/// Renders `code` as a complete highlighted table.
pub fn highlight_file(
    code: &str,
    ss: &SyntaxSet,
    syntax: &SyntaxReference,
    theme: &Theme,
    highlight_long_lines: bool,
) -> (out: String)
    requires
        in_set(*syntax, *ss),
    ensures
        exists|rows: Seq<Seq<char>>|
            #[trigger] rows_match(rows, line_segments(code@), highlight_long_lines) && out@
                == table_html(rows),
{
    let rows = highlighted_rows(code, ss, syntax, theme, highlight_long_lines);
    let mut out = String::new();
    start_highlighted_table(&mut out);
    let mut i: usize = 0;
    while i < rows.len()
        invariant
            i <= rows.len(),
            out@ == table_open_html() + concat_segs(seq_views(rows@).subrange(0, i as int)),
            rows_match(seq_views(rows@), line_segments(code@), highlight_long_lines),
        decreases rows.len() - i,
    {
        let r: &String = &rows[i];
        out.append(r.as_str());
        proof {
            let vs = seq_views(rows@);
            assert(vs.subrange(0, i as int + 1).drop_last() =~= vs.subrange(0, i as int));
            assert(vs.subrange(0, i as int + 1).last() == vs[i as int]);
        }
        i = i + 1;
    }
    proof {
        assert(seq_views(rows@).subrange(0, rows@.len() as int) =~= seq_views(rows@));
    }
    end_highlighted_table(&mut out);
    proof {
        assert(out@ == table_html(seq_views(rows@)));
    }
    out
}

/// Rendering is a function of the input alone wherever the lexical engine
/// has no say: with the long-line guard active and every segment over the
/// threshold, any two row sequences that satisfy the render contract for the
/// same segments are equal.  (Whether two identical calls also agree on the
/// engine-rendered rows is up to the engine, which this crate leaves
/// unspecified.)
pub proof fn lemma_guarded_rows_deterministic(
    rows1: Seq<Seq<char>>,
    rows2: Seq<Seq<char>>,
    segs: Seq<Seq<char>>,
)
    requires
        rows_match(rows1, segs, false),
        rows_match(rows2, segs, false),
        forall|i: int| 0 <= i < segs.len() ==> (#[trigger] segs[i]).len() > LONG_LINE_LIMIT,
    ensures
        rows1 == rows2,
{
    assert forall|i: int| 0 <= i < rows1.len() implies rows1[i] == rows2[i] by {
        assert(is_row_for(rows1[i], (i + 1) as nat, segs[i], false));
        assert(is_row_for(rows2[i], (i + 1) as nat, segs[i], false));
    }
    assert(rows1 =~= rows2);
}

/// A contiguous, 1-based, inclusive range of line numbers.
pub struct LineRange {
    pub start: usize,
    pub end: usize,
}

impl LineRange {
    /// A well-formed range: nonempty and 1-based.
    pub open spec fn wf(self) -> bool {
        1 <= self.start <= self.end
    }

    /// Whether the 1-based line number `line_num` lies in this range.
    pub fn contains(&self, line_num: usize) -> (r: bool)
        ensures
            r == (self.start <= line_num && line_num <= self.end),
    {
        line_num >= self.start && line_num <= self.end
    }
}

/// The rows, in order, whose 1-based line number lies in `rg`.
pub open spec fn rows_in_range(rows: Seq<Seq<char>>, rg: LineRange) -> Seq<Seq<char>>
    decreases rows.len(),
{
    if rows.len() == 0 {
        Seq::empty()
    } else {
        let pre = rows_in_range(rows.drop_last(), rg);
        if rg.start <= rows.len() && rows.len() <= rg.end {
            pre.push(rows.last())
        } else {
            pre
        }
    }
}

/// Renders `code` once and partitions the rows into the given ranges: one
/// output group per range, in range order; a row joins every range that
/// contains its line number.
pub fn highlight_ranges(
    code: &str,
    ss: &SyntaxSet,
    syntax: &SyntaxReference,
    theme: &Theme,
    highlight_long_lines: bool,
    ranges: &[LineRange],
) -> (out: Vec<Vec<String>>)
    requires
        in_set(*syntax, *ss),
        forall|j: int| 0 <= j < ranges@.len() ==> (#[trigger] ranges@[j]).wf(),
    ensures
        out@.len() == ranges@.len(),
        exists|rows: Seq<Seq<char>>|
            #[trigger] rows_match(rows, line_segments(code@), highlight_long_lines) && forall|
                j: int,
            |
                0 <= j < out@.len() ==> seq_views((#[trigger] out@[j])@) == rows_in_range(
                    rows,
                    ranges@[j],
                ),
{
    let rows = highlighted_rows(code, ss, syntax, theme, highlight_long_lines);
    let mut out: Vec<Vec<String>> = Vec::new();
    let mut j: usize = 0;
    while j < ranges.len()
        invariant
            j <= ranges@.len(),
            out@.len() == j,
            rows_match(seq_views(rows@), line_segments(code@), highlight_long_lines),
            forall|k: int|
                0 <= k < j ==> seq_views((#[trigger] out@[k])@) == rows_in_range(
                    seq_views(rows@),
                    ranges@[k],
                ),
        decreases ranges.len() - j,
    {
        let rg = &ranges[j];
        let mut group: Vec<String> = Vec::new();
        let mut i: usize = 0;
        while i < rows.len()
            invariant
                i <= rows.len(),
                seq_views(group@) =~= rows_in_range(
                    seq_views(rows@).subrange(0, i as int),
                    *rg,
                ),
            decreases rows.len() - i,
        {
            let ghost pre = seq_views(rows@).subrange(0, i as int);
            let ghost pre1 = seq_views(rows@).subrange(0, i as int + 1);
            proof {
                assert(pre1.drop_last() =~= pre);
                assert(pre1.last() == seq_views(rows@)[i as int]);
            }
            if rg.contains(i + 1) {
                let row: &String = &rows[i];
                let copy = row.clone();
                group.push(copy);
            }
            proof {
                assert(seq_views(group@) =~= rows_in_range(pre1, *rg));
            }
            i = i + 1;
        }
        proof {
            assert(seq_views(rows@).subrange(0, rows@.len() as int) =~= seq_views(rows@));
        }
        out.push(group);
        j = j + 1;
    }
    out
}

} // verus!
