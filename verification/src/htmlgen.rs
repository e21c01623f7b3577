//! The fixed HTML framing: table start and end, and the per-line table row
//! with its line-number cell and code cell.

use crate::num::dec_str;
use crate::num::usize_to_dec;
use vstd::prelude::*;
use vstd::string::StringExecFns;

verus! {

/// The opening framing of the whole table.
pub open spec fn table_open_html() -> Seq<char> {
    "<table><tbody>"@
}

/// The closing framing of the whole table.
pub open spec fn table_close_html() -> Seq<char> {
    "</tbody></table>"@
}

/// The opening framing of the row for 1-based line `n`.
pub open spec fn row_open_html(n: nat) -> Seq<char> {
    "<tr><td class=\"line\" data-line=\""@ + dec_str(n)
        + "\"></td><td class=\"code\"><div>"@
}

/// The closing framing of a row.
pub open spec fn row_close_html() -> Seq<char> {
    "</div></td></tr>"@
}

/// A complete row: framing around the rendered content of one line.
pub open spec fn row_html(n: nat, content: Seq<char>) -> Seq<char> {
    row_open_html(n) + content + row_close_html()
}

/// Appends the opening framing of the table.
pub fn start_highlighted_table(s: &mut String)
    ensures
        final(s)@ == old(s)@ + table_open_html(),
{
    s.append("<table><tbody>");
}

/// Appends the closing framing of the table.
pub fn end_highlighted_table(s: &mut String)
    ensures
        final(s)@ == old(s)@ + table_close_html(),
{
    s.append("</tbody></table>");
}

/// Appends the opening framing of the row for line `row_num`.
pub fn start_table_row(s: &mut String, row_num: usize)
    ensures
        final(s)@ == old(s)@ + row_open_html(row_num as nat),
{
    s.append("<tr><td class=\"line\" data-line=\"");
    let num = usize_to_dec(row_num);
    s.append(num.as_str());
    s.append("\"></td><td class=\"code\"><div>");
    proof {
        assert(s@ =~= old(s)@ + row_open_html(row_num as nat));
    }
}

/// Appends the closing framing of a row.
pub fn end_table_row(s: &mut String)
    ensures
        final(s)@ == old(s)@ + row_close_html(),
{
    s.append("</div></td></tr>");
}

} // verus!
