//! The pieces of markup that the converter writes, built as strings.

use crate::parser::markdown::{Alignment, HeadingLevel};
use crate::text::{chars_of, opt_view, repeat, trim_end_str};
use crate::transpiler::escape::{escape_typst_string, escape_typst_text};
use crate::transpiler::model::{
    alignment_list, alignment_name, code_block_markup, column_list, entry_markup, fence,
    heading_marker, image_markup, item_indent, link_markup, longest_backtick_run, row_markup,
    table_open, trailing_backticks,
};
use vstd::prelude::*;
use vstd::string::StringExecFns;

verus! {

/// The marker that opens a heading of the given level.
pub fn heading_marker_of(level: HeadingLevel) -> (r: &'static str)
    ensures
        r@ == heading_marker(level),
{
    match level {
        HeadingLevel::H1 => "= ",
        HeadingLevel::H2 => "== ",
        HeadingLevel::H3 => "=== ",
        HeadingLevel::H4 => "==== ",
        HeadingLevel::H5 => "===== ",
        HeadingLevel::H6 => "====== ",
    }
}

/// The indentation of an item in a list nested `depth` deep.
pub fn indentation(depth: usize) -> (r: String)
    ensures
        r@ == item_indent(depth as nat),
{
    let mut out = String::new();
    if depth <= 1 {
        return out;
    }
    let mut level: usize = 1;
    while level < depth
        invariant
            1 <= level <= depth,
            out@ == repeat("  "@, (level - 1) as nat),
        decreases depth - level,
    {
        out.append("  ");
        level = level + 1;
    }
    out
}

/// The name under which Typst knows a column alignment.
pub fn alignment_name_of(alignment: Alignment) -> (r: &'static str)
    ensures
        r@ == alignment_name(alignment),
{
    match alignment {
        Alignment::Left => "left",
        Alignment::Center => "center",
        Alignment::Right => "right",
        Alignment::Unspecified => "left",
    }
}

/// The opening of a table with one column for each alignment.
pub fn table_open_markup(alignments: &Vec<Alignment>) -> (r: String)
    ensures
        r@ == table_open(alignments@),
{
    let n = alignments.len();
    let mut out = String::from_str("\n#table(\n  columns: (");
    let ghost start = out@;
    let mut i: usize = 0;
    while i < n
        invariant
            i <= n,
            n == alignments.len(),
            out@ == start + column_list(i as nat),
        decreases n - i,
    {
        if i > 0 {
            out.append(", ");
        }
        out.append("auto");
        i = i + 1;
        assert(out@ =~= start + column_list(i as nat));
    }
    out.append("),\n  align: (");
    let ghost middle = out@;
    let mut j: usize = 0;
    assert(alignments@.take(0) =~= Seq::<Alignment>::empty());
    while j < n
        invariant
            j <= n,
            n == alignments.len(),
            out@ == middle + alignment_list(alignments@.take(j as int)),
        decreases n - j,
    {
        if j > 0 {
            out.append(", ");
        }
        out.append(alignment_name_of(alignments[j]));
        proof {
            let next = alignments@.take(j + 1);
            assert(next.drop_last() =~= alignments@.take(j as int));
            assert(next.last() == alignments[j as int]);
            assert(out@ =~= middle + alignment_list(next));
        }
        j = j + 1;
    }
    out.append("),\n");
    proof {
        assert(alignments@.take(n as int) =~= alignments@);
        assert(out@ =~= table_open(alignments@));
    }
    out
}

/// The entries of one table row, one for each cell.
pub fn row_markup_of(cells: &Vec<String>, head: bool) -> (r: String)
    ensures
        r@ == row_markup(cells.deep_view(), head),
{
    let n = cells.len();
    let mut out = String::new();
    let mut i: usize = 0;
    assert(cells.deep_view().take(0) =~= Seq::<Seq<char>>::empty());
    while i < n
        invariant
            i <= n,
            n == cells.len(),
            out@ == row_markup(cells.deep_view().take(i as int), head),
        decreases n - i,
    {
        let ghost before = out@;
        if head {
            out.append("  [*");
            out.append(cells[i].as_str());
            out.append("*],\n");
        } else {
            out.append("  [");
            out.append(cells[i].as_str());
            out.append("],\n");
        }
        proof {
            let next = cells.deep_view().take(i + 1);
            assert(next.drop_last() =~= cells.deep_view().take(i as int));
            assert(next.last() == cells[i as int]@);
            assert(out@ =~= before + entry_markup(cells[i as int]@, head));
        }
        i = i + 1;
    }
    assert(cells.deep_view().take(n as int) =~= cells.deep_view());
    out
}

/// Length of the longest run of backticks in `s`.
pub fn longest_backtick_run_of(s: &str) -> (r: usize)
    ensures
        r == longest_backtick_run(s@),
{
    let chars = chars_of(s);
    let n = chars.len();
    let mut longest: usize = 0;
    let mut current: usize = 0;
    let mut i: usize = 0;
    assert(s@.take(0) =~= Seq::<char>::empty());
    while i < n
        invariant
            i <= n,
            n == chars.len(),
            chars@ == s@,
            current <= i,
            longest <= i,
            current == trailing_backticks(s@.take(i as int)),
            longest == longest_backtick_run(s@.take(i as int)),
        decreases n - i,
    {
        proof {
            let next = s@.take(i + 1);
            assert(next.drop_last() =~= s@.take(i as int));
            assert(next.last() == chars[i as int]);
        }
        if chars[i] == '`' {
            current = current + 1;
        } else {
            current = 0;
        }
        if current > longest {
            longest = current;
        }
        i = i + 1;
    }
    assert(s@.take(n as int) =~= s@);
    longest
}

/// The fence for a code block with the given content.
pub fn fence_of(content: &str) -> (r: String)
    ensures
        r@ == fence(content@),
{
    let longest = longest_backtick_run_of(content);
    if longest < 3 {
        String::from_str("```")
    } else {
        let mut out = String::new();
        let mut i: usize = 0;
        while i < longest
            invariant
                i <= longest,
                out@ == repeat("`"@, i as nat),
            decreases longest - i,
        {
            out.append("`");
            i = i + 1;
        }
        out.append("`");
        out
    }
}

/// A code block with the given language and content.
pub fn code_block_markup_of(lang: &Option<String>, content: &str) -> (r: String)
    ensures
        r@ == code_block_markup(opt_view(*lang), content@),
{
    let body = trim_end_str(content);
    let fence = fence_of(body);
    let mut out = String::from_str("\n");
    out.append(fence.as_str());
    match lang {
        Some(l) => {
            out.append(l.as_str());
        },
        None => {},
    }
    out.append("\n");
    out.append(body);
    out.append("\n");
    out.append(fence.as_str());
    out.append("\n\n");
    assert(out@ =~= code_block_markup(opt_view(*lang), content@));
    out
}

/// A hyperlink to `url` with `label` as its text.
pub fn link_markup_of(url: &str, label: &str) -> (r: String)
    ensures
        r@ == link_markup(url@, label@),
{
    let mut out = String::from_str("#link(\"");
    out.append(escape_typst_string(url).as_str());
    out.append("\")[");
    out.append(escape_typst_text(label).as_str());
    out.append("]");
    out
}

/// An image read from `url`.
pub fn image_markup_of(url: &str) -> (r: String)
    ensures
        r@ == image_markup(url@),
{
    let mut out = String::from_str("#image(\"");
    out.append(escape_typst_string(url).as_str());
    out.append("\")");
    out
}

} // verus!
