//! The transpiler as a state machine over document events.
//!
//! [`ConverterState`] is what the converter knows between two events,
//! [`step`] is what one event does to it, and [`run`] folds a sequence of
//! events.  The executable converter is specified against these functions.

use crate::parser::markdown::{Alignment, CodeBlockKind, DocEvent, HeadingLevel, Tag, TagEnd};
use crate::text::{ends_with, repeat, trim_end};
use crate::transpiler::escape::{escape, EscapePolicy};
use vstd::prelude::*;

verus! {

/// One open list: whether it is ordered, and the number of its next item.
#[derive(Clone, Copy, Debug, PartialEq, Eq, Structural)]
pub struct ListContext {
    pub ordered: bool,
    pub index: u64,
}

/// The state of a conversion between two events.
pub struct ConverterState {
    /// The markup written so far.
    pub output: Seq<char>,
    /// The open lists, innermost last.
    pub list_stack: Seq<ListContext>,
    pub in_table: bool,
    pub table_alignments: Seq<Alignment>,
    /// The finished cells of the row that is being read.
    pub table_row: Seq<Seq<char>>,
    /// The text of the cell that is being read.
    pub current_cell: Seq<char>,
    pub in_heading: bool,
    pub in_emphasis: bool,
    pub in_strong: bool,
    pub in_strikethrough: bool,
    pub in_link: bool,
    /// The destination of the open link, until its wrapper is written.
    pub link_url: Option<Seq<char>>,
    pub in_code_block: bool,
    pub code_block_lang: Option<Seq<char>>,
    /// The text of the open code block, as it was read.
    pub code_block_content: Seq<char>,
}

/// The state before the first event: nothing written, nothing open.
pub open spec fn initial() -> ConverterState {
    ConverterState {
        output: Seq::empty(),
        list_stack: Seq::empty(),
        in_table: false,
        table_alignments: Seq::empty(),
        table_row: Seq::empty(),
        current_cell: Seq::empty(),
        in_heading: false,
        in_emphasis: false,
        in_strong: false,
        in_strikethrough: false,
        in_link: false,
        link_url: None,
        in_code_block: false,
        code_block_lang: None,
        code_block_content: Seq::empty(),
    }
}

/// `s` with `text` appended to the markup.
pub open spec fn emit(s: ConverterState, text: Seq<char>) -> ConverterState {
    ConverterState { output: s.output + text, ..s }
}

/// `s` with a line break appended unless the markup already ends with one.
pub open spec fn end_line(s: ConverterState) -> ConverterState {
    if ends_with(s.output, '\n') {
        s
    } else {
        emit(s, "\n"@)
    }
}

/// The marker that opens a heading of the given level.
pub open spec fn heading_marker(level: HeadingLevel) -> Seq<char> {
    match level {
        HeadingLevel::H1 => "= "@,
        HeadingLevel::H2 => "== "@,
        HeadingLevel::H3 => "=== "@,
        HeadingLevel::H4 => "==== "@,
        HeadingLevel::H5 => "===== "@,
        HeadingLevel::H6 => "====== "@,
    }
}

/// The language of a code block: the info string of a fenced block, if it is
/// not empty.
pub open spec fn code_language(kind: CodeBlockKind) -> Option<Seq<char>> {
    match kind {
        CodeBlockKind::Fenced(lang) => if lang@.len() > 0 {
            Some(lang@)
        } else {
            None
        },
        CodeBlockKind::Indented => None,
    }
}

/// The stack entry of a list that starts: a list with a first number is
/// ordered and counts from it, a list without one is unordered.
pub open spec fn list_context(first: Option<u64>) -> ListContext {
    match first {
        Some(index) => ListContext { ordered: true, index },
        None => ListContext { ordered: false, index: 1 },
    }
}

/// The number that follows `index` in an ordered list; the count starts
/// over after the largest number.
pub open spec fn next_index(index: u64) -> u64 {
    if index < u64::MAX {
        (index + 1) as u64
    } else {
        0
    }
}

/// The indentation of an item in a list nested `depth` deep: two spaces for
/// each level below the first.
pub open spec fn item_indent(depth: nat) -> Seq<char> {
    if depth <= 1 {
        Seq::empty()
    } else {
        repeat("  "@, (depth - 1) as nat)
    }
}

/// The marker of a list item.
pub open spec fn item_marker(ordered: bool) -> Seq<char> {
    if ordered {
        "+ "@
    } else {
        "- "@
    }
}

/// The name under which Typst knows a column alignment.
pub open spec fn alignment_name(alignment: Alignment) -> Seq<char> {
    match alignment {
        Alignment::Left => "left"@,
        Alignment::Center => "center"@,
        Alignment::Right => "right"@,
        Alignment::Unspecified => "left"@,
    }
}

/// `n` automatic column widths, separated by commas.
pub open spec fn column_list(n: nat) -> Seq<char>
    decreases n,
{
    if n == 0 {
        Seq::empty()
    } else if n == 1 {
        "auto"@
    } else {
        column_list((n - 1) as nat) + ", "@ + "auto"@
    }
}

/// The names of the alignments, separated by commas.
pub open spec fn alignment_list(alignments: Seq<Alignment>) -> Seq<char>
    decreases alignments.len(),
{
    if alignments.len() == 0 {
        Seq::empty()
    } else if alignments.len() == 1 {
        alignment_name(alignments[0])
    } else {
        alignment_list(alignments.drop_last()) + ", "@ + alignment_name(alignments.last())
    }
}

/// The opening of a table: one column for each alignment.
pub open spec fn table_open(alignments: Seq<Alignment>) -> Seq<char> {
    "\n#table(\n  columns: ("@ + column_list(alignments.len()) + "),\n  align: ("@
        + alignment_list(alignments) + "),\n"@
}

/// One cell of a table as an entry of the table's argument list; the cells
/// of the head are set in bold.
pub open spec fn entry_markup(cell: Seq<char>, head: bool) -> Seq<char> {
    if head {
        "  [*"@ + cell + "*],\n"@
    } else {
        "  ["@ + cell + "],\n"@
    }
}

/// The entries of one row, one for each cell, in order.
pub open spec fn row_markup(cells: Seq<Seq<char>>, head: bool) -> Seq<char>
    decreases cells.len(),
{
    if cells.len() == 0 {
        Seq::empty()
    } else {
        row_markup(cells.drop_last(), head) + entry_markup(cells.last(), head)
    }
}

/// Number of backticks at the end of `s`.
pub open spec fn trailing_backticks(s: Seq<char>) -> nat
    decreases s.len(),
{
    if s.len() > 0 && s.last() == '`' {
        1 + trailing_backticks(s.drop_last())
    } else {
        0
    }
}

/// Length of the longest run of backticks in `s`.
pub open spec fn longest_backtick_run(s: Seq<char>) -> nat
    decreases s.len(),
{
    if s.len() == 0 {
        0
    } else if longest_backtick_run(s.drop_last()) >= trailing_backticks(s) {
        longest_backtick_run(s.drop_last())
    } else {
        trailing_backticks(s)
    }
}

/// The fence around a code block with the given content: three backticks,
/// or one more than the longest run of backticks in the content where that
/// is longer.
pub open spec fn fence(content: Seq<char>) -> Seq<char> {
    if longest_backtick_run(content) < 3 {
        "```"@
    } else {
        repeat("`"@, longest_backtick_run(content) + 1)
    }
}

/// A code block: the fence with the language right behind it, the content
/// without its trailing whitespace on lines of its own, and the fence again.
pub open spec fn code_block_markup(lang: Option<Seq<char>>, content: Seq<char>) -> Seq<char> {
    let body = trim_end(content);
    let tag = match lang {
        Some(l) => l,
        None => Seq::empty(),
    };
    "\n"@ + fence(body) + tag + "\n"@ + body + "\n"@ + fence(body) + "\n\n"@
}

/// A hyperlink to `url` with `label` as its text.
pub open spec fn link_markup(url: Seq<char>, label: Seq<char>) -> Seq<char> {
    "#link(\""@ + escape(EscapePolicy::StringLiteral, url) + "\")["@ + escape(
        EscapePolicy::General,
        label,
    ) + "]"@
}

/// An image read from `url`.
pub open spec fn image_markup(url: Seq<char>) -> Seq<char> {
    "#image(\""@ + escape(EscapePolicy::StringLiteral, url) + "\")"@
}

/// The state after the start of an element.
pub open spec fn on_start(s: ConverterState, tag: Tag) -> ConverterState {
    match tag {
        Tag::Paragraph => if !s.in_table && s.output.len() > 0 {
            end_line(s)
        } else {
            s
        },
        Tag::Heading(level) => {
            let separated = if s.output.len() > 0 {
                s.output + "\n"@
            } else {
                s.output
            };
            ConverterState { in_heading: true, output: separated + heading_marker(level), ..s }
        },
        Tag::BlockQuote => emit(s, "\n#quote(block: true)[\n"@),
        Tag::CodeBlock(kind) => ConverterState {
            in_code_block: true,
            code_block_content: Seq::empty(),
            code_block_lang: code_language(kind),
            ..s
        },
        Tag::List(first) => ConverterState {
            list_stack: s.list_stack.push(list_context(first)),
            output: s.output + "\n"@,
            ..s
        },
        Tag::Item => if s.list_stack.len() == 0 {
            s
        } else {
            let top = s.list_stack.last();
            ConverterState {
                output: s.output + item_indent(s.list_stack.len()) + item_marker(top.ordered),
                list_stack: if top.ordered {
                    s.list_stack.update(
                        s.list_stack.len() - 1,
                        ListContext { ordered: true, index: next_index(top.index) },
                    )
                } else {
                    s.list_stack
                },
                ..s
            }
        },
        Tag::Emphasis => ConverterState { in_emphasis: true, output: s.output + "_"@, ..s },
        Tag::Strong => ConverterState { in_strong: true, output: s.output + "*"@, ..s },
        Tag::Strikethrough => ConverterState {
            in_strikethrough: true,
            output: s.output + "#strike["@,
            ..s
        },
        Tag::Link(dest) => ConverterState { in_link: true, link_url: Some(dest@), ..s },
        Tag::Image(dest) => emit(s, image_markup(dest@)),
        Tag::Table(alignments) => ConverterState {
            in_table: true,
            table_alignments: alignments@,
            output: s.output + table_open(alignments@),
            ..s
        },
        Tag::TableHead => ConverterState { table_row: Seq::empty(), ..s },
        Tag::TableRow => ConverterState { table_row: Seq::empty(), ..s },
        Tag::TableCell => ConverterState { current_cell: Seq::empty(), ..s },
        Tag::Other => s,
    }
}

/// The state after the end of an element.
pub open spec fn on_end(s: ConverterState, tag: TagEnd) -> ConverterState {
    match tag {
        TagEnd::Paragraph => if s.in_table {
            s
        } else {
            emit(s, "\n\n"@)
        },
        TagEnd::Heading => ConverterState { in_heading: false, output: s.output + "\n\n"@, ..s },
        TagEnd::BlockQuote => emit(s, "]\n\n"@),
        TagEnd::CodeBlock => ConverterState {
            in_code_block: false,
            code_block_lang: None,
            code_block_content: Seq::empty(),
            output: s.output + code_block_markup(s.code_block_lang, s.code_block_content),
            ..s
        },
        TagEnd::List => {
            let stack = if s.list_stack.len() > 0 {
                s.list_stack.drop_last()
            } else {
                s.list_stack
            };
            ConverterState {
                list_stack: stack,
                output: if stack.len() == 0 {
                    s.output + "\n"@
                } else {
                    s.output
                },
                ..s
            }
        },
        TagEnd::Item => end_line(s),
        TagEnd::Emphasis => ConverterState { in_emphasis: false, output: s.output + "_"@, ..s },
        TagEnd::Strong => ConverterState { in_strong: false, output: s.output + "*"@, ..s },
        TagEnd::Strikethrough => ConverterState {
            in_strikethrough: false,
            output: s.output + "]"@,
            ..s
        },
        TagEnd::Link => ConverterState { in_link: false, link_url: None, ..s },
        TagEnd::Image => s,
        TagEnd::Table => ConverterState { in_table: false, output: s.output + ")\n\n"@, ..s },
        TagEnd::TableHead => emit(s, row_markup(s.table_row, true)),
        TagEnd::TableRow => emit(s, row_markup(s.table_row, false)),
        TagEnd::TableCell => ConverterState {
            table_row: s.table_row.push(s.current_cell),
            current_cell: Seq::empty(),
            ..s
        },
        TagEnd::Other => s,
    }
}

/// The state after a run of text.  Inside a code block the text is kept as
/// it is; elsewhere it is escaped, and goes to the open table cell, or into
/// the wrapper of the open link if that is still to be written, or to the
/// markup.
pub open spec fn on_text(s: ConverterState, text: Seq<char>) -> ConverterState {
    if s.in_code_block {
        ConverterState { code_block_content: s.code_block_content + text, ..s }
    } else if s.in_table {
        ConverterState {
            current_cell: s.current_cell + escape(EscapePolicy::General, text),
            ..s
        }
    } else if s.in_link && s.link_url is Some {
        ConverterState {
            output: s.output + link_markup(s.link_url->0, text),
            link_url: None,
            ..s
        }
    } else {
        emit(s, escape(EscapePolicy::General, text))
    }
}

/// The state after an inline code span, which is written as it is between
/// backticks.
pub open spec fn on_code(s: ConverterState, code: Seq<char>) -> ConverterState {
    if s.in_table {
        ConverterState { current_cell: s.current_cell + "`"@ + code + "`"@, ..s }
    } else {
        emit(s, "`"@ + code + "`"@)
    }
}

/// The state after a soft line break.
pub open spec fn on_soft_break(s: ConverterState) -> ConverterState {
    if s.in_code_block {
        ConverterState { code_block_content: s.code_block_content + "\n"@, ..s }
    } else if s.in_table {
        s
    } else {
        emit(s, " "@)
    }
}

/// The state after a hard line break.
pub open spec fn on_hard_break(s: ConverterState) -> ConverterState {
    if s.in_code_block {
        ConverterState { code_block_content: s.code_block_content + "\n"@, ..s }
    } else {
        emit(s, " \\\n"@)
    }
}

/// The state after a thematic break.
pub open spec fn on_rule(s: ConverterState) -> ConverterState {
    emit(s, "\n#line(length: 100%)\n\n"@)
}

/// The state after the checkbox of a task list item.
pub open spec fn on_task_list_marker(s: ConverterState, checked: bool) -> ConverterState {
    emit(
        s,
        (if checked {
            "[x]"@
        } else {
            "[ ]"@
        }) + " "@,
    )
}

/// The state after an inline formula.
pub open spec fn on_inline_math(s: ConverterState, math: Seq<char>) -> ConverterState {
    emit(s, "$"@ + math + "$"@)
}

/// The state after a formula on a line of its own.
pub open spec fn on_display_math(s: ConverterState, math: Seq<char>) -> ConverterState {
    emit(s, "\n$ "@ + math + " $\n"@)
}

/// The state after one event.
pub open spec fn step(s: ConverterState, event: DocEvent) -> ConverterState {
    match event {
        DocEvent::Start(tag) => on_start(s, tag),
        DocEvent::End(tag) => on_end(s, tag),
        DocEvent::Text(text) => on_text(s, text@),
        DocEvent::Code(code) => on_code(s, code@),
        DocEvent::Html(_) => s,
        DocEvent::SoftBreak => on_soft_break(s),
        DocEvent::HardBreak => on_hard_break(s),
        DocEvent::Rule => on_rule(s),
        DocEvent::FootnoteReference(_) => s,
        DocEvent::TaskListMarker(checked) => on_task_list_marker(s, checked),
        DocEvent::InlineMath(math) => on_inline_math(s, math@),
        DocEvent::DisplayMath(math) => on_display_math(s, math@),
    }
}

/// The state after a sequence of events, taken in order.
pub open spec fn run(s: ConverterState, events: Seq<DocEvent>) -> ConverterState
    decreases events.len(),
{
    if events.len() == 0 {
        s
    } else {
        step(run(s, events.drop_last()), events.last())
    }
}

/// `s` with the head of a document appended to the markup: the theme
/// preamble on a line of its own, then the header, if there is one, on
/// another.
pub open spec fn with_prelude(
    s: ConverterState,
    preamble: Seq<char>,
    header: Seq<char>,
) -> ConverterState {
    let head = if header.len() > 0 {
        header + "\n"@
    } else {
        Seq::empty()
    };
    emit(s, preamble + "\n"@ + head)
}

/// The markup of a whole document.
pub open spec fn document(
    preamble: Seq<char>,
    header: Seq<char>,
    events: Seq<DocEvent>,
) -> Seq<char> {
    run(with_prelude(initial(), preamble, header), events).output
}

} // verus!
