//! Tables: a row is written with one entry for each of its cells.

use crate::parser::markdown::{Alignment, DocEvent, Tag, TagEnd};
use crate::transpiler::escape::{escape, EscapePolicy};
use crate::transpiler::laws::{lemma_run_concat, lemma_run_single};
use crate::transpiler::model::{row_markup, run, table_open, ConverterState};
use vstd::prelude::*;

verus! {

/// What a table cell holds after the events of `content`, each of which is
/// text or inline code: the escaped text and the code between backticks.
pub open spec fn cell_text(content: Seq<DocEvent>) -> Seq<char>
    decreases content.len(),
{
    if content.len() == 0 {
        Seq::empty()
    } else {
        cell_text(content.drop_last()) + (match content.last() {
            DocEvent::Text(text) => escape(EscapePolicy::General, text@),
            DocEvent::Code(code) => "`"@ + code@ + "`"@,
            _ => Seq::empty(),
        })
    }
}

/// The events of one table cell with the given content.
pub open spec fn cell_events(content: Seq<DocEvent>) -> Seq<DocEvent> {
    seq![DocEvent::Start(Tag::TableCell)] + content + seq![DocEvent::End(TagEnd::TableCell)]
}

/// The events of the cells of a row, given the content of each.
pub open spec fn cells_events(cells: Seq<Seq<DocEvent>>) -> Seq<DocEvent>
    decreases cells.len(),
{
    if cells.len() == 0 {
        Seq::empty()
    } else {
        cells_events(cells.drop_last()) + cell_events(cells.last())
    }
}

/// The events of a table row, of the head or of the body.
pub open spec fn row_events(cells: Seq<Seq<DocEvent>>, head: bool) -> Seq<DocEvent> {
    if head {
        seq![DocEvent::Start(Tag::TableHead)] + cells_events(cells) + seq![
            DocEvent::End(TagEnd::TableHead),
        ]
    } else {
        seq![DocEvent::Start(Tag::TableRow)] + cells_events(cells) + seq![
            DocEvent::End(TagEnd::TableRow),
        ]
    }
}

/// Every event of every cell is text or inline code.
pub open spec fn cells_hold_text(cells: Seq<Seq<DocEvent>>) -> bool {
    forall|i: int, j: int|
        0 <= i < cells.len() && 0 <= j < cells[i].len() ==> (#[trigger] cells[i][j] is Text
            || cells[i][j] is Code)
}

proof fn lemma_cell_content(s: ConverterState, content: Seq<DocEvent>)
    requires
        s.in_table,
        !s.in_code_block,
        forall|j: int| 0 <= j < content.len() ==> (#[trigger] content[j] is Text || content[j] is Code),
    ensures
        run(s, content) == (ConverterState {
            current_cell: s.current_cell + cell_text(content),
            ..s
        }),
    decreases content.len(),
{
    if content.len() == 0 {
        assert(s.current_cell + cell_text(content) =~= s.current_cell);
    } else {
        let front = content.drop_last();
        assert forall|j: int| 0 <= j < front.len() implies (#[trigger] front[j] is Text
            || front[j] is Code) by {
            assert(front[j] == content[j]);
        }
        lemma_cell_content(s, front);
        let before = run(s, front);
        let after = run(s, content);
        assert(content.last() == content[content.len() - 1]);
        assert(after.current_cell =~= s.current_cell + cell_text(content));
    }
}

proof fn lemma_cell(s: ConverterState, content: Seq<DocEvent>)
    requires
        s.in_table,
        !s.in_code_block,
        forall|j: int| 0 <= j < content.len() ==> (#[trigger] content[j] is Text || content[j] is Code),
    ensures
        run(s, cell_events(content)) == (ConverterState {
            table_row: s.table_row.push(cell_text(content)),
            current_cell: Seq::empty(),
            ..s
        }),
{
    let start = seq![DocEvent::Start(Tag::TableCell)];
    let end = seq![DocEvent::End(TagEnd::TableCell)];
    lemma_run_concat(s, start + content, end);
    lemma_run_concat(s, start, content);
    lemma_run_single(s, DocEvent::Start(Tag::TableCell));
    let opened = run(s, start);
    lemma_cell_content(opened, content);
    let filled = run(opened, content);
    lemma_run_single(filled, DocEvent::End(TagEnd::TableCell));
    assert(filled.current_cell =~= cell_text(content));
}

proof fn lemma_cells(s: ConverterState, cells: Seq<Seq<DocEvent>>)
    requires
        s.in_table,
        !s.in_code_block,
        cells_hold_text(cells),
    ensures
        run(s, cells_events(cells)) == (ConverterState {
            table_row: s.table_row + cells.map_values(|c: Seq<DocEvent>| cell_text(c)),
            current_cell: if cells.len() > 0 {
                Seq::empty()
            } else {
                s.current_cell
            },
            ..s
        }),
    decreases cells.len(),
{
    let texts = cells.map_values(|c: Seq<DocEvent>| cell_text(c));
    if cells.len() == 0 {
        assert(s.table_row + texts =~= s.table_row);
    } else {
        let front = cells.drop_last();
        assert(cells_hold_text(front)) by {
            assert forall|i: int, j: int|
                0 <= i < front.len() && 0 <= j < front[i].len() implies (
            #[trigger] front[i][j] is Text || front[i][j] is Code) by {
                assert(front[i] == cells[i]);
                assert(cells[i][j] is Text || cells[i][j] is Code);
            }
        }
        lemma_cells(s, front);
        lemma_run_concat(s, cells_events(front), cell_events(cells.last()));
        let before = run(s, cells_events(front));
        assert forall|j: int| 0 <= j < cells.last().len() implies (
        #[trigger] cells.last()[j] is Text || cells.last()[j] is Code) by {
            assert(cells.last() == cells[cells.len() - 1]);
            assert(cells[cells.len() - 1][j] is Text || cells[cells.len() - 1][j] is Code);
        }
        lemma_cell(before, cells.last());
        let after = run(before, cell_events(cells.last()));
        assert(after.table_row =~= s.table_row + texts);
    }
}

/// A row of a table with one cell for each column is written with exactly
/// one entry for each column, whatever the number of text and code events
/// in each cell: the entries are the texts of the cells, in order.
pub proof fn lemma_table_row_has_entry_per_column(
    s: ConverterState,
    cells: Seq<Seq<DocEvent>>,
    head: bool,
)
    requires
        s.in_table,
        !s.in_code_block,
        cells_hold_text(cells),
        cells.len() == s.table_alignments.len(),
    ensures
        ({
            let entries = cells.map_values(|c: Seq<DocEvent>| cell_text(c));
            &&& entries.len() == s.table_alignments.len()
            &&& run(s, row_events(cells, head)) == (ConverterState {
                output: s.output + row_markup(entries, head),
                table_row: entries,
                current_cell: if cells.len() > 0 {
                    Seq::empty()
                } else {
                    s.current_cell
                },
                ..s
            })
        }),
{
    let entries = cells.map_values(|c: Seq<DocEvent>| cell_text(c));
    let start_event = if head {
        DocEvent::Start(Tag::TableHead)
    } else {
        DocEvent::Start(Tag::TableRow)
    };
    let end_event = if head {
        DocEvent::End(TagEnd::TableHead)
    } else {
        DocEvent::End(TagEnd::TableRow)
    };
    let start = seq![start_event];
    let end = seq![end_event];
    assert(row_events(cells, head) == start + cells_events(cells) + end);
    lemma_run_concat(s, start + cells_events(cells), end);
    lemma_run_concat(s, start, cells_events(cells));
    lemma_run_single(s, start_event);
    let opened = run(s, start);
    lemma_cells(opened, cells);
    let filled = run(opened, cells_events(cells));
    lemma_run_single(filled, end_event);
    assert(filled.table_row =~= entries);
}

/// The events that open or close a table or a part of one.
pub open spec fn is_table_structure(event: DocEvent) -> bool {
    match event {
        DocEvent::Start(Tag::Table(_)) => true,
        DocEvent::Start(Tag::TableHead) => true,
        DocEvent::Start(Tag::TableRow) => true,
        DocEvent::Start(Tag::TableCell) => true,
        DocEvent::End(TagEnd::Table) => true,
        DocEvent::End(TagEnd::TableHead) => true,
        DocEvent::End(TagEnd::TableRow) => true,
        DocEvent::End(TagEnd::TableCell) => true,
        _ => false,
    }
}

/// No cell holds an event that opens or closes a table or a part of one.
pub open spec fn cells_hold_no_structure(cells: Seq<Seq<DocEvent>>) -> bool {
    forall|i: int, j: int|
        0 <= i < cells.len() && 0 <= j < cells[i].len() ==> !is_table_structure(
            #[trigger] cells[i][j],
        )
}

/// The events of a row up to its end event.
pub open spec fn open_row_events(cells: Seq<Seq<DocEvent>>, head: bool) -> Seq<DocEvent> {
    if head {
        seq![DocEvent::Start(Tag::TableHead)] + cells_events(cells)
    } else {
        seq![DocEvent::Start(Tag::TableRow)] + cells_events(cells)
    }
}

proof fn lemma_content_keeps_row(s: ConverterState, content: Seq<DocEvent>)
    requires
        forall|j: int| 0 <= j < content.len() ==> !is_table_structure(#[trigger] content[j]),
    ensures
        run(s, content).table_row == s.table_row,
        run(s, content).table_alignments == s.table_alignments,
    decreases content.len(),
{
    if content.len() > 0 {
        let front = content.drop_last();
        assert forall|j: int| 0 <= j < front.len() implies !is_table_structure(
            #[trigger] front[j],
        ) by {
            assert(front[j] == content[j]);
        }
        lemma_content_keeps_row(s, front);
        assert(content.last() == content[content.len() - 1]);
        assert(!is_table_structure(content.last()));
    }
}

proof fn lemma_cells_count(s: ConverterState, cells: Seq<Seq<DocEvent>>)
    requires
        cells_hold_no_structure(cells),
    ensures
        run(s, cells_events(cells)).table_row.len() == s.table_row.len() + cells.len(),
        run(s, cells_events(cells)).table_alignments == s.table_alignments,
    decreases cells.len(),
{
    if cells.len() > 0 {
        let front = cells.drop_last();
        let content = cells.last();
        assert(cells_hold_no_structure(front)) by {
            assert forall|i: int, j: int|
                0 <= i < front.len() && 0 <= j < front[i].len() implies !is_table_structure(
                #[trigger] front[i][j],
            ) by {
                assert(front[i] == cells[i]);
                assert(!is_table_structure(cells[i][j]));
            }
        }
        lemma_cells_count(s, front);
        let before = run(s, cells_events(front));
        lemma_run_concat(s, cells_events(front), cell_events(content));
        let start = seq![DocEvent::Start(Tag::TableCell)];
        let end = seq![DocEvent::End(TagEnd::TableCell)];
        lemma_run_concat(before, start + content, end);
        lemma_run_concat(before, start, content);
        lemma_run_single(before, DocEvent::Start(Tag::TableCell));
        let opened = run(before, start);
        assert forall|j: int| 0 <= j < content.len() implies !is_table_structure(
            #[trigger] content[j],
        ) by {
            assert(content == cells[cells.len() - 1]);
            assert(!is_table_structure(cells[cells.len() - 1][j]));
        }
        lemma_content_keeps_row(opened, content);
        let filled = run(opened, content);
        lemma_run_single(filled, DocEvent::End(TagEnd::TableCell));
    }
}

/// A row with one cell for each column is written with exactly one entry
/// for each column, whatever the events inside the cells are and however
/// many, as long as none of them opens or closes a table or a part of one:
/// when the row ends, the row buffer holds one text for each column, and
/// the end of the row writes the entries of the buffer and nothing else.
pub proof fn lemma_table_row_has_entry_per_cell(
    s: ConverterState,
    cells: Seq<Seq<DocEvent>>,
    head: bool,
)
    requires
        cells_hold_no_structure(cells),
        cells.len() == s.table_alignments.len(),
    ensures
        ({
            let filled = run(s, open_row_events(cells, head));
            &&& filled.table_row.len() == s.table_alignments.len()
            &&& filled.table_alignments == s.table_alignments
            &&& run(s, row_events(cells, head)) == (ConverterState {
                output: filled.output + row_markup(filled.table_row, head),
                ..filled
            })
        }),
{
    let start_event = if head {
        DocEvent::Start(Tag::TableHead)
    } else {
        DocEvent::Start(Tag::TableRow)
    };
    let end_event = if head {
        DocEvent::End(TagEnd::TableHead)
    } else {
        DocEvent::End(TagEnd::TableRow)
    };
    let start = seq![start_event];
    let end = seq![end_event];
    assert(open_row_events(cells, head) == start + cells_events(cells));
    assert(row_events(cells, head) == start + cells_events(cells) + end);
    lemma_run_concat(s, start + cells_events(cells), end);
    lemma_run_concat(s, start, cells_events(cells));
    lemma_run_single(s, start_event);
    let opened = run(s, start);
    assert(opened.table_row.len() == 0);
    lemma_cells_count(opened, cells);
    let filled = run(opened, cells_events(cells));
    lemma_run_single(filled, end_event);
}

/// The events of the rows of a table body, given the content of each cell
/// of each row.
pub open spec fn rows_events(rows: Seq<Seq<Seq<DocEvent>>>) -> Seq<DocEvent>
    decreases rows.len(),
{
    if rows.len() == 0 {
        Seq::empty()
    } else {
        rows_events(rows.drop_last()) + row_events(rows.last(), false)
    }
}

/// The entries of the rows of a table body, row after row.
pub open spec fn rows_markup(rows: Seq<Seq<Seq<DocEvent>>>) -> Seq<char>
    decreases rows.len(),
{
    if rows.len() == 0 {
        Seq::empty()
    } else {
        rows_markup(rows.drop_last()) + row_markup(
            rows.last().map_values(|c: Seq<DocEvent>| cell_text(c)),
            false,
        )
    }
}

/// The events of a table: its start, the row of the head, the rows of the
/// body, and its end.
pub open spec fn table_events(
    alignments: Vec<Alignment>,
    head: Seq<Seq<DocEvent>>,
    rows: Seq<Seq<Seq<DocEvent>>>,
) -> Seq<DocEvent> {
    seq![DocEvent::Start(Tag::Table(alignments))] + row_events(head, true) + rows_events(rows)
        + seq![DocEvent::End(TagEnd::Table)]
}

/// Every row has one cell for each of `columns` columns, and every cell
/// holds text and inline code only.
pub open spec fn rows_fit(rows: Seq<Seq<Seq<DocEvent>>>, columns: nat) -> bool {
    forall|r: int|
        0 <= r < rows.len() ==> (#[trigger] rows[r]).len() == columns && cells_hold_text(rows[r])
}

proof fn lemma_rows(s: ConverterState, rows: Seq<Seq<Seq<DocEvent>>>)
    requires
        s.in_table,
        !s.in_code_block,
        rows_fit(rows, s.table_alignments.len()),
    ensures
        run(s, rows_events(rows)).output == s.output + rows_markup(rows),
        run(s, rows_events(rows)).in_table,
        !run(s, rows_events(rows)).in_code_block,
        run(s, rows_events(rows)).table_alignments == s.table_alignments,
    decreases rows.len(),
{
    if rows.len() == 0 {
        assert(s.output + rows_markup(rows) =~= s.output);
    } else {
        let front = rows.drop_last();
        assert(rows_fit(front, s.table_alignments.len())) by {
            assert forall|r: int| 0 <= r < front.len() implies (#[trigger] front[r]).len()
                == s.table_alignments.len() && cells_hold_text(front[r]) by {
                assert(front[r] == rows[r]);
            }
        }
        lemma_rows(s, front);
        let before = run(s, rows_events(front));
        assert(rows.last() == rows[rows.len() - 1]);
        lemma_run_concat(s, rows_events(front), row_events(rows.last(), false));
        lemma_table_row_has_entry_per_column(before, rows.last(), false);
        let after = run(before, row_events(rows.last(), false));
        assert(after.output =~= s.output + rows_markup(rows));
    }
}

/// A table whose rows have one cell for each column is written as its
/// opening, which names each column, then one entry for each cell of the
/// head and of each row of the body in order, and its closing: every row
/// gives exactly as many entries as the table has columns.
pub proof fn lemma_table_rows_match_columns(
    s: ConverterState,
    alignments: Vec<Alignment>,
    head: Seq<Seq<DocEvent>>,
    rows: Seq<Seq<Seq<DocEvent>>>,
)
    requires
        !s.in_code_block,
        head.len() == alignments@.len(),
        cells_hold_text(head),
        rows_fit(rows, alignments@.len()),
    ensures
        ({
            let after = run(s, table_events(alignments, head, rows));
            &&& after.output == s.output + table_open(alignments@) + row_markup(
                head.map_values(|c: Seq<DocEvent>| cell_text(c)),
                true,
            ) + rows_markup(rows) + ")\n\n"@
            &&& !after.in_table
            &&& after.table_alignments == alignments@
        }),
{
    let start = seq![DocEvent::Start(Tag::Table(alignments))];
    let end = seq![DocEvent::End(TagEnd::Table)];
    lemma_run_concat(s, start + row_events(head, true) + rows_events(rows), end);
    lemma_run_concat(s, start + row_events(head, true), rows_events(rows));
    lemma_run_concat(s, start, row_events(head, true));
    lemma_run_single(s, DocEvent::Start(Tag::Table(alignments)));
    let opened = run(s, start);
    lemma_table_row_has_entry_per_column(opened, head, true);
    let headed = run(opened, row_events(head, true));
    lemma_rows(headed, rows);
    let filled = run(headed, rows_events(rows));
    lemma_run_single(filled, DocEvent::End(TagEnd::Table));
}

} // verus!
