//! What holds of every conversion.
//!
//! The laws are proof functions over the state machine of
//! [`crate::transpiler::model`]: each takes a state and a sequence of
//! events of some shape, and states the state that the sequence leads to.

pub mod code;
pub mod links;
pub mod lists;
pub mod tables;

use crate::parser::markdown::{same_event, DocEvent, Tag, TagEnd};
use crate::transpiler::model::{run, step, ConverterState};
use vstd::prelude::*;

verus! {

/// Reading a sequence of events is reading its parts one after the other.
pub proof fn lemma_run_concat(s: ConverterState, first: Seq<DocEvent>, second: Seq<DocEvent>)
    ensures
        run(s, first + second) == run(run(s, first), second),
    decreases second.len(),
{
    if second.len() == 0 {
        assert(first + second =~= first);
    } else {
        lemma_run_concat(s, first, second.drop_last());
        assert((first + second).drop_last() =~= first + second.drop_last());
        assert((first + second).last() == second.last());
    }
}

/// Reading a single event is one step.
pub proof fn lemma_run_single(s: ConverterState, event: DocEvent)
    ensures
        run(s, seq![event]) == step(s, event),
{
    let events = seq![event];
    assert(events.drop_last() =~= Seq::<DocEvent>::empty());
    assert(run(s, events.drop_last()) == s);
    assert(events.last() == event);
}

/// Two events that are the same, tables being compared by their columns,
/// do the same to every state: the converter reads a table by its columns.
pub proof fn lemma_same_events_convert_alike(s: ConverterState, a: DocEvent, b: DocEvent)
    requires
        same_event(a, b),
    ensures
        step(s, a) == step(s, b),
{
}

/// Outside a code block the converter holds no code: no text and no
/// language.
pub open spec fn holds_code_only_in_block(s: ConverterState) -> bool {
    !s.in_code_block ==> s.code_block_content.len() == 0 && s.code_block_lang is None
}

/// Whether a table is open after `events`, given whether one was open
/// before.
pub open spec fn table_open_after(open: bool, events: Seq<DocEvent>) -> bool
    decreases events.len(),
{
    if events.len() == 0 {
        open
    } else {
        match events.last() {
            DocEvent::Start(Tag::Table(_)) => true,
            DocEvent::End(TagEnd::Table) => false,
            _ => table_open_after(open, events.drop_last()),
        }
    }
}

/// Two things that hold between any two events.  The converter holds text
/// of a code block only while one is open, if it held none outside one
/// before.  And it is in table mode exactly while a table is open.
pub proof fn lemma_modes_follow_the_events(s: ConverterState, events: Seq<DocEvent>)
    requires
        holds_code_only_in_block(s),
    ensures
        holds_code_only_in_block(run(s, events)),
        run(s, events).in_table == table_open_after(s.in_table, events),
    decreases events.len(),
{
    if events.len() > 0 {
        lemma_modes_follow_the_events(s, events.drop_last());
    }
}

} // verus!
