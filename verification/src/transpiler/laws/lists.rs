//! Lists: the stack of open lists follows the nesting of the events.

use crate::parser::markdown::{DocEvent, Tag, TagEnd};
use crate::text::repeat;
use crate::transpiler::laws::lemma_run_concat;
use crate::transpiler::model::{
    list_context, on_end, on_start, run, ConverterState, ListContext,
};
use vstd::prelude::*;

verus! {

/// The number of open lists after `events`, counted from `depth` open
/// lists: a list start opens one, a list end closes one if any is open.
pub open spec fn nesting_after(depth: nat, events: Seq<DocEvent>) -> nat
    decreases events.len(),
{
    if events.len() == 0 {
        depth
    } else {
        let before = nesting_after(depth, events.drop_last());
        match events.last() {
            DocEvent::Start(Tag::List(_)) => before + 1,
            DocEvent::End(TagEnd::List) => if before > 0 {
                (before - 1) as nat
            } else {
                0
            },
            _ => before,
        }
    }
}

/// The list stack is as deep as the lists are nested: after any events its
/// depth is the number of lists that were opened and not closed.  In
/// particular it is empty again once every list is closed.
pub proof fn lemma_list_stack_tracks_nesting(s: ConverterState, events: Seq<DocEvent>)
    ensures
        run(s, events).list_stack.len() == nesting_after(s.list_stack.len(), events),
        nesting_after(s.list_stack.len(), events) == 0 ==> run(s, events).list_stack
            == Seq::<ListContext>::empty(),
    decreases events.len(),
{
    if events.len() > 0 {
        lemma_list_stack_tracks_nesting(s, events.drop_last());
    }
    if nesting_after(s.list_stack.len(), events) == 0 {
        assert(run(s, events).list_stack =~= Seq::<ListContext>::empty());
    }
}

/// The end of a list writes a line break if it closes the outermost list,
/// and nothing if it closes a list inside another.
pub proof fn lemma_only_outermost_list_end_writes(s: ConverterState)
    ensures
        on_end(s, TagEnd::List).output == (if s.list_stack.len() <= 1 {
            s.output + "\n"@
        } else {
            s.output
        }),
{
}

/// The start events of nested lists, outermost first; `firsts` holds for
/// each list the number of its first item if it is ordered.
pub open spec fn list_starts(firsts: Seq<Option<u64>>) -> Seq<DocEvent> {
    Seq::new(firsts.len(), |i: int| DocEvent::Start(Tag::List(firsts[i])))
}

/// The end events of `n` lists.
pub open spec fn list_ends(n: nat) -> Seq<DocEvent> {
    Seq::new(n, |i: int| DocEvent::End(TagEnd::List))
}

proof fn lemma_list_starts(s: ConverterState, firsts: Seq<Option<u64>>)
    ensures
        run(s, list_starts(firsts)) == (ConverterState {
            list_stack: s.list_stack + firsts.map_values(|f: Option<u64>| list_context(f)),
            output: s.output + repeat("\n"@, firsts.len()),
            ..s
        }),
    decreases firsts.len(),
{
    let contexts = firsts.map_values(|f: Option<u64>| list_context(f));
    if firsts.len() == 0 {
        assert(s.list_stack + contexts =~= s.list_stack);
        assert(s.output + repeat("\n"@, 0) =~= s.output);
    } else {
        let front = firsts.drop_last();
        lemma_list_starts(s, front);
        assert(list_starts(firsts).drop_last() =~= list_starts(front));
        let before = run(s, list_starts(front));
        let after = run(s, list_starts(firsts));
        assert(after == on_start(before, Tag::List(firsts.last())));
        assert(after.list_stack =~= s.list_stack + contexts);
        assert(after.output =~= s.output + repeat("\n"@, firsts.len()));
    }
}

proof fn lemma_list_ends(s: ConverterState, n: nat)
    requires
        n <= s.list_stack.len(),
    ensures
        run(s, list_ends(n)) == (ConverterState {
            list_stack: s.list_stack.take(s.list_stack.len() - n),
            output: if n > 0 && n == s.list_stack.len() {
                s.output + "\n"@
            } else {
                s.output
            },
            ..s
        }),
    decreases n,
{
    if n == 0 {
        assert(s.list_stack.take(s.list_stack.len() as int) =~= s.list_stack);
    } else {
        let fewer = (n - 1) as nat;
        lemma_list_ends(s, fewer);
        assert(list_ends(n).drop_last() =~= list_ends(fewer));
        let before = run(s, list_ends(fewer));
        let after = run(s, list_ends(n));
        assert(after == on_end(before, TagEnd::List));
        assert(before.list_stack.drop_last() =~= s.list_stack.take(s.list_stack.len() - n));
    }
}

/// Lists nested `firsts.len()` deep, opened and closed again, leave the
/// list stack as it was.  Each start writes one line break; of the ends
/// only the one that closes the outermost list writes one, so nested lists
/// end with a single line break.
pub proof fn lemma_nested_lists_close(s: ConverterState, firsts: Seq<Option<u64>>)
    requires
        firsts.len() >= 1,
    ensures
        run(s, list_starts(firsts) + list_ends(firsts.len())) == (ConverterState {
            output: s.output + repeat("\n"@, firsts.len()) + (if s.list_stack.len() == 0 {
                "\n"@
            } else {
                Seq::<char>::empty()
            }),
            ..s
        }),
{
    let n = firsts.len();
    lemma_run_concat(s, list_starts(firsts), list_ends(n));
    lemma_list_starts(s, firsts);
    let opened = run(s, list_starts(firsts));
    lemma_list_ends(opened, n);
    let closed = run(opened, list_ends(n));
    assert(closed.list_stack =~= s.list_stack);
    assert(closed.output =~= s.output + repeat("\n"@, n) + (if s.list_stack.len() == 0 {
        "\n"@
    } else {
        Seq::<char>::empty()
    }));
}

} // verus!
