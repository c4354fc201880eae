//! Links: the hyperlink wrapper is written once for each link.

use crate::parser::markdown::{DocEvent, Tag, TagEnd};
use crate::transpiler::escape::{escape, EscapePolicy};
use crate::transpiler::laws::{lemma_run_concat, lemma_run_single};
use crate::transpiler::model::{link_markup, on_text, run, ConverterState};
use vstd::prelude::*;

verus! {

/// Text events with the given texts.
pub open spec fn text_events(texts: Seq<String>) -> Seq<DocEvent> {
    Seq::new(texts.len(), |i: int| DocEvent::Text(texts[i]))
}

/// The given texts, escaped and written one after the other.
pub open spec fn escaped_texts(texts: Seq<String>) -> Seq<char>
    decreases texts.len(),
{
    if texts.len() == 0 {
        Seq::empty()
    } else {
        escaped_texts(texts.drop_last()) + escape(EscapePolicy::General, texts.last()@)
    }
}

proof fn lemma_texts_after_link(s: ConverterState, texts: Seq<String>)
    requires
        !s.in_table,
        !s.in_code_block,
        s.link_url is None,
    ensures
        run(s, text_events(texts)) == (ConverterState {
            output: s.output + escaped_texts(texts),
            ..s
        }),
    decreases texts.len(),
{
    if texts.len() == 0 {
        assert(s.output + escaped_texts(texts) =~= s.output);
    } else {
        let front = texts.drop_last();
        lemma_texts_after_link(s, front);
        assert(text_events(texts).drop_last() =~= text_events(front));
        let before = run(s, text_events(front));
        let after = run(s, text_events(texts));
        assert(after == on_text(before, texts.last()@));
        assert(after.output =~= s.output + escaped_texts(texts));
    }
}

/// The events of a link whose content is the given texts.
pub open spec fn link_events(dest: String, texts: Seq<String>) -> Seq<DocEvent> {
    seq![DocEvent::Start(Tag::Link(dest))] + text_events(texts) + seq![
        DocEvent::End(TagEnd::Link),
    ]
}

/// A link is written with one hyperlink wrapper, however many text events
/// it holds: the first text is the label of the wrapper, and the texts
/// after it follow the wrapper as escaped text.
pub proof fn lemma_link_wrapper_is_written_once(
    s: ConverterState,
    dest: String,
    texts: Seq<String>,
)
    requires
        !s.in_table,
        !s.in_code_block,
        texts.len() >= 1,
    ensures
        run(s, link_events(dest, texts)) == (ConverterState {
            output: s.output + link_markup(dest@, texts[0]@) + escaped_texts(texts.drop_first()),
            in_link: false,
            link_url: None,
            ..s
        }),
{
    let start = seq![DocEvent::Start(Tag::Link(dest))];
    let end = seq![DocEvent::End(TagEnd::Link)];
    let first = seq![DocEvent::Text(texts[0])];
    let rest = texts.drop_first();
    assert(text_events(texts) =~= first + text_events(rest));
    lemma_run_concat(s, start + text_events(texts), end);
    lemma_run_concat(s, start, text_events(texts));
    lemma_run_single(s, DocEvent::Start(Tag::Link(dest)));
    let opened = run(s, start);
    lemma_run_concat(opened, first, text_events(rest));
    lemma_run_single(opened, DocEvent::Text(texts[0]));
    let wrapped = run(opened, first);
    assert(wrapped == on_text(opened, texts[0]@));
    lemma_texts_after_link(wrapped, rest);
    let filled = run(wrapped, text_events(rest));
    lemma_run_single(filled, DocEvent::End(TagEnd::Link));
}

} // verus!
