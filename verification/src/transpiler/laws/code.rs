//! Code blocks: the text is written as it was read, inside a fence that
//! the text cannot close.

use crate::parser::markdown::{CodeBlockKind, DocEvent, Tag, TagEnd};
use crate::text::{is_whitespace, lemma_repeat_char, trim_end};
use crate::transpiler::laws::{lemma_run_concat, lemma_run_single};
use crate::transpiler::model::{
    code_block_markup, code_language, fence, longest_backtick_run, run, trailing_backticks,
    ConverterState,
};
use vstd::prelude::*;

verus! {

/// The text that a code block collects from `events`, each of which is
/// text or a line break: the text as it is, and a line break for each
/// break.
pub open spec fn verbatim_text(events: Seq<DocEvent>) -> Seq<char>
    decreases events.len(),
{
    if events.len() == 0 {
        Seq::empty()
    } else {
        verbatim_text(events.drop_last()) + (match events.last() {
            DocEvent::Text(text) => text@,
            DocEvent::SoftBreak => "\n"@,
            DocEvent::HardBreak => "\n"@,
            _ => Seq::empty(),
        })
    }
}

/// Every event is text or a line break.
pub open spec fn holds_verbatim(events: Seq<DocEvent>) -> bool {
    forall|i: int|
        0 <= i < events.len() ==> (#[trigger] events[i] is Text || events[i] is SoftBreak
            || events[i] is HardBreak)
}

proof fn lemma_code_content(s: ConverterState, inner: Seq<DocEvent>)
    requires
        s.in_code_block,
        holds_verbatim(inner),
    ensures
        run(s, inner) == (ConverterState {
            code_block_content: s.code_block_content + verbatim_text(inner),
            ..s
        }),
    decreases inner.len(),
{
    if inner.len() == 0 {
        assert(s.code_block_content + verbatim_text(inner) =~= s.code_block_content);
    } else {
        let front = inner.drop_last();
        assert(holds_verbatim(front)) by {
            assert forall|i: int| 0 <= i < front.len() implies (#[trigger] front[i] is Text
                || front[i] is SoftBreak || front[i] is HardBreak) by {
                assert(front[i] == inner[i]);
            }
        }
        lemma_code_content(s, front);
        assert(inner.last() == inner[inner.len() - 1]);
        let after = run(s, inner);
        assert(after.code_block_content =~= s.code_block_content + verbatim_text(inner));
    }
}

/// The events of a code block with the given content.
pub open spec fn code_block_events(kind: CodeBlockKind, inner: Seq<DocEvent>) -> Seq<DocEvent> {
    seq![DocEvent::Start(Tag::CodeBlock(kind))] + inner + seq![DocEvent::End(TagEnd::CodeBlock)]
}

/// The text and the line breaks of a code block are written as they are,
/// unescaped and with a line break for each break, up to the whitespace at
/// the end of the block; the language follows the opening fence directly.
pub proof fn lemma_code_block_is_verbatim(
    s: ConverterState,
    kind: CodeBlockKind,
    inner: Seq<DocEvent>,
)
    requires
        holds_verbatim(inner),
    ensures
        run(s, code_block_events(kind, inner)) == (ConverterState {
            output: s.output + code_block_markup(code_language(kind), verbatim_text(inner)),
            in_code_block: false,
            code_block_lang: None,
            code_block_content: Seq::empty(),
            ..s
        }),
{
    let start = seq![DocEvent::Start(Tag::CodeBlock(kind))];
    let end = seq![DocEvent::End(TagEnd::CodeBlock)];
    lemma_run_concat(s, start + inner, end);
    lemma_run_concat(s, start, inner);
    lemma_run_single(s, DocEvent::Start(Tag::CodeBlock(kind)));
    let opened = run(s, start);
    lemma_code_content(opened, inner);
    let filled = run(opened, inner);
    lemma_run_single(filled, DocEvent::End(TagEnd::CodeBlock));
    assert(filled.code_block_content =~= verbatim_text(inner));
}

/// `len` backticks stand in `s` from `start` on.
pub open spec fn is_backtick_run(s: Seq<char>, start: int, len: int) -> bool {
    &&& 0 <= start
    &&& 0 <= len
    &&& start + len <= s.len()
    &&& forall|i: int| start <= i < start + len ==> s[i] == '`'
}

proof fn lemma_run_at_end(s: Seq<char>, len: int)
    requires
        is_backtick_run(s, s.len() - len, len),
    ensures
        len <= trailing_backticks(s),
    decreases len,
{
    if len > 0 {
        let front = s.drop_last();
        assert(s.last() == s[s.len() - 1]);
        assert(is_backtick_run(front, front.len() - (len - 1), len - 1)) by {
            assert forall|i: int| front.len() - (len - 1) <= i < front.len() implies front[i]
                == '`' by {
                assert(front[i] == s[i]);
            }
        }
        lemma_run_at_end(front, len - 1);
    }
}

/// No run of backticks in a text is longer than `longest_backtick_run`
/// says.
pub proof fn lemma_longest_run_bounds_every_run(s: Seq<char>, start: int, len: int)
    requires
        is_backtick_run(s, start, len),
    ensures
        len <= longest_backtick_run(s),
    decreases s.len(),
{
    if s.len() > 0 {
        if start + len == s.len() {
            lemma_run_at_end(s, len);
        } else {
            let front = s.drop_last();
            assert(is_backtick_run(front, start, len)) by {
                assert forall|i: int| start <= i < start + len implies front[i] == '`' by {
                    assert(front[i] == s[i]);
                }
            }
            lemma_longest_run_bounds_every_run(front, start, len);
        }
    }
}

/// The fence of a code block is made of backticks, at least three of them.
pub proof fn lemma_fence_is_backticks(content: Seq<char>)
    ensures
        fence(content).len() >= 3,
        forall|i: int| 0 <= i < fence(content).len() ==> #[trigger] fence(content)[i] == '`',
{
    reveal_strlit("```");
    reveal_strlit("`");
    assert("`"@ =~= seq!['`']);
    lemma_repeat_char('`', longest_backtick_run(content) + 1);
}

/// The fence of a code block is longer than every run of backticks in the
/// content: nothing in the content closes the block.
pub proof fn lemma_fence_outruns_content(content: Seq<char>, start: int, len: int)
    requires
        is_backtick_run(content, start, len),
    ensures
        len < fence(content).len(),
{
    reveal_strlit("```");
    reveal_strlit("`");
    lemma_longest_run_bounds_every_run(content, start, len);
    assert("`"@ =~= seq!['`']);
    lemma_repeat_char('`', longest_backtick_run(content) + 1);
}

/// A code block whose text does not end in whitespace is written with its
/// text as it is, character for character.
pub proof fn lemma_untrimmed_code_is_kept(lang: Option<Seq<char>>, content: Seq<char>)
    requires
        content.len() > 0 ==> !is_whitespace(content.last()),
    ensures
        trim_end(content) == content,
        code_block_markup(lang, content) == "\n"@ + fence(content) + (match lang {
            Some(l) => l,
            None => Seq::empty(),
        }) + "\n"@ + content + "\n"@ + fence(content) + "\n\n"@,
{
    assert(trim_end(content) =~= content);
}

/// The language of a code block stands right behind the opening fence,
/// with nothing in between.
pub proof fn lemma_language_follows_fence(lang: Seq<char>, content: Seq<char>)
    ensures
        ("\n"@ + fence(trim_end(content)) + lang + "\n"@).is_prefix_of(
            code_block_markup(Some(lang), content),
        ),
{
    let opening = "\n"@ + fence(trim_end(content)) + lang + "\n"@;
    let markup = code_block_markup(Some(lang), content);
    assert(markup.subrange(0, opening.len() as int) =~= opening);
}

} // verus!
