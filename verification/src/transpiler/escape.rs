//! Escaping of text for the three places where Typst markup holds it.

use crate::text::push_char;
use vstd::prelude::*;

verus! {

/// Where a piece of text is written.
#[derive(Clone, Copy, Debug, PartialEq, Eq, Structural)]
pub enum EscapePolicy {
    /// Running text of the document body.
    General,
    /// Text inside a styled container, such as a field of the header.
    Container,
    /// Text inside a string literal, such as a link destination.
    StringLiteral,
}

/// The characters that get a backslash in front of them under `policy`.
pub open spec fn needs_escape(policy: EscapePolicy, c: char) -> bool {
    match policy {
        EscapePolicy::General => c == '\\' || c == '#' || c == '$' || c == '@' || c == '<' || c
            == '>',
        EscapePolicy::Container => c == '\\' || c == '#' || c == '$' || c == '[' || c == ']',
        EscapePolicy::StringLiteral => c == '\\' || c == '"',
    }
}

/// What one character becomes.
pub open spec fn escape_char(policy: EscapePolicy, c: char) -> Seq<char> {
    if needs_escape(policy, c) {
        seq!['\\', c]
    } else {
        seq![c]
    }
}

/// `s` with every character that `policy` names preceded by a backslash.
pub open spec fn escape(policy: EscapePolicy, s: Seq<char>) -> Seq<char>
    decreases s.len(),
{
    if s.len() == 0 {
        Seq::empty()
    } else {
        escape(policy, s.drop_last()) + escape_char(policy, s.last())
    }
}

/// Text without any character that the policy names is left as it is.
pub proof fn lemma_escape_plain_text(policy: EscapePolicy, s: Seq<char>)
    requires
        forall|i: int| 0 <= i < s.len() ==> !needs_escape(policy, #[trigger] s[i]),
    ensures
        escape(policy, s) == s,
    decreases s.len(),
{
    if s.len() > 0 {
        let front = s.drop_last();
        assert forall|i: int| 0 <= i < front.len() implies !needs_escape(
            policy,
            #[trigger] front[i],
        ) by {
            assert(front[i] == s[i]);
        }
        lemma_escape_plain_text(policy, front);
        assert(escape(policy, s) =~= s);
    }
}

/// Escaping goes through concatenation: each character is escaped on its
/// own.
pub proof fn lemma_escape_concat(policy: EscapePolicy, a: Seq<char>, b: Seq<char>)
    ensures
        escape(policy, a + b) == escape(policy, a) + escape(policy, b),
    decreases b.len(),
{
    if b.len() == 0 {
        assert(a + b =~= a);
    } else {
        lemma_escape_concat(policy, a, b.drop_last());
        assert((a + b).drop_last() =~= a + b.drop_last());
        assert((a + b).last() == b.last());
        assert(escape(policy, a + b) =~= escape(policy, a) + escape(policy, b));
    }
}

/// Whether `c` gets a backslash under `policy`.
pub fn needs_escape_char(policy: EscapePolicy, c: char) -> (r: bool)
    ensures
        r == needs_escape(policy, c),
{
    match policy {
        EscapePolicy::General => c == '\\' || c == '#' || c == '$' || c == '@' || c == '<' || c
            == '>',
        EscapePolicy::Container => c == '\\' || c == '#' || c == '$' || c == '[' || c == ']',
        EscapePolicy::StringLiteral => c == '\\' || c == '"',
    }
}

/// Escapes `s` under `policy`.
pub fn escape_with(policy: EscapePolicy, s: &str) -> (r: String)
    ensures
        r@ == escape(policy, s@),
{
    let mut out = String::new();
    for c in it: s.chars()
        invariant
            it.seq() == s@,
            out@ == escape(policy, it.seq().take(it.index())),
    {
        proof {
            let next = it.seq().take(it.index() + 1);
            assert(next.drop_last() =~= it.seq().take(it.index()));
            assert(next.last() == c);
        }
        if needs_escape_char(policy, c) {
            push_char(&mut out, '\\');
        }
        push_char(&mut out, c);
    }
    assert(s@.take(s@.len() as int) =~= s@);
    out
}

/// Escapes running text: a backslash goes before each of `\ # $ @ < >`.
pub fn escape_typst_text(s: &str) -> (r: String)
    ensures
        r@ == escape(EscapePolicy::General, s@),
{
    escape_with(EscapePolicy::General, s)
}

/// Escapes text for a styled container: a backslash goes before each of
/// `\ # $ [ ]`.
pub fn escape_typst(s: &str) -> (r: String)
    ensures
        r@ == escape(EscapePolicy::Container, s@),
{
    escape_with(EscapePolicy::Container, s)
}

/// Escapes text for a string literal: a backslash goes before each of `\ "`.
pub fn escape_typst_string(s: &str) -> (r: String)
    ensures
        r@ == escape(EscapePolicy::StringLiteral, s@),
{
    escape_with(EscapePolicy::StringLiteral, s)
}


/// `s` with every `from` replaced by `to`.
pub open spec fn replace(s: Seq<char>, from: char, to: Seq<char>) -> Seq<char>
    decreases s.len(),
{
    if s.len() == 0 {
        Seq::empty()
    } else {
        replace(s.drop_last(), from, to) + (if s.last() == from {
            to
        } else {
            seq![s.last()]
        })
    }
}

/// `s` with a backslash put before every `c`.
pub open spec fn guard(s: Seq<char>, c: char) -> Seq<char> {
    replace(s, c, seq!['\\', c])
}

/// Running text escaped one character after the other: first the
/// backslash, then `#`, `$`, `@`, `<` and `>`.
pub open spec fn guard_in_turn(s: Seq<char>) -> Seq<char> {
    guard(guard(guard(guard(guard(guard(s, '\\'), '#'), '$'), '@'), '<'), '>')
}

proof fn lemma_replace_concat(a: Seq<char>, b: Seq<char>, from: char, to: Seq<char>)
    ensures
        replace(a + b, from, to) == replace(a, from, to) + replace(b, from, to),
    decreases b.len(),
{
    if b.len() == 0 {
        assert(a + b =~= a);
    } else {
        lemma_replace_concat(a, b.drop_last(), from, to);
        assert((a + b).drop_last() =~= a + b.drop_last());
        assert((a + b).last() == b.last());
        assert(replace(a + b, from, to) =~= replace(a, from, to) + replace(b, from, to));
    }
}

proof fn lemma_replace_one(c: char, from: char, to: Seq<char>)
    ensures
        replace(seq![c], from, to) == (if c == from {
            to
        } else {
            seq![c]
        }),
{
    let s = seq![c];
    assert(s.drop_last() =~= Seq::<char>::empty());
    assert(replace(s.drop_last(), from, to) =~= Seq::<char>::empty());
    assert(replace(s, from, to) =~= (if c == from {
        to
    } else {
        seq![c]
    }));
}

proof fn lemma_guard_escaped(c: char, from: char)
    requires
        from != '\\',
        from != c,
    ensures
        guard(seq!['\\', c], from) == seq!['\\', c],
{
    let s = seq!['\\', c];
    assert(s =~= seq!['\\'] + seq![c]);
    lemma_replace_concat(seq!['\\'], seq![c], from, seq!['\\', from]);
    lemma_replace_one('\\', from, seq!['\\', from]);
    lemma_replace_one(c, from, seq!['\\', from]);
}

proof fn lemma_guard_in_turn_concat(a: Seq<char>, b: Seq<char>)
    ensures
        guard_in_turn(a + b) == guard_in_turn(a) + guard_in_turn(b),
{
    let a1 = guard(a, '\\');
    let b1 = guard(b, '\\');
    lemma_replace_concat(a, b, '\\', seq!['\\', '\\']);
    let a2 = guard(a1, '#');
    let b2 = guard(b1, '#');
    lemma_replace_concat(a1, b1, '#', seq!['\\', '#']);
    let a3 = guard(a2, '$');
    let b3 = guard(b2, '$');
    lemma_replace_concat(a2, b2, '$', seq!['\\', '$']);
    let a4 = guard(a3, '@');
    let b4 = guard(b3, '@');
    lemma_replace_concat(a3, b3, '@', seq!['\\', '@']);
    let a5 = guard(a4, '<');
    let b5 = guard(b4, '<');
    lemma_replace_concat(a4, b4, '<', seq!['\\', '<']);
    lemma_replace_concat(a5, b5, '>', seq!['\\', '>']);
}

proof fn lemma_guard_in_turn_one(c: char)
    ensures
        guard_in_turn(seq![c]) == escape_char(EscapePolicy::General, c),
{
    let s = seq![c];
    lemma_replace_one(c, '\\', seq!['\\', '\\']);
    let s1 = guard(s, '\\');
    if c == '\\' {
        lemma_guard_escaped('\\', '#');
        lemma_guard_escaped('\\', '$');
        lemma_guard_escaped('\\', '@');
        lemma_guard_escaped('\\', '<');
        lemma_guard_escaped('\\', '>');
    } else {
        lemma_replace_one(c, '#', seq!['\\', '#']);
        if c == '#' {
            lemma_guard_escaped('#', '$');
            lemma_guard_escaped('#', '@');
            lemma_guard_escaped('#', '<');
            lemma_guard_escaped('#', '>');
        } else {
            lemma_replace_one(c, '$', seq!['\\', '$']);
            if c == '$' {
                lemma_guard_escaped('$', '@');
                lemma_guard_escaped('$', '<');
                lemma_guard_escaped('$', '>');
            } else {
                lemma_replace_one(c, '@', seq!['\\', '@']);
                if c == '@' {
                    lemma_guard_escaped('@', '<');
                    lemma_guard_escaped('@', '>');
                } else {
                    lemma_replace_one(c, '<', seq!['\\', '<']);
                    if c == '<' {
                        lemma_guard_escaped('<', '>');
                    } else {
                        lemma_replace_one(c, '>', seq!['\\', '>']);
                    }
                }
            }
        }
    }
}

/// Escaping running text is the same as putting a backslash before every
/// backslash first, and then before every `#`, `$`, `@`, `<` and `>` in
/// turn: with the backslash first, none of the backslashes that the later
/// turns put in is escaped again.
pub proof fn lemma_escape_is_guarding_in_turn(s: Seq<char>)
    ensures
        escape(EscapePolicy::General, s) == guard_in_turn(s),
    decreases s.len(),
{
    if s.len() == 0 {
        assert(guard_in_turn(s) =~= Seq::<char>::empty());
    } else {
        let front = s.drop_last();
        lemma_escape_is_guarding_in_turn(front);
        assert(s =~= front + seq![s.last()]);
        lemma_guard_in_turn_concat(front, seq![s.last()]);
        lemma_guard_in_turn_one(s.last());
    }
}

} // verus!
