//! The metadata header of a document: where it stands in the text, and the
//! markup it gives.

use crate::text::{chars_of, opt_view, trim, trim_start, trim_start_str, trim_str};
use crate::transpiler::escape::{escape, escape_typst, EscapePolicy};
use vstd::prelude::*;
use vstd::string::StrSliceExecFns;
use vstd::string::StringExecFns;

verus! {

/// What the header of a document says about it.
#[derive(Debug, Clone)]
pub struct Frontmatter {
    pub title: Option<String>,
    pub author: Option<String>,
    pub date: Option<String>,
    pub keywords: Vec<String>,
    pub abstract_text: Option<String>,
}

/// What goes before the text of the title line.
pub const TITLE_OPEN: &'static str = r##"#align(center, text(size: 24pt, weight: "bold")["##;

/// What goes before the text of the author line.
pub const AUTHOR_OPEN: &'static str = r##"#align(center, text(size: 12pt)["##;

/// What goes before the text of the date line.
pub const DATE_OPEN: &'static str = r##"#align(center, text(size: 11pt, style: "italic")["##;

/// One centred line of the header, followed by a blank line: `open`, the
/// escaped text, and the two closing brackets.
pub open spec fn header_line(open: Seq<char>, text: Seq<char>) -> Seq<char> {
    open + escape(EscapePolicy::Container, text) + "])"@ + "\n\n"@
}

/// The line for an optional field: nothing where the field is absent.
pub open spec fn optional_line(open: Seq<char>, field: Option<Seq<char>>) -> Seq<char> {
    match field {
        Some(text) => header_line(open, text),
        None => Seq::empty(),
    }
}

/// The header of a document: a line each for title, author and date, in that
/// order, for those that are present.
pub open spec fn header_markup(
    title: Option<Seq<char>>,
    author: Option<Seq<char>>,
    date: Option<Seq<char>>,
) -> Seq<char> {
    optional_line(TITLE_OPEN@, title) + optional_line(AUTHOR_OPEN@, author) + optional_line(
        DATE_OPEN@,
        date,
    )
}

/// The delimiter of the header, three hyphens, stands at `i`.
pub open spec fn delimiter_at(text: Seq<char>, i: int) -> bool {
    0 <= i && i + 3 <= text.len() && text[i] == '-' && text[i + 1] == '-' && text[i + 2] == '-'
}

/// A line ends at `i`: with a line feed, or with a carriage return and a
/// line feed.
pub open spec fn line_ends_at(text: Seq<char>, i: int) -> bool {
    0 <= i && ((i < text.len() && text[i] == '\n') || (i + 1 < text.len() && text[i] == '\r'
        && text[i + 1] == '\n'))
}

/// The first line of `text` is the delimiter and nothing else.
pub open spec fn opens_header(text: Seq<char>) -> bool {
    delimiter_at(text, 0) && line_ends_at(text, 3)
}

/// The header closes at `i`: a line feed stands there, followed by the
/// delimiter.
pub open spec fn closes_at(text: Seq<char>, i: int) -> bool {
    0 <= i < text.len() && text[i] == '\n' && delimiter_at(text, i + 1)
}

/// The first place at or after `from` where the header closes.
pub open spec fn first_closing(text: Seq<char>, from: int) -> Option<int>
    decreases text.len() - from,
{
    if from >= text.len() {
        None
    } else if closes_at(text, from) {
        Some(from)
    } else {
        first_closing(text, from + 1)
    }
}

/// The header block of a document and the body behind it, if the document
/// has one.  It has one if, leading whitespace apart, its first line is the
/// delimiter and a later line starts with the delimiter.  The block is what
/// stands between the two, the body what stands behind the second; the
/// block is taken without the whitespace around it, the body without the
/// whitespace before it.
pub open spec fn header_block(content: Seq<char>) -> Option<(Seq<char>, Seq<char>)> {
    let text = trim_start(content);
    if !opens_header(text) {
        None
    } else {
        match first_closing(text, 3) {
            Some(end) => Some((trim(text.subrange(3, end)), trim_start(text.skip(end + 4)))),
            None => None,
        }
    }
}

/// `first_closing` finds the first closing place and no other: the header
/// closes there, and nowhere between `from` and there; where it finds none,
/// the header closes nowhere from `from` on.
pub proof fn lemma_first_closing_is_first(text: Seq<char>, from: int)
    requires
        0 <= from,
    ensures
        match first_closing(text, from) {
            Some(end) => from <= end && closes_at(text, end) && forall|i: int|
                from <= i < end ==> !closes_at(text, i),
            None => forall|i: int| from <= i ==> !closes_at(text, i),
        },
    decreases text.len() - from,
{
    if from < text.len() && !closes_at(text, from) {
        lemma_first_closing_is_first(text, from + 1);
    }
}

impl Default for Frontmatter {
    fn default() -> (fm: Frontmatter)
        ensures
            fm.title is None,
            fm.author is None,
            fm.date is None,
            fm.keywords@.len() == 0,
            fm.abstract_text is None,
    {
        Frontmatter {
            title: None,
            author: None,
            date: None,
            keywords: Vec::new(),
            abstract_text: None,
        }
    }
}

impl Frontmatter {
    /// The header markup of this metadata.
    pub open spec fn header(&self) -> Seq<char> {
        header_markup(opt_view(self.title), opt_view(self.author), opt_view(self.date))
    }

    /// Splits a document into the text of its header block and its body.
    /// A document without a header block, or with one that is not closed,
    /// has no header: the whole document is then its body.
    pub fn split(content: &str) -> (r: Option<(&str, &str)>)
        ensures
            match header_block(content@) {
                Some((block, body)) => r matches Some((b, rest)) && b@ == block && rest@ == body,
                None => r is None,
            },
    {
        let text = trim_start_str(content);
        let chars = chars_of(text);
        if !opens_here(&chars) {
            return None;
        }
        let n = chars.len();
        let mut i: usize = 3;
        while i < n && !closes_here(&chars, i)
            invariant
                3 <= i <= n,
                n == chars.len(),
                chars@ == text@,
                first_closing(text@, 3) == first_closing(text@, i as int),
            decreases n - i,
        {
            i = i + 1;
        }
        if i >= n {
            return None;
        }
        let block = trim_str(text.substring_char(3, i));
        let body = trim_start_str(text.substring_char(i + 4, n));
        proof {
            assert(text@.subrange(i + 4, n as int) =~= text@.skip(i + 4));
        }
        Some((block, body))
    }

    /// The header markup: a centred line each for title, author and date,
    /// each followed by a blank line; empty where none of them is present.
    pub fn to_typst_header(&self) -> (r: String)
        ensures
            r@ == self.header(),
    {
        let mut out = String::new();
        push_header_line(&mut out, TITLE_OPEN, &self.title);
        push_header_line(&mut out, AUTHOR_OPEN, &self.author);
        push_header_line(&mut out, DATE_OPEN, &self.date);
        assert(out@ =~= self.header());
        out
    }
}

/// Whether the first line is the delimiter.
fn opens_here(chars: &Vec<char>) -> (r: bool)
    ensures
        r == opens_header(chars@),
{
    let n = chars.len();
    n > 3 && chars[0] == '-' && chars[1] == '-' && chars[2] == '-' && (chars[3] == '\n' || (n > 4
        && chars[3] == '\r' && chars[4] == '\n'))
}

/// Whether the header closes at `i`.
fn closes_here(chars: &Vec<char>, i: usize) -> (r: bool)
    requires
        i < chars.len(),
    ensures
        r == closes_at(chars@, i as int),
{
    chars[i] == '\n' && chars.len() - i > 3 && chars[i + 1] == '-' && chars[i + 2] == '-'
        && chars[i + 3] == '-'
}

/// Appends the line of one field to `out`.
fn push_header_line(out: &mut String, open: &str, field: &Option<String>)
    ensures
        final(out)@ == old(out)@ + optional_line(open@, opt_view(*field)),
{
    match field {
        Some(text) => {
            let escaped = escape_typst(text.as_str());
            out.append(open);
            out.append(escaped.as_str());
            out.append("])");
            out.append("\n\n");
            assert(out@ =~= old(out)@ + header_line(open@, text@));
        },
        None => {
            assert(out@ =~= old(out)@ + Seq::<char>::empty());
        },
    }
}

} // verus!
