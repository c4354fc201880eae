//! The structural events of a Markdown document, and the parser that
//! produces them.
//!
//! The parser is `pulldown_cmark`.  What one of its events holds is named
//! [`event_model`]; small functions whose bodies are not verified read an
//! event and say which part of the model they hand out.  What comes out is
//! a [`DocEvent`], which is what the rest of the library works on.

use pulldown_cmark::Alignment as MdAlignment;
use pulldown_cmark::CodeBlockKind as MdCodeBlockKind;
use pulldown_cmark::Event as MdEvent;
use pulldown_cmark::HeadingLevel as MdHeadingLevel;
use pulldown_cmark::Tag as MdTag;
use pulldown_cmark::TagEnd as MdTagEnd;
use pulldown_cmark::{Options, Parser};
use vstd::prelude::*;

verus! {

/// Level of a heading, `H1` being the outermost.
#[derive(Clone, Copy, Debug, PartialEq, Eq, Structural)]
pub enum HeadingLevel {
    H1,
    H2,
    H3,
    H4,
    H5,
    H6,
}

/// Text alignment of a table column.
#[derive(Clone, Copy, Debug, PartialEq, Eq, Structural)]
pub enum Alignment {
    /// No alignment was given.
    Unspecified,
    Left,
    Center,
    Right,
}

/// How a code block was written.
#[derive(Clone, Debug, PartialEq, Eq)]
pub enum CodeBlockKind {
    Indented,
    /// A fenced block with its info string, which may be empty.
    Fenced(String),
}

/// An element that contains other events, from its start event to its end
/// event.
#[derive(Clone, Debug, PartialEq, Eq)]
pub enum Tag {
    Paragraph,
    Heading(HeadingLevel),
    BlockQuote,
    CodeBlock(CodeBlockKind),
    /// A list; an ordered list carries the number of its first item.
    List(Option<u64>),
    Item,
    Emphasis,
    Strong,
    Strikethrough,
    /// A link with its destination.
    Link(String),
    /// An image with its destination.
    Image(String),
    /// A table with the alignment of each column.
    Table(Vec<Alignment>),
    TableHead,
    TableRow,
    TableCell,
    /// Any element the transpiler has no markup for.
    Other,
}

/// The end of a [`Tag`].
#[derive(Clone, Copy, Debug, PartialEq, Eq, Structural)]
pub enum TagEnd {
    Paragraph,
    Heading,
    BlockQuote,
    CodeBlock,
    List,
    Item,
    Emphasis,
    Strong,
    Strikethrough,
    Link,
    Image,
    Table,
    TableHead,
    TableRow,
    TableCell,
    Other,
}

/// One event of a document, in document order.
#[derive(Clone, Debug, PartialEq, Eq)]
pub enum DocEvent {
    Start(Tag),
    End(TagEnd),
    Text(String),
    /// An inline code span.
    Code(String),
    /// Raw HTML, block or inline.
    Html(String),
    SoftBreak,
    HardBreak,
    /// A thematic break.
    Rule,
    FootnoteReference(String),
    /// The checkbox of a task list item; `true` when it is checked.
    TaskListMarker(bool),
    InlineMath(String),
    DisplayMath(String),
}

/// `pulldown_cmark::Event`, an event as the parser yields it.  Nothing is
/// known of what a value holds but what the functions below hand out.
#[verifier::external_type_specification]
#[verifier::external_body]
pub struct ExMarkdownEvent<'a>(pulldown_cmark::Event<'a>);

/// The events of a Markdown text: what the iterator of
/// `pulldown_cmark::Parser::new_ext` yields for it with tables,
/// strikethrough, task lists and math switched on, each event written as a
/// [`DocEvent`].
pub uninterp spec fn markdown_events(content: Seq<char>) -> Seq<DocEvent>;

/// Parses a Markdown text.  The body runs the iterator of
/// `pulldown_cmark::Parser::new_ext` over the text, with the four
/// extensions named above, and turns each event it yields into a
/// [`DocEvent`].  The contract gives the result its name and claims nothing
/// else of it.
#[verifier::external_body]
pub fn parse_markdown(content: &str) -> (events: Vec<DocEvent>)
    ensures
        events@ == markdown_events(content@),
{
    let options = Options::ENABLE_TABLES | Options::ENABLE_STRIKETHROUGH
        | Options::ENABLE_TASKLISTS | Options::ENABLE_MATH;
    Parser::new_ext(content, options).map(|event| event_from(&event)).collect()
}

/// The event that [`event_model`] says an event of the parser holds.
fn event_from(event: &pulldown_cmark::Event<'_>) -> (r: DocEvent)
    ensures
        same_event(r, event_model(*event)),
{
    match leaf_event(event) {
        Some(leaf) => leaf,
        None => match block_end(event) {
            Some(end) => DocEvent::End(end),
            None => match span_end(event) {
                Some(end) => DocEvent::End(end),
                None => DocEvent::Start(tag_from(event)),
            },
        },
    }
}

/// The element that a start event of the parser opens, a table by its
/// columns; `Tag::Other` for an event that is no start.
fn tag_from(event: &pulldown_cmark::Event<'_>) -> (r: Tag)
    ensures
        match event_model(*event) {
            DocEvent::Start(tag) => same_tag(r, tag),
            _ => r == Tag::Other,
        },
{
    match plain_start(event) {
        Some(Tag::Table(_)) => Tag::Table(alignments_from(event)),
        Some(tag) => tag,
        None => match content_start(event) {
            Some(tag) => tag,
            None => match heading_level(event) {
                Some(level) => Tag::Heading(level),
                None => Tag::Other,
            },
        },
    }
}

/// The column alignments of a table that starts, in order; none for any
/// other event.
fn alignments_from(event: &pulldown_cmark::Event<'_>) -> (r: Vec<Alignment>)
    ensures
        r@ == table_columns(event_model(*event)),
{
    let ghost columns = table_columns(event_model(*event));
    let mut alignments: Vec<Alignment> = Vec::new();
    let mut column: usize = 0;
    proof {
        lemma_table_columns_fit(event_model(*event));
        assert(columns.take(0) =~= Seq::<Alignment>::empty());
    }
    while column < usize::MAX
        invariant
            columns == table_columns(event_model(*event)),
            columns.len() <= usize::MAX,
            column <= columns.len(),
            alignments@ == columns.take(column as int),
        decreases usize::MAX - column,
    {
        match table_alignment(event, column) {
            Some(alignment) => {
                alignments.push(alignment);
                assert(alignments@ =~= columns.take(column + 1));
            },
            None => {
                assert(columns.take(column as int) =~= columns);
                return alignments;
            },
        }
        column = column + 1;
    }
    assert(columns.take(column as int) =~= columns);
    alignments
}

/// What an event of `pulldown_cmark` holds, written as a [`DocEvent`]: the
/// event of the same kind with the same text, flag, number, destination or
/// columns.  Both kinds of HTML are `DocEvent::Html`; a start or end that
/// [`Tag`] or [`TagEnd`] has no variant for is `Other`.  The functions
/// below that read an event say which part of this they hand out.
pub uninterp spec fn event_model(event: pulldown_cmark::Event<'_>) -> DocEvent;

/// Two elements are the same, tables being compared by their columns.
pub open spec fn same_tag(a: Tag, b: Tag) -> bool {
    match (a, b) {
        (Tag::Table(x), Tag::Table(y)) => x@ == y@,
        _ => a == b,
    }
}

/// Two events are the same, tables being compared by their columns.
pub open spec fn same_event(a: DocEvent, b: DocEvent) -> bool {
    match (a, b) {
        (DocEvent::Start(x), DocEvent::Start(y)) => same_tag(x, y),
        _ => a == b,
    }
}

/// The columns of a table that starts; none for any other event.
pub open spec fn table_columns(model: DocEvent) -> Seq<Alignment> {
    match model {
        DocEvent::Start(Tag::Table(columns)) => columns@,
        _ => Seq::empty(),
    }
}

/// The ends of the elements that stand on lines of their own.
pub open spec fn is_block_end(end: TagEnd) -> bool {
    match end {
        TagEnd::Paragraph => true,
        TagEnd::Heading => true,
        TagEnd::BlockQuote => true,
        TagEnd::CodeBlock => true,
        TagEnd::List => true,
        TagEnd::Item => true,
        TagEnd::Table => true,
        TagEnd::TableHead => true,
        TagEnd::TableRow => true,
        TagEnd::TableCell => true,
        _ => false,
    }
}

/// The ends of the elements that stand inside a line.
pub open spec fn is_span_end(end: TagEnd) -> bool {
    match end {
        TagEnd::Emphasis => true,
        TagEnd::Strong => true,
        TagEnd::Strikethrough => true,
        TagEnd::Link => true,
        TagEnd::Image => true,
        _ => false,
    }
}

/// The elements that carry no data.
pub open spec fn is_plain_tag(tag: Tag) -> bool {
    match tag {
        Tag::Paragraph => true,
        Tag::BlockQuote => true,
        Tag::Item => true,
        Tag::TableHead => true,
        Tag::TableRow => true,
        Tag::TableCell => true,
        Tag::Emphasis => true,
        Tag::Strong => true,
        Tag::Strikethrough => true,
        _ => false,
    }
}

/// The elements that carry a number or a text: lists, links, images and
/// code blocks.
pub open spec fn is_content_tag(tag: Tag) -> bool {
    tag is List || tag is Link || tag is Image || tag is CodeBlock
}

/// What [`leaf_event`] hands out: the event itself, unless it is a start
/// or an end.
pub open spec fn leaf_part(model: DocEvent) -> Option<DocEvent> {
    match model {
        DocEvent::Start(_) => None,
        DocEvent::End(_) => None,
        _ => Some(model),
    }
}

/// What [`block_end`] hands out: the end of a block.
pub open spec fn block_end_part(model: DocEvent) -> Option<TagEnd> {
    match model {
        DocEvent::End(end) => if is_block_end(end) {
            Some(end)
        } else {
            None
        },
        _ => None,
    }
}

/// What [`span_end`] hands out: the end of a span, and `TagEnd::Other`
/// for every other end.
pub open spec fn span_end_part(model: DocEvent) -> Option<TagEnd> {
    match model {
        DocEvent::End(end) => if is_span_end(end) {
            Some(end)
        } else {
            Some(TagEnd::Other)
        },
        _ => None,
    }
}

/// What [`plain_start`] hands out, `found`, fits the event: it is the
/// element that starts if that carries no data, a table without columns if
/// a table starts, and nothing otherwise.
pub open spec fn is_plain_start_of(found: Option<Tag>, model: DocEvent) -> bool {
    match model {
        DocEvent::Start(Tag::Table(_)) => found matches Some(Tag::Table(columns))
            && columns@.len() == 0,
        DocEvent::Start(tag) => found == (if is_plain_tag(tag) {
            Some(tag)
        } else {
            None
        }),
        _ => found is None,
    }
}

/// What [`content_start`] hands out: the list, link, image or code block
/// that starts.
pub open spec fn content_start_part(model: DocEvent) -> Option<Tag> {
    match model {
        DocEvent::Start(tag) => if is_content_tag(tag) {
            Some(tag)
        } else {
            None
        },
        _ => None,
    }
}

/// What [`heading_level`] hands out: the level of the heading that starts.
pub open spec fn heading_part(model: DocEvent) -> Option<HeadingLevel> {
    match model {
        DocEvent::Start(Tag::Heading(level)) => Some(level),
        _ => None,
    }
}

/// What [`table_alignment`] hands out: the alignment of the column with the
/// given index of the table that starts.
pub open spec fn alignment_part(model: DocEvent, column: int) -> Option<Alignment> {
    if 0 <= column < table_columns(model).len() {
        Some(table_columns(model)[column])
    } else {
        None
    }
}

/// A table has no more columns than a vector can hold.
proof fn lemma_table_columns_fit(model: DocEvent)
    ensures
        table_columns(model).len() <= usize::MAX,
{
    match model {
        DocEvent::Start(Tag::Table(columns)) => {
            assert(columns@.len() == columns.len());
        },
        _ => {},
    }
}

/// Reads a `pulldown_cmark::Event` that is neither `Start` nor `End`, and
/// gives the [`DocEvent`] of the same kind with the same text or flag; both
/// kinds of HTML give `DocEvent::Html`.  `None` for `Start` and `End`.
#[verifier::external_body]
fn leaf_event(event: &pulldown_cmark::Event<'_>) -> (r: Option<DocEvent>)
    ensures
        r == leaf_part(event_model(*event)),
{
    match event {
        MdEvent::Text(s) => Some(DocEvent::Text(s.to_string())),
        MdEvent::Code(s) => Some(DocEvent::Code(s.to_string())),
        MdEvent::Html(s) | MdEvent::InlineHtml(s) => Some(DocEvent::Html(s.to_string())),
        MdEvent::FootnoteReference(s) => Some(DocEvent::FootnoteReference(s.to_string())),
        MdEvent::InlineMath(s) => Some(DocEvent::InlineMath(s.to_string())),
        MdEvent::DisplayMath(s) => Some(DocEvent::DisplayMath(s.to_string())),
        MdEvent::SoftBreak => Some(DocEvent::SoftBreak),
        MdEvent::HardBreak => Some(DocEvent::HardBreak),
        MdEvent::Rule => Some(DocEvent::Rule),
        MdEvent::TaskListMarker(checked) => Some(DocEvent::TaskListMarker(*checked)),
        _ => None,
    }
}

/// Reads a `pulldown_cmark::Event::End` whose `pulldown_cmark::TagEnd` is
/// that of a block, and gives the [`TagEnd`] of the same kind.  `None` for
/// any other event.
#[verifier::external_body]
fn block_end(event: &pulldown_cmark::Event<'_>) -> (r: Option<TagEnd>)
    ensures
        r == block_end_part(event_model(*event)),
{
    match event {
        MdEvent::End(MdTagEnd::Paragraph) => Some(TagEnd::Paragraph),
        MdEvent::End(MdTagEnd::Heading(_)) => Some(TagEnd::Heading),
        MdEvent::End(MdTagEnd::BlockQuote(_)) => Some(TagEnd::BlockQuote),
        MdEvent::End(MdTagEnd::CodeBlock) => Some(TagEnd::CodeBlock),
        MdEvent::End(MdTagEnd::List(_)) => Some(TagEnd::List),
        MdEvent::End(MdTagEnd::Item) => Some(TagEnd::Item),
        MdEvent::End(MdTagEnd::Table) => Some(TagEnd::Table),
        MdEvent::End(MdTagEnd::TableHead) => Some(TagEnd::TableHead),
        MdEvent::End(MdTagEnd::TableRow) => Some(TagEnd::TableRow),
        MdEvent::End(MdTagEnd::TableCell) => Some(TagEnd::TableCell),
        _ => None,
    }
}

/// Reads a `pulldown_cmark::Event::End` whose `pulldown_cmark::TagEnd` is
/// that of a span, and gives the [`TagEnd`] of the same kind; for any other
/// `End` it gives `TagEnd::Other`.  `None` for an event that is no `End`.
#[verifier::external_body]
fn span_end(event: &pulldown_cmark::Event<'_>) -> (r: Option<TagEnd>)
    ensures
        r == span_end_part(event_model(*event)),
{
    match event {
        MdEvent::End(MdTagEnd::Emphasis) => Some(TagEnd::Emphasis),
        MdEvent::End(MdTagEnd::Strong) => Some(TagEnd::Strong),
        MdEvent::End(MdTagEnd::Strikethrough) => Some(TagEnd::Strikethrough),
        MdEvent::End(MdTagEnd::Link) => Some(TagEnd::Link),
        MdEvent::End(MdTagEnd::Image) => Some(TagEnd::Image),
        MdEvent::End(_) => Some(TagEnd::Other),
        _ => None,
    }
}

/// Reads a `pulldown_cmark::Event::Start` whose `pulldown_cmark::Tag` is
/// one of those listed, and gives the [`Tag`] of the same kind; a table
/// comes without its columns, which [`table_alignment`] reads.  `None` for
/// any other event.
#[verifier::external_body]
fn plain_start(event: &pulldown_cmark::Event<'_>) -> (r: Option<Tag>)
    ensures
        is_plain_start_of(r, event_model(*event)),
{
    match event {
        MdEvent::Start(MdTag::Paragraph) => Some(Tag::Paragraph),
        MdEvent::Start(MdTag::BlockQuote(_)) => Some(Tag::BlockQuote),
        MdEvent::Start(MdTag::Item) => Some(Tag::Item),
        MdEvent::Start(MdTag::Table(_)) => Some(Tag::Table(Vec::new())),
        MdEvent::Start(MdTag::TableHead) => Some(Tag::TableHead),
        MdEvent::Start(MdTag::TableRow) => Some(Tag::TableRow),
        MdEvent::Start(MdTag::TableCell) => Some(Tag::TableCell),
        MdEvent::Start(MdTag::Emphasis) => Some(Tag::Emphasis),
        MdEvent::Start(MdTag::Strong) => Some(Tag::Strong),
        MdEvent::Start(MdTag::Strikethrough) => Some(Tag::Strikethrough),
        _ => None,
    }
}

/// Reads a `pulldown_cmark::Event::Start` of a list, a link, an image or a
/// code block, and gives the [`Tag`] of the same kind with the first
/// number, the destination or the info string that the
/// `pulldown_cmark::Tag` carries.  `None` for any other event.
#[verifier::external_body]
fn content_start(event: &pulldown_cmark::Event<'_>) -> (r: Option<Tag>)
    ensures
        r == content_start_part(event_model(*event)),
{
    match event {
        MdEvent::Start(MdTag::List(first)) => Some(Tag::List(*first)),
        MdEvent::Start(MdTag::Link { dest_url, .. }) => Some(Tag::Link(dest_url.to_string())),
        MdEvent::Start(MdTag::Image { dest_url, .. }) => Some(Tag::Image(dest_url.to_string())),
        MdEvent::Start(MdTag::CodeBlock(MdCodeBlockKind::Indented)) => Some(
            Tag::CodeBlock(CodeBlockKind::Indented),
        ),
        MdEvent::Start(MdTag::CodeBlock(MdCodeBlockKind::Fenced(info))) => Some(
            Tag::CodeBlock(CodeBlockKind::Fenced(info.to_string())),
        ),
        _ => None,
    }
}

/// Reads a `pulldown_cmark::Event::Start` of a heading, and gives the
/// [`HeadingLevel`] of the same name as its `pulldown_cmark::HeadingLevel`.
/// `None` for any other event.
#[verifier::external_body]
fn heading_level(event: &pulldown_cmark::Event<'_>) -> (r: Option<HeadingLevel>)
    ensures
        r == heading_part(event_model(*event)),
{
    match event {
        MdEvent::Start(MdTag::Heading { level: MdHeadingLevel::H1, .. }) => Some(HeadingLevel::H1),
        MdEvent::Start(MdTag::Heading { level: MdHeadingLevel::H2, .. }) => Some(HeadingLevel::H2),
        MdEvent::Start(MdTag::Heading { level: MdHeadingLevel::H3, .. }) => Some(HeadingLevel::H3),
        MdEvent::Start(MdTag::Heading { level: MdHeadingLevel::H4, .. }) => Some(HeadingLevel::H4),
        MdEvent::Start(MdTag::Heading { level: MdHeadingLevel::H5, .. }) => Some(HeadingLevel::H5),
        MdEvent::Start(MdTag::Heading { level: MdHeadingLevel::H6, .. }) => Some(HeadingLevel::H6),
        _ => None,
    }
}

/// Reads a `pulldown_cmark::Event::Start` of a table, and gives the
/// [`Alignment`] that stands for the `pulldown_cmark::Alignment` of the
/// column with the given index.  `None` for any other event, and for an
/// index that the table has no column for.
#[verifier::external_body]
fn table_alignment(event: &pulldown_cmark::Event<'_>, column: usize) -> (r: Option<Alignment>)
    ensures
        r == alignment_part(event_model(*event), column as int),
{
    match event {
        MdEvent::Start(MdTag::Table(columns)) => match columns.get(column) {
            Some(MdAlignment::None) => Some(Alignment::Unspecified),
            Some(MdAlignment::Left) => Some(Alignment::Left),
            Some(MdAlignment::Center) => Some(Alignment::Center),
            Some(MdAlignment::Right) => Some(Alignment::Right),
            None => None,
        },
        _ => None,
    }
}

} // verus!
