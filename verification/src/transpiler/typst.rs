//! The converter: it reads document events one by one and writes Typst
//! markup.

use crate::config::themes::{get_theme_preamble, theme_preamble};
use crate::config::Config;
use crate::parser::frontmatter::Frontmatter;
use crate::parser::markdown::{Alignment, CodeBlockKind, DocEvent, Tag, TagEnd};
use crate::text::{ends_with_char, opt_view};
use crate::transpiler::escape::escape_typst_text;
use crate::transpiler::markup::{
    code_block_markup_of, heading_marker_of, image_markup_of, indentation, link_markup_of,
    row_markup_of, table_open_markup,
};
use crate::transpiler::model::{
    document, initial, on_code, on_display_math, on_end, on_hard_break, on_inline_math, on_rule,
    on_soft_break, on_start, on_task_list_marker, on_text, run, step, with_prelude,
    ConverterState, ListContext,
};
use vstd::prelude::*;
use vstd::string::StringExecFns;

verus! {

/// The markup of a whole document: the preamble of the configured theme,
/// the header that the metadata gives, and the markup of the events.
pub fn to_typst(events: Vec<DocEvent>, frontmatter: &Frontmatter, config: &Config) -> (out: String)
    ensures
        out@ == document(
            theme_preamble(config.theme@, config.paper()),
            frontmatter.header(),
            events@,
        ),
{
    let mut converter = TypstConverter::new(config);
    converter.convert(events, frontmatter)
}

/// A conversion in progress.  One converter serves one document.
pub struct TypstConverter<'a> {
    config: &'a Config,
    output: String,
    list_stack: Vec<ListContext>,
    in_table: bool,
    table_alignments: Vec<Alignment>,
    table_row: Vec<String>,
    current_cell: String,
    in_heading: bool,
    in_emphasis: bool,
    in_strong: bool,
    in_strikethrough: bool,
    in_link: bool,
    link_url: Option<String>,
    in_code_block: bool,
    code_block_lang: Option<String>,
    code_block_content: String,
}

impl<'a> View for TypstConverter<'a> {
    type V = ConverterState;

    closed spec fn view(&self) -> ConverterState {
        ConverterState {
            output: self.output@,
            list_stack: self.list_stack@,
            in_table: self.in_table,
            table_alignments: self.table_alignments@,
            table_row: self.table_row.deep_view(),
            current_cell: self.current_cell@,
            in_heading: self.in_heading,
            in_emphasis: self.in_emphasis,
            in_strong: self.in_strong,
            in_strikethrough: self.in_strikethrough,
            in_link: self.in_link,
            link_url: opt_view(self.link_url),
            in_code_block: self.in_code_block,
            code_block_lang: opt_view(self.code_block_lang),
            code_block_content: self.code_block_content@,
        }
    }
}

impl<'a> TypstConverter<'a> {
    /// The settings that the converter was made with.
    pub closed spec fn config(&self) -> &Config {
        self.config
    }

    /// A converter that has read nothing yet.
    pub fn new(config: &'a Config) -> (converter: Self)
        ensures
            converter@ == initial(),
            converter.config() == config,
    {
        let converter = TypstConverter {
            config,
            output: String::new(),
            list_stack: Vec::new(),
            in_table: false,
            table_alignments: Vec::new(),
            table_row: Vec::new(),
            current_cell: String::new(),
            in_heading: false,
            in_emphasis: false,
            in_strong: false,
            in_strikethrough: false,
            in_link: false,
            link_url: None,
            in_code_block: false,
            code_block_lang: None,
            code_block_content: String::new(),
        };
        assert(converter.table_row.deep_view() =~= Seq::<Seq<char>>::empty());
        converter
    }

    /// The markup written so far.
    pub fn output(&self) -> (r: &str)
        ensures
            r@ == self@.output,
    {
        self.output.as_str()
    }

    /// The number of lists that are open.
    pub fn list_depth(&self) -> (r: usize)
        ensures
            r == self@.list_stack.len(),
    {
        self.list_stack.len()
    }

    /// The number of finished cells in the table row that is being read.
    pub fn pending_cells(&self) -> (r: usize)
        ensures
            r == self@.table_row.len(),
    {
        self.table_row.len()
    }

    /// Writes the head of the document, reads the events in order, and
    /// returns the markup.
    pub fn convert(&mut self, events: Vec<DocEvent>, frontmatter: &Frontmatter) -> (out: String)
        ensures
            final(self).config() == old(self).config(),
            final(self)@ == run(
                with_prelude(
                    old(self)@,
                    theme_preamble(old(self).config().theme@, old(self).config().paper()),
                    frontmatter.header(),
                ),
                events@,
            ),
            out@ == final(self)@.output,
    {
        let preamble = get_theme_preamble(self.config.theme.as_str(), self.config.paper_typst());
        self.output.append(preamble.as_str());
        self.output.append("\n");
        let header = frontmatter.to_typst_header();
        if !header.as_str().is_empty() {
            self.output.append(header.as_str());
            self.output.append("\n");
        }
        let ghost start = self@;
        let ghost all = events@;
        proof {
            assert(start.output =~= with_prelude(
                old(self)@,
                theme_preamble(old(self).config().theme@, old(self).config().paper()),
                frontmatter.header(),
            ).output);
            assert(all.take(0) =~= Seq::<DocEvent>::empty());
        }
        for event in it: events
            invariant
                it.seq() == all,
                self.config() == old(self).config(),
                self@ == run(start, all.take(it.index())),
        {
            proof {
                let next = all.take(it.index() + 1);
                assert(next.drop_last() =~= all.take(it.index()));
                assert(next.last() == event);
            }
            self.process_event(event);
        }
        assert(all.take(all.len() as int) =~= all);
        self.output.clone()
    }

    /// Reads one event.
    pub fn process_event(&mut self, event: DocEvent)
        ensures
            final(self).config() == old(self).config(),
            final(self)@ == step(old(self)@, event),
    {
        match event {
            DocEvent::Start(tag) => self.start_tag(tag),
            DocEvent::End(tag) => self.end_tag(tag),
            DocEvent::Text(text) => self.text(text.as_str()),
            DocEvent::Code(code) => self.inline_code(code.as_str()),
            DocEvent::Html(html) => self.html(html.as_str()),
            DocEvent::SoftBreak => self.soft_break(),
            DocEvent::HardBreak => self.hard_break(),
            DocEvent::Rule => self.rule(),
            DocEvent::FootnoteReference(_) => {},
            DocEvent::TaskListMarker(checked) => self.task_list_marker(checked),
            DocEvent::InlineMath(math) => self.inline_math(math.as_str()),
            DocEvent::DisplayMath(math) => self.display_math(math.as_str()),
        }
    }

    /// Reads the start of an element.
    pub fn start_tag(&mut self, tag: Tag)
        ensures
            final(self).config() == old(self).config(),
            final(self)@ == on_start(old(self)@, tag),
    {
        match tag {
            Tag::Paragraph => {
                if !self.in_table && !self.output.as_str().is_empty() && !ends_with_char(
                    self.output.as_str(),
                    '\n',
                ) {
                    self.output.append("\n");
                }
            },
            Tag::Heading(level) => {
                self.in_heading = true;
                if !self.output.as_str().is_empty() {
                    self.output.append("\n");
                }
                self.output.append(heading_marker_of(level));
            },
            Tag::BlockQuote => {
                self.output.append("\n#quote(block: true)[\n");
            },
            Tag::CodeBlock(kind) => {
                self.in_code_block = true;
                self.code_block_content = String::new();
                self.code_block_lang = match kind {
                    CodeBlockKind::Fenced(lang) => if lang.as_str().is_empty() {
                        None
                    } else {
                        Some(lang)
                    },
                    CodeBlockKind::Indented => None,
                };
            },
            Tag::List(start) => {
                let context = match start {
                    Some(first) => ListContext { ordered: true, index: first },
                    None => ListContext { ordered: false, index: 1 },
                };
                self.list_stack.push(context);
                self.output.append("\n");
            },
            Tag::Item => {
                let depth = self.list_stack.len();
                if depth > 0 {
                    let top = self.list_stack[depth - 1];
                    let indent = indentation(depth);
                    self.output.append(indent.as_str());
                    if top.ordered {
                        self.output.append("+ ");
                        let next = if top.index < u64::MAX {
                            top.index + 1
                        } else {
                            0
                        };
                        self.list_stack.set(depth - 1, ListContext { ordered: true, index: next });
                    } else {
                        self.output.append("- ");
                    }
                }
            },
            Tag::Emphasis => {
                self.in_emphasis = true;
                self.output.append("_");
            },
            Tag::Strong => {
                self.in_strong = true;
                self.output.append("*");
            },
            Tag::Strikethrough => {
                self.in_strikethrough = true;
                self.output.append("#strike[");
            },
            Tag::Link(dest) => {
                self.in_link = true;
                self.link_url = Some(dest);
            },
            Tag::Image(dest) => {
                let image = image_markup_of(dest.as_str());
                self.output.append(image.as_str());
            },
            Tag::Table(alignments) => {
                self.in_table = true;
                let open = table_open_markup(&alignments);
                self.table_alignments = alignments;
                self.output.append(open.as_str());
            },
            Tag::TableHead => {
                self.table_row = Vec::new();
                assert(self.table_row.deep_view() =~= Seq::<Seq<char>>::empty());
            },
            Tag::TableRow => {
                self.table_row = Vec::new();
                assert(self.table_row.deep_view() =~= Seq::<Seq<char>>::empty());
            },
            Tag::TableCell => {
                self.current_cell = String::new();
            },
            Tag::Other => {},
        }
    }

    /// Reads the end of an element.
    pub fn end_tag(&mut self, tag: TagEnd)
        ensures
            final(self).config() == old(self).config(),
            final(self)@ == on_end(old(self)@, tag),
    {
        match tag {
            TagEnd::Paragraph => {
                if !self.in_table {
                    self.output.append("\n\n");
                }
            },
            TagEnd::Heading => {
                self.in_heading = false;
                self.output.append("\n\n");
            },
            TagEnd::BlockQuote => {
                self.output.append("]\n\n");
            },
            TagEnd::CodeBlock => {
                self.in_code_block = false;
                let lang = self.code_block_lang.take();
                let mut content = String::new();
                std::mem::swap(&mut self.code_block_content, &mut content);
                let block = code_block_markup_of(&lang, content.as_str());
                self.output.append(block.as_str());
            },
            TagEnd::List => {
                self.list_stack.pop();
                if self.list_stack.len() == 0 {
                    self.output.append("\n");
                }
            },
            TagEnd::Item => {
                if !ends_with_char(self.output.as_str(), '\n') {
                    self.output.append("\n");
                }
            },
            TagEnd::Emphasis => {
                self.in_emphasis = false;
                self.output.append("_");
            },
            TagEnd::Strong => {
                self.in_strong = false;
                self.output.append("*");
            },
            TagEnd::Strikethrough => {
                self.in_strikethrough = false;
                self.output.append("]");
            },
            TagEnd::Link => {
                self.in_link = false;
                self.link_url = None;
            },
            TagEnd::Image => {},
            TagEnd::Table => {
                self.in_table = false;
                self.output.append(")\n\n");
            },
            TagEnd::TableHead => {
                let row = row_markup_of(&self.table_row, true);
                self.output.append(row.as_str());
            },
            TagEnd::TableRow => {
                let row = row_markup_of(&self.table_row, false);
                self.output.append(row.as_str());
            },
            TagEnd::TableCell => {
                let mut cell = String::new();
                std::mem::swap(&mut self.current_cell, &mut cell);
                self.table_row.push(cell);
                assert(self.table_row.deep_view() =~= old(self).table_row.deep_view().push(
                    old(self).current_cell@,
                ));
            },
            TagEnd::Other => {},
        }
    }

    /// Reads a run of text.
    pub fn text(&mut self, text: &str)
        ensures
            final(self).config() == old(self).config(),
            final(self)@ == on_text(old(self)@, text@),
    {
        if self.in_code_block {
            self.code_block_content.append(text);
            return ;
        }
        if self.in_table {
            let escaped = escape_typst_text(text);
            self.current_cell.append(escaped.as_str());
        } else if self.in_link {
            match self.link_url.take() {
                Some(url) => {
                    let link = link_markup_of(url.as_str(), text);
                    self.output.append(link.as_str());
                },
                None => {
                    let escaped = escape_typst_text(text);
                    self.output.append(escaped.as_str());
                },
            }
        } else {
            let escaped = escape_typst_text(text);
            self.output.append(escaped.as_str());
        }
    }

    /// Reads an inline code span.
    pub fn inline_code(&mut self, code: &str)
        ensures
            final(self).config() == old(self).config(),
            final(self)@ == on_code(old(self)@, code@),
    {
        if self.in_table {
            self.current_cell.append("`");
            self.current_cell.append(code);
            self.current_cell.append("`");
        } else {
            self.output.append("`");
            self.output.append(code);
            self.output.append("`");
            assert(self.output@ =~= old(self).output@ + ("`"@ + code@ + "`"@));
        }
    }

    /// Reads raw HTML, for which there is no markup: nothing changes.
    pub fn html(&mut self, html: &str)
        ensures
            *final(self) == *old(self),
    {
    }

    /// Reads a soft line break.
    pub fn soft_break(&mut self)
        ensures
            final(self).config() == old(self).config(),
            final(self)@ == on_soft_break(old(self)@),
    {
        if self.in_code_block {
            self.code_block_content.append("\n");
        } else if !self.in_table {
            self.output.append(" ");
        }
    }

    /// Reads a hard line break.
    pub fn hard_break(&mut self)
        ensures
            final(self).config() == old(self).config(),
            final(self)@ == on_hard_break(old(self)@),
    {
        if self.in_code_block {
            self.code_block_content.append("\n");
        } else {
            self.output.append(" \\\n");
        }
    }

    /// Reads a thematic break.
    pub fn rule(&mut self)
        ensures
            final(self).config() == old(self).config(),
            final(self)@ == on_rule(old(self)@),
    {
        self.output.append("\n#line(length: 100%)\n\n");
    }

    /// Reads the checkbox of a task list item.
    pub fn task_list_marker(&mut self, checked: bool)
        ensures
            final(self).config() == old(self).config(),
            final(self)@ == on_task_list_marker(old(self)@, checked),
    {
        let marker = if checked {
            "[x]"
        } else {
            "[ ]"
        };
        self.output.append(marker);
        self.output.append(" ");
        assert(self.output@ =~= old(self).output@ + (marker@ + " "@));
    }

    /// Reads an inline formula.
    pub fn inline_math(&mut self, math: &str)
        ensures
            final(self).config() == old(self).config(),
            final(self)@ == on_inline_math(old(self)@, math@),
    {
        self.output.append("$");
        self.output.append(math);
        self.output.append("$");
        assert(self.output@ =~= old(self).output@ + ("$"@ + math@ + "$"@));
    }

    /// Reads a formula on a line of its own.
    pub fn display_math(&mut self, math: &str)
        ensures
            final(self).config() == old(self).config(),
            final(self)@ == on_display_math(old(self)@, math@),
    {
        self.output.append("\n$ ");
        self.output.append(math);
        self.output.append(" $\n");
        assert(self.output@ =~= old(self).output@ + ("\n$ "@ + math@ + " $\n"@));
    }
}

} // verus!
