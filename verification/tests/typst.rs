use md2pdf_rs::config::themes::default_theme;
use md2pdf_rs::config::Config;
use md2pdf_rs::parser::frontmatter::Frontmatter;
use md2pdf_rs::parser::markdown::{
    parse_markdown, Alignment, CodeBlockKind, DocEvent, HeadingLevel, Tag, TagEnd,
};
use md2pdf_rs::transpiler::typst::{to_typst, TypstConverter};

fn convert_md(md: &str) -> String {
    let config = Config::default();
    let events = parse_markdown(md);
    let fm = Frontmatter::default();
    to_typst(events, &fm, &config)
}

fn emit(events: Vec<DocEvent>) -> String {
    let config = Config::default();
    let mut converter = TypstConverter::new(&config);
    for event in events {
        converter.process_event(event);
    }
    converter.output().to_string()
}

fn text(s: &str) -> DocEvent {
    DocEvent::Text(s.to_string())
}

fn start(tag: Tag) -> DocEvent {
    DocEvent::Start(tag)
}

fn end(tag: TagEnd) -> DocEvent {
    DocEvent::End(tag)
}

fn fenced(lang: &str) -> DocEvent {
    start(Tag::CodeBlock(CodeBlockKind::Fenced(lang.to_string())))
}

fn cell(content: Vec<DocEvent>) -> Vec<DocEvent> {
    let mut events = vec![start(Tag::TableCell)];
    events.extend(content);
    events.push(end(TagEnd::TableCell));
    events
}

#[test]
fn test_heading() {
    let result = convert_md("# Hello");
    assert!(result.contains("= Hello"));
}

#[test]
fn test_paragraph() {
    let result = convert_md("Hello world");
    assert!(result.contains("Hello world"));
}

#[test]
fn test_emphasis() {
    let result = convert_md("*italic*");
    assert!(result.contains("_italic_"));
}

#[test]
fn test_strong() {
    let result = convert_md("**bold**");
    assert!(result.contains("*bold*"));
}

#[test]
fn test_code_inline() {
    let result = convert_md("`code`");
    assert!(result.contains("`code`"));
}

#[test]
fn test_list() {
    let result = convert_md("- item 1\n- item 2");
    assert!(result.contains("- item 1"));
    assert!(result.contains("- item 2"));
}

#[test]
fn new_converter_has_written_nothing() {
    let config = Config::default();
    let converter = TypstConverter::new(&config);
    assert_eq!(converter.output(), "");
    assert_eq!(converter.list_depth(), 0);
    assert_eq!(converter.pending_cells(), 0);
}

#[test]
fn document_starts_with_preamble_and_blank_line() {
    let out = to_typst(Vec::new(), &Frontmatter::default(), &Config::default());
    assert_eq!(out, format!("{}\n", default_theme("a4")));
}

#[test]
fn document_uses_theme_and_paper_of_the_config() {
    let config =
        Config { paper_size: "Letter".to_string(), theme: "minimal".to_string(), verbose: true };
    let out = to_typst(Vec::new(), &Frontmatter::default(), &config);
    assert_eq!(out, format!("{}\n", md2pdf_rs::config::themes::minimal_theme("us-letter")));
}

#[test]
fn document_puts_header_between_preamble_and_body() {
    let fm = Frontmatter { author: Some("A".to_string()), ..Frontmatter::default() };
    let out = to_typst(vec![text("body")], &fm, &Config::default());
    assert_eq!(
        out,
        format!("{}\n#align(center, text(size: 12pt)[A])\n\n\nbody", default_theme("a4"))
    );
}

#[test]
fn convert_appends_to_what_the_converter_holds() {
    let config = Config::default();
    let mut converter = TypstConverter::new(&config);
    converter.process_event(text("before"));
    let out = converter.convert(vec![text(" after")], &Frontmatter::default());
    assert_eq!(out, format!("before{}\n after", default_theme("a4")));
    assert_eq!(converter.output(), out);
}

#[test]
fn paragraph_at_the_start_writes_no_separator() {
    assert_eq!(emit(vec![start(Tag::Paragraph)]), "");
    assert_eq!(
        emit(vec![start(Tag::Paragraph), text("a"), end(TagEnd::Paragraph)]),
        "a\n\n"
    );
}

#[test]
fn paragraph_after_an_open_line_starts_a_new_line() {
    assert_eq!(emit(vec![text("a"), start(Tag::Paragraph), text("b")]), "a\nb");
    assert_eq!(emit(vec![DocEvent::SoftBreak, start(Tag::Paragraph), text("b")]), " \nb");
}

#[test]
fn paragraph_after_a_finished_line_writes_no_separator() {
    assert_eq!(
        emit(vec![
            start(Tag::Paragraph),
            text("a"),
            end(TagEnd::Paragraph),
            start(Tag::Paragraph),
            text("b"),
            end(TagEnd::Paragraph),
        ]),
        "a\n\nb\n\n"
    );
}

#[test]
fn paragraph_inside_a_table_writes_nothing() {
    assert_eq!(
        emit(vec![
            text("x"),
            start(Tag::Table(Vec::new())),
            text("y"),
            start(Tag::TableCell),
            start(Tag::Paragraph),
            end(TagEnd::Paragraph),
        ]),
        "x\n#table(\n  columns: (),\n  align: (),\n"
    );
}

#[test]
fn heading_markers_by_level() {
    let levels = [
        (HeadingLevel::H1, "= t\n\n"),
        (HeadingLevel::H2, "== t\n\n"),
        (HeadingLevel::H3, "=== t\n\n"),
        (HeadingLevel::H4, "==== t\n\n"),
        (HeadingLevel::H5, "===== t\n\n"),
        (HeadingLevel::H6, "====== t\n\n"),
    ];
    for (level, expected) in levels {
        assert_eq!(emit(vec![start(Tag::Heading(level)), text("t"), end(TagEnd::Heading)]), expected);
    }
}

#[test]
fn heading_after_content_is_separated() {
    assert_eq!(emit(vec![text("x"), start(Tag::Heading(HeadingLevel::H2))]), "x\n== ");
    assert_eq!(
        emit(vec![
            start(Tag::Paragraph),
            text("x"),
            end(TagEnd::Paragraph),
            start(Tag::Heading(HeadingLevel::H1)),
            text("T"),
            end(TagEnd::Heading),
        ]),
        "x\n\n\n= T\n\n"
    );
}

#[test]
fn block_quote_is_a_quote_container() {
    assert_eq!(
        emit(vec![
            start(Tag::BlockQuote),
            start(Tag::Paragraph),
            text("q"),
            end(TagEnd::Paragraph),
            end(TagEnd::BlockQuote),
        ]),
        "\n#quote(block: true)[\nq\n\n]\n\n"
    );
}

#[test]
fn spans_are_wrapped() {
    assert_eq!(emit(vec![start(Tag::Emphasis), text("i"), end(TagEnd::Emphasis)]), "_i_");
    assert_eq!(emit(vec![start(Tag::Strong), text("b"), end(TagEnd::Strong)]), "*b*");
    assert_eq!(
        emit(vec![start(Tag::Strikethrough), text("s"), end(TagEnd::Strikethrough)]),
        "#strike[s]"
    );
}

#[test]
fn text_is_escaped() {
    assert_eq!(emit(vec![text("a#b $c @d <e> \\f [g] \"h\"")]), "a\\#b \\$c \\@d \\<e\\> \\\\f [g] \"h\"");
}

#[test]
fn inline_code_is_not_escaped() {
    assert_eq!(emit(vec![DocEvent::Code("a#b$c\\".to_string())]), "`a#b$c\\`");
}

#[test]
fn math_is_not_escaped() {
    assert_eq!(emit(vec![DocEvent::InlineMath("x^2 # $".to_string())]), "$x^2 # $$");
    assert_eq!(emit(vec![DocEvent::DisplayMath("a < b".to_string())]), "\n$ a < b $\n");
}

#[test]
fn breaks_rule_and_task_markers() {
    assert_eq!(emit(vec![text("a"), DocEvent::SoftBreak, text("b")]), "a b");
    assert_eq!(emit(vec![text("a"), DocEvent::HardBreak, text("b")]), "a \\\nb");
    assert_eq!(emit(vec![DocEvent::Rule]), "\n#line(length: 100%)\n\n");
    assert_eq!(emit(vec![DocEvent::TaskListMarker(true), text("done")]), "[x] done");
    assert_eq!(emit(vec![DocEvent::TaskListMarker(false), text("open")]), "[ ] open");
}

#[test]
fn events_without_markup_change_nothing() {
    assert_eq!(
        emit(vec![
            text("a"),
            DocEvent::Html("<b>".to_string()),
            DocEvent::FootnoteReference("1".to_string()),
            start(Tag::Other),
            end(TagEnd::Other),
            end(TagEnd::Image),
            text("b"),
        ]),
        "ab"
    );
}

#[test]
fn image_is_one_directive_with_escaped_destination() {
    assert_eq!(
        emit(vec![start(Tag::Image("a\"b\\c#.png".to_string())), end(TagEnd::Image)]),
        "#image(\"a\\\"b\\\\c#.png\")"
    );
    assert_eq!(
        emit(vec![start(Tag::Image("p.png".to_string())), text("alt"), end(TagEnd::Image)]),
        "#image(\"p.png\")alt"
    );
}

#[test]
fn unordered_list_items() {
    assert_eq!(
        emit(vec![
            start(Tag::List(None)),
            start(Tag::Item),
            text("a"),
            end(TagEnd::Item),
            start(Tag::Item),
            text("b"),
            end(TagEnd::Item),
            end(TagEnd::List),
        ]),
        "\n- a\n- b\n\n"
    );
}

#[test]
fn ordered_list_items() {
    assert_eq!(
        emit(vec![
            start(Tag::List(Some(3))),
            start(Tag::Item),
            text("a"),
            end(TagEnd::Item),
            start(Tag::Item),
            text("b"),
            end(TagEnd::Item),
            end(TagEnd::List),
        ]),
        "\n+ a\n+ b\n\n"
    );
    assert_eq!(
        emit(vec![start(Tag::List(Some(u64::MAX))), start(Tag::Item), start(Tag::Item)]),
        "\n+ + "
    );
}

#[test]
fn nested_items_are_indented_by_two_spaces_a_level() {
    assert_eq!(
        emit(vec![
            start(Tag::List(None)),
            start(Tag::Item),
            text("a"),
            start(Tag::List(Some(1))),
            start(Tag::Item),
            text("b"),
            start(Tag::List(None)),
            start(Tag::Item),
            text("c"),
            end(TagEnd::Item),
            end(TagEnd::List),
            end(TagEnd::Item),
            end(TagEnd::List),
            end(TagEnd::Item),
            end(TagEnd::List),
        ]),
        "\n- a\n  + b\n    - c\n\n"
    );
}

#[test]
fn item_outside_a_list_writes_nothing() {
    assert_eq!(emit(vec![start(Tag::Item), text("a"), end(TagEnd::Item)]), "a\n");
}

#[test]
fn item_end_finishes_the_line_once() {
    assert_eq!(emit(vec![text("a"), end(TagEnd::Item), end(TagEnd::Item)]), "a\n");
    assert_eq!(emit(vec![end(TagEnd::Item)]), "\n");
}

#[test]
fn nested_lists_return_to_an_empty_stack() {
    for n in 1..=5usize {
        let config = Config::default();
        let mut converter = TypstConverter::new(&config);
        for depth in 1..=n {
            converter.process_event(start(Tag::List(if depth % 2 == 0 { Some(1) } else { None })));
            assert_eq!(converter.list_depth(), depth);
        }
        for depth in (0..n).rev() {
            converter.process_event(end(TagEnd::List));
            assert_eq!(converter.list_depth(), depth);
        }
        assert_eq!(converter.output(), format!("{}\n", "\n".repeat(n)));
    }
}

#[test]
fn list_depth_counts_open_lists() {
    let config = Config::default();
    let mut converter = TypstConverter::new(&config);
    let events = vec![
        (start(Tag::List(None)), 1),
        (start(Tag::Item), 1),
        (text("a"), 1),
        (start(Tag::List(Some(2))), 2),
        (start(Tag::Item), 2),
        (end(TagEnd::Item), 2),
        (end(TagEnd::List), 1),
        (end(TagEnd::Item), 1),
        (end(TagEnd::List), 0),
        (end(TagEnd::List), 0),
        (start(Tag::List(None)), 1),
    ];
    for (event, depth) in events {
        converter.process_event(event);
        assert_eq!(converter.list_depth(), depth);
    }
}

#[test]
fn list_end_without_a_list_writes_a_line_break() {
    assert_eq!(emit(vec![end(TagEnd::List)]), "\n");
}

#[test]
fn table_opening_names_each_column() {
    assert_eq!(
        emit(vec![start(Tag::Table(vec![
            Alignment::Left,
            Alignment::Center,
            Alignment::Right,
            Alignment::Unspecified,
        ]))]),
        "\n#table(\n  columns: (auto, auto, auto, auto),\n  align: (left, center, right, left),\n"
    );
    assert_eq!(
        emit(vec![start(Tag::Table(vec![Alignment::Center]))]),
        "\n#table(\n  columns: (auto),\n  align: (center),\n"
    );
}

#[test]
fn table_rows_have_an_entry_for_each_cell() {
    let mut events = vec![start(Tag::Table(vec![Alignment::Left, Alignment::Right]))];
    events.push(start(Tag::TableHead));
    events.extend(cell(vec![text("A")]));
    events.extend(cell(vec![text("B"), text("#"), DocEvent::Code("c#".to_string())]));
    events.push(end(TagEnd::TableHead));
    events.push(start(Tag::TableRow));
    events.extend(cell(vec![]));
    events.extend(cell(vec![text("1"), text("2"), text("3"), text("4")]));
    events.push(end(TagEnd::TableRow));
    events.push(end(TagEnd::Table));
    assert_eq!(
        emit(events),
        "\n#table(\n  columns: (auto, auto),\n  align: (left, right),\n  [*A*],\n  [*B\\#`c#`*],\n  [],\n  [1234],\n)\n\n"
    );
}

#[test]
fn table_row_counts_its_cells() {
    let config = Config::default();
    let mut converter = TypstConverter::new(&config);
    converter.process_event(start(Tag::Table(vec![Alignment::Left, Alignment::Left])));
    converter.process_event(start(Tag::TableRow));
    assert_eq!(converter.pending_cells(), 0);
    for event in cell(vec![text("a"), text("b"), text("c")]) {
        converter.process_event(event);
    }
    assert_eq!(converter.pending_cells(), 1);
    for event in cell(vec![DocEvent::Code("d".to_string())]) {
        converter.process_event(event);
    }
    assert_eq!(converter.pending_cells(), 2);
    let before = converter.output().to_string();
    converter.process_event(end(TagEnd::TableRow));
    assert_eq!(converter.output(), format!("{before}  [abc],\n  [`d`],\n"));
    converter.process_event(start(Tag::TableRow));
    assert_eq!(converter.pending_cells(), 0);
}

#[test]
fn soft_break_inside_a_table_writes_nothing() {
    let mut events = vec![start(Tag::Table(vec![Alignment::Left])), start(Tag::TableRow)];
    events.extend(cell(vec![text("a"), DocEvent::SoftBreak, text("b")]));
    events.push(end(TagEnd::TableRow));
    assert_eq!(emit(events), "\n#table(\n  columns: (auto),\n  align: (left),\n  [ab],\n");
}

#[test]
fn code_block_is_written_as_it_was_read() {
    assert_eq!(
        emit(vec![
            fenced("rust"),
            text("let x = 1;\n"),
            text("# not a heading $x$ <b> \\ @\n"),
            DocEvent::SoftBreak,
            DocEvent::HardBreak,
            text("  end"),
            end(TagEnd::CodeBlock),
        ]),
        "\n```rust\nlet x = 1;\n# not a heading $x$ <b> \\ @\n\n\n  end\n```\n\n"
    );
}

#[test]
fn code_block_loses_trailing_whitespace_only() {
    assert_eq!(
        emit(vec![fenced(""), text("  a  \n\n \t\n"), end(TagEnd::CodeBlock)]),
        "\n```\n  a\n```\n\n"
    );
    assert_eq!(emit(vec![fenced("x"), end(TagEnd::CodeBlock)]), "\n```x\n\n```\n\n");
}

#[test]
fn code_block_language_follows_the_fence_directly() {
    assert_eq!(
        emit(vec![fenced("python"), text("pass\n"), end(TagEnd::CodeBlock)]),
        "\n```python\npass\n```\n\n"
    );
    assert_eq!(
        emit(vec![fenced(""), text("pass\n"), end(TagEnd::CodeBlock)]),
        "\n```\npass\n```\n\n"
    );
    assert_eq!(
        emit(vec![
            start(Tag::CodeBlock(CodeBlockKind::Indented)),
            text("pass\n"),
            end(TagEnd::CodeBlock),
        ]),
        "\n```\npass\n```\n\n"
    );
}

#[test]
fn code_block_fence_is_longer_than_any_run_in_the_content() {
    assert_eq!(
        emit(vec![fenced("md"), text("``` \ncode\n```\n"), end(TagEnd::CodeBlock)]),
        "\n````md\n``` \ncode\n```\n````\n\n"
    );
    assert_eq!(
        emit(vec![fenced(""), text("a `` b ````` c ```"), end(TagEnd::CodeBlock)]),
        "\n``````\na `` b ````` c ```\n``````\n\n"
    );
    assert_eq!(
        emit(vec![fenced(""), text("a `` b"), end(TagEnd::CodeBlock)]),
        "\n```\na `` b\n```\n\n"
    );
}

#[test]
fn code_block_in_a_table_still_collects_its_text() {
    assert_eq!(
        emit(vec![
            start(Tag::Table(Vec::new())),
            fenced(""),
            text("a#"),
            end(TagEnd::CodeBlock),
        ]),
        "\n#table(\n  columns: (),\n  align: (),\n\n```\na#\n```\n\n"
    );
}

#[test]
fn code_block_starts_empty_each_time() {
    assert_eq!(
        emit(vec![
            fenced("a"),
            text("1"),
            end(TagEnd::CodeBlock),
            fenced(""),
            text("2"),
            end(TagEnd::CodeBlock),
        ]),
        "\n```a\n1\n```\n\n\n```\n2\n```\n\n"
    );
}

#[test]
fn link_wrapper_is_written_once() {
    let out = emit(vec![
        start(Tag::Link("https://e.com/?q=\"a\"".to_string())),
        text("one"),
        text(" #two"),
        text(" three"),
        end(TagEnd::Link),
        text(" after"),
    ]);
    assert_eq!(out, "#link(\"https://e.com/?q=\\\"a\\\"\")[one] \\#two three after");
    assert_eq!(out.matches("#link(").count(), 1);
}

#[test]
fn link_with_one_text() {
    assert_eq!(
        emit(vec![start(Tag::Link("http://x".to_string())), text("t<"), end(TagEnd::Link)]),
        "#link(\"http://x\")[t\\<]"
    );
}

#[test]
fn link_with_empty_destination_is_still_written_once() {
    let out =
        emit(vec![start(Tag::Link(String::new())), text("a"), text("b"), end(TagEnd::Link)]);
    assert_eq!(out, "#link(\"\")[a]b");
}

#[test]
fn link_without_text_writes_nothing() {
    assert_eq!(emit(vec![start(Tag::Link("http://x".to_string())), end(TagEnd::Link), text("t")]), "t");
}

#[test]
fn each_link_has_its_own_wrapper() {
    assert_eq!(
        emit(vec![
            start(Tag::Link("a".to_string())),
            text("1"),
            end(TagEnd::Link),
            start(Tag::Link("b".to_string())),
            text("2"),
            text("3"),
            end(TagEnd::Link),
        ]),
        "#link(\"a\")[1]#link(\"b\")[2]3"
    );
}

#[test]
fn link_end_may_come_twice() {
    assert_eq!(
        emit(vec![
            start(Tag::Link("a".to_string())),
            end(TagEnd::Link),
            end(TagEnd::Link),
            text("t"),
        ]),
        "t"
    );
}

#[test]
fn link_text_inside_a_table_goes_to_the_cell() {
    let mut events = vec![start(Tag::Table(vec![Alignment::Left])), start(Tag::TableRow)];
    events.extend(cell(vec![start(Tag::Link("u".to_string())), text("t"), end(TagEnd::Link)]));
    events.push(end(TagEnd::TableRow));
    assert_eq!(emit(events), "\n#table(\n  columns: (auto),\n  align: (left),\n  [t],\n");
}
