use md2pdf_rs::config::themes::default_theme;
use md2pdf_rs::config::Config;
use md2pdf_rs::convert;
use md2pdf_rs::parser::frontmatter::Frontmatter;
use md2pdf_rs::parser::markdown::parse_markdown;
use md2pdf_rs::transpiler::typst::{to_typst, TypstConverter};

fn body_of(md: &str) -> String {
    let out = convert(md, &Frontmatter::default(), &Config::default());
    let preamble = format!("{}\n", default_theme("a4"));
    assert!(out.starts_with(&preamble));
    out[preamble.len()..].to_string()
}

#[test]
fn heading_then_paragraph() {
    let out = convert("# Title\n\nHello *world*.", &Frontmatter::default(), &Config::default());
    assert_eq!(out, format!("{}\n\n= Title\n\nHello _world_.\n\n", default_theme("a4")));
    let heading = out.find("= Title").unwrap();
    let paragraph = out.find("Hello _world_.").unwrap();
    assert!(heading < paragraph);
    assert_eq!(&out[heading..paragraph], "= Title\n\n");
}

#[test]
fn title_goes_between_preamble_and_body() {
    let fm = Frontmatter { title: Some("Report".to_string()), ..Frontmatter::default() };
    let out = convert("# Intro", &fm, &Config::default());
    assert_eq!(
        out,
        format!(
            "{}\n#align(center, text(size: 24pt, weight: \"bold\")[Report])\n\n\n\n= Intro\n\n",
            default_theme("a4")
        )
    );
}

#[test]
fn nested_list_from_markdown() {
    assert_eq!(body_of("- a\n- b\n  - c"), "\n- a\n- b\n  - c\n\n");
    let config = Config::default();
    let mut converter = TypstConverter::new(&config);
    for event in parse_markdown("- a\n- b\n  - c") {
        converter.process_event(event);
    }
    assert_eq!(converter.list_depth(), 0);
}

#[test]
fn table_from_markdown() {
    assert_eq!(
        body_of("| A | B |\n|---|---|\n| 1 | 2 |"),
        "\n#table(\n  columns: (auto, auto),\n  align: (left, left),\n  [*A*],\n  [*B*],\n  [1],\n  [2],\n)\n\n"
    );
}

#[test]
fn code_block_holding_a_fence_from_markdown() {
    let body = body_of("````text\n```\ncode\n```\n````\n");
    assert_eq!(body, "\n````text\n```\ncode\n```\n````\n\n");
    assert_eq!(body.matches("````").count(), 2);
}

#[test]
fn code_block_from_markdown() {
    assert_eq!(body_of("```rust\nlet x = 1;\n```"), "\n```rust\nlet x = 1;\n```\n\n");
    assert_eq!(body_of("    a < b\n"), "\n```\na < b\n```\n\n");
}

#[test]
fn document_with_unclosed_header_is_all_body() {
    let content = "---\ntitle: Report\n# Intro";
    assert_eq!(Frontmatter::split(content), None);
}

#[test]
fn convert_is_parse_then_transpile() {
    let md = "# A\n\ntext with `code`, a [link](http://x.org) and\n> a quote\n\n1. one\n2. two\n";
    let fm = Frontmatter {
        title: Some("T".to_string()),
        date: Some("D".to_string()),
        ..Frontmatter::default()
    };
    let config =
        Config { paper_size: "legal".to_string(), theme: "academic".to_string(), verbose: false };
    assert_eq!(convert(md, &fm, &config), to_typst(parse_markdown(md), &fm, &config));
}

#[test]
fn mixed_document_from_markdown() {
    assert_eq!(
        body_of("Intro #1\n\n## Sub\n\n- [x] done\n- see [docs](http://d.org/a)\n\n***\n\n~~old~~ $x$"),
        "Intro \\#1\n\n\n== Sub\n\n\n- [x] done\n- see #link(\"http://d.org/a\")[docs]\n\n\n#line(length: 100%)\n\n#strike[old] $x$\n\n"
    );
}

#[test]
fn image_and_hard_break_from_markdown() {
    assert_eq!(
        body_of("![alt](img/a.png)  \nnext"),
        "#image(\"img/a.png\")alt \\\nnext\n\n"
    );
}
