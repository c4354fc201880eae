use md2pdf_rs::config::themes::{
    academic_theme, default_theme, get_theme_preamble, github_theme, minimal_theme,
};
use md2pdf_rs::config::{paper_token_of, Config};

fn config(paper: &str, theme: &str) -> Config {
    Config { paper_size: paper.to_string(), theme: theme.to_string(), verbose: false }
}

#[test]
fn default_config_is_a4_and_default_theme() {
    let c = Config::default();
    assert_eq!(c.paper_size, "a4");
    assert_eq!(c.theme, "default");
    assert!(!c.verbose);
    assert_eq!(c.paper_typst(), "a4");
}

#[test]
fn paper_names_map_to_typst_names() {
    assert_eq!(config("letter", "default").paper_typst(), "us-letter");
    assert_eq!(config("legal", "default").paper_typst(), "us-legal");
    assert_eq!(config("a4", "default").paper_typst(), "a4");
}

#[test]
fn paper_names_are_read_without_regard_to_case() {
    assert_eq!(config("Letter", "default").paper_typst(), "us-letter");
    assert_eq!(config("LETTER", "default").paper_typst(), "us-letter");
    assert_eq!(config("LeGaL", "default").paper_typst(), "us-legal");
    assert_eq!(config("A4", "default").paper_typst(), "a4");
}

#[test]
fn unknown_paper_is_a4() {
    assert_eq!(config("", "default").paper_typst(), "a4");
    assert_eq!(config("a5", "default").paper_typst(), "a4");
    assert_eq!(config("letter ", "default").paper_typst(), "a4");
    assert_eq!(config("us-letter", "default").paper_typst(), "a4");
}

#[test]
fn paper_token_reads_lowercase_names_only() {
    assert_eq!(paper_token_of("letter"), "us-letter");
    assert_eq!(paper_token_of("legal"), "us-legal");
    assert_eq!(paper_token_of("Letter"), "a4");
    assert_eq!(paper_token_of("a4"), "a4");
    assert_eq!(paper_token_of(""), "a4");
}

#[test]
fn default_theme_is_exact() {
    let expected = "#set page(paper: \"a4\", margin: (x: 2.5cm, y: 2.5cm))
#set text(size: 11pt)
#set heading(numbering: none)
#set par(justify: true, leading: 0.65em)

#show heading.where(level: 1): it => {
  set text(size: 20pt, weight: \"bold\")
  block(above: 1.5em, below: 0.8em, it)
}

#show heading.where(level: 2): it => {
  set text(size: 16pt, weight: \"bold\")
  block(above: 1.3em, below: 0.6em, it)
}

#show heading.where(level: 3): it => {
  set text(size: 13pt, weight: \"bold\")
  block(above: 1.2em, below: 0.5em, it)
}

#show raw.where(block: true): it => {
  set text(size: 9pt)
  block(
    fill: luma(245),
    inset: 10pt,
    radius: 4pt,
    width: 100%,
    it
  )
}

#show raw.where(block: false): it => {
  box(
    fill: luma(240),
    inset: (x: 3pt, y: 0pt),
    outset: (y: 3pt),
    radius: 2pt,
    it
  )
}

#show link: it => {
  set text(fill: rgb(\"#0366d6\"))
  underline(it)
}
";
    assert_eq!(default_theme("a4"), expected);
}

#[test]
fn minimal_theme_is_exact() {
    let expected = "#set page(paper: \"us-letter\", margin: (x: 2cm, y: 2cm))
#set text(font: \"Inter\", size: 11pt)
#set heading(numbering: none)
#set par(justify: false, leading: 0.65em)

#show heading.where(level: 1): it => {
  set text(size: 18pt, weight: \"medium\")
  block(above: 1.5em, below: 0.8em, it)
}

#show heading.where(level: 2): it => {
  set text(size: 14pt, weight: \"medium\")
  block(above: 1.2em, below: 0.6em, it)
}

#show heading.where(level: 3): it => {
  set text(size: 12pt, weight: \"medium\")
  block(above: 1em, below: 0.5em, it)
}

#show raw.where(block: true): it => {
  set text(size: 9pt)
  block(
    inset: 10pt,
    width: 100%,
    it
  )
}

#show link: it => {
  underline(it)
}
";
    assert_eq!(minimal_theme("us-letter"), expected);
}

#[test]
fn each_theme_sets_the_page_first() {
    for theme in [default_theme("a4"), github_theme("a4"), academic_theme("a4"), minimal_theme("a4")] {
        assert!(theme.starts_with("#set page(paper: \"a4\", margin: (x: "));
        assert!(theme.ends_with("}\n"));
        assert_eq!(theme.matches("\"a4\"").count(), 1);
    }
}

#[test]
fn themes_differ_in_their_rules() {
    assert!(github_theme("a4").contains("#set text(font: \"Inter\", size: 10.5pt)"));
    assert!(github_theme("a4").contains("line(length: 100%, stroke: 0.5pt + luma(200))"));
    assert!(academic_theme("a4").contains("#set heading(numbering: \"1.1\")"));
    assert!(academic_theme("a4").contains("first-line-indent: 1em"));
    assert!(minimal_theme("a4").contains("weight: \"medium\""));
    assert!(default_theme("a4").contains("fill: luma(245)"));
}

#[test]
fn theme_is_chosen_by_name() {
    assert_eq!(get_theme_preamble("github", "a4"), github_theme("a4"));
    assert_eq!(get_theme_preamble("academic", "us-legal"), academic_theme("us-legal"));
    assert_eq!(get_theme_preamble("minimal", "a4"), minimal_theme("a4"));
    assert_eq!(get_theme_preamble("default", "a4"), default_theme("a4"));
}

#[test]
fn unknown_theme_is_the_default() {
    assert_eq!(get_theme_preamble("", "a4"), default_theme("a4"));
    assert_eq!(get_theme_preamble("GitHub", "a4"), default_theme("a4"));
    assert_eq!(get_theme_preamble("fancy", "us-letter"), default_theme("us-letter"));
}

#[test]
fn paper_is_written_as_given() {
    assert!(default_theme("us-letter").starts_with("#set page(paper: \"us-letter\", margin"));
    assert!(default_theme("").starts_with("#set page(paper: \"\", margin"));
}
