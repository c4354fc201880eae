//! The theme preambles: Typst set and show rules that go before the document.

use crate::text::str_eq;
use vstd::prelude::*;
use vstd::string::StringExecFns;

verus! {

/// The start of every preamble, up to the name of the paper.
pub const PAGE_OPEN: &'static str = r##"#set page(paper: ""##;

/// The rules of the `default` theme that follow the name of the paper.
pub const DEFAULT_RULES: &'static str = r##"", margin: (x: 2.5cm, y: 2.5cm))
#set text(size: 11pt)
#set heading(numbering: none)
#set par(justify: true, leading: 0.65em)

#show heading.where(level: 1): it => {
  set text(size: 20pt, weight: "bold")
  block(above: 1.5em, below: 0.8em, it)
}

#show heading.where(level: 2): it => {
  set text(size: 16pt, weight: "bold")
  block(above: 1.3em, below: 0.6em, it)
}

#show heading.where(level: 3): it => {
  set text(size: 13pt, weight: "bold")
  block(above: 1.2em, below: 0.5em, it)
}

#show raw.where(block: true): it => {
  set text(size: 9pt)
  block(
    fill: luma(245),
    inset: 10pt,
    radius: 4pt,
    width: 100%,
    it
  )
}

#show raw.where(block: false): it => {
  box(
    fill: luma(240),
    inset: (x: 3pt, y: 0pt),
    outset: (y: 3pt),
    radius: 2pt,
    it
  )
}

#show link: it => {
  set text(fill: rgb("#0366d6"))
  underline(it)
}
"##;

/// The rules of the `github` theme that follow the name of the paper.
pub const GITHUB_RULES: &'static str = r##"", margin: (x: 2cm, y: 2cm))
#set text(font: "Inter", size: 10.5pt)
#set heading(numbering: none)
#set par(justify: false, leading: 0.7em)

#show heading.where(level: 1): it => {
  set text(size: 24pt, weight: "bold")
  block(above: 1.2em, below: 0.5em, {
    it
    line(length: 100%, stroke: 0.5pt + luma(200))
  })
}

#show heading.where(level: 2): it => {
  set text(size: 18pt, weight: "bold")
  block(above: 1.2em, below: 0.5em, {
    it
    line(length: 100%, stroke: 0.5pt + luma(200))
  })
}

#show heading.where(level: 3): it => {
  set text(size: 14pt, weight: "bold")
  block(above: 1em, below: 0.4em, it)
}

#show raw.where(block: true): it => {
  set text(font: "Fira Code", size: 9pt)
  block(
    fill: rgb("#f6f8fa"),
    inset: 12pt,
    radius: 6pt,
    width: 100%,
    it
  )
}

#show raw.where(block: false): it => {
  set text(font: "Fira Code", size: 9pt)
  box(
    fill: rgb("#f6f8fa"),
    inset: (x: 4pt, y: 2pt),
    radius: 3pt,
    it
  )
}

#show link: it => {
  set text(fill: rgb("#0366d6"))
  it
}
"##;

/// The rules of the `academic` theme that follow the name of the paper.
pub const ACADEMIC_RULES: &'static str = r##"", margin: (x: 3cm, y: 3cm))
#set text(size: 12pt)
#set heading(numbering: "1.1")
#set par(justify: true, leading: 0.8em, first-line-indent: 1em)

#show heading.where(level: 1): it => {
  set text(size: 16pt, weight: "bold")
  block(above: 2em, below: 1em, it)
}

#show heading.where(level: 2): it => {
  set text(size: 14pt, weight: "bold")
  block(above: 1.5em, below: 0.8em, it)
}

#show heading.where(level: 3): it => {
  set text(size: 12pt, weight: "bold", style: "italic")
  block(above: 1.2em, below: 0.6em, it)
}

#show raw.where(block: true): it => {
  set text(font: "Menlo", size: 9pt)
  block(
    stroke: 0.5pt + luma(180),
    inset: 10pt,
    width: 100%,
    it
  )
}

#show raw.where(block: false): it => {
  set text(font: "Menlo", size: 10pt)
  it
}

#show link: it => {
  set text(fill: blue)
  it
}
"##;

/// The rules of the `minimal` theme that follow the name of the paper.
pub const MINIMAL_RULES: &'static str = r##"", margin: (x: 2cm, y: 2cm))
#set text(font: "Inter", size: 11pt)
#set heading(numbering: none)
#set par(justify: false, leading: 0.65em)

#show heading.where(level: 1): it => {
  set text(size: 18pt, weight: "medium")
  block(above: 1.5em, below: 0.8em, it)
}

#show heading.where(level: 2): it => {
  set text(size: 14pt, weight: "medium")
  block(above: 1.2em, below: 0.6em, it)
}

#show heading.where(level: 3): it => {
  set text(size: 12pt, weight: "medium")
  block(above: 1em, below: 0.5em, it)
}

#show raw.where(block: true): it => {
  set text(size: 9pt)
  block(
    inset: 10pt,
    width: 100%,
    it
  )
}

#show link: it => {
  underline(it)
}
"##;

/// The default theme: justified text, shaded code.
pub open spec fn default_theme_text(paper: Seq<char>) -> Seq<char> {
    PAGE_OPEN@ + paper + DEFAULT_RULES@
}

/// The preamble of the `default` theme for the given paper.
pub fn default_theme(paper: &str) -> (r: String)
    ensures
        r@ == default_theme_text(paper@),
{
    let mut preamble = String::from_str(PAGE_OPEN);
    preamble.append(paper);
    preamble.append(DEFAULT_RULES);
    preamble
}

/// The `github` theme: ruled headings, sans-serif text.
pub open spec fn github_theme_text(paper: Seq<char>) -> Seq<char> {
    PAGE_OPEN@ + paper + GITHUB_RULES@
}

/// The preamble of the `github` theme for the given paper.
pub fn github_theme(paper: &str) -> (r: String)
    ensures
        r@ == github_theme_text(paper@),
{
    let mut preamble = String::from_str(PAGE_OPEN);
    preamble.append(paper);
    preamble.append(GITHUB_RULES);
    preamble
}

/// The `academic` theme: numbered headings, wide margins.
pub open spec fn academic_theme_text(paper: Seq<char>) -> Seq<char> {
    PAGE_OPEN@ + paper + ACADEMIC_RULES@
}

/// The preamble of the `academic` theme for the given paper.
pub fn academic_theme(paper: &str) -> (r: String)
    ensures
        r@ == academic_theme_text(paper@),
{
    let mut preamble = String::from_str(PAGE_OPEN);
    preamble.append(paper);
    preamble.append(ACADEMIC_RULES);
    preamble
}

/// The `minimal` theme: little besides sizes.
pub open spec fn minimal_theme_text(paper: Seq<char>) -> Seq<char> {
    PAGE_OPEN@ + paper + MINIMAL_RULES@
}

/// The preamble of the `minimal` theme for the given paper.
pub fn minimal_theme(paper: &str) -> (r: String)
    ensures
        r@ == minimal_theme_text(paper@),
{
    let mut preamble = String::from_str(PAGE_OPEN);
    preamble.append(paper);
    preamble.append(MINIMAL_RULES);
    preamble
}

/// The preamble of the theme called `theme`; a name that is none of
/// `github`, `academic` and `minimal` stands for the default theme.
pub open spec fn theme_preamble(theme: Seq<char>, paper: Seq<char>) -> Seq<char> {
    if theme == "github"@ {
        github_theme_text(paper)
    } else if theme == "academic"@ {
        academic_theme_text(paper)
    } else if theme == "minimal"@ {
        minimal_theme_text(paper)
    } else {
        default_theme_text(paper)
    }
}

/// The preamble of the theme called `theme` for the given paper.
pub fn get_theme_preamble(theme: &str, paper: &str) -> (r: String)
    ensures
        r@ == theme_preamble(theme@, paper@),
{
    if str_eq(theme, "github") {
        github_theme(paper)
    } else if str_eq(theme, "academic") {
        academic_theme(paper)
    } else if str_eq(theme, "minimal") {
        minimal_theme(paper)
    } else {
        default_theme(paper)
    }
}

} // verus!
