use md2pdf_rs::renderer::{format_diagnostics, render_failure, Diagnostic, Severity};
use md2pdf_rs::Md2PdfError;

fn diagnostic(severity: Severity, message: &str) -> Diagnostic {
    Diagnostic { severity, message: message.to_string() }
}

#[test]
fn no_diagnostics_give_an_empty_report() {
    assert_eq!(format_diagnostics(&Vec::new()), "");
}

#[test]
fn one_diagnostic_is_one_line() {
    assert_eq!(
        format_diagnostics(&vec![diagnostic(Severity::Error, "unknown variable: x")]),
        "error: unknown variable: x"
    );
    assert_eq!(format_diagnostics(&vec![diagnostic(Severity::Warning, "")]), "warning: ");
}

#[test]
fn diagnostics_are_joined_with_line_breaks() {
    let diagnostics = vec![
        diagnostic(Severity::Error, "first"),
        diagnostic(Severity::Warning, "second\nline"),
        diagnostic(Severity::Error, "third"),
    ];
    assert_eq!(
        format_diagnostics(&diagnostics),
        "error: first\nwarning: second\nline\nerror: third"
    );
}

#[test]
fn render_failure_carries_the_report() {
    let diagnostics =
        vec![diagnostic(Severity::Error, "a"), diagnostic(Severity::Warning, "b")];
    assert_eq!(
        render_failure(&diagnostics),
        Md2PdfError::Typst("error: a\nwarning: b".to_string())
    );
}

#[test]
fn error_messages_name_the_kind() {
    assert_eq!(Md2PdfError::Io("not found".to_string()).message(), "IO error: not found");
    assert_eq!(
        Md2PdfError::Yaml("bad indent".to_string()).message(),
        "YAML parsing error: bad indent"
    );
    assert_eq!(
        Md2PdfError::Typst("error: x".to_string()).message(),
        "Typst compilation error: error: x"
    );
    assert_eq!(
        Md2PdfError::InvalidInput("paper".to_string()).message(),
        "Invalid input: paper"
    );
}
