//! What the renderer reports when the markup does not compile.

use crate::error::Md2PdfError;
use crate::text::join;
use vstd::prelude::*;
use vstd::string::StringExecFns;

verus! {

/// How grave a diagnostic is.
#[derive(Clone, Copy, Debug, PartialEq, Eq, Structural)]
pub enum Severity {
    Error,
    Warning,
}

/// One message of the renderer.
#[derive(Debug, Clone, PartialEq, Eq)]
pub struct Diagnostic {
    pub severity: Severity,
    pub message: String,
}

/// The word for a severity.
pub open spec fn severity_name(severity: Severity) -> Seq<char> {
    match severity {
        Severity::Error => "error"@,
        Severity::Warning => "warning"@,
    }
}

/// One diagnostic as a line: its severity, a colon, and its message as it
/// came.
pub open spec fn diagnostic_line(diagnostic: Diagnostic) -> Seq<char> {
    severity_name(diagnostic.severity) + ": "@ + diagnostic.message@
}

/// The diagnostics as lines, in order, with a line break between
/// neighbours.
pub open spec fn report(diagnostics: Seq<Diagnostic>) -> Seq<char> {
    join(diagnostics.map_values(|d: Diagnostic| diagnostic_line(d)), "\n"@)
}

/// The report of the given diagnostics.
pub fn format_diagnostics(diagnostics: &Vec<Diagnostic>) -> (r: String)
    ensures
        r@ == report(diagnostics@),
{
    let n = diagnostics.len();
    let ghost lines = diagnostics@.map_values(|d: Diagnostic| diagnostic_line(d));
    let mut out = String::new();
    let mut i: usize = 0;
    assert(lines.take(0) =~= Seq::<Seq<char>>::empty());
    while i < n
        invariant
            i <= n,
            n == diagnostics.len(),
            lines == diagnostics@.map_values(|d: Diagnostic| diagnostic_line(d)),
            out@ == join(lines.take(i as int), "\n"@),
        decreases n - i,
    {
        let ghost before = out@;
        if i > 0 {
            out.append("\n");
        }
        match diagnostics[i].severity {
            Severity::Error => out.append("error"),
            Severity::Warning => out.append("warning"),
        }
        out.append(": ");
        out.append(diagnostics[i].message.as_str());
        proof {
            let next = lines.take(i + 1);
            assert(next.drop_last() =~= lines.take(i as int));
            assert(next.last() == diagnostic_line(diagnostics[i as int]));
            if i == 0 {
                assert(out@ =~= next[0]);
            } else {
                assert(out@ =~= before + "\n"@ + next.last());
            }
        }
        i = i + 1;
    }
    assert(lines.take(n as int) =~= lines);
    out
}

/// The failure that stands for the given diagnostics.
pub fn render_failure(diagnostics: &Vec<Diagnostic>) -> (e: Md2PdfError)
    ensures
        e matches Md2PdfError::Typst(detail) && detail@ == report(diagnostics@),
{
    Md2PdfError::Typst(format_diagnostics(diagnostics))
}

} // verus!
