//! The diagnostic gutter: a marker on each line that holds a diagnostic.

use crate::document::{Diagnostic, Severity};
use crate::graphics::Style;
use crate::lines::{first_at, is_first_at, lemma_first_at_found, lemma_first_at_none};
use vstd::prelude::*;

verus! {

/// The marker of a line that holds a diagnostic.
pub const DIAGNOSTIC_MARK: char = '●';

/// The lines of `diagnostics`, in order.
pub open spec fn diagnostic_lines(diagnostics: Seq<Diagnostic>) -> Seq<usize> {
    Seq::new(diagnostics.len(), |i: int| diagnostics[i].line)
}

/// A diagnostic gutter bound to the diagnostics of one document.
pub struct DiagnosticGutter<'doc> {
    pub warning: Style,
    pub error: Style,
    pub info: Style,
    pub hint: Style,
    /// The diagnostics of the document, in the order they were reported.
    pub diagnostics: &'doc [Diagnostic],
}

impl<'doc> DiagnosticGutter<'doc> {
    /// The diagnostic that the gutter draws on `line`: the first on that
    /// line.
    pub open spec fn found(&self, line: usize) -> Option<Diagnostic> {
        match first_at(diagnostic_lines(self.diagnostics@), line) {
            Some(i) => Some(self.diagnostics@[i]),
            None => None,
        }
    }

    /// The style of a diagnostic of the given severity. One without a
    /// severity is drawn as a warning.
    pub open spec fn severity_style(&self, severity: Option<Severity>) -> Style {
        match severity {
            Some(Severity::Error) => self.error,
            Some(Severity::Warning) | None => self.warning,
            Some(Severity::Info) => self.info,
            Some(Severity::Hint) => self.hint,
        }
    }

    /// What the gutter draws on `line`.
    pub open spec fn text(&self, line: usize) -> Seq<char> {
        match self.found(line) {
            Some(_) => seq![DIAGNOSTIC_MARK],
            None => Seq::empty(),
        }
    }

    /// The style that the gutter draws `line` in, if it draws anything.
    pub open spec fn style(&self, line: usize) -> Option<Style> {
        match self.found(line) {
            Some(diagnostic) => Some(self.severity_style(diagnostic.severity)),
            None => None,
        }
    }

    /// The first diagnostic on `line`, if there is one.
    pub fn find(&self, line: usize) -> (found: Option<Diagnostic>)
        ensures
            found == self.found(line),
    {
        let diagnostics = self.diagnostics;
        let ghost lines = diagnostic_lines(diagnostics@);
        let mut i: usize = 0;
        while i < diagnostics.len()
            invariant
                i <= diagnostics.len(),
                diagnostics == self.diagnostics,
                lines == diagnostic_lines(diagnostics@),
                forall|j: int| 0 <= j < i ==> lines[j] != line,
            decreases diagnostics.len() - i,
        {
            if diagnostics[i].line == line {
                proof {
                    lemma_first_at_found(lines, line, i as int);
                }
                return Some(diagnostics[i]);
            }
            i += 1;
        }
        proof {
            lemma_first_at_none(lines, line);
        }
        None
    }

    /// Draws `line`: appends the marker to `out` and returns the style of
    /// the first diagnostic on the line, or leaves `out` as it is and
    /// returns `None` where the line holds no diagnostic.
    pub fn render(&self, line: usize, _selected: bool, out: &mut String) -> (style: Option<Style>)
        ensures
            final(out)@ == old(out)@ + self.text(line),
            style == self.style(line),
    {
        match self.find(line) {
            Some(diagnostic) => {
                proof {
                    reveal_strlit("●");
                }
                assert("●"@ =~= seq![DIAGNOSTIC_MARK]);
                out.append("●");
                Some(
                    match diagnostic.severity {
                        Some(Severity::Error) => self.error,
                        Some(Severity::Warning) | None => self.warning,
                        Some(Severity::Info) => self.info,
                        Some(Severity::Hint) => self.hint,
                    },
                )
            },
            None => {
                assert(out@ =~= old(out)@ + self.text(line));
                None
            },
        }
    }
}

/// A line that holds no diagnostic gets no text and no style.
pub proof fn lemma_line_without_diagnostic(gutter: DiagnosticGutter, line: usize)
    requires
        forall|i: int| 0 <= i < gutter.diagnostics@.len() ==> gutter.diagnostics@[i].line != line,
    ensures
        gutter.text(line) == Seq::<char>::empty(),
        gutter.style(line) is None,
{
    lemma_first_at_none(diagnostic_lines(gutter.diagnostics@), line);
}

/// A line that holds diagnostics is drawn for the first of them: it gets
/// the marker, in the style of that diagnostic's severity.
pub proof fn lemma_first_diagnostic_is_drawn(gutter: DiagnosticGutter, line: usize, i: int)
    requires
        is_first_at(diagnostic_lines(gutter.diagnostics@), line, i),
    ensures
        gutter.found(line) == Some(gutter.diagnostics@[i]),
        gutter.text(line) == seq![DIAGNOSTIC_MARK],
        gutter.style(line) == Some(gutter.severity_style(gutter.diagnostics@[i].severity)),
{
    lemma_first_at_found(diagnostic_lines(gutter.diagnostics@), line, i);
}

/// A diagnostic whose severity is `Warning`, or that has none, is drawn in
/// the warning style; `Error`, `Info` and `Hint` each have a style of their
/// own.
pub proof fn lemma_severity_styles(gutter: DiagnosticGutter)
    ensures
        gutter.severity_style(None) == gutter.warning,
        gutter.severity_style(Some(Severity::Warning)) == gutter.warning,
        gutter.severity_style(Some(Severity::Error)) == gutter.error,
        gutter.severity_style(Some(Severity::Info)) == gutter.info,
        gutter.severity_style(Some(Severity::Hint)) == gutter.hint,
{
}

} // verus!
