//! What a gutter reads of the document and of the viewport that shows it.

use vstd::prelude::*;

verus! {

/// How grave a diagnostic is.
#[derive(Clone, Copy, Debug, PartialEq, Eq)]
pub enum Severity {
    Error,
    Warning,
    Info,
    Hint,
}

/// A diagnostic, as far as a gutter reads it.
#[derive(Clone, Copy, Debug, PartialEq, Eq)]
pub struct Diagnostic {
    /// The line it is reported on, counted from zero.
    pub line: usize,
    /// Its severity, where the reporting tool gave one.
    pub severity: Option<Severity>,
}

/// The state of a document at the start of a draw cycle.
#[derive(Debug, PartialEq, Eq)]
pub struct Document {
    /// The path of the file behind the document, if it has one.
    pub path: Option<String>,
    /// The diagnostics on the document, in the order they were reported.
    pub diagnostics: Vec<Diagnostic>,
    /// The length of the text, in bytes.
    pub len_bytes: usize,
    /// The line that holds the primary cursor, counted from zero.
    pub cursor_line: usize,
}

/// The state of a viewport onto a document at the start of a draw cycle.
#[derive(Clone, Copy, Debug, PartialEq, Eq)]
pub struct Viewport {
    /// The last line of the document that the viewport shows, counted from
    /// zero.
    pub last_line: usize,
    /// The byte offset in the document's text at which that line starts.
    pub last_line_start: usize,
}

} // verus!
