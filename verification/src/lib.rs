//! The gutter of a text-editor viewport: the column left of the text that
//! shows line numbers, diagnostic markers and breakpoint markers.
//!
//! A gutter is used in two phases. Once per draw cycle one of [`diagnostic`],
//! [`line_number`] and [`breakpoints`] binds a renderer to a snapshot of the
//! editor, the document, the viewport and the theme. The bound [`GutterFn`] is
//! then asked, line by line, for the text to draw and the style to draw it in.

pub mod align;
pub mod breakpoint_marks;
pub mod diagnostic_marks;
pub mod document;
pub mod editor;
pub mod graphics;
pub mod line_numbers;
pub mod lines;
pub mod theme;

use crate::align::right_aligned;
use crate::breakpoint_marks::BreakpointGutter;
use crate::diagnostic_marks::DiagnosticGutter;
use crate::document::{Document, Viewport};
use crate::editor::{Breakpoint, Editor};
use crate::graphics::Style;
use crate::line_numbers::{LineNumberGutter, PLACEHOLDER};
use crate::theme::Theme;
use vstd::prelude::*;

verus! {

/// A gutter bound for one draw cycle.
pub enum GutterFn<'doc> {
    Diagnostic(DiagnosticGutter<'doc>),
    LineNumber(LineNumberGutter),
    Breakpoints(BreakpointGutter<'doc>),
}

impl<'doc> GutterFn<'doc> {
    /// What the gutter draws on `line`.
    pub open spec fn text(&self, line: usize) -> Seq<char> {
        match self {
            GutterFn::Diagnostic(gutter) => gutter.text(line),
            GutterFn::LineNumber(gutter) => gutter.text(line),
            GutterFn::Breakpoints(gutter) => gutter.text(line),
        }
    }

    /// The style that the gutter draws `line` in, or `None` where it draws
    /// nothing there. `selected` says whether a cursor is on the line.
    pub open spec fn style(&self, line: usize, selected: bool) -> Option<Style> {
        match self {
            GutterFn::Diagnostic(gutter) => gutter.style(line),
            GutterFn::LineNumber(gutter) => Some(gutter.style(line, selected)),
            GutterFn::Breakpoints(gutter) => gutter.style(line),
        }
    }

    /// Draws `line`: appends the gutter's text for it to `out` and returns
    /// the style to draw that text in, or `None` where nothing is drawn.
    pub fn render(&self, line: usize, selected: bool, out: &mut String) -> (style: Option<Style>)
        ensures
            final(out)@ == old(out)@ + self.text(line),
            style == self.style(line, selected),
    {
        match self {
            GutterFn::Diagnostic(gutter) => gutter.render(line, selected, out),
            GutterFn::LineNumber(gutter) => gutter.render(line, selected, out),
            GutterFn::Breakpoints(gutter) => gutter.render(line, selected, out),
        }
    }
}

/// A kind of gutter: what binds it for a draw cycle.
pub type Gutter = for<'doc> fn(
    &'doc Editor,
    &'doc Document,
    &Viewport,
    &Theme,
    bool,
    usize,
) -> GutterFn<'doc>;

/// Binds the diagnostic gutter to the diagnostics of `doc`.
///
/// The theme must define the styles `warning`, `error`, `info` and `hint`.
pub fn diagnostic<'doc>(
    _editor: &'doc Editor,
    doc: &'doc Document,
    _view: &Viewport,
    theme: &Theme,
    _is_focused: bool,
    _width: usize,
) -> (gutter: GutterFn<'doc>)
    requires
        theme.defines("warning"@),
        theme.defines("error"@),
        theme.defines("info"@),
        theme.defines("hint"@),
    ensures
        gutter matches GutterFn::Diagnostic(bound) && {
            &&& bound.warning == theme@["warning"@]
            &&& bound.error == theme@["error"@]
            &&& bound.info == theme@["info"@]
            &&& bound.hint == theme@["hint"@]
            &&& bound.diagnostics@ == doc.diagnostics@
        },
{
    let warning = theme.get("warning");
    let error = theme.get("error");
    let info = theme.get("info");
    let hint = theme.get("hint");
    let diagnostics = doc.diagnostics.as_slice();
    GutterFn::Diagnostic(DiagnosticGutter { warning, error, info, hint, diagnostics })
}

/// The line-number gutter that [`line_number`] binds.
pub open spec fn bound_line_number(
    editor: &Editor,
    doc: &Document,
    view: &Viewport,
    theme: &Theme,
    is_focused: bool,
    width: usize,
) -> LineNumberGutter {
    LineNumberGutter {
        last_line: view.last_line,
        draw_last: view.last_line_start < doc.len_bytes,
        linenr: theme@["ui.linenr"@],
        linenr_select: match theme.lookup("ui.linenr.selected"@) {
            Some(style) => style,
            None => theme@["ui.linenr"@],
        },
        current_line: doc.cursor_line,
        config: editor.config.line_number,
        is_focused,
        width,
    }
}

/// Binds the line-number gutter to a viewport onto `doc`.
///
/// The last line of the viewport gets a number only if it holds text: if
/// it starts before the end of the document. The theme must define the
/// style `ui.linenr`; where it also defines `ui.linenr.selected`, that is
/// the style of selected lines in a focused viewport.
pub fn line_number<'doc>(
    editor: &'doc Editor,
    doc: &'doc Document,
    view: &Viewport,
    theme: &Theme,
    is_focused: bool,
    width: usize,
) -> (gutter: GutterFn<'doc>)
    requires
        theme.defines("ui.linenr"@),
    ensures
        gutter == GutterFn::LineNumber(
            bound_line_number(editor, doc, view, theme, is_focused, width),
        ),
{
    let last_line = view.last_line;
    let draw_last = view.last_line_start < doc.len_bytes;
    let linenr = theme.get("ui.linenr");
    let linenr_select = match theme.try_get("ui.linenr.selected") {
        Some(style) => style,
        None => linenr,
    };
    let current_line = doc.cursor_line;
    let config = editor.config.line_number;
    GutterFn::LineNumber(
        LineNumberGutter {
            last_line,
            draw_last,
            linenr,
            linenr_select,
            current_line,
            config,
            is_focused,
            width,
        },
    )
}

/// Where the last line of the viewport starts at the end of the document's
/// text, and so holds nothing, the gutter draws the placeholder on it in
/// place of a number, whatever the numbering mode, and draws it in the plain
/// line-number style even where a cursor is on it.
pub proof fn lemma_empty_last_line(
    editor: &Editor,
    doc: &Document,
    view: &Viewport,
    theme: &Theme,
    is_focused: bool,
    width: usize,
    selected: bool,
)
    requires
        view.last_line_start == doc.len_bytes,
    ensures
        ({
            let gutter = bound_line_number(editor, doc, view, theme, is_focused, width);
            &&& gutter.text(view.last_line) == right_aligned(seq![PLACEHOLDER], width as nat)
            &&& gutter.style(view.last_line, selected) == theme@["ui.linenr"@]
        }),
{
}

/// The distance between two line indices.
pub fn abs_diff(a: usize, b: usize) -> (distance: usize)
    ensures
        distance == if a > b {
            a - b
        } else {
            b - a
        },
{
    if a > b {
        a - b
    } else {
        b - a
    }
}

/// Binds the breakpoint gutter to the breakpoints that `editor` has on
/// record for the file of `doc`: to none where it has no entry for that
/// file.
///
/// The document must have a path, and the theme must define the styles
/// `warning`, `error` and `info`.
pub fn breakpoints<'doc>(
    editor: &'doc Editor,
    doc: &'doc Document,
    _view: &Viewport,
    theme: &Theme,
    _is_focused: bool,
    _width: usize,
) -> (gutter: GutterFn<'doc>)
    requires
        doc.path is Some,
        theme.defines("warning"@),
        theme.defines("error"@),
        theme.defines("info"@),
    ensures
        gutter matches GutterFn::Breakpoints(bound) && {
            &&& bound.warning == theme@["warning"@]
            &&& bound.error == theme@["error"@]
            &&& bound.info == theme@["info"@]
            &&& bound.breakpoints@ == editor.breakpoints_at(doc.path->0@)
        },
{
    let warning = theme.get("warning");
    let error = theme.get("error");
    let info = theme.get("info");
    let none: &'doc [Breakpoint] = &[];
    let breakpoints = match &doc.path {
        Some(path) => match editor.breakpoints_for(path.as_str()) {
            Some(list) => list.as_slice(),
            None => none,
        },
        None => none,
    };
    GutterFn::Breakpoints(BreakpointGutter { warning, error, info, breakpoints })
}

} // verus!
