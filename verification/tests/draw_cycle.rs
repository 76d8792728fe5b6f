use gutter::document::{Diagnostic, Document, Severity, Viewport};
use gutter::editor::{Breakpoint, Config, Editor, LineNumber};
use gutter::graphics::{Color, Style};
use gutter::theme::Theme;
use gutter::{breakpoints, diagnostic, line_number, Gutter, GutterFn};

fn style(color: Color) -> Style {
    Style::default().fg(color)
}

fn theme() -> Theme {
    let mut theme = Theme::new();
    theme.set("error", style(Color::Red));
    theme.set("warning", style(Color::Yellow));
    theme.set("info", style(Color::Blue));
    theme.set("hint", style(Color::Green));
    theme.set("ui.linenr", style(Color::Gray));
    theme.set("ui.linenr.selected", style(Color::White));
    theme
}

// The text "fn main() {\n    run();\n}\n": four lines, the last one empty.
const LINE_STARTS: [usize; 4] = [0, 12, 23, 25];
const LEN_BYTES: usize = 25;

fn document(cursor_line: usize) -> Document {
    Document {
        path: Some("src/main.rs".to_string()),
        diagnostics: vec![
            Diagnostic { line: 1, severity: Some(Severity::Error) },
            Diagnostic { line: 1, severity: Some(Severity::Hint) },
            Diagnostic { line: 2, severity: None },
        ],
        len_bytes: LEN_BYTES,
        cursor_line,
    }
}

fn editor(mode: LineNumber) -> Editor {
    let mut editor = Editor::new(Config { line_number: mode });
    editor.set_breakpoints(
        "src/main.rs",
        vec![
            Breakpoint { line: 0, verified: true, condition: None, log_message: None },
            Breakpoint { line: 2, verified: false, condition: None, log_message: Some("here".to_string()) },
        ],
    );
    editor
}

fn draw_rows(gutters: &[(Gutter, usize)], editor: &Editor, doc: &Document, cursor_line: usize) -> Vec<(String, Vec<Option<Style>>)> {
    let last_line = LINE_STARTS.len() - 1;
    let view = Viewport { last_line, last_line_start: LINE_STARTS[last_line] };
    let theme = theme();
    let bound: Vec<GutterFn> = gutters.iter().map(|(bind, width)| bind(editor, doc, &view, &theme, true, *width)).collect();
    let mut rows = Vec::new();
    for line in 0..=last_line {
        let mut text = String::new();
        let mut styles = Vec::new();
        for gutter in &bound {
            styles.push(gutter.render(line, line == cursor_line, &mut text));
        }
        rows.push((text, styles));
    }
    rows
}

#[test]
fn a_draw_cycle_over_three_gutters() {
    let gutters: Vec<(Gutter, usize)> = vec![(diagnostic, 1), (line_number, 3), (breakpoints, 1)];
    let editor = editor(LineNumber::Absolute);
    let doc = document(1);
    let rows = draw_rows(&gutters, &editor, &doc, 1);
    assert_eq!(
        rows,
        vec![
            ("  1▲".to_string(), vec![None, Some(style(Color::Gray)), Some(style(Color::Yellow))]),
            ("●  2".to_string(), vec![Some(style(Color::Red)), Some(style(Color::White)), None]),
            ("●  3⊚".to_string(), vec![Some(style(Color::Yellow)), Some(style(Color::Gray)), Some(style(Color::Gray))]),
            ("  ~".to_string(), vec![None, Some(style(Color::Gray)), None]),
        ]
    );
}

#[test]
fn a_draw_cycle_with_relative_numbers() {
    let gutters: Vec<(Gutter, usize)> = vec![(line_number, 2)];
    let editor = editor(LineNumber::Relative);
    let doc = document(2);
    let texts: Vec<String> = draw_rows(&gutters, &editor, &doc, 2).into_iter().map(|(text, _)| text).collect();
    assert_eq!(texts, vec![" 2", " 1", " 3", " ~"]);
}

#[test]
fn rendering_a_line_twice_gives_the_same() {
    let gutters: Vec<(Gutter, usize)> = vec![(diagnostic, 1), (line_number, 3), (breakpoints, 1)];
    let editor = editor(LineNumber::Relative);
    let doc = document(0);
    assert_eq!(draw_rows(&gutters, &editor, &doc, 0), draw_rows(&gutters, &editor, &doc, 0));
}
