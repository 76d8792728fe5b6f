use gutter::document::{Document, Viewport};
use gutter::editor::{Config, Editor, LineNumber};
use gutter::graphics::{Color, Style};
use gutter::line_number;
use gutter::theme::Theme;
use gutter::{abs_diff, GutterFn};

fn plain() -> Style {
    Style::default().fg(Color::Blue)
}

fn highlighted() -> Style {
    Style::default().fg(Color::Yellow)
}

fn theme_with_selected() -> Theme {
    let mut theme = Theme::new();
    theme.set("ui.linenr", plain());
    theme.set("ui.linenr.selected", highlighted());
    theme
}

fn theme_without_selected() -> Theme {
    let mut theme = Theme::new();
    theme.set("ui.linenr", plain());
    theme
}

fn editor(mode: LineNumber) -> Editor {
    Editor::new(Config { line_number: mode })
}

fn document(len_bytes: usize, cursor_line: usize) -> Document {
    Document { path: None, diagnostics: Vec::new(), len_bytes, cursor_line }
}

fn draw(gutter: &GutterFn, line: usize, selected: bool) -> (String, Option<Style>) {
    let mut out = String::new();
    let style = gutter.render(line, selected, &mut out);
    (out, style)
}

#[test]
fn relative_numbers_in_a_hundred_lines() {
    // 100 lines of ten bytes each, the cursor on line 50.
    let editor = editor(LineNumber::Relative);
    let doc = document(1000, 50);
    let view = Viewport { last_line: 99, last_line_start: 990 };
    let theme = theme_with_selected();
    let gutter = line_number(&editor, &doc, &view, &theme, true, 3);

    assert_eq!(draw(&gutter, 10, false), (" 40".to_string(), Some(plain())));
    assert_eq!(draw(&gutter, 50, true), (" 51".to_string(), Some(highlighted())));
    assert_eq!(draw(&gutter, 90, false), (" 40".to_string(), Some(plain())));
    assert_eq!(draw(&gutter, 49, false), ("  1".to_string(), Some(plain())));
    assert_eq!(draw(&gutter, 51, false), ("  1".to_string(), Some(plain())));
    assert_eq!(draw(&gutter, 0, false), (" 50".to_string(), Some(plain())));
    assert_eq!(draw(&gutter, 99, false), (" 49".to_string(), Some(plain())));
}

#[test]
fn relative_cursor_line_shows_its_own_number() {
    let editor = editor(LineNumber::Relative);
    let doc = document(1000, 0);
    let view = Viewport { last_line: 99, last_line_start: 990 };
    let theme = theme_with_selected();
    let gutter = line_number(&editor, &doc, &view, &theme, true, 4);
    assert_eq!(draw(&gutter, 0, false).0, "   1");
    assert_eq!(draw(&gutter, 1, false).0, "   1");
    assert_eq!(draw(&gutter, 2, false).0, "   2");
}

#[test]
fn absolute_numbers_are_index_plus_one() {
    let editor = editor(LineNumber::Absolute);
    let doc = document(100_000, 50);
    let view = Viewport { last_line: 9_999, last_line_start: 99_990 };
    let theme = theme_with_selected();
    let gutter = line_number(&editor, &doc, &view, &theme, false, 5);
    for line in [0usize, 1, 8, 9, 10, 50, 98, 99, 100, 998, 999, 1000, 9_998, 9_999, 12_344] {
        let (text, style) = draw(&gutter, line, false);
        assert_eq!(text, format!("{:>5}", line + 1));
        assert_eq!(style, Some(plain()));
    }
    assert_eq!(draw(&gutter, 0, false).0, "    1");
    assert_eq!(draw(&gutter, 41, false).0, "   42");
    assert_eq!(draw(&gutter, 99_998, false).0, "99999");
}

#[test]
fn numbers_agree_with_std_formatting() {
    let editor = editor(LineNumber::Absolute);
    let doc = document(10, 0);
    let view = Viewport { last_line: 0, last_line_start: 0 };
    let theme = theme_with_selected();
    for width in [0usize, 1, 2, 3, 7, 25] {
        let gutter = line_number(&editor, &doc, &view, &theme, false, width);
        let mut line: usize = 0;
        while line < 5_000_000 {
            let (text, _) = draw(&gutter, line, false);
            assert_eq!(text, format!("{:>1$}", line + 1, width));
            line = line * 3 + 1;
        }
    }
}

#[test]
fn a_number_wider_than_the_gutter_is_not_cut() {
    let editor = editor(LineNumber::Absolute);
    let doc = document(100_000, 0);
    let view = Viewport { last_line: 9_999, last_line_start: 99_990 };
    let theme = theme_with_selected();
    let narrow = line_number(&editor, &doc, &view, &theme, false, 2);
    assert_eq!(draw(&narrow, 122, false).0, "123");
    let none = line_number(&editor, &doc, &view, &theme, false, 0);
    assert_eq!(draw(&none, 6, false).0, "7");
}

#[test]
fn the_largest_line_index_does_not_overflow() {
    let editor = editor(LineNumber::Absolute);
    let doc = document(10, 0);
    let view = Viewport { last_line: 0, last_line_start: 0 };
    let theme = theme_with_selected();
    let gutter = line_number(&editor, &doc, &view, &theme, false, 3);
    let expected = (usize::MAX as u128 + 1).to_string();
    assert_eq!(draw(&gutter, usize::MAX, false).0, expected);

    let relative = self::editor(LineNumber::Relative);
    let gutter = line_number(&relative, &doc, &view, &theme, false, 3);
    assert_eq!(draw(&gutter, usize::MAX, false).0, usize::MAX.to_string());
}

#[test]
fn empty_last_line_shows_the_placeholder() {
    // "a\nb\n": three lines, the last starts at the end of the text.
    let doc = document(4, 2);
    let view = Viewport { last_line: 2, last_line_start: 4 };
    let theme = theme_with_selected();
    for mode in [LineNumber::Absolute, LineNumber::Relative] {
        let editor = editor(mode);
        let gutter = line_number(&editor, &doc, &view, &theme, true, 3);
        assert_eq!(draw(&gutter, 2, false), ("  ~".to_string(), Some(plain())));
        // never in the selected style, though focused and selected
        assert_eq!(draw(&gutter, 2, true), ("  ~".to_string(), Some(plain())));
        // the lines before it are numbered as usual
        assert_eq!(draw(&gutter, 1, true).1, Some(highlighted()));
    }
    let editor = editor(LineNumber::Absolute);
    let gutter = line_number(&editor, &doc, &view, &theme, true, 3);
    assert_eq!(draw(&gutter, 0, false).0, "  1");
    assert_eq!(draw(&gutter, 1, false).0, "  2");
}

#[test]
fn placeholder_in_narrow_gutters() {
    let editor = editor(LineNumber::Absolute);
    let doc = document(0, 0);
    let view = Viewport { last_line: 0, last_line_start: 0 };
    let theme = theme_with_selected();
    let one = line_number(&editor, &doc, &view, &theme, true, 1);
    assert_eq!(draw(&one, 0, false).0, "~");
    let zero = line_number(&editor, &doc, &view, &theme, true, 0);
    assert_eq!(draw(&zero, 0, false).0, "~");
    let wide = line_number(&editor, &doc, &view, &theme, true, 6);
    assert_eq!(draw(&wide, 0, false).0, format!("{:>1$}", '~', 6));
}

#[test]
fn last_line_with_text_is_numbered() {
    // "a\nb": two lines, the last holds one byte.
    let editor = editor(LineNumber::Absolute);
    let doc = document(3, 0);
    let view = Viewport { last_line: 1, last_line_start: 2 };
    let theme = theme_with_selected();
    let gutter = line_number(&editor, &doc, &view, &theme, true, 3);
    assert_eq!(draw(&gutter, 1, false), ("  2".to_string(), Some(plain())));
    assert_eq!(draw(&gutter, 1, true), ("  2".to_string(), Some(highlighted())));
}

#[test]
fn selected_style_needs_focus_and_selection() {
    let editor = editor(LineNumber::Absolute);
    let doc = document(1000, 5);
    let view = Viewport { last_line: 99, last_line_start: 990 };
    let theme = theme_with_selected();
    let focused = line_number(&editor, &doc, &view, &theme, true, 3);
    let unfocused = line_number(&editor, &doc, &view, &theme, false, 3);
    assert_eq!(draw(&focused, 5, true).1, Some(highlighted()));
    assert_eq!(draw(&focused, 5, false).1, Some(plain()));
    assert_eq!(draw(&unfocused, 5, true).1, Some(plain()));
    assert_eq!(draw(&unfocused, 5, false).1, Some(plain()));
}

#[test]
fn selected_style_falls_back_to_the_plain_one() {
    let editor = editor(LineNumber::Absolute);
    let doc = document(1000, 5);
    let view = Viewport { last_line: 99, last_line_start: 990 };
    let theme = theme_without_selected();
    let gutter = line_number(&editor, &doc, &view, &theme, true, 3);
    assert_eq!(draw(&gutter, 5, true).1, Some(plain()));
}

#[test]
fn binding_takes_its_snapshot() {
    let editor = editor(LineNumber::Relative);
    let doc = document(40, 7);
    let view = Viewport { last_line: 12, last_line_start: 40 };
    let theme = theme_with_selected();
    match line_number(&editor, &doc, &view, &theme, true, 4) {
        GutterFn::LineNumber(bound) => {
            assert_eq!(bound.last_line, 12);
            assert!(!bound.draw_last);
            assert_eq!(bound.linenr, plain());
            assert_eq!(bound.linenr_select, highlighted());
            assert_eq!(bound.current_line, 7);
            assert_eq!(bound.config, LineNumber::Relative);
            assert!(bound.is_focused);
            assert_eq!(bound.width, 4);
        }
        _ => panic!("not a line-number gutter"),
    }
}

#[test]
fn render_appends_to_what_is_there() {
    let editor = editor(LineNumber::Absolute);
    let doc = document(1000, 5);
    let view = Viewport { last_line: 99, last_line_start: 990 };
    let theme = theme_with_selected();
    let gutter = line_number(&editor, &doc, &view, &theme, true, 3);
    let mut out = String::from("x");
    gutter.render(0, false, &mut out);
    gutter.render(1, false, &mut out);
    assert_eq!(out, "x  1  2");
}

#[test]
fn abs_diff_is_the_distance() {
    assert_eq!(abs_diff(50, 10), 40);
    assert_eq!(abs_diff(10, 50), 40);
    assert_eq!(abs_diff(7, 7), 0);
    assert_eq!(abs_diff(0, usize::MAX), usize::MAX);
    assert_eq!(abs_diff(usize::MAX, 0), usize::MAX);
}
