//! The line-number gutter.

use crate::align::{
    decimal, lemma_right_aligned_len, push_number, push_padding, right_aligned,
};
use crate::editor::LineNumber;
use crate::graphics::Style;
use vstd::prelude::*;

verus! {

/// What stands in place of a number on an empty last line.
pub const PLACEHOLDER: char = '~';

/// A line-number gutter bound to one viewport onto a document.
pub struct LineNumberGutter {
    /// The last line that the viewport shows.
    pub last_line: usize,
    /// Whether the last line gets a number: whether it holds any text.
    pub draw_last: bool,
    /// The style of a line number.
    pub linenr: Style,
    /// The style of the number of a selected line in a focused viewport.
    pub linenr_select: Style,
    /// The line that holds the primary cursor.
    pub current_line: usize,
    /// How lines are counted.
    pub config: LineNumber,
    /// Whether the viewport has the input focus.
    pub is_focused: bool,
    /// The width of the gutter, in characters.
    pub width: usize,
}

impl LineNumberGutter {
    /// Whether `line` is drawn as a placeholder, not as a number.
    pub open spec fn is_placeholder(&self, line: usize) -> bool {
        line == self.last_line && !self.draw_last
    }

    /// The number that `line` shows.
    pub open spec fn number(&self, line: usize) -> nat {
        match self.config {
            LineNumber::Absolute => (line + 1) as nat,
            LineNumber::Relative => if self.current_line == line {
                (line + 1) as nat
            } else if self.current_line > line {
                (self.current_line - line) as nat
            } else {
                (line - self.current_line) as nat
            },
        }
    }

    /// What the gutter draws on `line`.
    pub open spec fn text(&self, line: usize) -> Seq<char> {
        if self.is_placeholder(line) {
            right_aligned(seq![PLACEHOLDER], self.width as nat)
        } else {
            right_aligned(decimal(self.number(line)), self.width as nat)
        }
    }

    /// The style that the gutter draws `line` in.
    pub open spec fn style(&self, line: usize, selected: bool) -> Style {
        if !self.is_placeholder(line) && selected && self.is_focused {
            self.linenr_select
        } else {
            self.linenr
        }
    }

    /// Draws `line`: appends its number, or the placeholder, to `out`,
    /// right-aligned in the gutter's width, and returns the style to draw
    /// it in.
    pub fn render(&self, line: usize, selected: bool, out: &mut String) -> (style: Option<Style>)
        ensures
            final(out)@ == old(out)@ + self.text(line),
            style == Some(self.style(line, selected)),
    {
        if line == self.last_line && !self.draw_last {
            if self.width > 1 {
                push_padding(out, self.width - 1);
            }
            proof {
                reveal_strlit("~");
            }
            assert("~"@ =~= seq![PLACEHOLDER]);
            out.append("~");
            assert(out@ =~= old(out)@ + self.text(line));
            Some(self.linenr)
        } else {
            let number: u128 = match self.config {
                LineNumber::Absolute => line as u128 + 1,
                LineNumber::Relative => {
                    if self.current_line == line {
                        line as u128 + 1
                    } else {
                        crate::abs_diff(self.current_line, line) as u128
                    }
                },
            };
            let style = if selected && self.is_focused {
                self.linenr_select
            } else {
                self.linenr
            };
            push_number(out, number, self.width);
            Some(style)
        }
    }
}

/// In absolute mode a line shows its index plus one, right-aligned in the
/// gutter's width. (The empty last line shows the placeholder.)
pub proof fn lemma_absolute_number(gutter: LineNumberGutter, line: usize)
    requires
        gutter.config == LineNumber::Absolute,
        !gutter.is_placeholder(line),
    ensures
        gutter.text(line) == right_aligned(decimal((line + 1) as nat), gutter.width as nat),
{
}

/// In relative mode the cursor's line shows its index plus one, and every
/// other line its distance from the cursor's line, right-aligned in the
/// gutter's width. (The empty last line shows the placeholder.)
pub proof fn lemma_relative_number(gutter: LineNumberGutter, line: usize)
    requires
        gutter.config == LineNumber::Relative,
        !gutter.is_placeholder(line),
    ensures
        line == gutter.current_line ==> gutter.text(line) == right_aligned(
            decimal((gutter.current_line + 1) as nat),
            gutter.width as nat,
        ),
        line != gutter.current_line ==> gutter.text(line) == right_aligned(
            decimal(vstd::math::abs(gutter.current_line - line)),
            gutter.width as nat,
        ),
{
}

/// A line is drawn in the selected style exactly when it shows a number, a
/// cursor is on it and the viewport has the focus.
pub proof fn lemma_selected_style(gutter: LineNumberGutter, line: usize, selected: bool)
    ensures
        gutter.style(line, selected) == if selected && gutter.is_focused && !gutter.is_placeholder(
            line,
        ) {
            gutter.linenr_select
        } else {
            gutter.linenr
        },
{
}

/// The gutter fills its width on every line, and cuts no number short.
pub proof fn lemma_fills_width(gutter: LineNumberGutter, line: usize)
    ensures
        gutter.text(line).len() >= gutter.width,
        !gutter.is_placeholder(line) && decimal(gutter.number(line)).len() <= gutter.width
            ==> gutter.text(line).len() == gutter.width,
        gutter.is_placeholder(line) && gutter.width >= 1 ==> gutter.text(line).len()
            == gutter.width,
{
    lemma_right_aligned_len(seq![PLACEHOLDER], gutter.width as nat);
    lemma_right_aligned_len(decimal(gutter.number(line)), gutter.width as nat);
}

} // verus!
