//! The breakpoint gutter: a marker on each line that holds a breakpoint.

use crate::editor::Breakpoint;
use crate::graphics::{Color, Modifier, Style, UNDERLINED};
use crate::lines::{first_at, is_first_at, lemma_first_at_found, lemma_first_at_none};
use vstd::prelude::*;

verus! {

/// The marker of a breakpoint that the debugger has confirmed.
pub const VERIFIED_MARK: char = '▲';

/// The marker of a breakpoint that the debugger has not confirmed.
pub const UNVERIFIED_MARK: char = '⊚';

/// The lines of `breakpoints`, in order.
pub open spec fn breakpoint_lines(breakpoints: Seq<Breakpoint>) -> Seq<usize> {
    Seq::new(breakpoints.len(), |i: int| breakpoints[i].line)
}

/// A colour channel at four tenths of its strength, rounded down.
pub open spec fn faded_channel(channel: u8) -> u8 {
    (4 * channel / 10) as u8
}

/// `style` with its foreground faded: a red, green, blue foreground keeps
/// four tenths of each channel, any other foreground (or none) turns gray.
pub open spec fn faded(style: Style) -> Style {
    match style.fg {
        Some(Color::Rgb(r, g, b)) => style.with_fg(
            Color::Rgb(faded_channel(r), faded_channel(g), faded_channel(b)),
        ),
        _ => style.with_fg(Color::Gray),
    }
}

/// Scales a colour channel to four tenths, rounding down.
pub fn fade_channel(channel: u8) -> (dim: u8)
    ensures
        dim == faded_channel(channel),
        10 * dim <= 4 * channel < 10 * (dim + 1),
{
    let scaled: u16 = 4 * (channel as u16) / 10;
    scaled as u8
}

/// Fades the foreground of `style`.
pub fn fade(style: Style) -> (dim: Style)
    ensures
        dim == faded(style),
{
    match style.fg {
        Some(Color::Rgb(r, g, b)) => style.fg(
            Color::Rgb(fade_channel(r), fade_channel(g), fade_channel(b)),
        ),
        _ => style.fg(Color::Gray),
    }
}

/// A breakpoint gutter bound to the breakpoints of one document.
pub struct BreakpointGutter<'doc> {
    pub warning: Style,
    pub error: Style,
    pub info: Style,
    /// The breakpoints of the document's file, in the order of the
    /// editor's record.
    pub breakpoints: &'doc [Breakpoint],
}

impl<'doc> BreakpointGutter<'doc> {
    /// The breakpoint that the gutter draws on `line`: the first on that
    /// line.
    pub open spec fn found(&self, line: usize) -> Option<Breakpoint> {
        match first_at(breakpoint_lines(self.breakpoints@), line) {
            Some(i) => Some(self.breakpoints@[i]),
            None => None,
        }
    }

    /// The style of `breakpoint` before fading.
    pub open spec fn base_style(&self, breakpoint: Breakpoint) -> Style {
        if breakpoint.condition is Some && breakpoint.log_message is Some {
            self.error.with_modifier(Modifier { bits: UNDERLINED })
        } else if breakpoint.condition is Some {
            self.error
        } else if breakpoint.log_message is Some {
            self.info
        } else {
            self.warning
        }
    }

    /// The style that `breakpoint` is drawn in.
    pub open spec fn style_of(&self, breakpoint: Breakpoint) -> Style {
        if breakpoint.verified {
            self.base_style(breakpoint)
        } else {
            faded(self.base_style(breakpoint))
        }
    }

    /// The marker that `breakpoint` is drawn as.
    pub open spec fn mark_of(breakpoint: Breakpoint) -> char {
        if breakpoint.verified {
            VERIFIED_MARK
        } else {
            UNVERIFIED_MARK
        }
    }

    /// What the gutter draws on `line`.
    pub open spec fn text(&self, line: usize) -> Seq<char> {
        match self.found(line) {
            Some(breakpoint) => seq![Self::mark_of(breakpoint)],
            None => Seq::empty(),
        }
    }

    /// The style that the gutter draws `line` in, if it draws anything.
    pub open spec fn style(&self, line: usize) -> Option<Style> {
        match self.found(line) {
            Some(breakpoint) => Some(self.style_of(breakpoint)),
            None => None,
        }
    }

    /// The first breakpoint on `line`, if there is one.
    pub fn find(&self, line: usize) -> (found: Option<&'doc Breakpoint>)
        ensures
            match found {
                Some(breakpoint) => self.found(line) == Some(*breakpoint),
                None => self.found(line) is None,
            },
    {
        let breakpoints = self.breakpoints;
        let ghost lines = breakpoint_lines(breakpoints@);
        let mut i: usize = 0;
        while i < breakpoints.len()
            invariant
                i <= breakpoints.len(),
                breakpoints == self.breakpoints,
                lines == breakpoint_lines(breakpoints@),
                forall|j: int| 0 <= j < i ==> lines[j] != line,
            decreases breakpoints.len() - i,
        {
            if breakpoints[i].line == line {
                proof {
                    lemma_first_at_found(lines, line, i as int);
                }
                return Some(&breakpoints[i]);
            }
            i += 1;
        }
        proof {
            lemma_first_at_none(lines, line);
        }
        None
    }

    /// Draws `line`: appends the marker of the first breakpoint on it to
    /// `out` and returns the style to draw it in, or leaves `out` as it is
    /// and returns `None` where the line holds no breakpoint.
    pub fn render(&self, line: usize, _selected: bool, out: &mut String) -> (style: Option<Style>)
        ensures
            final(out)@ == old(out)@ + self.text(line),
            style == self.style(line),
    {
        let breakpoint = match self.find(line) {
            Some(breakpoint) => breakpoint,
            None => {
                assert(out@ =~= old(out)@ + self.text(line));
                return None;
            },
        };
        let mut style = if breakpoint.condition.is_some() && breakpoint.log_message.is_some() {
            self.error.add_modifier(Modifier { bits: UNDERLINED })
        } else if breakpoint.condition.is_some() {
            self.error
        } else if breakpoint.log_message.is_some() {
            self.info
        } else {
            self.warning
        };
        if !breakpoint.verified {
            style = fade(style);
        }
        proof {
            reveal_strlit("▲");
            reveal_strlit("⊚");
        }
        let mark = if breakpoint.verified {
            "▲"
        } else {
            "⊚"
        };
        assert(mark@ =~= seq![Self::mark_of(*breakpoint)]);
        out.append(mark);
        Some(style)
    }
}

/// A line that holds no breakpoint gets no text and no style.
pub proof fn lemma_line_without_breakpoint(gutter: BreakpointGutter, line: usize)
    requires
        forall|i: int| 0 <= i < gutter.breakpoints@.len() ==> gutter.breakpoints@[i].line != line,
    ensures
        gutter.text(line) == Seq::<char>::empty(),
        gutter.style(line) is None,
{
    lemma_first_at_none(breakpoint_lines(gutter.breakpoints@), line);
}

/// A line that holds breakpoints is drawn for the first of them: it gets
/// that breakpoint's marker and style.
pub proof fn lemma_first_breakpoint_is_drawn(gutter: BreakpointGutter, line: usize, i: int)
    requires
        is_first_at(breakpoint_lines(gutter.breakpoints@), line, i),
    ensures
        gutter.found(line) == Some(gutter.breakpoints@[i]),
        gutter.text(line) == seq![BreakpointGutter::mark_of(gutter.breakpoints@[i])],
        gutter.style(line) == Some(gutter.style_of(gutter.breakpoints@[i])),
{
    lemma_first_at_found(breakpoint_lines(gutter.breakpoints@), line, i);
}

/// The style and marker of a breakpoint, by what it carries.
///
/// With a condition and a log message it is drawn in the error style,
/// underlined; with a condition alone in the error style; with a log
/// message alone in the info style; with neither in the warning style. A
/// verified breakpoint is drawn in just that style, as a filled triangle; an
/// unverified one in that style faded, as a ring.
pub proof fn lemma_breakpoint_style_table(gutter: BreakpointGutter, breakpoint: Breakpoint)
    ensures
        breakpoint.condition is Some && breakpoint.log_message is Some ==> gutter.base_style(
            breakpoint,
        ) == gutter.error.with_modifier(Modifier { bits: UNDERLINED }),
        breakpoint.condition is Some && breakpoint.log_message is None ==> gutter.base_style(
            breakpoint,
        ) == gutter.error,
        breakpoint.condition is None && breakpoint.log_message is Some ==> gutter.base_style(
            breakpoint,
        ) == gutter.info,
        breakpoint.condition is None && breakpoint.log_message is None ==> gutter.base_style(
            breakpoint,
        ) == gutter.warning,
        breakpoint.verified ==> gutter.style_of(breakpoint) == gutter.base_style(breakpoint)
            && BreakpointGutter::mark_of(breakpoint) == VERIFIED_MARK,
        !breakpoint.verified ==> gutter.style_of(breakpoint) == faded(
            gutter.base_style(breakpoint),
        ) && BreakpointGutter::mark_of(breakpoint) == UNVERIFIED_MARK,
{
}

/// Fading touches the foreground alone. Of a red, green, blue foreground
/// each channel is scaled to four tenths and rounded down; every other
/// foreground, and a missing one, becomes gray.
pub proof fn lemma_faded(style: Style)
    ensures
        faded(style).bg == style.bg,
        faded(style).add_modifier == style.add_modifier,
        faded(style).sub_modifier == style.sub_modifier,
        match style.fg {
            Some(Color::Rgb(r, g, b)) => {
                &&& faded(style).fg matches Some(Color::Rgb(dim_r, dim_g, dim_b))
                &&& 10 * dim_r <= 4 * r < 10 * (dim_r + 1)
                &&& 10 * dim_g <= 4 * g < 10 * (dim_g + 1)
                &&& 10 * dim_b <= 4 * b < 10 * (dim_b + 1)
            },
            _ => faded(style).fg == Some(Color::Gray),
        },
{
}

} // verus!
