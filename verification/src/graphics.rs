//! Colours, text modifiers and styles: what a gutter hands back for the
//! compositor to draw with.

use vstd::prelude::*;

verus! {

/// A terminal colour.
#[derive(Clone, Copy, Debug, PartialEq, Eq)]
pub enum Color {
    Reset,
    Black,
    Red,
    Green,
    Yellow,
    Blue,
    Magenta,
    Cyan,
    Gray,
    LightRed,
    LightGreen,
    LightYellow,
    LightBlue,
    LightMagenta,
    LightCyan,
    LightGray,
    White,
    /// An explicit red, green, blue triple.
    Rgb(u8, u8, u8),
    /// An entry of the terminal's palette.
    Indexed(u8),
}

pub const BOLD: u16 = 0x001;

pub const DIM: u16 = 0x002;

pub const ITALIC: u16 = 0x004;

pub const UNDERLINED: u16 = 0x008;

pub const SLOW_BLINK: u16 = 0x010;

pub const RAPID_BLINK: u16 = 0x020;

pub const REVERSED: u16 = 0x040;

pub const HIDDEN: u16 = 0x080;

pub const CROSSED_OUT: u16 = 0x100;

/// A set of text modifiers, one bit each: [`BOLD`], [`UNDERLINED`] and so on.
#[derive(Clone, Copy, Debug, PartialEq, Eq)]
pub struct Modifier {
    pub bits: u16,
}

impl Modifier {
    /// The set with every modifier of `self` and every modifier of `other`.
    pub open spec fn union(self, other: Modifier) -> Modifier {
        Modifier { bits: self.bits | other.bits }
    }

    /// The set with the modifiers of `self` that are not in `other`.
    pub open spec fn difference(self, other: Modifier) -> Modifier {
        Modifier { bits: self.bits & !other.bits }
    }

    /// Whether every modifier of `other` is in `self`.
    pub open spec fn contains(self, other: Modifier) -> bool {
        self.bits & other.bits == other.bits
    }

    /// Whether `self` and `other` share a modifier.
    pub open spec fn intersects(self, other: Modifier) -> bool {
        self.bits & other.bits != 0
    }
}

/// How a piece of text is drawn: colours, and the modifiers to switch on
/// and off on top of whatever lies beneath.
#[derive(Clone, Copy, Debug, PartialEq, Eq)]
pub struct Style {
    pub fg: Option<Color>,
    pub bg: Option<Color>,
    pub add_modifier: Modifier,
    pub sub_modifier: Modifier,
}

impl Style {
    /// The style that changes nothing.
    pub open spec fn plain() -> Style {
        Style {
            fg: None,
            bg: None,
            add_modifier: Modifier { bits: 0 },
            sub_modifier: Modifier { bits: 0 },
        }
    }

    /// `self` with its foreground replaced by `color`.
    pub open spec fn with_fg(self, color: Color) -> Style {
        Style { fg: Some(color), ..self }
    }

    /// `self` with `modifier` switched on, and no longer switched off.
    pub open spec fn with_modifier(self, modifier: Modifier) -> Style {
        Style {
            add_modifier: self.add_modifier.union(modifier),
            sub_modifier: self.sub_modifier.difference(modifier),
            ..self
        }
    }

    /// Sets the foreground colour.
    pub fn fg(self, color: Color) -> (style: Style)
        ensures
            style == self.with_fg(color),
    {
        Style { fg: Some(color), bg: self.bg, add_modifier: self.add_modifier, sub_modifier: self.sub_modifier }
    }

    /// Switches `modifier` on.
    pub fn add_modifier(self, modifier: Modifier) -> (style: Style)
        ensures
            style == self.with_modifier(modifier),
    {
        Style {
            fg: self.fg,
            bg: self.bg,
            add_modifier: Modifier { bits: self.add_modifier.bits | modifier.bits },
            sub_modifier: Modifier { bits: self.sub_modifier.bits & !modifier.bits },
        }
    }
}

impl Default for Style {
    fn default() -> (style: Style)
        ensures
            style == Style::plain(),
    {
        Style {
            fg: None,
            bg: None,
            add_modifier: Modifier { bits: 0 },
            sub_modifier: Modifier { bits: 0 },
        }
    }
}

/// A modifier that a style switches on is in its `add_modifier` set and not
/// in its `sub_modifier` set, whatever the style held before; the colours
/// stay.
pub proof fn lemma_added_modifier_is_on(style: Style, modifier: Modifier)
    ensures
        style.with_modifier(modifier).add_modifier.contains(modifier),
        !style.with_modifier(modifier).sub_modifier.intersects(modifier),
        style.with_modifier(modifier).fg == style.fg,
        style.with_modifier(modifier).bg == style.bg,
{
    let a = style.add_modifier.bits;
    let s = style.sub_modifier.bits;
    let m = modifier.bits;
    assert((a | m) & m == m) by (bit_vector);
    assert((s & !m) & m == 0) by (bit_vector);
}

} // verus!
