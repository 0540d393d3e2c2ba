//! Colors and styles carried by every element of a document.
use vstd::prelude::*;

verus! {

/// A terminal color, one for one with the colors a terminal renderer knows.
#[derive(Clone, Copy, PartialEq, Eq, Debug)]
pub enum Color {
    Reset,
    Black,
    Red,
    Green,
    Yellow,
    Blue,
    Magenta,
    Cyan,
    Gray,
    DarkGray,
    LightRed,
    LightGreen,
    LightYellow,
    LightBlue,
    LightMagenta,
    LightCyan,
    White,
    Rgb(u8, u8, u8),
    Indexed(u8),
}

/// How an element is drawn: its colors, the color of its underline, and the
/// bits of the text modifiers that it adds and removes.
#[derive(Clone, Copy, PartialEq, Eq, Debug)]
pub struct Style {
    pub fg: Option<Color>,
    pub bg: Option<Color>,
    pub underline_color: Option<Color>,
    pub add_modifier: u16,
    pub sub_modifier: u16,
}

impl Style {
    /// The plain style: no colors, no underline color, no modifiers.
    pub open spec fn plain() -> Style {
        Style { fg: None, bg: None, underline_color: None, add_modifier: 0, sub_modifier: 0 }
    }

    /// This style with a black foreground on a white background; the
    /// underline color and the modifiers are kept.
    pub open spec fn highlighted(self) -> Style {
        Style { fg: Some(Color::Black), bg: Some(Color::White), ..self }
    }

    /// Returns the plain style.
    pub fn new() -> (s: Style)
        ensures
            s == Style::plain(),
    {
        Style { fg: None, bg: None, underline_color: None, add_modifier: 0, sub_modifier: 0 }
    }

    /// Returns this style with a black foreground on a white background.
    pub fn highlight(self) -> (s: Style)
        ensures
            s == self.highlighted(),
    {
        Style { fg: Some(Color::Black), bg: Some(Color::White), ..self }
    }
}

impl Default for Style {
    fn default() -> (s: Style)
        ensures
            s == Style::plain(),
    {
        Style::new()
    }
}

} // verus!
