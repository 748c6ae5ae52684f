//! Colours with a red, a green, a blue and an alpha channel.
use vstd::prelude::*;

verus! {

/// The value of a channel that is fully on.
pub const FULL: u8 = 100;

/// A channel value cut down to [`FULL`].
pub open spec fn channel(value: int) -> int {
    if value <= FULL as int {
        value
    } else {
        FULL as int
    }
}

/// A colour. Each channel runs from `0` to [`FULL`]; an alpha of `0` is fully
/// transparent.
#[derive(Clone, Copy, Debug, PartialEq, Eq, Structural)]
pub struct Color {
    pub r: u8,
    pub g: u8,
    pub b: u8,
    pub a: u8,
}

fn cut(value: u8) -> (cut: u8)
    ensures
        cut == channel(value as int),
        cut <= FULL,
{
    if value <= FULL {
        value
    } else {
        FULL
    }
}

impl Color {
    /// Whether every channel is in range.
    pub open spec fn in_range(self) -> bool {
        self.r <= FULL && self.g <= FULL && self.b <= FULL && self.a <= FULL
    }

    /// The colour with the given channels, each cut down to [`FULL`].
    pub fn from_rgba(r: u8, g: u8, b: u8, a: u8) -> (c: Color)
        ensures
            c.r == channel(r as int),
            c.g == channel(g as int),
            c.b == channel(b as int),
            c.a == channel(a as int),
            c.in_range(),
    {
        Color { r: cut(r), g: cut(g), b: cut(b), a: cut(a) }
    }

    /// The opaque colour with the given channels, each cut down to [`FULL`].
    pub fn from_rgb(r: u8, g: u8, b: u8) -> (c: Color)
        ensures
            c.r == channel(r as int),
            c.g == channel(g as int),
            c.b == channel(b as int),
            c.a == FULL,
            c.in_range(),
    {
        Color { r: cut(r), g: cut(g), b: cut(b), a: FULL }
    }

    pub open spec fn spec_black() -> Color {
        Color { r: 0, g: 0, b: 0, a: FULL }
    }

    #[verifier::when_used_as_spec(spec_black)]
    pub fn black() -> (c: Color)
        ensures
            c == Color::spec_black(),
    {
        Color { r: 0, g: 0, b: 0, a: FULL }
    }

    pub open spec fn spec_white() -> Color {
        Color { r: FULL, g: FULL, b: FULL, a: FULL }
    }

    #[verifier::when_used_as_spec(spec_white)]
    pub fn white() -> (c: Color)
        ensures
            c == Color::spec_white(),
    {
        Color { r: FULL, g: FULL, b: FULL, a: FULL }
    }

    pub open spec fn spec_transparent() -> Color {
        Color { r: 0, g: 0, b: 0, a: 0 }
    }

    #[verifier::when_used_as_spec(spec_transparent)]
    pub fn transparent() -> (c: Color)
        ensures
            c == Color::spec_transparent(),
    {
        Color { r: 0, g: 0, b: 0, a: 0 }
    }

    /// This colour with its red channel replaced.
    pub fn with_red(self, r: u8) -> (c: Color)
        ensures
            c == (Color { r: channel(r as int) as u8, ..self }),
    {
        Color { r: cut(r), g: self.g, b: self.b, a: self.a }
    }

    /// This colour with its green channel replaced.
    pub fn with_green(self, g: u8) -> (c: Color)
        ensures
            c == (Color { g: channel(g as int) as u8, ..self }),
    {
        Color { r: self.r, g: cut(g), b: self.b, a: self.a }
    }

    /// This colour with its blue channel replaced.
    pub fn with_blue(self, b: u8) -> (c: Color)
        ensures
            c == (Color { b: channel(b as int) as u8, ..self }),
    {
        Color { r: self.r, g: self.g, b: cut(b), a: self.a }
    }

    /// This colour with its alpha channel replaced.
    pub fn with_alpha(self, a: u8) -> (c: Color)
        ensures
            c == (Color { a: channel(a as int) as u8, ..self }),
    {
        Color { r: self.r, g: self.g, b: self.b, a: cut(a) }
    }
}

} // verus!
