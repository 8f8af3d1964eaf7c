//! Colors of the text-mode palette and the packed cell attribute byte.

use vstd::prelude::*;

verus! {

/// The sixteen fixed colors of the text-mode hardware palette.
#[derive(Clone, Copy, PartialEq, Eq, Structural, Debug)]
pub enum Color {
    Black,
    Blue,
    Green,
    Cyan,
    Red,
    Magenta,
    Brown,
    LightGray,
    DarkGray,
    LightBlue,
    LightGreen,
    LightCyan,
    LightRed,
    Pink,
    Yellow,
    White,
}

/// The 4-bit code the hardware assigns to each palette color.
pub open spec fn color_value(c: Color) -> u8 {
    match c {
        Color::Black => 0x0,
        Color::Blue => 0x1,
        Color::Green => 0x2,
        Color::Cyan => 0x3,
        Color::Red => 0x4,
        Color::Magenta => 0x5,
        Color::Brown => 0x6,
        Color::LightGray => 0x7,
        Color::DarkGray => 0x8,
        Color::LightBlue => 0x9,
        Color::LightGreen => 0xa,
        Color::LightCyan => 0xb,
        Color::LightRed => 0xc,
        Color::Pink => 0xd,
        Color::Yellow => 0xe,
        Color::White => 0xf,
    }
}

impl Color {
    /// The 4-bit numeric code of this color.
    pub fn value(self) -> (v: u8)
        ensures
            v == color_value(self),
    {
        match self {
            Color::Black => 0x0,
            Color::Blue => 0x1,
            Color::Green => 0x2,
            Color::Cyan => 0x3,
            Color::Red => 0x4,
            Color::Magenta => 0x5,
            Color::Brown => 0x6,
            Color::LightGray => 0x7,
            Color::DarkGray => 0x8,
            Color::LightBlue => 0x9,
            Color::LightGreen => 0xa,
            Color::LightCyan => 0xb,
            Color::LightRed => 0xc,
            Color::Pink => 0xd,
            Color::Yellow => 0xe,
            Color::White => 0xf,
        }
    }
}

/// A cell attribute: a foreground and a background color packed into one
/// byte, background in the high nibble, foreground in the low nibble.
#[derive(Clone, Copy, PartialEq, Eq, Structural, Debug)]
pub struct ColorCode(pub u8);

/// The packed attribute byte for a foreground/background pair.
pub open spec fn pack_colors(foreground: Color, background: Color) -> u8 {
    (color_value(background) * 16 + color_value(foreground)) as u8
}

/// The attribute used before any color is chosen, and for blank cells:
/// white text on a black background.
pub open spec fn default_color_code() -> ColorCode {
    ColorCode(0x0f)
}

impl ColorCode {
    /// Packs a `foreground` and a `background` color into one attribute byte.
    pub fn new(foreground: Color, background: Color) -> (r: ColorCode)
        ensures
            r.0 == pack_colors(foreground, background),
    {
        let f = foreground.value();
        let b = background.value();
        proof {
            assert(color_value(foreground) <= 0xf && color_value(background) <= 0xf);
            assert((b << 4) | f == b * 16 + f) by (bit_vector)
                requires
                    b <= 0xf,
                    f <= 0xf,
            ;
        }
        ColorCode((b << 4) | f)
    }
}

impl Default for ColorCode {
    /// White text on a black background.
    fn default() -> (r: ColorCode)
        ensures
            r == default_color_code(),
    {
        ColorCode::new(Color::White, Color::Black)
    }
}

} // verus!
