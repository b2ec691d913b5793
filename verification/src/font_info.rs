//! Font identification and the coarse metrics the layout uses: an average
//! per-character advance and a descent, both as fractions of the font size.
//! Exact glyph metrics belong to the rendering backend; the layout only
//! needs a line-width estimate.

use vstd::prelude::*;
use crate::geometry::{Color, MAX_CONTENT};

verus! {

/// One of the standard faces a text box can be set in.
#[derive(Clone, Copy, Debug, PartialEq, Eq, Structural)]
pub enum Font {
    Courier,
    CourierBold,
    Helvetica,
    HelveticaBold,
    TimesRoman,
    TimesBold,
}

impl Font {
    /// Average advance of one character, in thousandths of the font size.
    pub open spec fn spec_advance_milli(&self) -> int {
        match *self {
            Font::Courier => 600,
            Font::CourierBold => 600,
            Font::Helvetica => 500,
            Font::HelveticaBold => 540,
            Font::TimesRoman => 480,
            Font::TimesBold => 500,
        }
    }

    pub fn advance_milli(&self) -> (r: i64)
        ensures
            r == self.spec_advance_milli(),
            0 < r <= 1000,
    {
        match *self {
            Font::Courier => 600,
            Font::CourierBold => 600,
            Font::Helvetica => 500,
            Font::HelveticaBold => 540,
            Font::TimesRoman => 480,
            Font::TimesBold => 500,
        }
    }

    /// Descent below the baseline, in units of a 2048-per-em grid; negative
    /// values reach below the baseline.
    pub open spec fn spec_descent_units(&self) -> int {
        match *self {
            Font::Courier => -400,
            Font::CourierBold => -400,
            Font::Helvetica => -430,
            Font::HelveticaBold => -430,
            Font::TimesRoman => -440,
            Font::TimesBold => -440,
        }
    }

    pub fn descent_units(&self) -> (r: i64)
        ensures
            r == self.spec_descent_units(),
            -2048 < r <= 0,
    {
        match *self {
            Font::Courier => -400,
            Font::CourierBold => -400,
            Font::Helvetica => -430,
            Font::HelveticaBold => -430,
            Font::TimesRoman => -440,
            Font::TimesBold => -440,
        }
    }
}

/// A face, a size and a color. The size doubles as the line-height
/// estimate in pixels that the table layout consumes.
#[derive(Clone, Copy, Debug, PartialEq, Eq, Structural)]
pub struct FontInfo {
    pub font: Font,
    pub size: i64,
    pub font_color: Color,
}

impl FontInfo {
    pub open spec fn wf(&self) -> bool {
        0 <= self.size <= MAX_CONTENT
    }

    pub fn new(size: i64, font: Font) -> (r: FontInfo)
        ensures
            r.font == font,
            r.size == size,
            r.font_color == (Color { r: 0, g: 0, b: 0 }),
    {
        FontInfo { font, size, font_color: Color { r: 0, g: 0, b: 0 } }
    }

    pub fn new_colored(size: i64, font: Font, font_color: Color) -> (r: FontInfo)
        ensures
            r.font == font,
            r.size == size,
            r.font_color == font_color,
    {
        FontInfo { font, size, font_color }
    }
}

} // verus!
