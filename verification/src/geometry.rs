//! Shared geometry types: rectangles, page dimensions, column ranges and
//! colors, together with the bounds that keep all pixel arithmetic in range.

use vstd::prelude::*;

verus! {

/// Largest page dimension (width, height, dpi or margin) in pixels.
pub const MAX_DIM: i64 = 0x4000_0000;

/// Largest vertical cursor value a column slot can hold. A committed
/// rectangle may hang below the page bottom by at most one page height,
/// so cursors stay within twice the dimension bound.
pub const CURSOR_LIMIT: i64 = 0x8000_0000;

/// Number of percentage slots in the column grid.
pub const GRID_SLOTS: usize = 100;

/// Largest height, border thickness or font size of a single content item.
pub const MAX_CONTENT: i64 = 0x10_0000;

/// Largest character count of one piece of text.
pub const MAX_TEXT: usize = 0x10_0000;

/// Largest page index the engine will advance to; further forced
/// page breaks saturate here.
pub const PAGE_LIMIT: usize = 0x4000_0000;

/// A layout-space rectangle flipped into bottom-up page space: y becomes
/// the distance of the bottom edge from the page bottom.
pub open spec fn pdf_rect(r: Rectangle, page_height: int) -> Rectangle {
    Rectangle {
        x: r.x,
        y: (page_height - r.y - r.height) as i64,
        width: r.width,
        height: r.height,
    }
}

/// An axis-aligned rectangle. In layout space the origin is the top-left
/// corner and y grows downward; flipping to bottom-up output space is done
/// with [`Rectangle::get_pdf_version`].
#[derive(Clone, Copy, Debug, PartialEq, Eq, Structural)]
pub struct Rectangle {
    pub x: i64,
    pub y: i64,
    pub width: i64,
    pub height: i64,
}

impl Rectangle {
    pub fn new(x: i64, y: i64, width: i64, height: i64) -> (r: Rectangle)
        ensures
            r == (Rectangle { x, y, width, height }),
    {
        Rectangle { x, y, width, height }
    }

    /// The same rectangle expressed in bottom-up page space, where y names
    /// the bottom edge measured from the page bottom.
    pub fn get_pdf_version(&self, page_info: PageSizeInfo) -> (r: Rectangle)
        requires
            i64::MIN <= page_info.page_height_pixels - self.y <= i64::MAX,
            i64::MIN <= page_info.page_height_pixels - self.y - self.height <= i64::MAX,
        ensures
            r == pdf_rect(*self, page_info.page_height_pixels as int),
    {
        Rectangle {
            x: self.x,
            y: page_info.page_height_pixels - self.y - self.height,
            width: self.width,
            height: self.height,
        }
    }
}

impl Default for Rectangle {
    fn default() -> (r: Rectangle)
        ensures
            r == (Rectangle { x: 0, y: 0, width: 0, height: 0 }),
    {
        Rectangle { x: 0, y: 0, width: 0, height: 0 }
    }
}

/// Immutable page dimensions in pixels, copied by value into every
/// placement record.
#[derive(Clone, Copy, Debug, PartialEq, Eq, Structural)]
pub struct PageSizeInfo {
    pub page_height_pixels: i64,
    pub page_width_pixels: i64,
    pub dpi: i64,
    pub top_margin: i64,
    pub bottom_margin: i64,
}

impl PageSizeInfo {
    /// The page dimensions are in bounds and the margins fit on the page.
    pub open spec fn wf(&self) -> bool {
        &&& 0 <= self.page_width_pixels <= MAX_DIM
        &&& 0 <= self.page_height_pixels <= MAX_DIM
        &&& 0 <= self.dpi <= MAX_DIM
        &&& 0 <= self.top_margin
        &&& 0 <= self.bottom_margin
        &&& self.top_margin + self.bottom_margin <= self.page_height_pixels
    }

    /// Vertical space between the margins, available for content.
    pub open spec fn usable_height(&self) -> int {
        self.page_height_pixels - self.top_margin - self.bottom_margin
    }

    pub fn new(
        page_width_pixels: i64,
        page_height_pixels: i64,
        dpi: i64,
        top_margin: i64,
        bottom_margin: i64,
    ) -> (r: PageSizeInfo)
        ensures
            r == (PageSizeInfo {
                page_height_pixels,
                page_width_pixels,
                dpi,
                top_margin,
                bottom_margin,
            }),
    {
        PageSizeInfo { page_height_pixels, page_width_pixels, dpi, top_margin, bottom_margin }
    }
}

/// Top and bottom page margins in pixels.
#[derive(Clone, Copy, Debug, PartialEq, Eq, Structural)]
pub struct PageMargins {
    pub top_margin_pixels: i64,
    pub bottom_margin_pixels: i64,
}

/// A half-open range `start..end` of percentage column slots.
#[derive(Clone, Copy, Debug, PartialEq, Eq, Structural)]
pub struct ColumnRange {
    pub start: usize,
    pub end: usize,
}

impl ColumnRange {
    /// Non-empty and within the grid.
    pub open spec fn wf(&self) -> bool {
        self.start < self.end <= GRID_SLOTS
    }

    pub fn new(start: usize, end: usize) -> (r: ColumnRange)
        ensures
            r == (ColumnRange { start, end }),
    {
        ColumnRange { start, end }
    }
}

/// A product of two non-negative bounded factors stays within the product
/// of the bounds.
pub proof fn lemma_mul_le(a: int, b: int, amax: int, bmax: int)
    requires
        0 <= a <= amax,
        0 <= b <= bmax,
    ensures
        0 <= a * b <= amax * bmax,
{
    assert(0 <= a * b <= amax * bmax) by (nonlinear_arith)
        requires
            0 <= a <= amax,
            0 <= b <= bmax,
    ;
}

/// An RGB color; each channel holds thousandths of full intensity,
/// so 0 is black and (1000, 1000, 1000) is white.
#[derive(Clone, Copy, Debug, PartialEq, Eq, Structural)]
pub struct Color {
    pub r: u16,
    pub g: u16,
    pub b: u16,
}

impl Color {
    pub fn new(r: u16, g: u16, b: u16) -> (c: Color)
        ensures
            c == (Color { r, g, b }),
    {
        Color { r, g, b }
    }
}

} // verus!
