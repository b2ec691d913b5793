//! Placement records: the engine's answer to a position request, carried by
//! the caller through height assignment and into a drawable component.

use vstd::prelude::*;
use crate::geometry::{
    ColumnRange, Color, PageSizeInfo, Rectangle, CURSOR_LIMIT, MAX_DIM, PAGE_LIMIT,
};

verus! {

/// A rectangle loose enough to be flipped into page space and offset
/// without arithmetic leaving i64: every edge within four page dimensions.
pub open spec fn draw_rect_ok(r: Rectangle) -> bool {
    &&& -4 * MAX_DIM <= r.x <= 4 * MAX_DIM
    &&& -4 * MAX_DIM <= r.y <= 4 * MAX_DIM
    &&& -4 * MAX_DIM <= r.width <= 4 * MAX_DIM
    &&& -4 * MAX_DIM <= r.height <= 4 * MAX_DIM
    &&& -4 * MAX_DIM <= r.x + r.width <= 4 * MAX_DIM
    &&& -4 * MAX_DIM <= r.y + r.height <= 4 * MAX_DIM
}

/// A computed rectangle and page assignment for one content item.
///
/// Produced by the placement engine; the caller assigns a height (which may
/// move the record to a fresh page) and optionally a restricted interior
/// before handing it to a drawable component.
#[derive(Clone, Copy, Debug)]
pub struct PlacementInfo {
    pub rec: Rectangle,
    pub is_new_page: bool,
    pub draw_height_left_on_page: i64,
    pub page_number: usize,
    pub page_size_info: PageSizeInfo,
    pub percent_range: ColumnRange,
    pub restricted_area_option: Option<Rectangle>,
}

impl PlacementInfo {
    /// The record may be committed into the column grid: its range is valid,
    /// its rectangle is non-negative and in bounds, and its page index is
    /// within the engine's limit.
    pub open spec fn commit_ok(&self) -> bool {
        &&& self.percent_range.wf()
        &&& 0 <= self.rec.x
        &&& 0 <= self.rec.y
        &&& 0 <= self.rec.width
        &&& 0 <= self.rec.height
        &&& self.rec.x + self.rec.width <= CURSOR_LIMIT
        &&& self.rec.y + self.rec.height <= CURSOR_LIMIT
        &&& self.page_number <= PAGE_LIMIT
    }

    /// The record may be drawn: it is committable, its geometry snapshot is
    /// well-formed, and its rectangles stay within drawing bounds.
    pub open spec fn draw_ok(&self) -> bool {
        &&& self.commit_ok()
        &&& self.page_size_info.wf()
        &&& match self.restricted_area_option {
            Option::None => true,
            Option::Some(r) => draw_rect_ok(r),
        }
    }

    pub fn get_outer_rec(&self) -> (r: Rectangle)
        ensures
            r == self.rec,
    {
        self.rec
    }

    pub fn get_inner_rec(&self) -> (r: Option<Rectangle>)
        ensures
            r == self.restricted_area_option,
    {
        self.restricted_area_option
    }
}

impl Default for PlacementInfo {
    fn default() -> (r: PlacementInfo)
        ensures
            r.rec == (Rectangle { x: 0, y: 0, width: 0, height: 0 }),
            !r.is_new_page,
            r.draw_height_left_on_page == 0,
            r.page_number == 0,
            r.page_size_info == (PageSizeInfo {
                page_height_pixels: 0,
                page_width_pixels: 0,
                dpi: 0,
                top_margin: 0,
                bottom_margin: 0,
            }),
            r.percent_range == (ColumnRange { start: 0, end: 1 }),
            r.restricted_area_option is None,
    {
        PlacementInfo {
            rec: Rectangle { x: 0, y: 0, width: 0, height: 0 },
            is_new_page: false,
            draw_height_left_on_page: 0,
            page_number: 0,
            page_size_info: PageSizeInfo::new(0, 0, 0, 0, 0),
            percent_range: ColumnRange { start: 0, end: 1 },
            restricted_area_option: None,
        }
    }
}

/// Options for a position request.
#[derive(Clone, Copy, Debug)]
pub struct PlacementOptions {
    pub move_to_next_page: bool,
    pub ignore: bool,
}

/// A border rectangle recorded for deferred rendering instead of being
/// drawn immediately.
#[derive(Clone, Copy, Debug)]
pub struct Border {
    pub rec: PlacementInfo,
    pub color: Color,
    pub pixel_size: i64,
}

impl Border {
    pub fn new(rec: PlacementInfo, color: Color, pixel_size: i64) -> (b: Border)
        ensures
            b.rec == rec,
            b.color == color,
            b.pixel_size == pixel_size,
    {
        Border { rec, color, pixel_size }
    }
}


impl From<PlacementInfo> for Rectangle {
    /// A placement reduces to its outer rectangle.
    fn from(placement_info: PlacementInfo) -> (r: Rectangle) {
        Rectangle::new(
            placement_info.rec.x,
            placement_info.rec.y,
            placement_info.rec.width,
            placement_info.rec.height,
        )
    }
}

impl vstd::std_specs::convert::FromSpecImpl<PlacementInfo> for Rectangle {
    open spec fn obeys_from_spec() -> bool {
        true
    }

    open spec fn from_spec(placement_info: PlacementInfo) -> Rectangle {
        placement_info.rec
    }
}

} // verus!
