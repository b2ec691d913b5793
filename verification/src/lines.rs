//! Line and frame drawing: each helper flips its layout-space coordinates
//! into bottom-up page space and appends one instruction to the draw sink.

use vstd::prelude::*;
use crate::draw::{DrawInfoReq, DrawInstruction};
use crate::geometry::{pdf_rect, Color};
use crate::placement::PlacementInfo;

verus! {

/// Stroke the outline of a committed placement's rectangle.
pub fn draw_rectangle<T: DrawInfoReq>(
    draw_to: &mut T,
    placement_info: &PlacementInfo,
    size: i64,
    border_color: Color,
)
    requires
        placement_info.page_number < old(draw_to).pages().len(),
        i64::MIN <= placement_info.page_size_info.page_height_pixels - placement_info.rec.y
            <= i64::MAX,
        i64::MIN <= placement_info.page_size_info.page_height_pixels - placement_info.rec.y
            - placement_info.rec.height <= i64::MAX,
    ensures
        final(draw_to).pages() == old(draw_to).pages().update(
            placement_info.page_number as int,
            old(draw_to).pages()[placement_info.page_number as int].push(
                DrawInstruction::StrokeRect {
                    rect: pdf_rect(
                        placement_info.rec,
                        placement_info.page_size_info.page_height_pixels as int,
                    ),
                    line_width: size,
                    color: border_color,
                },
            ),
        ),
{
    let rec = placement_info.rec.get_pdf_version(placement_info.page_size_info);
    draw_to.insert_into_page(
        placement_info.page_number,
        DrawInstruction::StrokeRect { rect: rec, line_width: size, color: border_color },
    );
}

/// Stroke a horizontal separator whose top edge in layout space is
/// `top_pixel`.
pub fn draw_horizontal_line<T: DrawInfoReq>(
    draw_to: &mut T,
    page_number: usize,
    top_pixel: i64,
    left_x_pixel: i64,
    width_pixel: i64,
    page_height_pixels: i64,
    size: i64,
    border_color: Color,
)
    requires
        page_number < old(draw_to).pages().len(),
        i64::MIN <= page_height_pixels - top_pixel <= i64::MAX,
    ensures
        final(draw_to).pages() == old(draw_to).pages().update(
            page_number as int,
            old(draw_to).pages()[page_number as int].push(
                DrawInstruction::HorizontalLine {
                    x: left_x_pixel,
                    y: (page_height_pixels - top_pixel) as i64,
                    length: width_pixel,
                    line_width: size,
                    color: border_color,
                },
            ),
        ),
{
    let real_height = page_height_pixels - top_pixel;
    draw_to.insert_into_page(
        page_number,
        DrawInstruction::HorizontalLine {
            x: left_x_pixel,
            y: real_height,
            length: width_pixel,
            line_width: size,
            color: border_color,
        },
    );
}

/// Stroke a vertical separator starting at layout-space `top_pixel` and
/// running down `height_of_object` pixels.
pub fn draw_vertical_line<T: DrawInfoReq>(
    draw_to: &mut T,
    page_number: usize,
    top_pixel: i64,
    left_x_pixel: i64,
    height_of_object: i64,
    page_height_pixels: i64,
    size: i64,
    border_color: Color,
)
    requires
        page_number < old(draw_to).pages().len(),
        i64::MIN <= page_height_pixels - top_pixel <= i64::MAX,
    ensures
        final(draw_to).pages() == old(draw_to).pages().update(
            page_number as int,
            old(draw_to).pages()[page_number as int].push(
                DrawInstruction::VerticalLine {
                    x: left_x_pixel,
                    y_top: (page_height_pixels - top_pixel) as i64,
                    length: height_of_object,
                    line_width: size,
                    color: border_color,
                },
            ),
        ),
{
    let real_height = page_height_pixels - top_pixel;
    draw_to.insert_into_page(
        page_number,
        DrawInstruction::VerticalLine {
            x: left_x_pixel,
            y_top: real_height,
            length: height_of_object,
            line_width: size,
            color: border_color,
        },
    );
}

} // verus!
