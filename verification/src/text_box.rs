//! The leaf drawable: a text cell with a background fill, an alignment and
//! an optional single-line border. Text width is estimated from the font's
//! average advance; exact glyph metrics belong to the rendering backend.

use vstd::prelude::*;
use crate::container_trait::ContainerTrait;
use crate::draw::{DrawInfoReq, DrawInstruction};
use crate::font_info::{Font, FontInfo};
use crate::geometry::{
    lemma_mul_le, pdf_rect, Color, ColumnRange, PageSizeInfo, Rectangle, MAX_CONTENT, MAX_DIM,
    MAX_TEXT,
};
use crate::lines::draw_rectangle;
use crate::page_master::PageMaster;
use crate::placement::{Border, PlacementInfo};

verus! {

/// Border drawn around a text box: none, or a single line of the given
/// thickness.
#[derive(Clone, Copy, Debug, PartialEq, Eq, Structural)]
pub enum BorderStyle {
    NoBorder,
    Single(i64),
}

/// Placement of text inside its cell. Justified variants carry an
/// indentation in hundredths of an inch, converted with the page dpi.
#[derive(Clone, Copy, Debug, PartialEq, Eq, Structural)]
pub enum TextAlignment {
    LeftTop,
    LeftCenter,
    LeftBottom,
    LeftJustifyTop(i64),
    LeftJustifyCenter(i64),
    LeftJustifyBottom(i64),
    RightTop,
    RightCenter,
    RightBottom,
    RightJustifyTop(i64),
    RightJustifyCenter(i64),
    RightJustifyBottom(i64),
    CenterTop,
    CenterCenter,
    CenterBottom,
}

impl TextAlignment {
    /// Justify indentations stay within one page dimension.
    pub open spec fn wf(&self) -> bool {
        match *self {
            TextAlignment::LeftJustifyTop(amt) => 0 <= amt <= MAX_CONTENT,
            TextAlignment::LeftJustifyCenter(amt) => 0 <= amt <= MAX_CONTENT,
            TextAlignment::LeftJustifyBottom(amt) => 0 <= amt <= MAX_CONTENT,
            TextAlignment::RightJustifyTop(amt) => 0 <= amt <= MAX_CONTENT,
            TextAlignment::RightJustifyCenter(amt) => 0 <= amt <= MAX_CONTENT,
            TextAlignment::RightJustifyBottom(amt) => 0 <= amt <= MAX_CONTENT,
            _ => true,
        }
    }
}

/// Characters that take horizontal space on a line: all but newlines.
pub open spec fn line_char_count(s: Seq<char>) -> int
    decreases s.len(),
{
    if s.len() == 0 {
        0
    } else {
        line_char_count(s.drop_last()) + if s.last() == '\n' {
            0int
        } else {
            1int
        }
    }
}

/// Estimated width of a line of text: the number of spacing characters
/// times the font's average advance, scaled by the font size.
pub open spec fn spec_line_width(text: Seq<char>, font: FontInfo) -> int {
    line_char_count(text) * font.size * font.font.spec_advance_milli() / 1000
}

/// Downward shift that makes the glyphs' descent fit inside the box when
/// compensation is on: the font descent scaled to the font size.
pub open spec fn spec_descent_offset(font: FontInfo, compensate: bool) -> int {
    if compensate {
        -((-font.font.spec_descent_units()) * font.size / 2048)
    } else {
        0
    }
}

/// The start point of a piece of text inside its cell: x from the
/// horizontal alignment and the estimated line width, y (relative to the
/// cell bottom) from the vertical alignment. Negative cell extents count
/// as zero.
pub open spec fn spec_text_start(
    text: Seq<char>,
    rect: Rectangle,
    font: FontInfo,
    alignment: TextAlignment,
    dpi: int,
    compensate: bool,
) -> (int, int) {
    let w = if rect.width >= 0 {
        rect.width as int
    } else {
        0
    };
    let h = if rect.height >= 0 {
        rect.height as int
    } else {
        0
    };
    let lw = spec_line_width(text, font);
    let up = spec_descent_offset(font, compensate);
    let top_y = h - font.size + up;
    let center_y = h / 2 - font.size / 2 + up;
    let bottom_y = up;
    match alignment {
        TextAlignment::LeftTop => (rect.x as int, top_y),
        TextAlignment::LeftCenter => (rect.x as int, center_y),
        TextAlignment::LeftBottom => (rect.x as int, bottom_y),
        TextAlignment::LeftJustifyTop(amt) => (rect.x + amt * dpi / 100, top_y),
        TextAlignment::LeftJustifyCenter(amt) => (rect.x + amt * dpi / 100, center_y),
        TextAlignment::LeftJustifyBottom(amt) => (rect.x + amt * dpi / 100, bottom_y),
        TextAlignment::CenterTop => (rect.x + w / 2 - lw / 2, top_y),
        TextAlignment::CenterCenter => (rect.x + w / 2 - lw / 2, center_y),
        TextAlignment::CenterBottom => (rect.x + w / 2 - lw / 2, bottom_y),
        TextAlignment::RightTop => (rect.x + w - lw, top_y),
        TextAlignment::RightCenter => (rect.x + w - lw, center_y),
        TextAlignment::RightBottom => (rect.x + w - lw, bottom_y),
        TextAlignment::RightJustifyTop(pt) => (rect.x - pt * dpi / 100 + w - lw, top_y),
        TextAlignment::RightJustifyCenter(pt) => (rect.x - pt * dpi / 100 + w - lw, center_y),
        TextAlignment::RightJustifyBottom(pt) => (rect.x - pt * dpi / 100 + w - lw, bottom_y),
    }
}

/// A text cell.
pub struct TextBox {
    text: String,
    font: FontInfo,
    border_style: BorderStyle,
    background: Color,
    alignment: TextAlignment,
    compensate_for_font_decent: bool,
    group: Option<usize>,
}

impl TextBox {
    /// The text as stored, for instruction-level contracts.
    pub closed spec fn spec_text_string(&self) -> String {
        self.text
    }

    pub open spec fn spec_text(&self) -> Seq<char> {
        self.spec_text_string()@
    }

    pub closed spec fn spec_font(&self) -> FontInfo {
        self.font
    }

    pub closed spec fn spec_border_style(&self) -> BorderStyle {
        self.border_style
    }

    pub closed spec fn spec_background(&self) -> Color {
        self.background
    }

    pub closed spec fn spec_alignment(&self) -> TextAlignment {
        self.alignment
    }

    pub closed spec fn spec_group(&self) -> Option<usize> {
        self.group
    }

    pub open spec fn wf(&self) -> bool {
        &&& self.spec_text().len() <= MAX_TEXT
        &&& self.spec_font().wf()
        &&& self.spec_alignment().wf()
    }

    pub fn new(
        text: &str,
        font: FontInfo,
        alignment: Option<TextAlignment>,
        border_style: Option<BorderStyle>,
        background: Option<Color>,
        group: Option<usize>,
    ) -> (r: TextBox)
        ensures
            r.spec_text() == text@,
            r.spec_font() == font,
            r.spec_border_style() == (match border_style {
                Option::Some(b) => b,
                Option::None => BorderStyle::NoBorder,
            }),
            r.spec_background() == (match background {
                Option::Some(c) => c,
                Option::None => Color { r: 1000, g: 1000, b: 1000 },
            }),
            r.spec_alignment() == (match alignment {
                Option::Some(a) => a,
                Option::None => TextAlignment::LeftBottom,
            }),
            r.spec_group() == group,
    {
        TextBox {
            text: text.to_owned(),
            font,
            border_style: match border_style {
                Some(b) => b,
                None => BorderStyle::NoBorder,
            },
            background: match background {
                Some(c) => c,
                None => Color { r: 1000, g: 1000, b: 1000 },
            },
            alignment: match alignment {
                Some(a) => a,
                None => TextAlignment::LeftBottom,
            },
            compensate_for_font_decent: false,
            group,
        }
    }

    pub fn set_background(&mut self, back_ground: Color)
        ensures
            final(self).spec_background() == back_ground,
            final(self).spec_text() == old(self).spec_text(),
            final(self).spec_font() == old(self).spec_font(),
            final(self).spec_border_style() == old(self).spec_border_style(),
            final(self).spec_alignment() == old(self).spec_alignment(),
            final(self).spec_group() == old(self).spec_group(),
    {
        self.background = back_ground;
    }

    pub fn compensate_for_font_decent(&mut self, should_it: bool)
        ensures
            final(self).spec_text() == old(self).spec_text(),
            final(self).spec_font() == old(self).spec_font(),
            final(self).spec_border_style() == old(self).spec_border_style(),
            final(self).spec_background() == old(self).spec_background(),
            final(self).spec_alignment() == old(self).spec_alignment(),
            final(self).spec_group() == old(self).spec_group(),
    {
        self.compensate_for_font_decent = should_it;
    }

    /// Count the spacing characters of a line of text.
    fn count_line_chars(text: &str) -> (cnt: usize)
        requires
            text@.len() <= MAX_TEXT,
        ensures
            cnt == line_char_count(text@),
            cnt <= text@.len(),
    {
        let n = text.unicode_len();
        let mut cnt: usize = 0;
        let mut i: usize = 0;
        while i < n
            invariant
                n == text@.len(),
                i <= n,
                cnt == line_char_count(text@.take(i as int)),
                cnt <= i,
            decreases n - i,
        {
            proof {
                assert(text@.take(i + 1).drop_last() =~= text@.take(i as int));
                assert(text@.take(i + 1).last() == text@[i as int]);
            }
            let c = text.get_char(i);
            if c != '\n' {
                cnt = cnt + 1;
            }
            i = i + 1;
        }
        proof {
            assert(text@.take(n as int) =~= text@);
        }
        cnt
    }

    /// A justified indentation in pixels: hundredths of an inch scaled by
    /// the page dpi.
    fn justify_offset(amt: i64, dpi: i64) -> (r: i64)
        requires
            0 <= amt <= MAX_CONTENT,
            0 <= dpi <= MAX_DIM,
        ensures
            r == amt * dpi / 100,
            0 <= r <= MAX_CONTENT * MAX_DIM,
    {
        proof {
            lemma_mul_le(amt as int, dpi as int, MAX_CONTENT as int, MAX_DIM as int);
        }
        amt * dpi / 100
    }

    /// The start point for drawing a line of text inside a cell, from the
    /// alignment, the estimated line width and the descent compensation.
    fn adjust_for_font_text_alignment(
        text: &str,
        text_draw_info: &Rectangle,
        font: &FontInfo,
        alignment: &TextAlignment,
        page_info: &PageSizeInfo,
        compensate_decent: bool,
    ) -> (r: (i64, i64))
        requires
            text@.len() <= MAX_TEXT,
            font.wf(),
            alignment.wf(),
            page_info.wf(),
            -4 * MAX_DIM <= text_draw_info.x <= 4 * MAX_DIM,
            -4 * MAX_DIM <= text_draw_info.width <= 4 * MAX_DIM,
            -4 * MAX_DIM <= text_draw_info.height <= 4 * MAX_DIM,
        ensures
            r.0 == spec_text_start(
                text@,
                *text_draw_info,
                *font,
                *alignment,
                page_info.dpi as int,
                compensate_decent,
            ).0,
            r.1 == spec_text_start(
                text@,
                *text_draw_info,
                *font,
                *alignment,
                page_info.dpi as int,
                compensate_decent,
            ).1,
    {
        let cnt = Self::count_line_chars(text);
        let advance = font.font.advance_milli();
        proof {
            assert(0 <= (cnt as i64) * font.size <= MAX_TEXT * MAX_CONTENT) by (nonlinear_arith)
                requires
                    0 <= cnt <= MAX_TEXT,
                    0 <= font.size <= MAX_CONTENT,
            ;
            assert(0 <= (cnt as i64) * font.size * advance <= MAX_TEXT * MAX_CONTENT * 1000)
                by (nonlinear_arith)
                requires
                    0 <= (cnt as i64) * font.size <= MAX_TEXT * MAX_CONTENT,
                    0 < advance <= 1000,
            ;
        }
        let line_width: i64 = (cnt as i64) * font.size * advance / 1000;
        let up_to_fit_in_box: i64 = if compensate_decent {
            let neg_desc = -font.font.descent_units();
            proof {
                lemma_mul_le(neg_desc as int, font.size as int, 2048, MAX_CONTENT as int);
            }
            -(neg_desc * font.size / 2048)
        } else {
            0
        };
        let w: i64 = if text_draw_info.width >= 0 {
            text_draw_info.width
        } else {
            0
        };
        let h: i64 = if text_draw_info.height >= 0 {
            text_draw_info.height
        } else {
            0
        };
        let top_y: i64 = h - font.size + up_to_fit_in_box;
        let center_y: i64 = h / 2 - font.size / 2 + up_to_fit_in_box;
        let bottom_y: i64 = up_to_fit_in_box;
        let x = text_draw_info.x;
        match alignment {
            TextAlignment::LeftTop => (x, top_y),
            TextAlignment::LeftCenter => (x, center_y),
            TextAlignment::LeftBottom => (x, bottom_y),
            TextAlignment::LeftJustifyTop(amt) => (x + Self::justify_offset(*amt, page_info.dpi), top_y),
            TextAlignment::LeftJustifyCenter(amt) => (
                x + Self::justify_offset(*amt, page_info.dpi),
                center_y,
            ),
            TextAlignment::LeftJustifyBottom(amt) => (
                x + Self::justify_offset(*amt, page_info.dpi),
                bottom_y,
            ),
            TextAlignment::CenterTop => (x + w / 2 - line_width / 2, top_y),
            TextAlignment::CenterCenter => (x + w / 2 - line_width / 2, center_y),
            TextAlignment::CenterBottom => (x + w / 2 - line_width / 2, bottom_y),
            TextAlignment::RightTop => (x + w - line_width, top_y),
            TextAlignment::RightCenter => (x + w - line_width, center_y),
            TextAlignment::RightBottom => (x + w - line_width, bottom_y),
            TextAlignment::RightJustifyTop(pt) => (
                x - Self::justify_offset(*pt, page_info.dpi) + w - line_width,
                top_y,
            ),
            TextAlignment::RightJustifyCenter(pt) => (
                x - Self::justify_offset(*pt, page_info.dpi) + w - line_width,
                center_y,
            ),
            TextAlignment::RightJustifyBottom(pt) => (
                x - Self::justify_offset(*pt, page_info.dpi) + w - line_width,
                bottom_y,
            ),
        }
    }

    /// Render this text cell into a placement: fill the cell background,
    /// then draw the text at its aligned start point; a single-line border
    /// is drawn immediately or recorded in the deferred collector.
    pub fn render<T: DrawInfoReq>(
        &self,
        placement_info: PlacementInfo,
        draw_to: &mut T,
        borders: &mut Option<Vec<Border>>,
    )
        requires
            self.wf(),
            placement_info.draw_ok(),
            placement_info.page_number < old(draw_to).pages().len(),
        ensures
            final(draw_to).pages().len() == old(draw_to).pages().len(),
            forall|i: int|
                0 <= i < old(draw_to).pages().len() && i != placement_info.page_number
                    ==> final(draw_to).pages()[i] == old(draw_to).pages()[i],
            ({
                let g = placement_info.page_size_info;
                let cell = match placement_info.restricted_area_option {
                    Option::Some(r) => r,
                    Option::None => placement_info.rec,
                };
                let clip = pdf_rect(cell, g.page_height_pixels as int);
                let start = spec_text_start(
                    self.spec_text(),
                    clip,
                    self.spec_font(),
                    self.spec_alignment(),
                    g.dpi as int,
                    false,
                );
                let fill = DrawInstruction::FillRect { rect: clip, color: self.spec_background() };
                let body = Seq::<DrawInstruction>::empty().push(fill).push(
                    DrawInstruction::Text {
                        x: start.0 as i64,
                        y: (start.1 + clip.y) as i64,
                        text: self.spec_text_string(),
                        font: self.spec_font(),
                        color: self.spec_font().font_color,
                    },
                );
                let with_border = match self.spec_border_style() {
                    BorderStyle::Single(size) => (match borders {
                        Option::None => body.push(
                            DrawInstruction::StrokeRect {
                                rect: pdf_rect(placement_info.rec, g.page_height_pixels as int),
                                line_width: size,
                                color: Color { r: 0, g: 0, b: 0 },
                            },
                        ),
                        Option::Some(_) => body,
                    }),
                    BorderStyle::NoBorder => body,
                };
                final(draw_to).pages()[placement_info.page_number as int] == old(
                    draw_to,
                ).pages()[placement_info.page_number as int] + with_border
            }),
            ({
                let ob = *old(borders);
                let fb = *final(borders);
                match self.spec_border_style() {
                    BorderStyle::Single(size) => {
                        &&& (ob is Some ==> fb is Some && fb->0@ == ob->0@.push(
                            Border {
                                rec: placement_info,
                                color: Color { r: 0, g: 0, b: 0 },
                                pixel_size: size,
                            },
                        ))
                        &&& (ob is None ==> fb is None)
                    },
                    BorderStyle::NoBorder => fb == ob,
                }
            }),
    {
        let outer_rec = placement_info.get_outer_rec();
        let cell = match placement_info.get_inner_rec() {
            Some(r) => r,
            None => outer_rec,
        };
        let text_draw_info = cell.get_pdf_version(placement_info.page_size_info);
        let (start_x, start_y) = Self::adjust_for_font_text_alignment(
            self.text.as_str(),
            &text_draw_info,
            &self.font,
            &self.alignment,
            &placement_info.page_size_info,
            false,
        );
        draw_to.insert_into_page(
            placement_info.page_number,
            DrawInstruction::FillRect { rect: text_draw_info, color: self.background },
        );
        draw_to.insert_into_page(
            placement_info.page_number,
            DrawInstruction::Text {
                x: start_x,
                y: start_y + text_draw_info.y,
                text: self.text.clone(),
                font: self.font,
                color: self.font.font_color,
            },
        );
        match self.border_style {
            BorderStyle::Single(size) => {
                match borders {
                    None => {
                        draw_rectangle(
                            draw_to,
                            &placement_info,
                            size,
                            Color { r: 0, g: 0, b: 0 },
                        );
                    },
                    Some(border) => {
                        border.push(
                            Border {
                                rec: placement_info,
                                color: Color { r: 0, g: 0, b: 0 },
                                pixel_size: size,
                            },
                        );
                    },
                }
            },
            BorderStyle::NoBorder => {},
        }
    }
}

impl Default for TextBox {
    fn default() -> (r: TextBox)
        ensures
            r.spec_text() == Seq::<char>::empty(),
            r.spec_font() == (FontInfo {
                font: Font::TimesRoman,
                size: 12,
                font_color: Color { r: 0, g: 0, b: 0 },
            }),
            r.spec_border_style() == BorderStyle::NoBorder,
            r.spec_background() == (Color { r: 1000, g: 1000, b: 1000 }),
            r.spec_alignment() == TextAlignment::LeftTop,
            r.spec_group() is None,
    {
        let r = TextBox {
            text: String::new(),
            font: FontInfo { font: Font::TimesRoman, size: 12, font_color: Color { r: 0, g: 0, b: 0 } },
            border_style: BorderStyle::NoBorder,
            background: Color { r: 1000, g: 1000, b: 1000 },
            alignment: TextAlignment::LeftTop,
            compensate_for_font_decent: false,
            group: None,
        };
        r
    }
}

impl ContainerTrait for TextBox {
    open spec fn draw_requires(&self, range: ColumnRange, geometry: PageSizeInfo) -> bool {
        self.wf()
    }

    open spec fn spec_get_group(&self) -> Option<usize> {
        self.spec_group()
    }

    fn on_draw<T: DrawInfoReq>(
        &mut self,
        placement_info: PlacementInfo,
        _pm: &mut PageMaster,
        draw_info: &mut T,
        borders: &mut Option<Vec<Border>>,
    ) -> (r: Option<PlacementInfo>)
        ensures
            r is None,
            *final(_pm) == *old(_pm),
            *final(self) == *old(self),
            final(draw_info).pages().len() == old(draw_info).pages().len(),
            forall|i: int|
                0 <= i < old(draw_info).pages().len() && i != placement_info.page_number
                    ==> final(draw_info).pages()[i] == old(draw_info).pages()[i],
            ({
                let g = placement_info.page_size_info;
                let cell = match placement_info.restricted_area_option {
                    Option::Some(rect) => rect,
                    Option::None => placement_info.rec,
                };
                let clip = pdf_rect(cell, g.page_height_pixels as int);
                let start = spec_text_start(
                    old(self).spec_text(),
                    clip,
                    old(self).spec_font(),
                    old(self).spec_alignment(),
                    g.dpi as int,
                    false,
                );
                let fill = DrawInstruction::FillRect {
                    rect: clip,
                    color: old(self).spec_background(),
                };
                let body = Seq::<DrawInstruction>::empty().push(fill).push(
                    DrawInstruction::Text {
                        x: start.0 as i64,
                        y: (start.1 + clip.y) as i64,
                        text: old(self).spec_text_string(),
                        font: old(self).spec_font(),
                        color: old(self).spec_font().font_color,
                    },
                );
                let with_border = match old(self).spec_border_style() {
                    BorderStyle::Single(size) => (match *old(borders) {
                        Option::None => body.push(
                            DrawInstruction::StrokeRect {
                                rect: pdf_rect(placement_info.rec, g.page_height_pixels as int),
                                line_width: size,
                                color: Color { r: 0, g: 0, b: 0 },
                            },
                        ),
                        Option::Some(_) => body,
                    }),
                    BorderStyle::NoBorder => body,
                };
                final(draw_info).pages()[placement_info.page_number as int] == old(
                    draw_info,
                ).pages()[placement_info.page_number as int] + with_border
            }),
            ({
                let ob = *old(borders);
                let fb = *final(borders);
                match old(self).spec_border_style() {
                    BorderStyle::Single(size) => {
                        &&& (ob is Some ==> fb is Some && fb->0@ == ob->0@.push(
                            Border {
                                rec: placement_info,
                                color: Color { r: 0, g: 0, b: 0 },
                                pixel_size: size,
                            },
                        ))
                        &&& (ob is None ==> fb is None)
                    },
                    BorderStyle::NoBorder => fb == ob,
                }
            }),
    {
        self.render(placement_info, draw_info, borders);
        None
    }

    fn get_group(&self) -> (g: Option<usize>) {
        self.group
    }
}

} // verus!
