//! The draw sink: components render by appending drawing instructions to a
//! per-page buffer. Instructions are expressed in bottom-up page space, the
//! space a rendering backend consumes.

use vstd::prelude::*;
use crate::font_info::FontInfo;
use crate::geometry::{Color, Rectangle};

verus! {

/// One drawing instruction, in bottom-up page space.
#[derive(Clone, Debug, PartialEq)]
pub enum DrawInstruction {
    /// Stroke the outline of a rectangle.
    StrokeRect { rect: Rectangle, line_width: i64, color: Color },
    /// Fill the interior of a rectangle.
    FillRect { rect: Rectangle, color: Color },
    /// Stroke a horizontal line from (x, y) to (x + length, y).
    HorizontalLine { x: i64, y: i64, length: i64, line_width: i64, color: Color },
    /// Stroke a vertical line from (x, y_top) down to (x, y_top - length).
    VerticalLine { x: i64, y_top: i64, length: i64, line_width: i64, color: Color },
    /// Draw text with its start point at (x, y).
    Text { x: i64, y: i64, text: String, font: FontInfo, color: Color },
}

/// A sink for drawing instructions, one ordered buffer per page.
///
/// Inserting into a page whose buffer has not been grown yet is a
/// precondition violation: callers grow the buffer first.
pub trait DrawInfoReq: Sized {
    /// The buffered instructions, per page.
    spec fn pages(&self) -> Seq<Seq<DrawInstruction>>;

    /// Grow the page buffers so that `page_number` is a valid page index;
    /// existing buffers are kept.
    fn increment_page_buffer(&mut self, page_number: usize)
        ensures
            final(self).pages().len() == (if old(self).pages().len() >= page_number + 1 {
                old(self).pages().len() as int
            } else {
                page_number + 1
            }),
            forall|i: int|
                0 <= i < old(self).pages().len() ==> final(self).pages()[i] == old(self).pages()[i],
            forall|i: int|
                old(self).pages().len() <= i < final(self).pages().len() ==> final(self).pages()[i] == Seq::<DrawInstruction>::empty(),
    ;

    /// The number of page buffers grown so far.
    fn page_array_size(&self) -> (n: usize)
        ensures
            n == self.pages().len(),
    ;

    /// Append one instruction to a page's buffer.
    fn insert_into_page(&mut self, page_num: usize, operation: DrawInstruction)
        requires
            page_num < old(self).pages().len(),
        ensures
            final(self).pages() == old(self).pages().update(
                page_num as int,
                old(self).pages()[page_num as int].push(operation),
            ),
    ;
}

/// The default sink: an in-memory buffer of instructions per page, which a
/// rendering backend reads out after layout.
pub struct PdfDrawInfo {
    pub pdf: Vec<Vec<DrawInstruction>>,
}

impl PdfDrawInfo {
    pub fn new() -> (r: PdfDrawInfo)
        ensures
            r.pages() == Seq::<Seq<DrawInstruction>>::empty(),
    {
        let r = PdfDrawInfo { pdf: Vec::new() };
        proof {
            assert(r.pages() =~= Seq::<Seq<DrawInstruction>>::empty());
        }
        r
    }
}

impl DrawInfoReq for PdfDrawInfo {
    open spec fn pages(&self) -> Seq<Seq<DrawInstruction>> {
        self.pdf@.map_values(|p: Vec<DrawInstruction>| p@)
    }

    fn increment_page_buffer(&mut self, page_number: usize) {
        let ghost orig = self.pages();
        while self.pdf.len() <= page_number
            invariant
                orig.len() <= self.pdf@.len(),
                self.pdf@.len() <= page_number + 1 || self.pdf@.len() == orig.len(),
                forall|i: int| 0 <= i < orig.len() ==> self.pages()[i] == orig[i],
                forall|i: int|
                    orig.len() <= i < self.pdf@.len() ==> self.pages()[i] == Seq::<
                        DrawInstruction,
                    >::empty(),
            decreases page_number + 1 - self.pdf.len(),
        {
            let ghost prev = self.pages();
            self.pdf.push(Vec::new());
            proof {
                assert(self.pages() =~= prev.push(Seq::<DrawInstruction>::empty()));
            }
        }
    }

    fn page_array_size(&self) -> (n: usize) {
        self.pdf.len()
    }

    fn insert_into_page(&mut self, page_num: usize, operation: DrawInstruction) {
        let ghost orig = self.pages();
        self.pdf[page_num].push(operation);
        proof {
            assert(self.pages() =~= orig.update(
                page_num as int,
                orig[page_num as int].push(operation),
            ));
        }
    }
}

} // verus!
