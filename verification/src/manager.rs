//! The layout session facade: owns the placement engine and hands out
//! placement handles, each bound to one column range.

use vstd::prelude::*;
use crate::container_trait::ContainerTrait;
use crate::draw::DrawInfoReq;
use crate::geometry::{
    ColumnRange, PageMargins, PageSizeInfo, Rectangle, GRID_SLOTS, MAX_CONTENT, MAX_DIM,
};
use crate::page_master::{
    bounding_rect, committed_into, lemma_group_append_is_last, max_page_in, ColumnSlot, PageMaster,
};
use crate::placement::{Border, PlacementInfo, PlacementOptions};

verus! {

/// A column range carried alongside queued content.
pub struct LocationInfo {
    pub range: ColumnRange,
}

/// Out-of-range column endpoints are clamped defensively rather than
/// surfaced: a start beyond the grid resets to 0, an end beyond the grid
/// clamps to the last slot.
pub open spec fn clamp_range(r: ColumnRange) -> ColumnRange {
    ColumnRange {
        start: if r.start > GRID_SLOTS {
            0
        } else {
            r.start
        },
        end: if r.end > GRID_SLOTS {
            (GRID_SLOTS - 1) as usize
        } else {
            r.end
        },
    }
}

/// Owner of the placement engine for one layout session.
pub struct Manager {
    pub page_master: PageMaster,
}

impl Manager {
    pub open spec fn wf(&self) -> bool {
        self.page_master.wf()
    }

    pub fn new(
        page_width_pixels: i64,
        page_height_pixels: i64,
        dpi: i64,
        top_margin_pixels: i64,
        bottom_margin_pixels: i64,
    ) -> (r: Manager)
        requires
            (PageSizeInfo {
                page_height_pixels,
                page_width_pixels,
                dpi,
                top_margin: top_margin_pixels,
                bottom_margin: bottom_margin_pixels,
            }).wf(),
        ensures
            r.wf(),
            r.page_master.geometry() == (PageSizeInfo {
                page_height_pixels,
                page_width_pixels,
                dpi,
                top_margin: top_margin_pixels,
                bottom_margin: bottom_margin_pixels,
            }),
            forall|i: int|
                0 <= i < GRID_SLOTS ==> #[trigger] r.page_master.slots()[i] == (ColumnSlot {
                    page: 0,
                    cursor: top_margin_pixels,
                }),
            r.page_master.groups_view() == Seq::<(usize, Seq<Seq<Rectangle>>)>::empty(),
    {
        Manager {
            page_master: PageMaster::new(
                page_width_pixels,
                page_height_pixels,
                dpi,
                top_margin_pixels,
                bottom_margin_pixels,
            ),
        }
    }

    /// The page geometry snapshot copied into every placement record.
    pub fn get_page_info(&self) -> (r: PageSizeInfo)
        ensures
            r == self.page_master.geometry(),
    {
        let info = self.page_master.get_page_info();
        let margins = self.page_master.get_margins_pixels();
        PageSizeInfo::new(info.0, info.1, info.2, margins.top_margin_pixels, margins.bottom_margin_pixels)
    }

    /// Per-group, per-page bounding rectangles of everything committed so
    /// far under a group id.
    pub fn get_groups(&self) -> (res: Vec<(usize, Vec<Rectangle>)>)
        requires
            self.wf(),
        ensures
            res@.len() == self.page_master.groups_view().len(),
            forall|i: int|
                0 <= i < res@.len() ==> (#[trigger] res@[i]).0 == self.page_master.groups_view()[i].0,
            forall|i: int|
                0 <= i < res@.len() ==> (#[trigger] res@[i]).1@.len()
                    == self.page_master.groups_view()[i].1.len(),
            forall|i: int, p: int|
                0 <= i < res@.len() && 0 <= p < res@[i].1@.len() ==> (#[trigger] res@[i].1@[p])
                    == bounding_rect(self.page_master.groups_view()[i].1[p]),
    {
        self.page_master.get_group_borders()
    }

    pub fn get_page_pixel_dims(&self) -> (r: (i64, i64, i64))
        ensures
            r.0 == self.page_master.geometry().page_width_pixels,
            r.1 == self.page_master.geometry().page_height_pixels,
            r.2 == self.page_master.geometry().dpi,
    {
        self.page_master.get_page_info()
    }

    pub fn get_page_pixel_margins(&self) -> (m: PageMargins)
        ensures
            m.top_margin_pixels == self.page_master.geometry().top_margin,
            m.bottom_margin_pixels == self.page_master.geometry().bottom_margin,
    {
        self.page_master.get_margins_pixels()
    }

    /// Obtain a placement handle for a column range, optionally forcing a
    /// fresh page. Out-of-range endpoints are clamped, never surfaced; a
    /// range that is empty even after clamping has no slot to reference and
    /// is a caller contract violation, excluded by precondition.
    pub fn get_placement_handle(&mut self, range: ColumnRange, start_new_page: bool) -> (r:
        CurrentPlacement)
        requires
            old(self).wf(),
            clamp_range(range).wf(),
        ensures
            *final(self) == *old(self),
            r.wf(),
            r.info() == old(self).page_master.next_position(start_new_page, clamp_range(range)),
            r.info().page_size_info == old(self).page_master.geometry(),
            r.info().rec.y >= old(self).page_master.geometry().top_margin,
            r.info().draw_height_left_on_page == old(self).page_master.geometry().page_height_pixels
                - old(self).page_master.geometry().bottom_margin - r.info().rec.y,
    {
        CurrentPlacement::new(&self.page_master, Some(range), start_new_page)
    }

    /// The page count seen so far: the reference page over the whole grid.
    pub fn get_page_cnt(&self) -> (n: usize)
        requires
            self.wf(),
        ensures
            n == max_page_in(self.page_master.slots(), 0, GRID_SLOTS as int),
    {
        self.page_master.get_page_cnt()
    }

    /// Place a component in one step: obtain a handle, assign its height,
    /// draw the component through it and commit the resulting placement.
    pub fn place_now<T: DrawInfoReq, F: ContainerTrait>(
        &mut self,
        height_pixels: i64,
        range: ColumnRange,
        draw_info: &mut T,
        f: &mut F,
        borders: &mut Option<Vec<Border>>,
    )
        requires
            old(self).wf(),
            clamp_range(range).wf(),
            0 <= height_pixels <= MAX_CONTENT,
            old(f).draw_requires(clamp_range(range), old(self).page_master.geometry()),
        ensures
            final(self).wf(),
            final(self).page_master.geometry() == old(self).page_master.geometry(),
            exists|c: PlacementInfo|
                {
                    &&& #[trigger] committed_into(
                        final(self).page_master,
                        c,
                        final(f).spec_get_group(),
                    )
                    &&& c.draw_ok()
                    &&& c.page_size_info == old(self).page_master.geometry()
                },
    {
        let mut placement_handle = self.get_placement_handle(range, false);
        placement_handle.set_pixel_height(&self.page_master, height_pixels);
        placement_handle.draw(&mut self.page_master, f, draw_info, borders);
        proof {
            let c = placement_handle.info();
            assert(committed_into(self.page_master, c, f.spec_get_group()));
        }
    }
}

/// A per-request cursor bound to one column range: holds the placement the
/// engine computed, lets the caller assign a height (which may move it to a
/// fresh page), and drives a component's render call.
pub struct CurrentPlacement {
    placement_info: PlacementInfo,
}

impl CurrentPlacement {
    /// The placement this handle currently carries.
    pub closed spec fn info(&self) -> PlacementInfo {
        self.placement_info
    }

    pub open spec fn wf(&self) -> bool {
        self.info().draw_ok()
    }

    /// Request a placement over a (defensively clamped) column range; with
    /// no range given the whole grid is used. A range that is empty even
    /// after clamping has no slot to reference and is excluded by
    /// precondition rather than surfaced as an error.
    pub fn new(page_master: &PageMaster, range: Option<ColumnRange>, start_new_page: bool) -> (r:
        CurrentPlacement)
        requires
            page_master.wf(),
            clamp_range(
                match range {
                    Option::Some(rn) => rn,
                    Option::None => ColumnRange { start: 0, end: GRID_SLOTS },
                },
            ).wf(),
        ensures
            r.wf(),
            r.info() == page_master.next_position(
                start_new_page,
                clamp_range(
                    match range {
                        Option::Some(rn) => rn,
                        Option::None => ColumnRange { start: 0, end: GRID_SLOTS },
                    },
                ),
            ),
            r.info().page_size_info == page_master.geometry(),
            r.info().rec.y >= page_master.geometry().top_margin,
            r.info().draw_height_left_on_page == page_master.geometry().page_height_pixels
                - page_master.geometry().bottom_margin - r.info().rec.y,
    {
        let mut rn = match range {
            Some(rn) => rn,
            None => ColumnRange { start: 0, end: GRID_SLOTS },
        };
        let col_len = page_master.get_column_len();
        if rn.start > col_len {
            rn.start = 0;
        }
        if rn.end > col_len {
            rn.end = col_len - 1;
        }
        let placement_info = page_master.get_next_top_position(
            PlacementOptions { move_to_next_page: start_new_page, ignore: false },
            rn,
        );
        CurrentPlacement { placement_info }
    }

    /// Assign the record's pixel height. When the height exceeds the
    /// remaining height on the page, the record is re-requested on a forced
    /// fresh page first; this is the sole overflow trigger for
    /// non-composite content.
    pub fn set_pixel_height(&mut self, pm: &PageMaster, size: i64)
        requires
            pm.wf(),
            old(self).wf(),
            old(self).info().page_size_info == pm.geometry(),
            old(self).info().draw_height_left_on_page == pm.geometry().page_height_pixels
                - pm.geometry().bottom_margin - old(self).info().rec.y,
            0 <= size <= MAX_DIM,
        ensures
            final(self).wf(),
            final(self).info().page_size_info == pm.geometry(),
            final(self).info().percent_range == old(self).info().percent_range,
            final(self).info().rec.height == size,
            old(self).info().draw_height_left_on_page >= size ==> ({
                &&& final(self).info().rec.x == old(self).info().rec.x
                &&& final(self).info().rec.y == old(self).info().rec.y
                &&& final(self).info().rec.width == old(self).info().rec.width
                &&& final(self).info().is_new_page == old(self).info().is_new_page
                &&& final(self).info().page_number == old(self).info().page_number
                &&& final(self).info().draw_height_left_on_page == old(self).info().draw_height_left_on_page
                &&& final(self).info().restricted_area_option == old(self).info().restricted_area_option
            }),
            old(self).info().draw_height_left_on_page < size ==> ({
                let np = pm.next_position(true, old(self).info().percent_range);
                &&& final(self).info().rec.x == np.rec.x
                &&& final(self).info().rec.y == np.rec.y
                &&& final(self).info().rec.width == np.rec.width
                &&& final(self).info().is_new_page
                &&& final(self).info().page_number == np.page_number
                &&& final(self).info().draw_height_left_on_page == np.draw_height_left_on_page
                &&& final(self).info().restricted_area_option is None
            }),
            final(self).info().rec.y >= pm.geometry().top_margin || final(self).info().rec.y == old(self).info().rec.y,
            final(self).info().draw_height_left_on_page == pm.geometry().page_height_pixels
                - pm.geometry().bottom_margin - final(self).info().rec.y,
    {
        if self.placement_info.draw_height_left_on_page >= size {
            self.placement_info.rec.height = size;
        } else {
            self.placement_info = pm.get_next_top_position(
                PlacementOptions { move_to_next_page: true, ignore: false },
                self.placement_info.percent_range,
            );
            self.placement_info.rec.height = size;
        }
    }

    pub fn get_placement_info(&self) -> (r: PlacementInfo)
        ensures
            r == self.info(),
    {
        self.placement_info
    }

    /// Draw a component through this handle: grow the sink's page buffers
    /// if needed, render, adopt the component's replacement placement if it
    /// reports one, then commit the final placement into the column grid and
    /// the group collection.
    pub fn draw<F: ContainerTrait, T: DrawInfoReq>(
        &mut self,
        pm: &mut PageMaster,
        f: &mut F,
        draw_info: &mut T,
        borders: &mut Option<Vec<Border>>,
    )
        requires
            old(pm).wf(),
            old(self).wf(),
            old(self).info().page_size_info == old(pm).geometry(),
            old(f).draw_requires(old(self).info().percent_range, old(pm).geometry()),
        ensures
            final(pm).wf(),
            final(pm).geometry() == old(pm).geometry(),
            final(self).wf(),
            final(self).info().page_size_info == old(pm).geometry(),
            committed_into(*final(pm), final(self).info(), final(f).spec_get_group()),
    {
        let draw_rec = self.placement_info;
        if draw_rec.page_number >= draw_info.page_array_size() {
            draw_info.increment_page_buffer(draw_rec.page_number);
        }
        let result = f.on_draw(draw_rec, pm, draw_info, borders);
        if let Some(last_placement) = result {
            self.placement_info = last_placement;
        }
        let group = f.get_group();
        let ghost gv_before = pm.groups_view();
        pm.set_group(group, &self.placement_info);
        proof {
            if let Some(id) = group {
                lemma_group_append_is_last(
                    gv_before,
                    pm.groups_view(),
                    id,
                    self.placement_info.page_number as int,
                    self.placement_info.rec,
                );
            }
        }
        pm.update_placement(&self.placement_info);
    }

    /// Shrink the drawable interior of the record by the given amounts on
    /// each side, recording the result as the restricted interior.
    pub fn set_restricted_interior(
        &mut self,
        shrink_top: i64,
        shrink_left: i64,
        shrink_right: i64,
        shrink_bottom: i64,
    )
        requires
            old(self).wf(),
            0 <= shrink_top <= MAX_CONTENT,
            0 <= shrink_left <= MAX_CONTENT,
            0 <= shrink_right <= MAX_CONTENT,
            0 <= shrink_bottom <= MAX_CONTENT,
        ensures
            final(self).wf(),
            final(self).info().rec == old(self).info().rec,
            final(self).info().page_number == old(self).info().page_number,
            final(self).info().page_size_info == old(self).info().page_size_info,
            final(self).info().percent_range == old(self).info().percent_range,
            final(self).info().is_new_page == old(self).info().is_new_page,
            final(self).info().draw_height_left_on_page == old(self).info().draw_height_left_on_page,
            final(self).info().restricted_area_option == Some(
                Rectangle {
                    x: (old(self).info().rec.x + shrink_left) as i64,
                    y: (old(self).info().rec.y + shrink_top) as i64,
                    width: (old(self).info().rec.width - shrink_left - shrink_right) as i64,
                    height: (old(self).info().rec.height - shrink_top - shrink_bottom) as i64,
                },
            ),
    {
        let c_info = self.placement_info;
        let area_opt = Rectangle::new(
            c_info.rec.x + shrink_left,
            c_info.rec.y + shrink_top,
            c_info.rec.width - shrink_left - shrink_right,
            c_info.rec.height - shrink_top - shrink_bottom,
        );
        self.placement_info.restricted_area_option = Some(area_opt);
    }
}

} // verus!
