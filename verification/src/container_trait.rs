//! The drawable-component capability: any content type that accepts a
//! placement, a draw sink and an optional deferred-border collector, renders
//! itself, and may report a replacement placement reflecting the space it
//! actually consumed.

use vstd::prelude::*;
use crate::draw::DrawInfoReq;
use crate::geometry::{ColumnRange, PageSizeInfo};
use crate::page_master::PageMaster;
use crate::placement::{Border, PlacementInfo};

verus! {

/// Marker for content that participates in group tracking.
pub trait GroupTracker {}

/// A drawable component.
pub trait ContainerTrait: Sized {
    /// What this component asks of the placement it is drawn into: the
    /// column range it will subdivide and the page geometry it will draw
    /// against.
    spec fn draw_requires(&self, range: ColumnRange, geometry: PageSizeInfo) -> bool;

    /// Render into the given placement, appending instructions to the draw
    /// sink. A deferred-border collector, when present, receives border
    /// rectangles instead of their being drawn immediately. The component
    /// may return a replacement placement reflecting the space it actually
    /// consumed, which the caller then commits.
    fn on_draw<T: DrawInfoReq>(
        &mut self,
        placement_info: PlacementInfo,
        pm: &mut PageMaster,
        draw_info: &mut T,
        borders: &mut Option<Vec<Border>>,
    ) -> (r: Option<PlacementInfo>)
        requires
            old(pm).wf(),
            placement_info.page_size_info == old(pm).geometry(),
            placement_info.draw_ok(),
            old(self).draw_requires(placement_info.percent_range, placement_info.page_size_info),
            placement_info.page_number < old(draw_info).pages().len(),
        ensures
            final(pm).wf(),
            final(pm).geometry() == old(pm).geometry(),
            match r {
                Option::Some(p) => p.draw_ok() && p.page_size_info == old(pm).geometry(),
                Option::None => true,
            },
    ;

    /// The group id under which this component's committed placements are
    /// collected, if any.
    spec fn spec_get_group(&self) -> Option<usize>;

    fn get_group(&self) -> (g: Option<usize>)
        ensures
            g == self.spec_get_group(),
    ;
}

} // verus!
