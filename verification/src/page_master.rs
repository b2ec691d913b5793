//! The placement engine: a 100-slot percentage column grid in which each
//! slot tracks the page index and vertical cursor of the most recent
//! committed placement covering it, plus a collection of per-group
//! per-page rectangles used to derive bounding boxes.

use vstd::prelude::*;
use crate::geometry::{
    ColumnRange, PageMargins, PageSizeInfo, Rectangle, CURSOR_LIMIT, GRID_SLOTS, MAX_DIM,
    PAGE_LIMIT,
};
use crate::placement::{PlacementInfo, PlacementOptions};

verus! {

/// One percentage column slot: the page and bottom edge of the most recent
/// committed placement covering it.
#[derive(Clone, Copy, Debug, PartialEq, Eq, Structural)]
pub struct ColumnSlot {
    pub page: usize,
    pub cursor: i64,
}

impl ColumnSlot {
    pub open spec fn wf(&self) -> bool {
        &&& 0 <= self.cursor <= CURSOR_LIMIT
        &&& self.page <= PAGE_LIMIT
    }
}

/// The rectangles committed under one group id, one list per page index.
pub struct GroupEntry {
    pub id: usize,
    pub pages: Vec<Vec<Rectangle>>,
}

/// Largest page index among the slots of `s[a..b)`.
pub open spec fn max_page_in(s: Seq<ColumnSlot>, a: int, b: int) -> int
    decreases b - a,
{
    if b <= a {
        0
    } else {
        let rest = max_page_in(s, a, b - 1);
        if s[b - 1].page as int >= rest || b - 1 == a {
            s[b - 1].page as int
        } else {
            rest
        }
    }
}

/// Largest cursor among the slots of `s[a..b)` whose page equals `p`;
/// slots on another page count as cursor 0 for this comparison.
pub open spec fn max_cursor_on(s: Seq<ColumnSlot>, a: int, b: int, p: int) -> int
    decreases b - a,
{
    if b <= a {
        0
    } else {
        let rest = max_cursor_on(s, a, b - 1, p);
        let c: int = if s[b - 1].page as int == p {
            s[b - 1].cursor as int
        } else {
            0
        };
        if c >= rest {
            c
        } else {
            rest
        }
    }
}

/// A rectangle with non-negative extents whose edges stay within the
/// cursor bound.
pub open spec fn rect_in_bounds(r: Rectangle) -> bool {
    &&& 0 <= r.x
    &&& 0 <= r.y
    &&& 0 <= r.width
    &&& 0 <= r.height
    &&& r.x + r.width <= CURSOR_LIMIT
    &&& r.y + r.height <= CURSOR_LIMIT
}

/// The placement engine.
pub struct PageMaster {
    columns: Vec<ColumnSlot>,
    page_width_pixels: i64,
    page_height_pixels: i64,
    dpi: i64,
    top_margin_pixels: i64,
    bottom_margin_pixels: i64,
    groups: Vec<GroupEntry>,
}

impl PageMaster {
    /// The column grid, as a sequence of slots.
    pub closed spec fn slots(&self) -> Seq<ColumnSlot> {
        self.columns@
    }

    /// The page dimensions the engine was built with.
    pub closed spec fn geometry(&self) -> PageSizeInfo {
        PageSizeInfo {
            page_height_pixels: self.page_height_pixels,
            page_width_pixels: self.page_width_pixels,
            dpi: self.dpi,
            top_margin: self.top_margin_pixels,
            bottom_margin: self.bottom_margin_pixels,
        }
    }

    /// The group collection: for each group, its id and the committed
    /// rectangles listed per page index.
    pub closed spec fn groups_view(&self) -> Seq<(usize, Seq<Seq<Rectangle>>)> {
        self.groups@.map_values(
            |g: GroupEntry| (g.id, g.pages@.map_values(|p: Vec<Rectangle>| p@)),
        )
    }

    pub open spec fn wf(&self) -> bool {
        &&& self.slots().len() == GRID_SLOTS
        &&& self.geometry().wf()
        &&& forall|i: int|
            0 <= i < self.slots().len() ==> (#[trigger] self.slots()[i]).wf()
        &&& forall|i: int, j: int|
            0 <= i < j < self.groups_view().len() ==> (#[trigger] self.groups_view()[i]).0 != (
            #[trigger] self.groups_view()[j]).0
        &&& forall|i: int, p: int, k: int|
            0 <= i < self.groups_view().len() && 0 <= p < self.groups_view()[i].1.len() && 0 <= k
                < self.groups_view()[i].1[p].len() ==> rect_in_bounds(
                #[trigger] self.groups_view()[i].1[p][k],
            )
    }

    /// Reference page for a range: the largest page index over its slots.
    pub open spec fn ref_page(&self, range: ColumnRange) -> int {
        max_page_in(self.slots(), range.start as int, range.end as int)
    }

    /// Reference cursor for a range: the largest cursor among its slots on
    /// the reference page.
    pub open spec fn ref_cursor(&self, range: ColumnRange) -> int {
        max_cursor_on(
            self.slots(),
            range.start as int,
            range.end as int,
            self.ref_page(range),
        )
    }

    pub fn new(
        page_width_pixels: i64,
        page_height_pixels: i64,
        dpi: i64,
        top_margin_pixels: i64,
        bottom_margin_pixels: i64,
    ) -> (r: PageMaster)
        requires
            (PageSizeInfo {
                page_height_pixels,
                page_width_pixels,
                dpi,
                top_margin: top_margin_pixels,
                bottom_margin: bottom_margin_pixels,
            }).wf(),
        ensures
            r.wf(),
            r.geometry() == (PageSizeInfo {
                page_height_pixels,
                page_width_pixels,
                dpi,
                top_margin: top_margin_pixels,
                bottom_margin: bottom_margin_pixels,
            }),
            r.slots().len() == GRID_SLOTS,
            forall|i: int|
                0 <= i < GRID_SLOTS ==> #[trigger] r.slots()[i] == (ColumnSlot {
                    page: 0,
                    cursor: top_margin_pixels,
                }),
            r.groups_view() == Seq::<(usize, Seq<Seq<Rectangle>>)>::empty(),
    {
        let columns: Vec<ColumnSlot> = vec![ColumnSlot { page: 0, cursor: top_margin_pixels }; GRID_SLOTS];
        let r = PageMaster {
            columns,
            page_width_pixels,
            page_height_pixels,
            dpi,
            top_margin_pixels,
            bottom_margin_pixels,
            groups: Vec::new(),
        };
        proof {
            assert(r.groups_view() =~= Seq::<(usize, Seq<Seq<Rectangle>>)>::empty());
        }
        r
    }

    pub fn get_column_len(&self) -> (n: usize)
        ensures
            n == self.slots().len(),
    {
        self.columns.len()
    }

    pub fn get_page_info(&self) -> (r: (i64, i64, i64))
        ensures
            r.0 == self.geometry().page_width_pixels,
            r.1 == self.geometry().page_height_pixels,
            r.2 == self.geometry().dpi,
    {
        (self.page_width_pixels, self.page_height_pixels, self.dpi)
    }

    pub fn get_margins_pixels(&self) -> (m: PageMargins)
        ensures
            m.top_margin_pixels == self.geometry().top_margin,
            m.bottom_margin_pixels == self.geometry().bottom_margin,
    {
        PageMargins {
            top_margin_pixels: self.top_margin_pixels,
            bottom_margin_pixels: self.bottom_margin_pixels,
        }
    }

    /// The page count seen so far: the reference page over the whole grid.
    pub fn get_page_cnt(&self) -> (n: usize)
        requires
            self.wf(),
        ensures
            n == max_page_in(self.slots(), 0, GRID_SLOTS as int),
    {
        let (largest_page, _) = self.get_largest_for_range(ColumnRange { start: 0, end: GRID_SLOTS });
        largest_page
    }

    /// The reference page and reference cursor of a range.
    pub fn get_largest_for_range(&self, range: ColumnRange) -> (r: (usize, i64))
        requires
            self.wf(),
            range.wf(),
        ensures
            r.0 as int == self.ref_page(range),
            r.1 as int == self.ref_cursor(range),
    {
        let ghost s = self.slots();
        let ghost a = range.start as int;
        let mut largest_page: usize = self.columns[range.start].page;
        let mut i: usize = range.start + 1;
        while i < range.end
            invariant
                self.wf(),
                range.wf(),
                s == self.slots(),
                a == range.start as int,
                range.start < i <= range.end,
                largest_page as int == max_page_in(s, a, i as int),
            decreases range.end - i,
        {
            if self.columns[i].page > largest_page {
                largest_page = self.columns[i].page;
            }
            i = i + 1;
        }
        let mut largest_cursor: i64 = 0;
        let mut j: usize = range.start;
        while j < range.end
            invariant
                self.wf(),
                range.wf(),
                s == self.slots(),
                a == range.start as int,
                range.start <= j <= range.end,
                largest_cursor as int == max_cursor_on(s, a, j as int, largest_page as int),
            decreases range.end - j,
        {
            if self.columns[j].page == largest_page && self.columns[j].cursor > largest_cursor {
                largest_cursor = self.columns[j].cursor;
            }
            j = j + 1;
        }
        (largest_page, largest_cursor)
    }

    /// The record that a position request over `range` yields: the page the
    /// record lands on, the cursor it starts at, and the horizontal extent
    /// of the range.
    pub open spec fn next_position(&self, force: bool, range: ColumnRange) -> PlacementInfo {
        let rp = self.ref_page(range);
        let rc = self.ref_cursor(range);
        let g = self.geometry();
        let page: int = if force {
            if rp < PAGE_LIMIT {
                rp + 1
            } else {
                rp
            }
        } else {
            rp
        };
        let y: int = if force || rc < g.top_margin {
            g.top_margin as int
        } else {
            rc
        };
        PlacementInfo {
            rec: Rectangle {
                x: (g.page_width_pixels * range.start as int / 100) as i64,
                y: y as i64,
                width: (g.page_width_pixels * (range.end - range.start) / 100) as i64,
                height: 0,
            },
            is_new_page: force || rc < g.top_margin,
            draw_height_left_on_page: (g.page_height_pixels - g.bottom_margin - y) as i64,
            page_number: page as usize,
            page_size_info: g,
            percent_range: range,
            restricted_area_option: None,
        }
    }

    /// Compute the next placement for a range, per the requested options:
    /// a forced request moves to the page after the reference page; otherwise
    /// the record continues at the reference cursor (clamped up to the top
    /// margin, which also marks the record as starting a new page).
    pub fn get_next_top_position(&self, options: PlacementOptions, range: ColumnRange) -> (r:
        PlacementInfo)
        requires
            self.wf(),
            range.wf(),
        ensures
            r == self.next_position(options.move_to_next_page, range),
            r.commit_ok(),
            self.geometry().top_margin <= r.rec.y <= CURSOR_LIMIT,
            r.draw_height_left_on_page == self.geometry().page_height_pixels
                - self.geometry().bottom_margin - r.rec.y,
    {
        proof {
            lemma_max_page_in_bounds(self.slots(), range.start as int, range.end as int);
            lemma_max_cursor_on_bounds(
                self.slots(),
                range.start as int,
                range.end as int,
                self.ref_page(range),
            );
        }
        let (mut largest_page, mut cursor) = self.get_largest_for_range(range);
        let mut is_new_page = false;
        if options.move_to_next_page {
            if largest_page < PAGE_LIMIT {
                largest_page = largest_page + 1;
            }
            is_new_page = true;
            cursor = self.top_margin_pixels;
        } else if cursor < self.top_margin_pixels {
            is_new_page = true;
            cursor = self.top_margin_pixels;
        }
        let draw_height_left_on_page = self.page_height_pixels - self.bottom_margin_pixels
            - cursor;
        let width_span: i64 = (range.end - range.start) as i64;
        let start_span: i64 = range.start as i64;
        proof {
            assert(0 <= self.page_width_pixels * start_span <= MAX_DIM * 100) by (nonlinear_arith)
                requires
                    0 <= self.page_width_pixels <= MAX_DIM,
                    0 <= start_span <= 100,
            ;
            assert(0 <= self.page_width_pixels * width_span <= MAX_DIM * 100) by (nonlinear_arith)
                requires
                    0 <= self.page_width_pixels <= MAX_DIM,
                    0 <= width_span <= 100,
            ;
        }
        PlacementInfo {
            rec: Rectangle {
                x: self.page_width_pixels * start_span / 100,
                y: cursor,
                width: self.page_width_pixels * width_span / 100,
                height: 0,
            },
            draw_height_left_on_page,
            page_number: largest_page,
            page_size_info: PageSizeInfo {
                page_height_pixels: self.page_height_pixels,
                page_width_pixels: self.page_width_pixels,
                dpi: self.dpi,
                top_margin: self.top_margin_pixels,
                bottom_margin: self.bottom_margin_pixels,
            },
            percent_range: range,
            restricted_area_option: None,
            is_new_page,
        }
    }

    /// Commit a placement: every slot of its range is overwritten with the
    /// record's page and the bottom edge of its rectangle.
    pub fn update_placement(&mut self, placement_info: &PlacementInfo)
        requires
            old(self).wf(),
            placement_info.percent_range.wf(),
            0 <= placement_info.rec.y,
            0 <= placement_info.rec.height,
            placement_info.rec.y + placement_info.rec.height <= CURSOR_LIMIT,
            placement_info.page_number <= PAGE_LIMIT,
        ensures
            final(self).wf(),
            final(self).geometry() == old(self).geometry(),
            final(self).groups_view() == old(self).groups_view(),
            final(self).slots().len() == old(self).slots().len(),
            forall|k: int|
                placement_info.percent_range.start <= k < placement_info.percent_range.end
                    ==> #[trigger] final(self).slots()[k] == (ColumnSlot {
                    page: placement_info.page_number,
                    cursor: (placement_info.rec.y + placement_info.rec.height) as i64,
                }),
            forall|k: int|
                0 <= k < final(self).slots().len() && !(placement_info.percent_range.start <= k
                    < placement_info.percent_range.end) ==> #[trigger] final(self).slots()[k]
                    == old(self).slots()[k],
    {
        let ghost old_self = *self;
        let new_slot = ColumnSlot {
            page: placement_info.page_number,
            cursor: placement_info.rec.y + placement_info.rec.height,
        };
        let mut i: usize = placement_info.percent_range.start;
        while i < placement_info.percent_range.end
            invariant
                placement_info.percent_range.wf(),
                placement_info.percent_range.start <= i <= placement_info.percent_range.end,
                self.columns@.len() == old_self.columns@.len() == GRID_SLOTS,
                new_slot.wf(),
                new_slot.page == placement_info.page_number,
                new_slot.cursor == placement_info.rec.y + placement_info.rec.height,
                forall|k: int|
                    placement_info.percent_range.start <= k < i ==> #[trigger] self.columns@[k]
                        == new_slot,
                forall|k: int|
                    0 <= k < self.columns@.len() && !(placement_info.percent_range.start <= k
                        < i) ==> #[trigger] self.columns@[k] == old_self.columns@[k],
                self.page_width_pixels == old_self.page_width_pixels,
                self.page_height_pixels == old_self.page_height_pixels,
                self.dpi == old_self.dpi,
                self.top_margin_pixels == old_self.top_margin_pixels,
                self.bottom_margin_pixels == old_self.bottom_margin_pixels,
                self.groups@ == old_self.groups@,
            decreases placement_info.percent_range.end - i,
        {
            self.columns[i] = new_slot;
            i = i + 1;
        }
        proof {
            assert(old_self.wf());
            assert(self.geometry() == old_self.geometry());
            assert(self.groups_view() == old_self.groups_view());
        }
    }
}

/// View of a page-indexed rectangle store.
pub open spec fn pages_view(v: Vec<Vec<Rectangle>>) -> Seq<Seq<Rectangle>> {
    v@.map_values(|p: Vec<Rectangle>| p@)
}

/// Index of the entry with the given group id, or -1 when absent.
pub open spec fn find_group(gs: Seq<(usize, Seq<Seq<Rectangle>>)>, id: usize) -> int
    decreases gs.len(),
{
    if gs.len() == 0 {
        -1
    } else if gs[0].0 == id {
        0
    } else {
        let r = find_group(gs.drop_first(), id);
        if r < 0 {
            -1
        } else {
            r + 1
        }
    }
}

/// The page lists, extended with empty lists so that index `page` exists.
pub open spec fn padded_pages(pages: Seq<Seq<Rectangle>>, page: int) -> Seq<Seq<Rectangle>> {
    if page < pages.len() {
        pages
    } else {
        pages + Seq::new((page + 1 - pages.len()) as nat, |k: int| Seq::<Rectangle>::empty())
    }
}

/// The page lists after appending one rectangle at the given page index.
pub open spec fn with_rect(pages: Seq<Seq<Rectangle>>, page: int, r: Rectangle) -> Seq<
    Seq<Rectangle>,
> {
    let p = padded_pages(pages, page);
    p.update(page, p[page].push(r))
}

/// Smallest left edge over a list of rectangles (0 when empty).
pub open spec fn min_x_of(rs: Seq<Rectangle>) -> int
    decreases rs.len(),
{
    if rs.len() == 0 {
        0
    } else if rs.len() == 1 {
        rs[0].x as int
    } else {
        let rest = min_x_of(rs.drop_last());
        if rs.last().x as int <= rest {
            rs.last().x as int
        } else {
            rest
        }
    }
}

/// Smallest top edge over a list of rectangles (0 when empty).
pub open spec fn min_y_of(rs: Seq<Rectangle>) -> int
    decreases rs.len(),
{
    if rs.len() == 0 {
        0
    } else if rs.len() == 1 {
        rs[0].y as int
    } else {
        let rest = min_y_of(rs.drop_last());
        if rs.last().y as int <= rest {
            rs.last().y as int
        } else {
            rest
        }
    }
}

/// Largest right edge (x + width) over a list of rectangles (0 when empty).
pub open spec fn max_right_of(rs: Seq<Rectangle>) -> int
    decreases rs.len(),
{
    if rs.len() == 0 {
        0
    } else {
        let rest = max_right_of(rs.drop_last());
        let edge = rs.last().x + rs.last().width;
        if edge >= rest || rs.len() == 1 {
            edge
        } else {
            rest
        }
    }
}

/// Largest bottom edge (y + height) over a list of rectangles (0 when empty).
pub open spec fn max_bottom_of(rs: Seq<Rectangle>) -> int
    decreases rs.len(),
{
    if rs.len() == 0 {
        0
    } else {
        let rest = max_bottom_of(rs.drop_last());
        let edge = rs.last().y + rs.last().height;
        if edge >= rest || rs.len() == 1 {
            edge
        } else {
            rest
        }
    }
}

/// The bounding rectangle of a list of rectangles: minimum corner to
/// maximum corner, a zero rectangle when the list is empty.
pub open spec fn bounding_rect(rs: Seq<Rectangle>) -> Rectangle {
    if rs.len() == 0 {
        Rectangle { x: 0, y: 0, width: 0, height: 0 }
    } else {
        Rectangle {
            x: min_x_of(rs) as i64,
            y: min_y_of(rs) as i64,
            width: (max_right_of(rs) - min_x_of(rs)) as i64,
            height: (max_bottom_of(rs) - min_y_of(rs)) as i64,
        }
    }
}

/// Bounds of the fold extrema for a non-empty list of in-bounds rectangles.
pub proof fn lemma_bounding_in_bounds(rs: Seq<Rectangle>)
    requires
        rs.len() > 0,
        forall|k: int| 0 <= k < rs.len() ==> rect_in_bounds(#[trigger] rs[k]),
    ensures
        0 <= min_x_of(rs) <= CURSOR_LIMIT,
        0 <= min_y_of(rs) <= CURSOR_LIMIT,
        0 <= max_right_of(rs) <= CURSOR_LIMIT,
        0 <= max_bottom_of(rs) <= CURSOR_LIMIT,
        min_x_of(rs) <= max_right_of(rs),
        min_y_of(rs) <= max_bottom_of(rs),
    decreases rs.len(),
{
    if rs.len() > 1 {
        lemma_bounding_in_bounds(rs.drop_last());
    }
}

/// If the given index holds the id and no earlier one does, `find_group`
/// returns it.
pub proof fn lemma_find_group_at(gs: Seq<(usize, Seq<Seq<Rectangle>>)>, id: usize, i: int)
    requires
        0 <= i < gs.len(),
        gs[i].0 == id,
        forall|k: int| 0 <= k < i ==> (#[trigger] gs[k]).0 != id,
    ensures
        find_group(gs, id) == i,
    decreases gs.len(),
{
    if i > 0 {
        lemma_find_group_at(gs.drop_first(), id, i - 1);
    }
}

/// If no entry holds the id, `find_group` reports it absent.
pub proof fn lemma_find_group_none(gs: Seq<(usize, Seq<Seq<Rectangle>>)>, id: usize)
    requires
        forall|k: int| 0 <= k < gs.len() ==> (#[trigger] gs[k]).0 != id,
    ensures
        find_group(gs, id) == -1,
    decreases gs.len(),
{
    if gs.len() > 0 {
        lemma_find_group_none(gs.drop_first(), id);
    }
}

/// The found index of `find_group` carries the id, and no earlier entry
/// does; a negative result means no entry carries it.
pub proof fn lemma_find_group_props(gs: Seq<(usize, Seq<Seq<Rectangle>>)>, id: usize)
    ensures
        find_group(gs, id) >= 0 ==> 0 <= find_group(gs, id) < gs.len() && gs[find_group(
            gs,
            id,
        )].0 == id && forall|k: int| 0 <= k < find_group(gs, id) ==> (#[trigger] gs[k]).0 != id,
        find_group(gs, id) < 0 ==> forall|k: int|
            0 <= k < gs.len() ==> (#[trigger] gs[k]).0 != id,
    decreases gs.len(),
{
    if gs.len() > 0 && gs[0].0 != id {
        let t = gs.drop_first();
        lemma_find_group_props(t, id);
        assert(forall|k: int| 0 <= k < t.len() ==> #[trigger] t[k] == gs[k + 1]);
        if find_group(t, id) >= 0 {
            let jt = find_group(t, id);
            assert forall|k: int| 0 <= k < jt + 1 implies (#[trigger] gs[k]).0 != id by {
                if k > 0 {
                    assert(t[k - 1].0 != id);
                }
            }
        } else {
            assert forall|k: int| 0 <= k < gs.len() implies (#[trigger] gs[k]).0 != id by {
                if k > 0 {
                    assert(t[k - 1].0 != id);
                }
            }
        }
    }
}

/// A committed placement's mark on the engine: every column slot of its
/// range holds its page and bottom edge, and — when it was recorded under a
/// group id — its rectangle is the most recent entry of that group's list
/// for its page.
pub open spec fn committed_into(pm: PageMaster, c: PlacementInfo, group_id: Option<usize>) -> bool {
    &&& forall|k: int|
        c.percent_range.start <= k < c.percent_range.end ==> #[trigger] pm.slots()[k] == (
        ColumnSlot { page: c.page_number, cursor: (c.rec.y + c.rec.height) as i64 })
    &&& match group_id {
        Option::Some(id) => {
            let j = find_group(pm.groups_view(), id);
            &&& 0 <= j < pm.groups_view().len()
            &&& pm.groups_view()[j].0 == id
            &&& c.page_number < pm.groups_view()[j].1.len()
            &&& pm.groups_view()[j].1[c.page_number as int].len() > 0
            &&& pm.groups_view()[j].1[c.page_number as int].last() == c.rec
        },
        Option::None => true,
    }
}

/// Recording a rectangle under a group id (as `set_group` specifies it)
/// leaves it as the most recent entry of that group's list for its page.
pub proof fn lemma_group_append_is_last(
    gv_old: Seq<(usize, Seq<Seq<Rectangle>>)>,
    gv_new: Seq<(usize, Seq<Seq<Rectangle>>)>,
    id: usize,
    page: int,
    rec: Rectangle,
)
    requires
        page >= 0,
        ({
            let j = find_group(gv_old, id);
            if j >= 0 {
                gv_new == gv_old.update(j, (id, with_rect(gv_old[j].1, page, rec)))
            } else {
                gv_new == gv_old.push((id, with_rect(Seq::<Seq<Rectangle>>::empty(), page, rec)))
            }
        }),
    ensures
        ({
            let j = find_group(gv_new, id);
            &&& 0 <= j < gv_new.len()
            &&& gv_new[j].0 == id
            &&& page < gv_new[j].1.len()
            &&& gv_new[j].1[page].len() > 0
            &&& gv_new[j].1[page].last() == rec
        }),
{
    lemma_find_group_props(gv_old, id);
    let j0 = find_group(gv_old, id);
    if j0 >= 0 {
        assert(forall|k: int| 0 <= k < j0 ==> (#[trigger] gv_new[k]).0 != id);
        lemma_find_group_at(gv_new, id, j0);
        let p = padded_pages(gv_old[j0].1, page);
        assert(gv_new[j0].1[page] == p[page].push(rec));
    } else {
        assert(forall|k: int| 0 <= k < gv_old.len() ==> (#[trigger] gv_new[k]).0 != id);
        lemma_find_group_at(gv_new, id, gv_old.len() as int);
        let p = padded_pages(Seq::<Seq<Rectangle>>::empty(), page);
        assert(gv_new[gv_old.len() as int].1[page] == p[page].push(rec));
    }
}

/// Append one rectangle at a page index, growing the page list as needed.
fn push_rect_at_page(pages: &mut Vec<Vec<Rectangle>>, page: usize, r: Rectangle)
    ensures
        pages_view(*final(pages)) == with_rect(pages_view(*old(pages)), page as int, r),
{
    let ghost orig = pages_view(*pages);
    while pages.len() <= page
        invariant
            orig.len() <= pages@.len() || pages@.len() <= page,
            pages@.len() >= orig.len(),
            pages@.len() <= page + 1 || pages@.len() == orig.len(),
            pages_view(*pages) =~= orig + Seq::new(
                (pages@.len() - orig.len()) as nat,
                |k: int| Seq::<Rectangle>::empty(),
            ),
        decreases page + 1 - pages.len(),
    {
        let ghost prev = pages_view(*pages);
        pages.push(Vec::new());
        proof {
            assert(pages_view(*pages) =~= prev.push(Seq::<Rectangle>::empty()));
            assert(pages_view(*pages) =~= orig + Seq::new(
                (pages@.len() - orig.len()) as nat,
                |k: int| Seq::<Rectangle>::empty(),
            ));
        }
    }
    proof {
        assert(pages_view(*pages) =~= padded_pages(orig, page as int));
    }
    let ghost padded = pages_view(*pages);
    pages[page].push(r);
    proof {
        assert(pages_view(*pages) =~= padded.update(page as int, padded[page as int].push(r)));
    }
}

impl PageMaster {
    /// Record a committed placement's rectangle under a group id, listed by
    /// the record's page index; with no group id this does nothing.
    pub fn set_group(&mut self, group_id: Option<usize>, rec: &PlacementInfo)
        requires
            old(self).wf(),
            rec.commit_ok(),
        ensures
            final(self).wf(),
            final(self).slots() == old(self).slots(),
            final(self).geometry() == old(self).geometry(),
            match group_id {
                None => final(self).groups_view() == old(self).groups_view(),
                Some(id) => {
                    let gv = old(self).groups_view();
                    let j = find_group(gv, id);
                    if j >= 0 {
                        final(self).groups_view() == gv.update(
                            j,
                            (id, with_rect(gv[j].1, rec.page_number as int, rec.rec)),
                        )
                    } else {
                        final(self).groups_view() == gv.push(
                            (
                                id,
                                with_rect(
                                    Seq::<Seq<Rectangle>>::empty(),
                                    rec.page_number as int,
                                    rec.rec,
                                ),
                            ),
                        )
                    }
                },
            },
    {
        let id = match group_id {
            None => {
                return ;
            },
            Some(id) => id,
        };
        let ghost gv = self.groups_view();
        let n = self.groups.len();
        let mut idx: usize = 0;
        let mut found: bool = false;
        while idx < n && !found
            invariant
                n == self.groups@.len(),
                idx <= n,
                gv == self.groups_view(),
                gv.len() == n,
                !found ==> forall|k: int| 0 <= k < idx ==> (#[trigger] gv[k]).0 != id,
                found ==> idx < n && gv[idx as int].0 == id && forall|k: int|
                    0 <= k < idx ==> (#[trigger] gv[k]).0 != id,
            decreases 2 * (n - idx) + (if found { 0int } else { 1int }),
        {
            if self.groups[idx].id == id {
                found = true;
            } else {
                idx = idx + 1;
            }
        }
        if found {
            proof {
                lemma_find_group_at(gv, id, idx as int);
            }
            let entry = &mut self.groups[idx];
            push_rect_at_page(&mut entry.pages, rec.page_number, rec.rec);
            proof {
                assert(self.groups_view() =~= gv.update(
                    idx as int,
                    (id, with_rect(gv[idx as int].1, rec.page_number as int, rec.rec)),
                ));
                assert forall|i: int, p: int, k: int|
                    0 <= i < self.groups_view().len() && 0 <= p < self.groups_view()[i].1.len()
                        && 0 <= k < self.groups_view()[i].1[p].len() implies rect_in_bounds(
                    self.groups_view()[i].1[p][k],
                ) by {
                    if i == idx as int {
                        let oldp = padded_pages(gv[i].1, rec.page_number as int);
                        if p == rec.page_number as int && k == self.groups_view()[i].1[p].len()
                            - 1 {
                        } else {
                        }
                    }
                }
            }
        } else {
            proof {
                lemma_find_group_none(gv, id);
            }
            let mut pages: Vec<Vec<Rectangle>> = Vec::new();
            push_rect_at_page(&mut pages, rec.page_number, rec.rec);
            self.groups.push(GroupEntry { id, pages });
            proof {
                assert(self.groups_view() =~= gv.push(
                    (
                        id,
                        with_rect(Seq::<Seq<Rectangle>>::empty(), rec.page_number as int, rec.rec),
                    ),
                ));
                assert forall|i: int, p: int, k: int|
                    0 <= i < self.groups_view().len() && 0 <= p < self.groups_view()[i].1.len()
                        && 0 <= k < self.groups_view()[i].1[p].len() implies rect_in_bounds(
                    self.groups_view()[i].1[p][k],
                ) by {}
            }
        }
    }

    /// For every group, the bounding rectangle of its stored rectangles on
    /// each page: the componentwise minimum corner to the componentwise
    /// maximum corner, however many rectangles are stored there.
    pub fn get_group_borders(&self) -> (res: Vec<(usize, Vec<Rectangle>)>)
        requires
            self.wf(),
        ensures
            res@.len() == self.groups_view().len(),
            forall|i: int|
                0 <= i < res@.len() ==> (#[trigger] res@[i]).0 == self.groups_view()[i].0,
            forall|i: int|
                0 <= i < res@.len() ==> (#[trigger] res@[i]).1@.len() == self.groups_view()[i]
                    .1.len(),
            forall|i: int, p: int|
                0 <= i < res@.len() && 0 <= p < res@[i].1@.len() ==> (#[trigger] res@[i].1@[p])
                    == bounding_rect(self.groups_view()[i].1[p]),
    {
        let ghost gv = self.groups_view();
        let mut res: Vec<(usize, Vec<Rectangle>)> = Vec::new();
        let n = self.groups.len();
        let mut i: usize = 0;
        while i < n
            invariant
                self.wf(),
                gv == self.groups_view(),
                n == self.groups@.len(),
                i <= n,
                res@.len() == i,
                forall|k: int| 0 <= k < i ==> (#[trigger] res@[k]).0 == gv[k].0,
                forall|k: int| 0 <= k < i ==> (#[trigger] res@[k]).1@.len() == gv[k].1.len(),
                forall|k: int, p: int|
                    0 <= k < i && 0 <= p < res@[k].1@.len() ==> (#[trigger] res@[k].1@[p])
                        == bounding_rect(gv[k].1[p]),
            decreases n - i,
        {
            let entry_id = self.groups[i].id;
            let m = self.groups[i].pages.len();
            let mut page_recs: Vec<Rectangle> = Vec::new();
            let mut p: usize = 0;
            while p < m
                invariant
                    self.wf(),
                    gv == self.groups_view(),
                    i < self.groups@.len(),
                    m == self.groups@[i as int].pages@.len(),
                    m == gv[i as int].1.len(),
                    p <= m,
                    page_recs@.len() == p,
                    forall|q: int|
                        0 <= q < p ==> (#[trigger] page_recs@[q]) == bounding_rect(
                            gv[i as int].1[q],
                        ),
                decreases m - p,
            {
                let rect = self.bounding_of_page(i, p);
                page_recs.push(rect);
                p = p + 1;
            }
            res.push((entry_id, page_recs));
            i = i + 1;
        }
        res
    }

    /// Bounding rectangle of the rectangles stored for one group on one page.
    fn bounding_of_page(&self, i: usize, p: usize) -> (r: Rectangle)
        requires
            self.wf(),
            i < self.groups_view().len(),
            p < self.groups_view()[i as int].1.len(),
        ensures
            r == bounding_rect(self.groups_view()[i as int].1[p as int]),
    {
        let ghost rs = self.groups_view()[i as int].1[p as int];
        let page = &self.groups[i].pages[p];
        let cnt = page.len();
        if cnt == 0 {
            return Rectangle { x: 0, y: 0, width: 0, height: 0 };
        }
        let mut smallest_x: i64 = page[0].x;
        let mut smallest_y: i64 = page[0].y;
        let mut largest_x: i64 = page[0].x + page[0].width;
        let mut largest_y: i64 = page[0].y + page[0].height;
        let mut k: usize = 1;
        while k < cnt
            invariant
                self.wf(),
                i < self.groups_view().len(),
                p < self.groups_view()[i as int].1.len(),
                rs == self.groups_view()[i as int].1[p as int],
                page == &self.groups@[i as int].pages@[p as int],
                page@ == rs,
                cnt == rs.len(),
                1 <= k <= cnt,
                smallest_x as int == min_x_of(rs.take(k as int)),
                smallest_y as int == min_y_of(rs.take(k as int)),
                largest_x as int == max_right_of(rs.take(k as int)),
                largest_y as int == max_bottom_of(rs.take(k as int)),
            decreases cnt - k,
        {
            proof {
                assert(forall|q: int| 0 <= q < rs.len() ==> rect_in_bounds(#[trigger] rs[q]));
                assert(rs.take(k + 1).drop_last() =~= rs.take(k as int));
                assert(rs.take(k + 1).last() == rs[k as int]);
            }
            if page[k].x < smallest_x {
                smallest_x = page[k].x;
            }
            if page[k].y < smallest_y {
                smallest_y = page[k].y;
            }
            if page[k].x + page[k].width > largest_x {
                largest_x = page[k].x + page[k].width;
            }
            if page[k].y + page[k].height > largest_y {
                largest_y = page[k].y + page[k].height;
            }
            k = k + 1;
        }
        proof {
            assert(rs.take(cnt as int) =~= rs);
            lemma_bounding_in_bounds(rs);
        }
        Rectangle {
            x: smallest_x,
            y: smallest_y,
            width: largest_x - smallest_x,
            height: largest_y - smallest_y,
        }
    }
}

/// The maximum page over a slot range stays within each slot's bound.
pub proof fn lemma_max_page_in_bounds(s: Seq<ColumnSlot>, a: int, b: int)
    requires
        0 <= a < b <= s.len(),
        forall|i: int| 0 <= i < s.len() ==> (#[trigger] s[i]).wf(),
    ensures
        0 <= max_page_in(s, a, b) <= PAGE_LIMIT,
    decreases b - a,
{
    if b - 1 > a {
        lemma_max_page_in_bounds(s, a, b - 1);
    }
}

/// The maximum cursor over a slot range stays within each slot's bound.
pub proof fn lemma_max_cursor_on_bounds(s: Seq<ColumnSlot>, a: int, b: int, p: int)
    requires
        0 <= a <= b <= s.len(),
        forall|i: int| 0 <= i < s.len() ==> (#[trigger] s[i]).wf(),
    ensures
        0 <= max_cursor_on(s, a, b, p) <= CURSOR_LIMIT,
    decreases b - a,
{
    if b > a {
        lemma_max_cursor_on_bounds(s, a, b - 1, p);
    }
}

/// Each slot's page in the range is at most the range's maximum page.
pub proof fn lemma_max_page_in_ge(s: Seq<ColumnSlot>, a: int, b: int, i: int)
    requires
        0 <= a <= i < b <= s.len(),
    ensures
        s[i].page as int <= max_page_in(s, a, b),
    decreases b - a,
{
    if i < b - 1 {
        lemma_max_page_in_ge(s, a, b - 1, i);
    }
}

/// Each slot's cursor on page `p` in the range is at most the range's
/// maximum cursor on `p`.
pub proof fn lemma_max_cursor_on_ge(s: Seq<ColumnSlot>, a: int, b: int, p: int, i: int)
    requires
        0 <= a <= i < b <= s.len(),
        s[i].page as int == p,
    ensures
        s[i].cursor as int <= max_cursor_on(s, a, b, p),
    decreases b - a,
{
    if i < b - 1 {
        lemma_max_cursor_on_ge(s, a, b - 1, p, i);
    }
}

/// Over a range of slots that all carry page `p`, the maximum page is `p`.
pub proof fn lemma_max_page_in_const(s: Seq<ColumnSlot>, a: int, b: int, p: usize)
    requires
        0 <= a < b <= s.len(),
        forall|i: int| a <= i < b ==> (#[trigger] s[i]).page == p,
    ensures
        max_page_in(s, a, b) == p as int,
    decreases b - a,
{
    if b - 1 > a {
        lemma_max_page_in_const(s, a, b - 1, p);
    }
}

/// Over a range of slots that all carry page `p` and cursor `c >= 0`, the
/// maximum cursor on page `p` is `c`.
pub proof fn lemma_max_cursor_on_const(s: Seq<ColumnSlot>, a: int, b: int, p: usize, c: i64)
    requires
        0 <= a < b <= s.len(),
        0 <= c,
        forall|i: int| a <= i < b ==> (#[trigger] s[i]) == (ColumnSlot { page: p, cursor: c }),
    ensures
        max_cursor_on(s, a, b, p as int) == c as int,
    decreases b - a,
{
    if b - 1 > a {
        lemma_max_cursor_on_const(s, a, b - 1, p, c);
    } else {
        assert(max_cursor_on(s, a, a, p as int) == 0);
    }
}

/// Law: request, commit, request. When an unforced request over a range is
/// committed with any height that fits in the remaining page height, the
/// next unforced request over the same range stays on the same page — the
/// page index never decreases — and does not start a new page; it continues
/// at the committed bottom edge.
pub proof fn lemma_request_commit_request(
    pm0: PageMaster,
    pm1: PageMaster,
    range: ColumnRange,
    h: i64,
)
    requires
        pm0.wf(),
        range.wf(),
        0 <= h <= pm0.next_position(false, range).draw_height_left_on_page,
        pm1.geometry() == pm0.geometry(),
        pm1.slots().len() == pm0.slots().len(),
        forall|k: int|
            range.start <= k < range.end ==> #[trigger] pm1.slots()[k] == (ColumnSlot {
                page: pm0.next_position(false, range).page_number,
                cursor: (pm0.next_position(false, range).rec.y + h) as i64,
            }),
        forall|k: int|
            0 <= k < pm1.slots().len() && !(range.start <= k < range.end)
                ==> #[trigger] pm1.slots()[k] == pm0.slots()[k],
    ensures
        pm1.next_position(false, range).page_number == pm0.next_position(false, range).page_number,
        !pm1.next_position(false, range).is_new_page,
        pm1.next_position(false, range).rec.y == pm0.next_position(false, range).rec.y + h,
{
    let p0 = pm0.next_position(false, range);
    let a = range.start as int;
    let b = range.end as int;
    lemma_max_page_in_bounds(pm0.slots(), a, b);
    lemma_max_cursor_on_bounds(pm0.slots(), a, b, pm0.ref_page(range));
    let c: i64 = (p0.rec.y + h) as i64;
    lemma_max_page_in_const(pm1.slots(), a, b, p0.page_number);
    lemma_max_cursor_on_const(pm1.slots(), a, b, p0.page_number, c);
}

/// Two slot sequences that agree on a range have the same maxima there.
pub proof fn lemma_max_page_in_frame(s1: Seq<ColumnSlot>, s2: Seq<ColumnSlot>, a: int, b: int)
    requires
        0 <= a <= b <= s1.len(),
        b <= s2.len(),
        forall|i: int| a <= i < b ==> s1[i] == s2[i],
    ensures
        max_page_in(s1, a, b) == max_page_in(s2, a, b),
    decreases b - a,
{
    if b > a {
        lemma_max_page_in_frame(s1, s2, a, b - 1);
    }
}

/// Two slot sequences that agree on a range have the same cursor maxima there.
pub proof fn lemma_max_cursor_on_frame(
    s1: Seq<ColumnSlot>,
    s2: Seq<ColumnSlot>,
    a: int,
    b: int,
    p: int,
)
    requires
        0 <= a <= b <= s1.len(),
        b <= s2.len(),
        forall|i: int| a <= i < b ==> s1[i] == s2[i],
    ensures
        max_cursor_on(s1, a, b, p) == max_cursor_on(s2, a, b, p),
    decreases b - a,
{
    if b > a {
        lemma_max_cursor_on_frame(s1, s2, a, b - 1, p);
    }
}

} // verus!
