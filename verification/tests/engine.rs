use backfat::draw::PdfDrawInfo;
use backfat::font_info::{Font, FontInfo};
use backfat::geometry::{ColumnRange, Rectangle};
use backfat::manager::Manager;
use backfat::page_master::PageMaster;
use backfat::placement::{Border, PlacementInfo, PlacementOptions};
use backfat::text_box::TextBox;

fn fresh_engine() -> PageMaster {
    // 1000 x 792 px page at 72 dpi with 18 px margins
    PageMaster::new(1000, 792, 72, 18, 18)
}

fn committed(rec: Rectangle, page: usize, range: ColumnRange) -> PlacementInfo {
    let mut pl = PlacementInfo::default();
    pl.rec = rec;
    pl.page_number = page;
    pl.percent_range = range;
    pl
}

#[test]
fn initial_request_starts_at_top_margin() {
    let pm = fresh_engine();
    let range = ColumnRange::new(0, 100);
    let p = pm.get_next_top_position(
        PlacementOptions { move_to_next_page: false, ignore: false },
        range,
    );
    assert_eq!(p.page_number, 0);
    assert_eq!(p.rec.y, 18);
    assert!(!p.is_new_page);
    assert_eq!(p.draw_height_left_on_page, 792 - 18 - 18);
    assert_eq!(p.rec.x, 0);
    assert_eq!(p.rec.width, 1000);
    assert_eq!(p.rec.height, 0);
}

#[test]
fn request_rect_scales_with_percentages() {
    let pm = fresh_engine();
    let p = pm.get_next_top_position(
        PlacementOptions { move_to_next_page: false, ignore: false },
        ColumnRange::new(25, 75),
    );
    assert_eq!(p.rec.x, 250);
    assert_eq!(p.rec.width, 500);
}

#[test]
fn repeated_requests_never_decrease_page_and_continue_at_bottom_edge() {
    // committed heights within the remaining height keep the page index and
    // never mark a new page
    let mut pm = fresh_engine();
    let range = ColumnRange::new(10, 40);
    let opts = PlacementOptions { move_to_next_page: false, ignore: false };
    let mut prior_page = 0;
    let mut cursor = 18;
    for step in 0..5 {
        let p = pm.get_next_top_position(opts.clone(), range);
        assert!(p.page_number >= prior_page);
        assert_eq!(p.page_number, 0);
        assert!(!p.is_new_page);
        assert_eq!(p.rec.y, cursor);
        let h = 50 + step;
        assert!(h <= p.draw_height_left_on_page);
        let mut rec = p.rec;
        rec.height = h;
        pm.update_placement(&committed(rec, p.page_number, range));
        prior_page = p.page_number;
        cursor += h;
    }
}

#[test]
fn exhausting_the_page_still_yields_no_new_page_on_an_unforced_request() {
    let mut pm = fresh_engine();
    let range = ColumnRange::new(0, 100);
    let opts = PlacementOptions { move_to_next_page: false, ignore: false };
    let p = pm.get_next_top_position(opts.clone(), range);
    let mut rec = p.rec;
    rec.height = p.draw_height_left_on_page;
    pm.update_placement(&committed(rec, p.page_number, range));
    let q = pm.get_next_top_position(opts, range);
    assert_eq!(q.page_number, 0);
    assert!(!q.is_new_page);
    assert_eq!(q.draw_height_left_on_page, 0);
}

#[test]
fn forced_request_moves_to_the_next_page() {
    let pm = fresh_engine();
    let p = pm.get_next_top_position(
        PlacementOptions { move_to_next_page: true, ignore: false },
        ColumnRange::new(0, 100),
    );
    assert_eq!(p.page_number, 1);
    assert!(p.is_new_page);
    assert_eq!(p.rec.y, 18);
}

#[test]
fn reference_page_is_max_over_the_range_and_cursor_max_on_that_page() {
    let mut pm = fresh_engine();
    // columns 0..10 on page 1 at cursor 100, columns 10..20 stay on page 0
    pm.update_placement(&committed(
        Rectangle::new(0, 40, 0, 60),
        1,
        ColumnRange::new(0, 10),
    ));
    let (page, cursor) = pm.get_largest_for_range(ColumnRange::new(0, 20));
    assert_eq!(page, 1);
    assert_eq!(cursor, 100);
    // the slots still on page 0 count as cursor 0 for the comparison
    let (page0, cursor0) = pm.get_largest_for_range(ColumnRange::new(10, 20));
    assert_eq!(page0, 0);
    assert_eq!(cursor0, 18);
}

#[test]
fn assign_height_in_room_keeps_the_record_in_place() {
    let mut mgr = Manager::new(1000, 792, 72, 18, 18);
    let mut handle = mgr.get_placement_handle(ColumnRange::new(0, 100), false);
    handle.set_pixel_height(&mgr.page_master, 100);
    let p = handle.get_placement_info();
    assert_eq!(p.page_number, 0);
    assert!(!p.is_new_page);
    assert_eq!(p.rec.y, 18);
    assert_eq!(p.rec.height, 100);
}

#[test]
fn assign_height_beyond_remaining_forces_the_next_page() {
    // page 792 px, 18 px margins each side: remaining 756 < 800
    let mut mgr = Manager::new(612, 792, 72, 18, 18);
    let mut handle = mgr.get_placement_handle(ColumnRange::new(0, 100), false);
    handle.set_pixel_height(&mgr.page_master, 800);
    let p = handle.get_placement_info();
    assert!(p.is_new_page);
    assert_eq!(p.page_number, 1);
    assert_eq!(p.rec.y, 18);
    assert_eq!(p.rec.height, 800);
}

#[test]
fn same_rectangle_committed_twice_keeps_the_bounding_box() {
    let mut pm = fresh_engine();
    let rec = committed(Rectangle::new(10, 10, 50, 20), 0, ColumnRange::new(0, 10));
    pm.set_group(Some(0), &rec);
    pm.set_group(Some(0), &rec);
    let groups = pm.get_group_borders();
    assert_eq!(groups.len(), 1);
    assert_eq!(groups[0].0, 0);
    assert_eq!(groups[0].1.len(), 1);
    assert_eq!(groups[0].1[0], Rectangle::new(10, 10, 50, 20));
}

#[test]
fn group_bounding_box_is_min_max_over_stored_rectangles() {
    let mut pm = fresh_engine();
    let range = ColumnRange::new(0, 10);
    pm.set_group(Some(0), &committed(Rectangle::new(10, 10, 50, 20), 0, range));
    pm.set_group(Some(0), &committed(Rectangle::new(30, 40, 20, 10), 0, range));
    let groups = pm.get_group_borders();
    assert_eq!(groups.len(), 1);
    assert_eq!(groups[0].0, 0);
    // min x 10, min y 10, max right 60, max bottom 50
    assert_eq!(groups[0].1[0], Rectangle::new(10, 10, 50, 40));
}

#[test]
fn groups_collect_per_page() {
    let mut pm = fresh_engine();
    let range = ColumnRange::new(0, 10);
    pm.set_group(Some(7), &committed(Rectangle::new(0, 0, 10, 10), 2, range));
    let groups = pm.get_group_borders();
    assert_eq!(groups.len(), 1);
    assert_eq!(groups[0].0, 7);
    assert_eq!(groups[0].1.len(), 3);
    // pages without rectangles bound to the zero rectangle
    assert_eq!(groups[0].1[0], Rectangle::new(0, 0, 0, 0));
    assert_eq!(groups[0].1[2], Rectangle::new(0, 0, 10, 10));
}

#[test]
fn out_of_range_column_endpoints_are_clamped() {
    let mut mgr = Manager::new(1000, 792, 72, 18, 18);
    let handle = mgr.get_placement_handle(ColumnRange::new(150, 120), false);
    let p = handle.get_placement_info();
    assert_eq!(p.percent_range.start, 0);
    assert_eq!(p.percent_range.end, 99);
}

#[test]
fn pdf_version_flips_to_bottom_up_space() {
    let pm = fresh_engine();
    let p = pm.get_next_top_position(
        PlacementOptions { move_to_next_page: false, ignore: false },
        ColumnRange::new(0, 100),
    );
    let mut rec = p.rec;
    rec.height = 100;
    let flipped = rec.get_pdf_version(p.page_size_info);
    assert_eq!(flipped.y, 792 - 18 - 100);
    assert_eq!(flipped.x, rec.x);
    assert_eq!(flipped.height, 100);
}

#[test]
fn page_queries_report_the_construction_values() {
    let mgr = Manager::new(1000, 792, 72, 18, 20);
    let (w, h, dpi) = mgr.get_page_pixel_dims();
    assert_eq!((w, h, dpi), (1000, 792, 72));
    let margins = mgr.get_page_pixel_margins();
    assert_eq!(margins.top_margin_pixels, 18);
    assert_eq!(margins.bottom_margin_pixels, 20);
    assert_eq!(mgr.get_page_cnt(), 0);
    let info = mgr.get_page_info();
    assert_eq!(info.page_width_pixels, 1000);
    assert_eq!(info.page_height_pixels, 792);
    assert_eq!(info.top_margin, 18);
    assert_eq!(info.bottom_margin, 20);
}

#[test]
fn place_now_commits_the_placement_into_the_grid() {
    let mut mgr = Manager::new(1000, 792, 72, 18, 18);
    let mut pdf = PdfDrawInfo::new();
    let mut borders: Option<Vec<Border>> = None;
    let mut txt = TextBox::new("t", FontInfo::new(10, Font::Helvetica), None, None, None, None);
    mgr.place_now(50, ColumnRange::new(0, 100), &mut pdf, &mut txt, &mut borders);
    // the committed height moved the grid cursor: the next request starts
    // at the placed box's bottom edge
    let p = mgr.get_placement_handle(ColumnRange::new(0, 100), false).get_placement_info();
    assert_eq!(p.rec.y, 18 + 50);
    assert!(!p.is_new_page);
}
