use backfat::draw::{DrawInstruction, PdfDrawInfo};
use backfat::font_info::{Font, FontInfo};
use backfat::geometry::{Color, ColumnRange};
use backfat::list_box::{classify_row, ListBox, ListBoxBorder, RowData, RowDataTypes, RowPositionType};
use backfat::manager::Manager;
use backfat::placement::Border;
use backfat::text_box::{BorderStyle, TextAlignment, TextBox};

const WHITE: Color = Color { r: 1000, g: 1000, b: 1000 };

/// A 1000 px wide, 120 px tall page with 10 px margins: 100 px usable.
fn small_page() -> Manager {
    Manager::new(1000, 120, 72, 10, 10)
}

fn rows(n: usize) -> Vec<RowData> {
    (0..n)
        .map(|i| RowData::new(vec![format!("r{i}"), "x".to_owned()], RowDataTypes::Normal))
        .collect()
}

fn count_hlines(pdf: &PdfDrawInfo) -> usize {
    pdf.pdf
        .iter()
        .flatten()
        .filter(|op| matches!(op, DrawInstruction::HorizontalLine { .. }))
        .count()
}

fn vline_lengths(pdf: &PdfDrawInfo) -> Vec<i64> {
    pdf.pdf
        .iter()
        .flatten()
        .filter_map(|op| match op {
            DrawInstruction::VerticalLine { length, .. } => Some(*length),
            _ => None,
        })
        .collect()
}

fn render(mgr: &mut Manager, lb: &mut ListBox, range: ColumnRange) -> PdfDrawInfo {
    let mut pdf = PdfDrawInfo::new();
    let mut borders: Option<Vec<Border>> = None;
    let mut handle = mgr.get_placement_handle(range, false);
    handle.draw(&mut mgr.page_master, lb, &mut pdf, &mut borders);
    pdf
}

#[test]
fn uniform_rows_on_an_exactly_fitting_page_yield_one_extent_and_n_minus_one_separators() {
    // five 20 px rows on a page with exactly 100 px of usable height
    let mut mgr = small_page();
    let mut lb = ListBox::new(
        rows(5),
        vec![25, 25],
        None,
        &mgr,
        FontInfo::new(0, Font::Helvetica),
        FontInfo::new(0, Font::Helvetica),
        ListBoxBorder::Inner(0),
        None,
    );
    lb.set_all_row_sizes(vec![20; 5]);
    let pdf = render(&mut mgr, &mut lb, ColumnRange::new(0, 100));
    assert_eq!(count_hlines(&pdf), 4, "no separator above row 0");
    let extents = lb.vertical_extents();
    assert_eq!(extents.len(), 1);
    assert_eq!(extents[0].page, 0);
    assert_eq!(extents[0].top, 10);
    assert_eq!(extents[0].bottom, 110);
    // one interior column boundary, one contiguous block over the page
    assert_eq!(vline_lengths(&pdf), vec![100]);
}

#[test]
fn ten_uniform_rows_split_into_two_page_segments() {
    let mut mgr = small_page();
    let mut lb = ListBox::new(
        rows(10),
        vec![25, 25],
        None,
        &mgr,
        FontInfo::new(0, Font::Helvetica),
        FontInfo::new(0, Font::Helvetica),
        ListBoxBorder::Inner(0),
        None,
    );
    lb.set_all_row_sizes(vec![20; 10]);
    let pdf = render(&mut mgr, &mut lb, ColumnRange::new(0, 100));
    assert_eq!(count_hlines(&pdf), 8);
    let extents = lb.vertical_extents();
    assert_eq!(extents.len(), 2);
    assert_eq!(extents[0].page, 0);
    assert_eq!(extents[1].page, 1);
    assert_eq!(mgr.get_page_cnt(), 1);
}

#[test]
fn no_border_single_span_suppresses_separator_above_successor_and_joins_no_span() {
    let mut mgr = small_page();
    let data = vec![
        RowData::new(vec!["a".into(), "b".into()], RowDataTypes::Normal),
        RowData::new(vec!["wide".into()], RowDataTypes::SingleNoBorder(TextAlignment::CenterCenter)),
        RowData::new(vec!["c".into(), "d".into()], RowDataTypes::Normal),
        RowData::new(vec!["e".into(), "f".into()], RowDataTypes::Normal),
    ];
    let mut lb = ListBox::new(
        data,
        vec![25, 25],
        None,
        &mgr,
        FontInfo::new(0, Font::Helvetica),
        FontInfo::new(0, Font::Helvetica),
        ListBoxBorder::Inner(0),
        None,
    );
    lb.set_all_row_sizes(vec![20; 4]);
    let pdf = render(&mut mgr, &mut lb, ColumnRange::new(0, 100));
    // no separator above the span itself, none above its successor; only
    // the final row gets one
    assert_eq!(count_hlines(&pdf), 1);
    // the span contributes to no vertical-line block: the block above it
    // and the block below it stay separate
    assert_eq!(vline_lengths(&pdf), vec![20, 40]);
}

#[test]
fn header_then_items_then_bottom_row() {
    // header 15 px, rows 20 px each, usable height 100 px
    let mut mgr = small_page();
    let range = ColumnRange::new(0, 100);
    let header = RowData::new(vec!["H1".into(), "H2".into()], RowDataTypes::Normal);
    let mut lb = ListBox::new(
        rows(3),
        vec![25, 25],
        Some(header),
        &mgr,
        FontInfo::new(0, Font::Helvetica),
        FontInfo::new(15, Font::Helvetica),
        ListBoxBorder::NoBorder,
        None,
    );
    lb.set_all_row_sizes(vec![20; 3]);
    let pm = &mut mgr.page_master;
    let mut idx = 0usize;
    // row 0 triggers the header: room for 15 + 20 within 100
    let bpd = lb.get_position_border_info(pm, 0, range, true, false, &mut idx);
    assert!(matches!(bpd.row_type_and_size, RowPositionType::Header(true)));
    let mut handle = bpd.list_placement_handle;
    handle.set_pixel_height(pm, 15);
    pm.update_placement(&handle.get_placement_info());
    // the triggering row re-evaluates as an ordinary item
    let bpd = lb.get_position_border_info(pm, 0, range, false, false, &mut idx);
    assert!(matches!(bpd.row_type_and_size, RowPositionType::Item));
    let mut handle = bpd.list_placement_handle;
    handle.set_pixel_height(pm, 20);
    pm.update_placement(&handle.get_placement_info());
    let bpd = lb.get_position_border_info(pm, 1, range, false, false, &mut idx);
    assert!(matches!(bpd.row_type_and_size, RowPositionType::Item));
    let mut handle = bpd.list_placement_handle;
    handle.set_pixel_height(pm, 20);
    pm.update_placement(&handle.get_placement_info());
    // the final data row becomes the page-terminal row
    let bpd = lb.get_position_border_info(pm, 2, range, false, true, &mut idx);
    assert!(matches!(bpd.row_type_and_size, RowPositionType::Bottom));
}

#[test]
fn full_table_with_header_renders_header_and_all_rows() {
    let mut mgr = small_page();
    let header = RowData::new(vec!["H1".into(), "H2".into()], RowDataTypes::Normal);
    let mut lb = ListBox::new(
        rows(3),
        vec![25, 25],
        Some(header),
        &mgr,
        FontInfo::new(0, Font::Helvetica),
        FontInfo::new(15, Font::Helvetica),
        ListBoxBorder::All(2, 2),
        Some(3),
    );
    lb.set_all_row_sizes(vec![20; 3]);
    lb.header_has_border(true);
    let pdf = render(&mut mgr, &mut lb, ColumnRange::new(0, 100));
    // one text instruction per cell: level line + (header + 3 rows) x 2 cells
    let texts: Vec<String> = pdf
        .pdf
        .iter()
        .flatten()
        .filter_map(|op| match op {
            DrawInstruction::Text { text, .. } => Some(text.clone()),
            _ => None,
        })
        .collect();
    assert_eq!(texts.len(), 9);
    assert!(texts.contains(&"H1".to_owned()));
    assert!(texts.contains(&"r2".to_owned()));
    // the group collected every committed cell
    let groups = mgr.get_groups();
    assert_eq!(groups.len(), 1);
    assert_eq!(groups[0].0, 3);
}

#[test]
fn decision_table_maps_fresh_page_inputs() {
    // fresh page, room for everything, header configured
    let out = classify_row(false, true, true, true, true, false, true, false, 0);
    assert!(matches!(out.kind, RowPositionType::Header(true)));
    assert!(out.is_top_border);
    // fresh page, no room for a follower: the row fills the page
    let out = classify_row(false, true, true, false, true, false, true, false, 0);
    assert!(matches!(out.kind, RowPositionType::FullPageItem));
    assert!(out.is_top_border && out.is_bottom_border);
    // no room for the row alone demands a retry
    let out = classify_row(false, false, false, false, false, false, false, false, 0);
    assert!(matches!(out.kind, RowPositionType::Searching));
    // mid-page interior row with room for a follower
    let out = classify_row(false, false, false, true, true, false, false, false, 3);
    assert!(matches!(out.kind, RowPositionType::Item));
    assert!(!out.is_top_border && !out.is_bottom_border);
    // mid-page row whose follower will not fit closes the page
    let out = classify_row(false, false, false, false, true, false, false, false, 3);
    assert!(matches!(out.kind, RowPositionType::Bottom));
    assert!(out.is_bottom_border);
    // the final data row is a bottom row
    let out = classify_row(true, false, true, true, true, false, false, false, 3);
    assert!(matches!(out.kind, RowPositionType::Bottom));
    // the row right under a borderless header inherits its top border
    let out = classify_row(false, false, false, true, true, false, true, true, 1);
    assert!(matches!(out.kind, RowPositionType::ItemWithTopBorder));
    assert!(out.is_top_border);
    // a table with no header starts with a top row
    let out = classify_row(false, false, true, true, true, true, false, false, 0);
    assert!(matches!(out.kind, RowPositionType::Top));
    assert!(out.reset_index);
}

#[test]
fn text_box_renders_fill_then_text() {
    let mut mgr = Manager::new(100, 100, 72, 0, 0);
    let mut pdf = PdfDrawInfo::new();
    let mut borders: Option<Vec<Border>> = None;
    let mut tb = TextBox::new(
        "ab",
        FontInfo::new(10, Font::Courier),
        Some(TextAlignment::LeftBottom),
        None,
        Some(WHITE),
        None,
    );
    let mut handle = mgr.get_placement_handle(ColumnRange::new(0, 50), false);
    handle.set_pixel_height(&mgr.page_master, 10);
    handle.draw(&mut mgr.page_master, &mut tb, &mut pdf, &mut borders);
    assert_eq!(pdf.pdf.len(), 1);
    assert_eq!(pdf.pdf[0].len(), 2);
    match &pdf.pdf[0][0] {
        DrawInstruction::FillRect { rect, color } => {
            assert_eq!((rect.x, rect.y, rect.width, rect.height), (0, 90, 50, 10));
            assert_eq!(*color, WHITE);
        },
        other => panic!("expected a fill, got {other:?}"),
    }
    match &pdf.pdf[0][1] {
        DrawInstruction::Text { x, y, text, .. } => {
            assert_eq!((*x, *y), (0, 90));
            assert_eq!(text, "ab");
        },
        other => panic!("expected text, got {other:?}"),
    }
}

#[test]
fn centered_text_uses_the_advance_estimate() {
    let mut mgr = Manager::new(100, 100, 72, 0, 0);
    let mut pdf = PdfDrawInfo::new();
    let mut borders: Option<Vec<Border>> = None;
    let mut tb = TextBox::new(
        "ab",
        FontInfo::new(10, Font::Courier),
        Some(TextAlignment::CenterBottom),
        None,
        Some(WHITE),
        None,
    );
    let mut handle = mgr.get_placement_handle(ColumnRange::new(0, 50), false);
    handle.set_pixel_height(&mgr.page_master, 10);
    handle.draw(&mut mgr.page_master, &mut tb, &mut pdf, &mut borders);
    // line width estimate: 2 chars x 10 px x 600/1000 = 12
    match &pdf.pdf[0][1] {
        DrawInstruction::Text { x, .. } => assert_eq!(*x, 25 - 6),
        other => panic!("expected text, got {other:?}"),
    }
}

#[test]
fn single_line_border_draws_immediately_without_a_collector() {
    let mut mgr = Manager::new(100, 100, 72, 0, 0);
    let mut pdf = PdfDrawInfo::new();
    let mut borders: Option<Vec<Border>> = None;
    let mut tb = TextBox::new(
        "t",
        FontInfo::new(10, Font::Helvetica),
        None,
        Some(BorderStyle::Single(2)),
        None,
        None,
    );
    let mut handle = mgr.get_placement_handle(ColumnRange::new(0, 50), false);
    handle.set_pixel_height(&mgr.page_master, 10);
    handle.draw(&mut mgr.page_master, &mut tb, &mut pdf, &mut borders);
    assert!(pdf.pdf[0]
        .iter()
        .any(|op| matches!(op, DrawInstruction::StrokeRect { line_width: 2, .. })));
}

#[test]
fn single_line_border_defers_to_the_collector_when_present() {
    let mut mgr = Manager::new(100, 100, 72, 0, 0);
    let mut pdf = PdfDrawInfo::new();
    let mut borders: Option<Vec<Border>> = Some(Vec::new());
    let mut tb = TextBox::new(
        "t",
        FontInfo::new(10, Font::Helvetica),
        None,
        Some(BorderStyle::Single(2)),
        None,
        None,
    );
    let mut handle = mgr.get_placement_handle(ColumnRange::new(0, 50), false);
    handle.set_pixel_height(&mgr.page_master, 10);
    handle.draw(&mut mgr.page_master, &mut tb, &mut pdf, &mut borders);
    assert!(!pdf.pdf[0].iter().any(|op| matches!(op, DrawInstruction::StrokeRect { .. })));
    let list = borders.unwrap();
    assert_eq!(list.len(), 1);
    assert_eq!(list[0].pixel_size, 2);
}

#[test]
fn empty_row_sequence_is_a_no_op() {
    let mut mgr = small_page();
    let mut lb = ListBox::new(
        Vec::new(),
        vec![50],
        None,
        &mgr,
        FontInfo::new(0, Font::Helvetica),
        FontInfo::new(0, Font::Helvetica),
        ListBoxBorder::NoBorder,
        None,
    );
    let pdf = render(&mut mgr, &mut lb, ColumnRange::new(0, 100));
    // nothing rendered beyond what the empty draw itself committed
    assert!(pdf.pdf.iter().flatten().all(|op| !matches!(op, DrawInstruction::Text { .. })));
}

#[test]
fn short_rows_are_padded_with_empty_cells() {
    let mut mgr = small_page();
    let data = vec![RowData::new(vec!["only".into()], RowDataTypes::Normal)];
    let mut lb = ListBox::new(
        data,
        vec![25, 25],
        None,
        &mgr,
        FontInfo::new(0, Font::Helvetica),
        FontInfo::new(0, Font::Helvetica),
        ListBoxBorder::NoBorder,
        None,
    );
    lb.set_all_row_sizes(vec![20]);
    let pdf = render(&mut mgr, &mut lb, ColumnRange::new(0, 100));
    let texts: Vec<String> = pdf
        .pdf
        .iter()
        .flatten()
        .filter_map(|op| match op {
            DrawInstruction::Text { text, .. } => Some(text.clone()),
            _ => None,
        })
        .collect();
    // level line, the one cell, and the padded empty cell
    assert_eq!(texts.len(), 3);
    assert!(texts.contains(&"only".to_owned()));
    assert!(texts.contains(&"".to_owned()));
}

#[test]
fn borderless_header_lends_its_top_border_and_skips_one_separator() {
    let mut mgr = small_page();
    let header = RowData::new(vec!["H1".into(), "H2".into()], RowDataTypes::Normal);
    let mut lb = ListBox::new(
        rows(3),
        vec![25, 25],
        Some(header),
        &mgr,
        FontInfo::new(0, Font::Helvetica),
        FontInfo::new(15, Font::Helvetica),
        ListBoxBorder::Inner(0),
        None,
    );
    lb.set_all_row_sizes(vec![20; 3]);
    lb.header_has_border(false);
    let pdf = render(&mut mgr, &mut lb, ColumnRange::new(0, 100));
    // the separator above the first item is the one the header already
    // accounted for; only the two later rows get one
    assert_eq!(count_hlines(&pdf), 2);
    // the page segment's frame starts below the header
    let extents = lb.vertical_extents();
    assert_eq!(extents.len(), 1);
    assert_eq!(extents[0].top, 25);
    assert_eq!(extents[0].bottom, 85);
}
