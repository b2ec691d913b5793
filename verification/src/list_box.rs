//! The list/table component: renders an ordered row sequence across pages
//! and columns, classifying every row through the row placement state
//! machine and emitting exactly the separator and frame geometry the
//! configured border style calls for.

use vstd::prelude::*;
use crate::container_trait::ContainerTrait;
use crate::draw::DrawInfoReq;
use crate::font_info::{Font, FontInfo};
use crate::geometry::{
    lemma_mul_le, Color, ColumnRange, PageSizeInfo, Rectangle, CURSOR_LIMIT, MAX_CONTENT, MAX_DIM,
    MAX_TEXT,
};
use crate::format::{format_column, TypeOfItem};
use crate::lines::{draw_horizontal_line, draw_rectangle, draw_vertical_line};
use crate::manager::CurrentPlacement;
use crate::page_master::{committed_into, lemma_group_append_is_last, ColumnSlot, PageMaster};
use crate::placement::{Border, PlacementInfo};
use crate::text_box::{TextAlignment, TextBox};

verus! {

/// Interior padding added to every cell inset, border or no border.
pub const INTERIOR_MARGIN_PX: i64 = 1;

/// The border style of a list box: interior separators, an outer frame,
/// both, or nothing, each with its line thickness.
#[derive(Clone, Copy, Debug, PartialEq, Eq, Structural)]
pub enum ListBoxBorder {
    Inner(i64),
    Outer(i64),
    All(i64, i64),
    NoBorder,
}

impl ListBoxBorder {
    pub open spec fn wf(&self) -> bool {
        match *self {
            ListBoxBorder::Inner(t) => 0 <= t <= MAX_CONTENT,
            ListBoxBorder::Outer(t) => 0 <= t <= MAX_CONTENT,
            ListBoxBorder::All(i, o) => 0 <= i <= MAX_CONTENT && 0 <= o <= MAX_CONTENT,
            ListBoxBorder::NoBorder => true,
        }
    }

    /// Whether the style draws interior separators.
    pub open spec fn has_inner(&self) -> bool {
        match *self {
            ListBoxBorder::Inner(_) => true,
            ListBoxBorder::All(_, _) => true,
            _ => false,
        }
    }

    /// Half the interior separator thickness.
    pub open spec fn spec_inner_half(&self) -> int {
        match *self {
            ListBoxBorder::Inner(t) => t / 2,
            ListBoxBorder::All(i, _) => i / 2,
            _ => 0,
        }
    }

    /// Half the outer frame thickness.
    pub open spec fn spec_outer_half(&self) -> int {
        match *self {
            ListBoxBorder::Outer(t) => t / 2,
            ListBoxBorder::All(_, o) => o / 2,
            _ => 0,
        }
    }
}

/// The pagination role assigned to one candidate row.
#[derive(Clone, Copy, Debug, PartialEq, Eq, Structural)]
pub enum RowPositionType {
    Item,
    Top,
    Header(bool),
    Bottom,
    FullPageItem,
    Searching,
    ItemWithTopBorder,
}

/// How one row occupies the table's columns: as ordinary cells, or as a
/// single span over the whole column range, with optional color override
/// and, for the no-border variants, suppression of the separator above the
/// following row.
#[derive(Clone, Copy, Debug, PartialEq, Eq, Structural)]
pub enum RowDataTypes {
    Normal,
    Single(TextAlignment),
    SingleNoBorder(TextAlignment),
    SingleWithColor(Color, TextAlignment),
    SingleNoBorderWithColor(Color, TextAlignment),
}

impl RowDataTypes {
    /// Whether the row occupies the whole column range as one cell.
    pub open spec fn is_single(&self) -> bool {
        match *self {
            RowDataTypes::Normal => false,
            _ => true,
        }
    }

    /// Alignments carried by a span stay within the justify bounds.
    pub open spec fn wf(&self) -> bool {
        match *self {
            RowDataTypes::Normal => true,
            RowDataTypes::Single(a) => a.wf(),
            RowDataTypes::SingleNoBorder(a) => a.wf(),
            RowDataTypes::SingleWithColor(_, a) => a.wf(),
            RowDataTypes::SingleNoBorderWithColor(_, a) => a.wf(),
        }
    }

    /// Whether the row is a single span that suppresses the separator
    /// above its successor.
    pub open spec fn is_single_no_border(&self) -> bool {
        match *self {
            RowDataTypes::SingleNoBorder(_) => true,
            RowDataTypes::SingleNoBorderWithColor(_, _) => true,
            _ => false,
        }
    }
}

impl Default for RowDataTypes {
    fn default() -> (r: RowDataTypes)
        ensures
            r == RowDataTypes::Normal,
    {
        RowDataTypes::Normal
    }
}

/// One table row: its cell texts and its span kind.
pub struct RowData {
    pub data: Vec<String>,
    pub param: RowDataTypes,
}

impl RowData {
    pub fn new(data: Vec<String>, param: RowDataTypes) -> (r: RowData)
        ensures
            r.data@ == data@,
            r.param == param,
    {
        RowData { data, param }
    }
}

/// One outer-frame span: the top and bottom edge of a contiguous run of
/// rows on one page.
#[derive(Clone, Copy, Debug, PartialEq, Eq, Structural)]
pub struct VertSpacing {
    pub page: usize,
    pub top: i64,
    pub bottom: i64,
}

impl VertSpacing {
    pub fn new(page: usize, top: i64, bottom: i64) -> (r: VertSpacing)
        ensures
            r == (VertSpacing { page, top, bottom }),
    {
        VertSpacing { page, top, bottom }
    }
}

/// The classification of one candidate row: its role, whether its cells
/// carry a top or bottom border contribution, and whether the row starts a
/// fresh page segment (resetting the on-page row index).
#[derive(Clone, Copy, Debug, PartialEq, Eq, Structural)]
pub struct RowOutcome {
    pub kind: RowPositionType,
    pub is_top_border: bool,
    pub is_bottom_border: bool,
    pub reset_index: bool,
}

/// The row placement decision table. Inputs: whether this is the final data
/// row, whether the candidate placement starts a fresh page, whether there
/// is room for a header plus this row, for this row plus the next, and for
/// this row alone, and whether this is the first row of the whole table;
/// plus the table's header configuration and the current on-page row index.
/// Every combination maps to exactly one outcome; `Searching` demands a
/// retry on a forced fresh page.
pub open spec fn spec_classify(
    is_on_last_row: bool,
    is_new_page: bool,
    room_header: bool,
    room_normal: bool,
    room_bottom: bool,
    is_start_row: bool,
    has_header: bool,
    exclude_border_on_header: bool,
    index_on_page: int,
) -> RowOutcome {
    let header_outcome = if has_header {
        RowOutcome {
            kind: RowPositionType::Header(!exclude_border_on_header),
            is_top_border: !exclude_border_on_header,
            is_bottom_border: false,
            reset_index: true,
        }
    } else {
        RowOutcome {
            kind: RowPositionType::Top,
            is_top_border: true,
            is_bottom_border: false,
            reset_index: true,
        }
    };
    let inherits_top = index_on_page == 1 && has_header && exclude_border_on_header;
    let item_outcome = if inherits_top {
        RowOutcome {
            kind: RowPositionType::ItemWithTopBorder,
            is_top_border: true,
            is_bottom_border: false,
            reset_index: false,
        }
    } else {
        RowOutcome {
            kind: RowPositionType::Item,
            is_top_border: false,
            is_bottom_border: false,
            reset_index: false,
        }
    };
    let bottom_outcome = RowOutcome {
        kind: RowPositionType::Bottom,
        is_top_border: inherits_top,
        is_bottom_border: true,
        reset_index: false,
    };
    let full_page = RowOutcome {
        kind: RowPositionType::FullPageItem,
        is_top_border: true,
        is_bottom_border: true,
        reset_index: false,
    };
    let searching = RowOutcome {
        kind: RowPositionType::Searching,
        is_top_border: false,
        is_bottom_border: false,
        reset_index: false,
    };
    if !room_bottom {
        searching
    } else if is_new_page {
        if is_on_last_row {
            if room_header && has_header {
                header_outcome
            } else {
                full_page
            }
        } else if room_header && room_normal {
            header_outcome
        } else if room_header {
            full_page
        } else if room_normal {
            item_outcome
        } else {
            full_page
        }
    } else if is_start_row {
        if room_header {
            header_outcome
        } else if is_on_last_row {
            full_page
        } else if room_normal {
            item_outcome
        } else {
            searching
        }
    } else {
        if is_on_last_row {
            bottom_outcome
        } else if room_normal {
            item_outcome
        } else {
            bottom_outcome
        }
    }
}

/// Classify one candidate row. The result is exactly the decision table's
/// outcome; a fresh-page candidate with room for the row alone is never
/// sent searching again.
pub fn classify_row(
    is_on_last_row: bool,
    is_new_page: bool,
    room_header: bool,
    room_normal: bool,
    room_bottom: bool,
    is_start_row: bool,
    has_header: bool,
    exclude_border_on_header: bool,
    index_on_page: usize,
) -> (r: RowOutcome)
    ensures
        r == spec_classify(
            is_on_last_row,
            is_new_page,
            room_header,
            room_normal,
            room_bottom,
            is_start_row,
            has_header,
            exclude_border_on_header,
            index_on_page as int,
        ),
        (is_new_page && room_bottom) ==> !(r.kind is Searching),
        (!is_new_page && !is_start_row) ==> !(r.kind is Header) && !(r.kind is Top),
{
    let header_outcome = if has_header {
        RowOutcome {
            kind: RowPositionType::Header(!exclude_border_on_header),
            is_top_border: !exclude_border_on_header,
            is_bottom_border: false,
            reset_index: true,
        }
    } else {
        RowOutcome {
            kind: RowPositionType::Top,
            is_top_border: true,
            is_bottom_border: false,
            reset_index: true,
        }
    };
    let inherits_top = index_on_page == 1 && has_header && exclude_border_on_header;
    let item_outcome = if inherits_top {
        RowOutcome {
            kind: RowPositionType::ItemWithTopBorder,
            is_top_border: true,
            is_bottom_border: false,
            reset_index: false,
        }
    } else {
        RowOutcome {
            kind: RowPositionType::Item,
            is_top_border: false,
            is_bottom_border: false,
            reset_index: false,
        }
    };
    let bottom_outcome = RowOutcome {
        kind: RowPositionType::Bottom,
        is_top_border: inherits_top,
        is_bottom_border: true,
        reset_index: false,
    };
    let full_page = RowOutcome {
        kind: RowPositionType::FullPageItem,
        is_top_border: true,
        is_bottom_border: true,
        reset_index: false,
    };
    let searching = RowOutcome {
        kind: RowPositionType::Searching,
        is_top_border: false,
        is_bottom_border: false,
        reset_index: false,
    };
    if !room_bottom {
        searching
    } else if is_new_page {
        if is_on_last_row {
            if room_header && has_header {
                header_outcome
            } else {
                full_page
            }
        } else if room_header && room_normal {
            header_outcome
        } else if room_header {
            full_page
        } else if room_normal {
            item_outcome
        } else {
            full_page
        }
    } else if is_start_row {
        if room_header {
            header_outcome
        } else if is_on_last_row {
            full_page
        } else if room_normal {
            item_outcome
        } else {
            searching
        }
    } else {
        if is_on_last_row {
            bottom_outcome
        } else if room_normal {
            item_outcome
        } else {
            bottom_outcome
        }
    }
}

/// The inset one cell edge gets: half the applicable border thickness plus
/// the fixed interior margin; an edge with no border contribution in the
/// style still gets the margin. With no border style at all there is no
/// inset. The exception zeroes the top border contribution of the row
/// right below a borderless header.
pub open spec fn spec_edge_inset(
    border: ListBoxBorder,
    on_outer_edge: bool,
    no_top_border_exception: bool,
) -> int {
    match border {
        ListBoxBorder::All(inner, outer) => {
            if no_top_border_exception {
                INTERIOR_MARGIN_PX as int
            } else if on_outer_edge {
                outer / 2 + INTERIOR_MARGIN_PX
            } else {
                inner / 2 + INTERIOR_MARGIN_PX
            }
        },
        ListBoxBorder::Outer(outer) => {
            if on_outer_edge {
                outer / 2 + INTERIOR_MARGIN_PX
            } else {
                INTERIOR_MARGIN_PX as int
            }
        },
        ListBoxBorder::Inner(inner) => {
            if on_outer_edge {
                INTERIOR_MARGIN_PX as int
            } else {
                inner / 2 + INTERIOR_MARGIN_PX
            }
        },
        ListBoxBorder::NoBorder => 0,
    }
}

/// Horizontal-separator bookkeeping after one rendered row: whether the
/// separator above that row is suppressed now, and whether the row demands
/// suppression of the separator above its successor. A no-border single
/// span suppresses both; every other row consumes any pending suppression.
pub open spec fn spec_update_ignore_flags(param: RowDataTypes, ignore_next: bool) -> (bool, bool) {
    if param.is_single_no_border() {
        (true, true)
    } else {
        (ignore_next, false)
    }
}

/// A horizontal separator is due above a row exactly when the row's on-page
/// index exceeds the ignore counter, its suppression flag is off, and the
/// border style draws interior separators.
pub open spec fn spec_separator_due(
    index_on_page: int,
    lines_to_ignore: int,
    ignore_horizontal_line: bool,
    border: ListBoxBorder,
) -> bool {
    index_on_page > lines_to_ignore && !ignore_horizontal_line && border.has_inner()
}

/// Sum of the first `upto` column widths.
pub open spec fn widths_sum(ws: Seq<usize>, upto: int) -> int
    decreases upto,
{
    if upto <= 0 {
        0
    } else {
        widths_sum(ws, upto - 1) + ws[upto - 1]
    }
}

/// Prefix sums of non-negative widths never exceed the total.
pub proof fn lemma_widths_sum_mono(ws: Seq<usize>, a: int, b: int)
    requires
        0 <= a <= b <= ws.len(),
    ensures
        widths_sum(ws, a) <= widths_sum(ws, b),
        0 <= widths_sum(ws, a),
    decreases b,
{
    if b > 0 {
        if a == b {
            lemma_widths_sum_mono(ws, a - 1, b - 1);
        } else {
            lemma_widths_sum_mono(ws, a, b - 1);
        }
    }
}

/// The private configuration and running state of a list box.
struct ListData {
    data: Vec<RowData>,
    column_widths_percentage: Vec<usize>,
    header: Option<RowData>,
    header_column_text_alignments: Option<Vec<TextAlignment>>,
    alternate_row_colors: Option<(Color, Color)>,
    column_text_alignments: Option<Vec<TextAlignment>>,
    list_box_border: ListBoxBorder,
    exclude_border_on_header: bool,
    types_of_items: Vec<TypeOfItem>,
    border_color: Color,
    header_font: FontInfo,
    list_item_font: FontInfo,
    row_cell_size: Option<Vec<i64>>,
    row_header_pixels: i64,
    inner_border_size: i64,
    outer_border_size: i64,
    group: Option<usize>,
    list_box_page_height_info: Vec<VertSpacing>,
    page_top: i64,
}

/// The list/table component.
pub struct ListBox {
    list_data: ListData,
}

impl ListBox {
    /// Number of data rows.
    pub closed spec fn spec_data_len(&self) -> int {
        self.list_data.data@.len() as int
    }

    pub closed spec fn spec_has_header(&self) -> bool {
        self.list_data.header is Some
    }

    pub closed spec fn spec_exclude_border_on_header(&self) -> bool {
        self.list_data.exclude_border_on_header
    }

    pub closed spec fn spec_border(&self) -> ListBoxBorder {
        self.list_data.list_box_border
    }

    pub closed spec fn spec_group(&self) -> Option<usize> {
        self.list_data.group
    }

    pub closed spec fn spec_columns(&self) -> Seq<usize> {
        self.list_data.column_widths_percentage@
    }

    pub closed spec fn spec_row_header_px(&self) -> int {
        self.list_data.row_header_pixels as int
    }

    /// The configured value type of each column.
    pub closed spec fn spec_types(&self) -> Seq<TypeOfItem> {
        self.list_data.types_of_items@
    }

    pub closed spec fn spec_border_color(&self) -> Color {
        self.list_data.border_color
    }

    /// The alternating row background colors, if configured.
    pub closed spec fn spec_alternate_row_colors(&self) -> Option<(Color, Color)> {
        self.list_data.alternate_row_colors
    }

    pub closed spec fn spec_header_font(&self) -> FontInfo {
        self.list_data.header_font
    }

    pub closed spec fn spec_list_item_font(&self) -> FontInfo {
        self.list_data.list_item_font
    }

    /// The outer-frame spans accumulated by the most recent render.
    pub closed spec fn spec_extents(&self) -> Seq<VertSpacing> {
        self.list_data.list_box_page_height_info@
    }

    /// The configuration invariant every constructor and setter maintains.
    pub closed spec fn config_wf(&self) -> bool {
        let d = &self.list_data;
        &&& d.data@.len() <= MAX_TEXT
        &&& forall|i: int, j: int|
            0 <= i < d.data@.len() && 0 <= j < d.data@[i].data@.len() ==> (#[trigger] d.data@[i].data@[j])@.len() <= MAX_TEXT
        &&& forall|i: int| 0 <= i < d.data@.len() ==> (#[trigger] d.data@[i]).param.wf()
        &&& match d.header {
            Option::Some(h) => forall|j: int|
                0 <= j < h.data@.len() ==> (#[trigger] h.data@[j])@.len() <= MAX_TEXT,
            Option::None => true,
        }
        &&& d.column_widths_percentage@.len() >= 1
        &&& d.column_widths_percentage@.len() <= 100
        &&& forall|i: int|
            0 <= i < d.column_widths_percentage@.len() ==> 1 <= (
            #[trigger] d.column_widths_percentage@[i]) <= 100
        &&& widths_sum(d.column_widths_percentage@, d.column_widths_percentage@.len() as int)
            <= 100
        &&& d.types_of_items@.len() >= d.column_widths_percentage@.len()
        &&& forall|i: int|
            0 <= i < d.types_of_items@.len() ==> (#[trigger] d.types_of_items@[i]).wf()
        &&& match d.row_cell_size {
            Option::Some(v) => v@.len() == d.data@.len() && forall|i: int|
                0 <= i < v@.len() ==> 0 <= (#[trigger] v@[i]) <= MAX_CONTENT,
            Option::None => true,
        }
        &&& 0 <= d.row_header_pixels <= MAX_CONTENT
        &&& d.list_box_border.wf()
        &&& d.inner_border_size == d.list_box_border.spec_inner_half()
        &&& d.outer_border_size == d.list_box_border.spec_outer_half()
        &&& d.header_font.wf()
        &&& d.list_item_font.wf()
        &&& match d.column_text_alignments {
            Option::Some(v) => forall|i: int|
                0 <= i < v@.len() ==> (#[trigger] v@[i]).wf(),
            Option::None => true,
        }
        &&& match d.header_column_text_alignments {
            Option::Some(v) => forall|i: int|
                0 <= i < v@.len() ==> (#[trigger] v@[i]).wf(),
            Option::None => true,
        }
        &&& 0 <= d.page_top <= CURSOR_LIMIT
        &&& forall|i: int|
            0 <= i < d.list_box_page_height_info@.len() ==> {
                let vs = #[trigger] d.list_box_page_height_info@[i];
                0 <= vs.top <= CURSOR_LIMIT && 0 <= vs.bottom <= CURSOR_LIMIT && vs.page
                    <= crate::geometry::PAGE_LIMIT
            }
    }

    /// The geometry leaves room for a row between the border halves.
    pub open spec fn fits_geometry(&self, g: PageSizeInfo) -> bool {
        2 * self.spec_border().spec_inner_half() + 2 * self.spec_border().spec_outer_half()
            <= g.usable_height()
    }

    /// Half of each configured border thickness: the interior half and the
    /// outer half.
    pub fn get_half_border_sizes(border: &ListBoxBorder) -> (r: (i64, i64))
        requires
            border.wf(),
        ensures
            r.0 == border.spec_inner_half(),
            r.1 == border.spec_outer_half(),
            0 <= r.0 <= MAX_CONTENT,
            0 <= r.1 <= MAX_CONTENT,
    {
        match border {
            ListBoxBorder::All(inner, outer) => (*inner / 2, *outer / 2),
            ListBoxBorder::Outer(outer) => (0, *outer / 2),
            ListBoxBorder::Inner(inner) => (*inner / 2, 0),
            ListBoxBorder::NoBorder => (0, 0),
        }
    }

    /// Build a list box over owned row data. The column widths are
    /// percentage units, each at least one and summing to at most the whole
    /// grid. The header row height estimate comes from the header font's
    /// pixel size, clamped to the page's usable height less the outer
    /// border allowance.
    pub fn new(
        data: Vec<RowData>,
        column_widths_percentage: Vec<usize>,
        header: Option<RowData>,
        manager: &crate::manager::Manager,
        list_item_font: FontInfo,
        header_font: FontInfo,
        border: ListBoxBorder,
        group: Option<usize>,
    ) -> (r: ListBox)
        requires
            manager.wf(),
            border.wf(),
            list_item_font.wf(),
            header_font.wf(),
            data@.len() <= MAX_TEXT,
            forall|i: int, j: int|
                0 <= i < data@.len() && 0 <= j < data@[i].data@.len() ==> (#[trigger] data@[i].data@[j])@.len() <= MAX_TEXT,
            forall|i: int| 0 <= i < data@.len() ==> (#[trigger] data@[i]).param.wf(),
            match header {
                Option::Some(h) => forall|j: int|
                    0 <= j < h.data@.len() ==> (#[trigger] h.data@[j])@.len() <= MAX_TEXT,
                Option::None => true,
            },
            1 <= column_widths_percentage@.len() <= 100,
            forall|i: int|
                0 <= i < column_widths_percentage@.len() ==> 1 <= (
                #[trigger] column_widths_percentage@[i]) <= 100,
            widths_sum(
                column_widths_percentage@,
                column_widths_percentage@.len() as int,
            ) <= 100,
        ensures
            r.config_wf(),
            r.spec_data_len() == data@.len(),
            r.spec_has_header() == (header is Some),
            !r.spec_exclude_border_on_header(),
            r.spec_border() == border,
            r.spec_group() == group,
            r.spec_columns() == column_widths_percentage@,
            r.spec_extents() == Seq::<VertSpacing>::empty(),
            r.spec_header_font() == header_font,
            r.spec_list_item_font() == list_item_font,
            ({
                // the header-row height estimate: the header font's pixel
                // size, clamped to the usable height less the outer border
                // allowance, floored at zero
                let g = manager.page_master.geometry();
                let cap = g.page_height_pixels - g.top_margin - g.bottom_margin - 4
                    * border.spec_outer_half();
                let clamped = if header_font.size > cap {
                    cap
                } else {
                    header_font.size as int
                };
                r.spec_row_header_px() == (if clamped < 0 {
                    0int
                } else {
                    clamped
                })
            }),
            forall|i: int| #[trigger] r.spec_row_base(i) == list_item_font.size,
            r.spec_types().len() == column_widths_percentage@.len(),
            forall|i: int|
                0 <= i < r.spec_types().len() ==> #[trigger] r.spec_types()[i]
                    == TypeOfItem::String,
            r.spec_border_color() == (Color { r: 0, g: 0, b: 0 }),
            r.spec_alternate_row_colors() == Some(
                (Color { r: 1000, g: 1000, b: 1000 }, Color { r: 900, g: 1000, b: 1000 }),
            ),
            forall|j: int, h: bool| #[trigger] r.spec_row_align(j, h) == TextAlignment::LeftBottom,
    {
        let (inner_border_size, outer_border_size) = Self::get_half_border_sizes(&border);
        let margins = manager.get_page_pixel_margins();
        let page_size_info = manager.get_page_pixel_dims();
        let mut row_header_pixels = header_font.size;
        let cap = page_size_info.1 - margins.top_margin_pixels - margins.bottom_margin_pixels
            - outer_border_size * 4;
        if row_header_pixels > cap {
            row_header_pixels = cap;
        }
        if row_header_pixels < 0 {
            row_header_pixels = 0;
        }
        let col_wdth = column_widths_percentage.len();
        let types: Vec<TypeOfItem> = vec![TypeOfItem::String; col_wdth];
        ListBox {
            list_data: ListData {
                data,
                column_widths_percentage,
                header,
                header_column_text_alignments: None,
                alternate_row_colors: Some(
                    (Color { r: 1000, g: 1000, b: 1000 }, Color { r: 900, g: 1000, b: 1000 }),
                ),
                column_text_alignments: None,
                list_box_border: border,
                exclude_border_on_header: false,
                types_of_items: types,
                border_color: Color { r: 0, g: 0, b: 0 },
                header_font,
                list_item_font,
                row_cell_size: None,
                row_header_pixels,
                inner_border_size,
                outer_border_size,
                group,
                list_box_page_height_info: Vec::new(),
                page_top: 0,
            },
        }
    }

    pub fn set_item_column_alignments(&mut self, row_alignments: Vec<TextAlignment>)
        requires
            old(self).config_wf(),
            forall|i: int| 0 <= i < row_alignments@.len() ==> (#[trigger] row_alignments@[i]).wf(),
        ensures
            final(self).config_wf(),
            final(self).spec_data_len() == old(self).spec_data_len(),
            final(self).spec_has_header() == old(self).spec_has_header(),
            final(self).spec_exclude_border_on_header() == old(self).spec_exclude_border_on_header(),
            final(self).spec_border() == old(self).spec_border(),
            final(self).spec_columns() == old(self).spec_columns(),
            final(self).spec_extents() == old(self).spec_extents(),
            forall|j: int|
                #[trigger] final(self).spec_row_align(j, false) == (
                if 0 <= j < row_alignments@.len() {
                    row_alignments@[j]
                } else {
                    TextAlignment::LeftBottom
                }),
            forall|j: int|
                #[trigger] final(self).spec_row_align(j, true) == old(self).spec_row_align(j, true),
    {
        self.list_data.column_text_alignments = Some(row_alignments);
    }

    pub fn set_header_column_alignments(&mut self, column_alignments: Vec<TextAlignment>)
        requires
            old(self).config_wf(),
            forall|i: int|
                0 <= i < column_alignments@.len() ==> (#[trigger] column_alignments@[i]).wf(),
        ensures
            final(self).config_wf(),
            final(self).spec_data_len() == old(self).spec_data_len(),
            final(self).spec_has_header() == old(self).spec_has_header(),
            final(self).spec_exclude_border_on_header() == old(self).spec_exclude_border_on_header(),
            final(self).spec_border() == old(self).spec_border(),
            final(self).spec_columns() == old(self).spec_columns(),
            final(self).spec_extents() == old(self).spec_extents(),
            forall|j: int|
                #[trigger] final(self).spec_row_align(j, true) == (
                if 0 <= j < column_alignments@.len() {
                    column_alignments@[j]
                } else {
                    TextAlignment::LeftBottom
                }),
            forall|j: int|
                #[trigger] final(self).spec_row_align(j, false) == old(self).spec_row_align(
                    j,
                    false,
                ),
    {
        self.list_data.header_column_text_alignments = Some(column_alignments);
    }

    /// Give every row an explicit pixel height, one entry per data row.
    pub fn set_all_row_sizes(&mut self, cell_size: Vec<i64>)
        requires
            old(self).config_wf(),
            cell_size@.len() == old(self).spec_data_len(),
            forall|i: int| 0 <= i < cell_size@.len() ==> 0 <= (#[trigger] cell_size@[i]) <= MAX_CONTENT,
        ensures
            final(self).config_wf(),
            final(self).spec_data_len() == old(self).spec_data_len(),
            final(self).spec_has_header() == old(self).spec_has_header(),
            final(self).spec_exclude_border_on_header() == old(self).spec_exclude_border_on_header(),
            final(self).spec_border() == old(self).spec_border(),
            final(self).spec_columns() == old(self).spec_columns(),
            final(self).spec_extents() == old(self).spec_extents(),
            forall|i: int|
                0 <= i < cell_size@.len() ==> #[trigger] final(self).spec_row_base(i)
                    == cell_size@[i],
            forall|i: int|
                cell_size@.len() > 0 && i >= cell_size@.len() ==> #[trigger] final(self).spec_row_base(i) == cell_size@[cell_size@.len() - 1],
    {
        self.list_data.row_cell_size = Some(cell_size);
    }

    /// Set each column's value type; one entry per column at least.
    pub fn set_row_types(&mut self, types: Vec<TypeOfItem>)
        requires
            old(self).config_wf(),
            types@.len() >= old(self).spec_columns().len(),
            forall|i: int| 0 <= i < types@.len() ==> (#[trigger] types@[i]).wf(),
        ensures
            final(self).config_wf(),
            final(self).spec_data_len() == old(self).spec_data_len(),
            final(self).spec_has_header() == old(self).spec_has_header(),
            final(self).spec_exclude_border_on_header() == old(self).spec_exclude_border_on_header(),
            final(self).spec_border() == old(self).spec_border(),
            final(self).spec_columns() == old(self).spec_columns(),
            final(self).spec_extents() == old(self).spec_extents(),
            final(self).spec_types() == types@,
    {
        self.list_data.types_of_items = types;
    }

    pub fn set_border_color(&mut self, border_color: Color)
        requires
            old(self).config_wf(),
        ensures
            final(self).config_wf(),
            final(self).spec_data_len() == old(self).spec_data_len(),
            final(self).spec_has_header() == old(self).spec_has_header(),
            final(self).spec_exclude_border_on_header() == old(self).spec_exclude_border_on_header(),
            final(self).spec_border() == old(self).spec_border(),
            final(self).spec_columns() == old(self).spec_columns(),
            final(self).spec_extents() == old(self).spec_extents(),
            final(self).spec_border_color() == border_color,
    {
        self.list_data.border_color = border_color;
    }

    /// Configure whether the header row carries its own border; when it
    /// does not, the row below it inherits the top border the header
    /// omitted.
    pub fn header_has_border(&mut self, does_it: bool)
        requires
            old(self).config_wf(),
        ensures
            final(self).config_wf(),
            final(self).spec_exclude_border_on_header() == !does_it,
            final(self).spec_data_len() == old(self).spec_data_len(),
            final(self).spec_has_header() == old(self).spec_has_header(),
            final(self).spec_border() == old(self).spec_border(),
            final(self).spec_columns() == old(self).spec_columns(),
            final(self).spec_extents() == old(self).spec_extents(),
    {
        self.list_data.exclude_border_on_header = !does_it;
    }

    /// The outer-frame spans accumulated by the most recent render, one per
    /// page segment.
    pub fn vertical_extents(&self) -> (r: &Vec<VertSpacing>)
        ensures
            r@ == self.spec_extents(),
    {
        &self.list_data.list_box_page_height_info
    }

    /// Background color of a row from its on-page index: the configured
    /// colors alternate, white when none are configured.
    pub closed spec fn spec_row_color(&self, index_on_page: int) -> Color {
        match self.list_data.alternate_row_colors {
            Option::Some((color_a, color_b)) => {
                if index_on_page % 2 == 0 {
                    color_a
                } else {
                    color_b
                }
            },
            Option::None => Color { r: 1000, g: 1000, b: 1000 },
        }
    }

    fn get_row_color(&self, index_on_page: usize) -> (c: Color)
        ensures
            c == self.spec_row_color(index_on_page as int),
    {
        match self.list_data.alternate_row_colors {
            Some((color_a, color_b)) => {
                if index_on_page % 2 == 0 {
                    color_a
                } else {
                    color_b
                }
            },
            None => Color { r: 1000, g: 1000, b: 1000 },
        }
    }

    /// Alignment of a cell from its column index, falling back to
    /// bottom-left when the column has no configured alignment.
    pub closed spec fn spec_row_align(&self, column_index: int, is_header_row: bool) -> TextAlignment {
        let v = if is_header_row {
            self.list_data.header_column_text_alignments
        } else {
            self.list_data.column_text_alignments
        };
        match v {
            Option::Some(align) => {
                if 0 <= column_index < align@.len() {
                    align@[column_index]
                } else {
                    TextAlignment::LeftBottom
                }
            },
            Option::None => TextAlignment::LeftBottom,
        }
    }

    fn get_row_align(&self, column_index: usize, is_header_row: bool) -> (a: TextAlignment)
        requires
            self.config_wf(),
        ensures
            a == self.spec_row_align(column_index as int, is_header_row),
            a.wf(),
    {
        if !is_header_row {
            match &self.list_data.column_text_alignments {
                Some(align) => {
                    if column_index < align.len() {
                        align[column_index]
                    } else {
                        TextAlignment::LeftBottom
                    }
                },
                None => TextAlignment::LeftBottom,
            }
        } else {
            match &self.list_data.header_column_text_alignments {
                Some(align) => {
                    if column_index < align.len() {
                        align[column_index]
                    } else {
                        TextAlignment::LeftBottom
                    }
                },
                None => TextAlignment::LeftBottom,
            }
        }
    }

    /// The four insets of one placed cell, top, left, right and bottom:
    /// half the applicable border thickness plus the interior margin on
    /// each edge.
    pub fn adjust_for_border(
        border: &ListBoxBorder,
        is_left_border: bool,
        is_top_border: bool,
        is_right_border: bool,
        is_bottom_border: bool,
        no_top_border_exception: bool,
    ) -> (r: (i64, i64, i64, i64))
        requires
            border.wf(),
        ensures
            r.0 == spec_edge_inset(*border, is_top_border, no_top_border_exception),
            r.1 == spec_edge_inset(*border, is_left_border, false),
            r.2 == spec_edge_inset(*border, is_right_border, false),
            r.3 == spec_edge_inset(*border, is_bottom_border, false),
            0 <= r.0 <= MAX_CONTENT,
            0 <= r.1 <= MAX_CONTENT,
            0 <= r.2 <= MAX_CONTENT,
            0 <= r.3 <= MAX_CONTENT,
    {
        let top = Self::edge_inset(border, is_top_border, no_top_border_exception);
        let left = Self::edge_inset(border, is_left_border, false);
        let right = Self::edge_inset(border, is_right_border, false);
        let bottom = Self::edge_inset(border, is_bottom_border, false);
        (top, left, right, bottom)
    }

    fn edge_inset(border: &ListBoxBorder, on_outer_edge: bool, no_top_border_exception: bool) -> (r:
        i64)
        requires
            border.wf(),
        ensures
            r == spec_edge_inset(*border, on_outer_edge, no_top_border_exception),
            0 <= r <= MAX_CONTENT,
    {
        match border {
            ListBoxBorder::All(inner, outer) => {
                if no_top_border_exception {
                    INTERIOR_MARGIN_PX
                } else if on_outer_edge {
                    *outer / 2 + INTERIOR_MARGIN_PX
                } else {
                    *inner / 2 + INTERIOR_MARGIN_PX
                }
            },
            ListBoxBorder::Outer(outer) => {
                if on_outer_edge {
                    *outer / 2 + INTERIOR_MARGIN_PX
                } else {
                    INTERIOR_MARGIN_PX
                }
            },
            ListBoxBorder::Inner(inner) => {
                if on_outer_edge {
                    INTERIOR_MARGIN_PX
                } else {
                    *inner / 2 + INTERIOR_MARGIN_PX
                }
            },
            ListBoxBorder::NoBorder => 0,
        }
    }
}

/// The candidate-row data a placement search yields: the classification,
/// its border contributions, the placement handle the row will render
/// through, and the row's content height.
pub struct BorderPositionData {
    pub is_top_border: bool,
    pub is_bottom_border: bool,
    pub row_type_and_size: RowPositionType,
    pub list_placement_handle: CurrentPlacement,
    pub item_height_pixels: i64,
}

impl ListBox {
    /// A row's configured height: its explicit entry when per-row sizes
    /// are set (the last row's height standing in beyond the end), the item
    /// font's pixel size otherwise.
    pub closed spec fn spec_row_base(&self, i: int) -> int {
        match self.list_data.row_cell_size {
            Option::Some(v) => {
                if 0 <= i < v@.len() {
                    v@[i] as int
                } else if v@.len() > 0 {
                    v@[v@.len() - 1] as int
                } else {
                    0
                }
            },
            Option::None => self.list_data.list_item_font.size as int,
        }
    }

    /// The tallest a single row can be: the usable page height less both
    /// border halves at top and bottom.
    pub open spec fn height_cap(&self, g: PageSizeInfo) -> int {
        g.usable_height() - 2 * self.spec_border().spec_outer_half() - 2
            * self.spec_border().spec_inner_half()
    }

    /// A row's effective height: its configured height clamped to the cap.
    pub open spec fn spec_row_height(&self, g: PageSizeInfo, i: int) -> int {
        if self.spec_row_base(i) > self.height_cap(g) {
            self.height_cap(g)
        } else {
            self.spec_row_base(i)
        }
    }

    /// Room for a header plus this row, with their border halves.
    pub open spec fn spec_room_header(&self, remaining: int, item: int) -> bool {
        remaining >= self.spec_row_header_px() + self.spec_border().spec_outer_half()
            + self.spec_border().spec_inner_half() + item + self.spec_border().spec_outer_half()
            + self.spec_border().spec_inner_half()
    }

    /// Room for this row as an interior item plus the next row.
    pub open spec fn spec_room_normal(&self, remaining: int, item: int, next: int) -> bool {
        remaining >= item + 2 * self.spec_border().spec_inner_half() + next
            + self.spec_border().spec_outer_half() + self.spec_border().spec_inner_half()
    }

    /// Room for this row alone, as a page-terminal item.
    pub open spec fn spec_room_bottom(&self, remaining: int, item: int) -> bool {
        remaining >= item + self.spec_border().spec_outer_half()
            + self.spec_border().spec_inner_half()
    }

    /// This row's and the following row's effective heights.
    fn get_item_height_pixels(&self, pm: &PageMaster, row_index: usize) -> (r: (i64, i64))
        requires
            self.config_wf(),
            pm.wf(),
            self.fits_geometry(pm.geometry()),
            row_index < self.spec_data_len(),
        ensures
            r.0 == self.spec_row_height(pm.geometry(), row_index as int),
            r.1 == self.spec_row_height(pm.geometry(), row_index + 1),
            0 <= r.0 <= MAX_CONTENT,
            0 <= r.1 <= MAX_CONTENT,
    {
        let (_, page_height, _) = pm.get_page_info();
        let margins = pm.get_margins_pixels();
        let cap = page_height - margins.top_margin_pixels - margins.bottom_margin_pixels
            - self.list_data.outer_border_size * 2 - self.list_data.inner_border_size * 2;
        let (mut item_height_pixels, mut next_height): (i64, i64) = match &self.list_data.row_cell_size {
            Some(row_sizes) => {
                let this_h = row_sizes[row_index];
                let next_h = if row_index + 1 < row_sizes.len() {
                    row_sizes[row_index + 1]
                } else {
                    row_sizes[row_index]
                };
                (this_h, next_h)
            },
            None => (self.list_data.list_item_font.size, self.list_data.list_item_font.size),
        };
        if item_height_pixels > cap {
            item_height_pixels = cap;
        }
        if next_height > cap {
            next_height = cap;
        }
        (item_height_pixels, next_height)
    }

    /// Find the placement and classification of one candidate row: request
    /// a position over the range, and when there is no room for the row
    /// alone (or a mid-page first row fits nothing at all), retry once on a
    /// forced fresh page, where room for the row alone is guaranteed. The
    /// on-page row index resets when the outcome starts a page segment.
    pub fn get_position_border_info(
        &self,
        pm: &PageMaster,
        row_index: usize,
        range: ColumnRange,
        is_start_row: bool,
        is_on_last_row: bool,
        page_index: &mut usize,
    ) -> (bpd: BorderPositionData)
        requires
            self.config_wf(),
            pm.wf(),
            range.wf(),
            row_index < self.spec_data_len(),
            self.fits_geometry(pm.geometry()),
        ensures
            ({
                let g = pm.geometry();
                let item = self.spec_row_height(g, row_index as int);
                let next = self.spec_row_height(g, row_index + 1);
                let p0 = pm.next_position(false, range);
                let out0 = spec_classify(
                    is_on_last_row,
                    p0.is_new_page,
                    self.spec_room_header(p0.draw_height_left_on_page as int, item),
                    self.spec_room_normal(p0.draw_height_left_on_page as int, item, next),
                    self.spec_room_bottom(p0.draw_height_left_on_page as int, item),
                    is_start_row,
                    self.spec_has_header(),
                    self.spec_exclude_border_on_header(),
                    *old(page_index) as int,
                );
                let forced = out0.kind is Searching;
                let p1 = pm.next_position(true, range);
                let out1 = spec_classify(
                    is_on_last_row,
                    p1.is_new_page,
                    self.spec_room_header(p1.draw_height_left_on_page as int, item),
                    self.spec_room_normal(p1.draw_height_left_on_page as int, item, next),
                    self.spec_room_bottom(p1.draw_height_left_on_page as int, item),
                    is_start_row,
                    self.spec_has_header(),
                    self.spec_exclude_border_on_header(),
                    *old(page_index) as int,
                );
                let out = if forced {
                    out1
                } else {
                    out0
                };
                &&& bpd.list_placement_handle.info() == (if forced {
                    p1
                } else {
                    p0
                })
                &&& bpd.row_type_and_size == out.kind
                &&& bpd.is_top_border == out.is_top_border
                &&& bpd.is_bottom_border == out.is_bottom_border
                &&& *final(page_index) == (if out.reset_index {
                    0int
                } else {
                    *old(page_index) as int
                })
                &&& !(out.kind is Searching)
                &&& bpd.item_height_pixels == item
            }),
            bpd.list_placement_handle.wf(),
            bpd.list_placement_handle.info().page_size_info == pm.geometry(),
            bpd.list_placement_handle.info().percent_range == range,
            bpd.list_placement_handle.info().rec.height == 0,
            bpd.list_placement_handle.info().rec.y >= pm.geometry().top_margin,
            bpd.list_placement_handle.info().draw_height_left_on_page
                == pm.geometry().page_height_pixels - pm.geometry().bottom_margin
                - bpd.list_placement_handle.info().rec.y,
            0 <= bpd.item_height_pixels <= MAX_CONTENT,
    {
        proof {
            assert(crate::manager::clamp_range(range) == range);
        }
        let (item_height_pixels, next_height) = self.get_item_height_pixels(pm, row_index);
        let inner = self.list_data.inner_border_size;
        let outer = self.list_data.outer_border_size;
        let header_px = self.list_data.row_header_pixels;
        let has_header = self.list_data.header.is_some();
        let excl = self.list_data.exclude_border_on_header;
        let handle0 = CurrentPlacement::new(pm, Some(range), false);
        let info0 = handle0.get_placement_info();
        let room_header0 = info0.draw_height_left_on_page >= header_px + outer + inner
            + item_height_pixels + outer + inner;
        let room_normal0 = info0.draw_height_left_on_page >= item_height_pixels + 2 * inner
            + next_height + outer + inner;
        let room_bottom0 = info0.draw_height_left_on_page >= item_height_pixels + outer + inner;
        let out0 = classify_row(
            is_on_last_row,
            info0.is_new_page,
            room_header0,
            room_normal0,
            room_bottom0,
            is_start_row,
            has_header,
            excl,
            *page_index,
        );
        if matches!(out0.kind, RowPositionType::Searching) {
            let handle1 = CurrentPlacement::new(pm, Some(range), true);
            let info1 = handle1.get_placement_info();
            let room_header1 = info1.draw_height_left_on_page >= header_px + outer + inner
                + item_height_pixels + outer + inner;
            let room_normal1 = info1.draw_height_left_on_page >= item_height_pixels + 2 * inner
                + next_height + outer + inner;
            let room_bottom1 = info1.draw_height_left_on_page >= item_height_pixels + outer
                + inner;
            proof {
                assert(info1.draw_height_left_on_page == pm.geometry().usable_height());
                assert(room_bottom1);
            }
            let out1 = classify_row(
                is_on_last_row,
                info1.is_new_page,
                room_header1,
                room_normal1,
                room_bottom1,
                is_start_row,
                has_header,
                excl,
                *page_index,
            );
            if out1.reset_index {
                *page_index = 0;
            }
            BorderPositionData {
                is_top_border: out1.is_top_border,
                is_bottom_border: out1.is_bottom_border,
                row_type_and_size: out1.kind,
                list_placement_handle: handle1,
                item_height_pixels,
            }
        } else {
            if out0.reset_index {
                *page_index = 0;
            }
            BorderPositionData {
                is_top_border: out0.is_top_border,
                is_bottom_border: out0.is_bottom_border,
                row_type_and_size: out0.kind,
                list_placement_handle: handle0,
                item_height_pixels,
            }
        }
    }
}

impl ListBox {
    /// The running page-segment top edge tracked while rendering.
    pub closed spec fn spec_page_top(&self) -> int {
        self.list_data.page_top as int
    }

    /// The two list boxes share every configuration field; only the running
    /// render state (segment top and accumulated extents) may differ.
    pub closed spec fn same_config(&self, other: &ListBox) -> bool {
        &&& self.list_data.data@ == other.list_data.data@
        &&& self.list_data.column_widths_percentage@ == other.list_data.column_widths_percentage@
        &&& self.list_data.header == other.list_data.header
        &&& self.list_data.header_column_text_alignments
            == other.list_data.header_column_text_alignments
        &&& self.list_data.alternate_row_colors == other.list_data.alternate_row_colors
        &&& self.list_data.column_text_alignments == other.list_data.column_text_alignments
        &&& self.list_data.list_box_border == other.list_data.list_box_border
        &&& self.list_data.exclude_border_on_header == other.list_data.exclude_border_on_header
        &&& self.list_data.types_of_items@ == other.list_data.types_of_items@
        &&& self.list_data.border_color == other.list_data.border_color
        &&& self.list_data.header_font == other.list_data.header_font
        &&& self.list_data.list_item_font == other.list_data.list_item_font
        &&& self.list_data.row_cell_size == other.list_data.row_cell_size
        &&& self.list_data.row_header_pixels == other.list_data.row_header_pixels
        &&& self.list_data.inner_border_size == other.list_data.inner_border_size
        &&& self.list_data.outer_border_size == other.list_data.outer_border_size
        &&& self.list_data.group == other.list_data.group
    }

    /// Background color for the row about to render: with a borderless
    /// header configured, rows continuing a page shift one place in the
    /// alternation.
    fn row_color_for(&self, index_on_page: usize, is_new_page: bool) -> (c: Color)
        requires
            self.config_wf(),
            index_on_page < usize::MAX,
        ensures
            c == (if self.spec_exclude_border_on_header() && self.spec_has_header()
                && !is_new_page && index_on_page > 0 {
                self.spec_row_color(index_on_page + 1)
            } else {
                self.spec_row_color(index_on_page as int)
            }),
    {
        let has_header = self.list_data.header.is_some();
        if self.list_data.exclude_border_on_header && has_header && !is_new_page
            && index_on_page > 0 {
            self.get_row_color(index_on_page + 1)
        } else {
            self.get_row_color(index_on_page)
        }
    }

    /// Assign the row's pixel height from its classification, and track the
    /// page-segment geometry: segment tops for rows that open a segment,
    /// one outer-frame extent for each row that closes one. Returns whether
    /// the cell insets get the borderless-header top exception.
    fn apply_row_kind(
        &mut self,
        pm: &PageMaster,
        bpd: &mut BorderPositionData,
        lines_to_ignore_top_border: &mut usize,
        no_more_under: &mut bool,
    ) -> (no_top_border_exception: bool)
        requires
            old(self).config_wf(),
            pm.wf(),
            old(bpd).list_placement_handle.wf(),
            old(bpd).list_placement_handle.info().page_size_info == pm.geometry(),
            old(bpd).list_placement_handle.info().draw_height_left_on_page
                == pm.geometry().page_height_pixels - pm.geometry().bottom_margin - old(bpd).list_placement_handle.info().rec.y,
            0 <= old(bpd).item_height_pixels <= MAX_CONTENT,
            !(old(bpd).row_type_and_size is Searching),
        ensures
            final(self).config_wf(),
            final(self).same_config(old(self)),
            final(self).spec_has_header() == old(self).spec_has_header(),
            final(self).spec_exclude_border_on_header() == old(self).spec_exclude_border_on_header(),
            final(self).spec_border() == old(self).spec_border(),
            final(self).spec_columns() == old(self).spec_columns(),
            final(self).spec_data_len() == old(self).spec_data_len(),
            final(self).spec_group() == old(self).spec_group(),
            final(self).spec_row_header_px() == old(self).spec_row_header_px(),
            forall|i: int| #[trigger] final(self).spec_row_base(i) == old(self).spec_row_base(i),
            final(bpd).row_type_and_size == old(bpd).row_type_and_size,
            final(bpd).is_top_border == (
            if old(bpd).row_type_and_size matches RowPositionType::Header(false) {
                false
            } else {
                old(bpd).is_top_border
            }),
            final(bpd).is_bottom_border == (old(bpd).is_bottom_border || (
            old(bpd).row_type_and_size matches RowPositionType::Header(false))),
            final(bpd).item_height_pixels == old(bpd).item_height_pixels,
            final(bpd).list_placement_handle.wf(),
            final(bpd).list_placement_handle.info().page_size_info == pm.geometry(),
            final(bpd).list_placement_handle.info().percent_range == old(bpd).list_placement_handle.info().percent_range,
            ({
                let h = final(bpd).list_placement_handle.info();
                let item = old(bpd).item_height_pixels as int;
                let o = old(self).spec_border().spec_outer_half();
                let i = old(self).spec_border().spec_inner_half();
                let hp = old(self).spec_row_header_px();
                match old(bpd).row_type_and_size {
                    RowPositionType::Header(true) => h.rec.height == hp + o + i,
                    RowPositionType::Header(false) => h.rec.height == (match old(self).spec_border() {
                        ListBoxBorder::All(_, _) => hp + o,
                        ListBoxBorder::Outer(_) => hp + o,
                        ListBoxBorder::Inner(_) => hp + i,
                        ListBoxBorder::NoBorder => old(bpd).list_placement_handle.info().rec.height as int,
                    }),
                    RowPositionType::Top => h.rec.height == item + o + i,
                    RowPositionType::ItemWithTopBorder => h.rec.height == item + o + i,
                    RowPositionType::Item => h.rec.height == item + i + i,
                    RowPositionType::Bottom => h.rec.height == (if old(bpd).is_top_border {
                        item + o + o
                    } else {
                        item + o + i
                    }),
                    RowPositionType::FullPageItem => h.rec.height == item + o + o,
                    RowPositionType::Searching => false,
                }
            }),
            ({
                let h = final(bpd).list_placement_handle.info();
                match old(bpd).row_type_and_size {
                    RowPositionType::Bottom => final(self).spec_extents() == old(self).spec_extents().push(
                        VertSpacing {
                            page: h.page_number,
                            top: (if old(bpd).is_top_border {
                                h.rec.y as int
                            } else {
                                old(self).spec_page_top()
                            }) as i64,
                            bottom: (h.rec.y + h.rec.height) as i64,
                        },
                    ) && final(self).spec_page_top() == 0 && *final(no_more_under),
                    RowPositionType::FullPageItem => final(self).spec_extents() == old(self).spec_extents().push(
                        VertSpacing {
                            page: h.page_number,
                            top: h.rec.y,
                            bottom: (h.rec.y + h.rec.height) as i64,
                        },
                    ) && final(self).spec_page_top() == 0 && *final(no_more_under),
                    RowPositionType::Header(true) => final(self).spec_extents() == old(self).spec_extents() && final(self).spec_page_top() == h.rec.y && *final(no_more_under) == *old(no_more_under),
                    RowPositionType::Top => final(self).spec_extents() == old(self).spec_extents()
                        && final(self).spec_page_top() == h.rec.y && *final(no_more_under) == *old(no_more_under),
                    RowPositionType::ItemWithTopBorder => final(self).spec_extents() == old(self).spec_extents() && final(self).spec_page_top() == old(bpd).list_placement_handle.info().rec.y && *final(no_more_under) == *old(no_more_under),
                    _ => final(self).spec_extents() == old(self).spec_extents() && final(self).spec_page_top() == old(self).spec_page_top() && *final(no_more_under)
                        == *old(no_more_under),
                }
            }),
            *final(lines_to_ignore_top_border) == (
            if old(bpd).row_type_and_size matches RowPositionType::Header(false) {
                1int
            } else {
                *old(lines_to_ignore_top_border) as int
            }),
            no_top_border_exception == (
            old(bpd).row_type_and_size matches RowPositionType::Header(false)),
    {
        let inner = self.list_data.inner_border_size;
        let outer = self.list_data.outer_border_size;
        let header_px = self.list_data.row_header_pixels;
        let item = bpd.item_height_pixels;
        let mut no_top_border_exception = false;
        match bpd.row_type_and_size {
            RowPositionType::Header(header_has_border) => {
                if !header_has_border {
                    bpd.is_bottom_border = true;
                    bpd.is_top_border = false;
                    *lines_to_ignore_top_border = 1;
                    no_top_border_exception = true;
                    match self.list_data.list_box_border {
                        ListBoxBorder::All(_, _) => {
                            bpd.list_placement_handle.set_pixel_height(pm, header_px + outer);
                        },
                        ListBoxBorder::Outer(_) => {
                            bpd.list_placement_handle.set_pixel_height(pm, header_px + outer);
                        },
                        ListBoxBorder::Inner(_) => {
                            bpd.list_placement_handle.set_pixel_height(pm, header_px + inner);
                        },
                        ListBoxBorder::NoBorder => {},
                    }
                } else {
                    bpd.list_placement_handle.set_pixel_height(pm, header_px + outer + inner);
                    self.list_data.page_top = bpd.list_placement_handle.get_placement_info().rec.y;
                }
            },
            RowPositionType::Top => {
                bpd.list_placement_handle.set_pixel_height(pm, item + outer + inner);
                self.list_data.page_top = bpd.list_placement_handle.get_placement_info().rec.y;
            },
            RowPositionType::Item => {
                bpd.list_placement_handle.set_pixel_height(pm, item + inner + inner);
            },
            RowPositionType::Bottom => {
                if bpd.is_top_border {
                    bpd.list_placement_handle.set_pixel_height(pm, item + outer + outer);
                    let info = bpd.list_placement_handle.get_placement_info();
                    let vs = VertSpacing::new(info.page_number, info.rec.y, info.rec.y
                        + info.rec.height);
                    self.list_data.list_box_page_height_info.push(vs);
                } else {
                    bpd.list_placement_handle.set_pixel_height(pm, item + outer + inner);
                    let info = bpd.list_placement_handle.get_placement_info();
                    let vs = VertSpacing::new(
                        info.page_number,
                        self.list_data.page_top,
                        info.rec.y + info.rec.height,
                    );
                    self.list_data.list_box_page_height_info.push(vs);
                }
                *no_more_under = true;
                self.list_data.page_top = 0;
            },
            RowPositionType::ItemWithTopBorder => {
                self.list_data.page_top = bpd.list_placement_handle.get_placement_info().rec.y;
                bpd.list_placement_handle.set_pixel_height(pm, item + outer + inner);
            },
            RowPositionType::FullPageItem => {
                bpd.list_placement_handle.set_pixel_height(pm, item + outer + outer);
                let info = bpd.list_placement_handle.get_placement_info();
                let vs = VertSpacing::new(info.page_number, info.rec.y, info.rec.y
                    + info.rec.height);
                self.list_data.list_box_page_height_info.push(vs);
                *no_more_under = true;
                self.list_data.page_top = 0;
            },
            RowPositionType::Searching => {},
        }
        no_top_border_exception
    }
}

/// Extend the running vertical-line spans with one rendered row, as one
/// (top edge, accumulated height) pair per contiguous block: an exempt row
/// (the first item under a borderless header) changes nothing; a
/// single-span row never contributes and breaks the running block; any
/// other row extends the last span when connected, or starts a new one.
fn update_line_spaces(
    line_spaces: &mut Vec<(i64, i64)>,
    last_connected: &mut bool,
    exempt: bool,
    is_single: bool,
    y: i64,
    h: i64,
)
    requires
        0 <= y <= CURSOR_LIMIT,
        0 <= h <= CURSOR_LIMIT,
        forall|k: int|
            0 <= k < old(line_spaces)@.len() ==> 0 <= (#[trigger] old(line_spaces)@[k]).1
                <= i64::MAX - CURSOR_LIMIT,
    ensures
        exempt ==> final(line_spaces)@ == old(line_spaces)@ && *final(last_connected) == *old(last_connected),
        !exempt && is_single ==> final(line_spaces)@ == old(line_spaces)@ && *final(last_connected) == false,
        !exempt && !is_single ==> *final(last_connected) == true && (
        if *old(last_connected) && old(line_spaces)@.len() > 0 {
            final(line_spaces)@ == old(line_spaces)@.update(
                old(line_spaces)@.len() - 1,
                (
                    old(line_spaces)@.last().0,
                    (old(line_spaces)@.last().1 + h) as i64,
                ),
            )
        } else {
            final(line_spaces)@ == old(line_spaces)@.push((y, h))
        }),
{
    if exempt {
        return ;
    }
    if is_single {
        *last_connected = false;
        return ;
    }
    if *last_connected && line_spaces.len() > 0 {
        let li = line_spaces.len() - 1;
        let v = line_spaces[li].1;
        line_spaces[li] = (line_spaces[li].0, v + h);
    } else {
        line_spaces.push((y, h));
    }
    *last_connected = true;
}

impl ListBox {
    /// The placement of one cell: the row's vertical extent over the
    /// column's horizontal slice, with the inset interior recorded as the
    /// restricted drawing area.
    fn make_cell(
        base: &PlacementInfo,
        col_range: ColumnRange,
        insets: (i64, i64, i64, i64),
    ) -> (cell: PlacementInfo)
        requires
            base.draw_ok(),
            col_range.wf(),
            0 <= insets.0 <= MAX_CONTENT,
            0 <= insets.1 <= MAX_CONTENT,
            0 <= insets.2 <= MAX_CONTENT,
            0 <= insets.3 <= MAX_CONTENT,
        ensures
            cell.draw_ok(),
            cell.page_size_info == base.page_size_info,
            cell.page_number == base.page_number,
            cell.is_new_page == base.is_new_page,
            cell.percent_range == col_range,
            cell.rec.y == base.rec.y,
            cell.rec.height == base.rec.height,
            cell.rec.x == base.page_size_info.page_width_pixels * col_range.start as int / 100,
            cell.rec.width == base.page_size_info.page_width_pixels * (col_range.end
                - col_range.start) / 100,
            cell.restricted_area_option == Some(
                Rectangle {
                    x: (cell.rec.x + insets.1) as i64,
                    y: (cell.rec.y + insets.0) as i64,
                    width: (cell.rec.width - insets.1 - insets.2) as i64,
                    height: (cell.rec.height - insets.0 - insets.3) as i64,
                },
            ),
    {
        let g = base.page_size_info;
        let start_span: i64 = col_range.start as i64;
        let width_span: i64 = (col_range.end - col_range.start) as i64;
        proof {
            lemma_mul_le(g.page_width_pixels as int, start_span as int, MAX_DIM as int, 100);
            lemma_mul_le(g.page_width_pixels as int, width_span as int, MAX_DIM as int, 100);
        }
        let x = g.page_width_pixels * start_span / 100;
        let w = g.page_width_pixels * width_span / 100;
        let rect = Rectangle { x, y: base.rec.y, width: w, height: base.rec.height };
        let restricted = Rectangle {
            x: x + insets.1,
            y: base.rec.y + insets.0,
            width: w - insets.1 - insets.2,
            height: base.rec.height - insets.0 - insets.3,
        };
        PlacementInfo {
            rec: rect,
            is_new_page: base.is_new_page,
            draw_height_left_on_page: base.draw_height_left_on_page,
            page_number: base.page_number,
            page_size_info: g,
            percent_range: col_range,
            restricted_area_option: Some(restricted),
        }
    }

    /// Draw one cell: grow the sink's page buffers if needed, render the
    /// text box, then commit the cell into the column grid and the group
    /// collection.
    fn draw_cell<T: DrawInfoReq>(
        pm: &mut PageMaster,
        draw_info: &mut T,
        borders: &mut Option<Vec<Border>>,
        cell: &PlacementInfo,
        display_text: &String,
        font: FontInfo,
        align: TextAlignment,
        background: Color,
        group: Option<usize>,
    )
        requires
            old(pm).wf(),
            cell.draw_ok(),
            display_text@.len() <= MAX_TEXT,
            font.wf(),
            align.wf(),
        ensures
            final(pm).wf(),
            final(pm).geometry() == old(pm).geometry(),
            final(draw_info).pages().len() >= old(draw_info).pages().len(),
            final(draw_info).pages().len() > cell.page_number,
            committed_into(*final(pm), *cell, group),
            *final(borders) == *old(borders),
    {
        let tb = TextBox::new(
            display_text.as_str(),
            font,
            Some(align),
            None,
            Some(background),
            group,
        );
        if cell.page_number >= draw_info.page_array_size() {
            draw_info.increment_page_buffer(cell.page_number);
        }
        tb.render(*cell, draw_info, borders);
        let ghost gv_before = pm.groups_view();
        pm.set_group(group, cell);
        proof {
            if let Some(id) = group {
                lemma_group_append_is_last(
                    gv_before,
                    pm.groups_view(),
                    id,
                    cell.page_number as int,
                    cell.rec,
                );
            }
        }
        pm.update_placement(cell);
    }

    /// Render one multi-column row (a data row or the header row): each
    /// column's cell gets its insets, its formatted text and its committed
    /// placement. Returns the first and last column's placements.
    fn render_row_cells<T: DrawInfoReq>(
        &self,
        pm: &mut PageMaster,
        draw_info: &mut T,
        borders: &mut Option<Vec<Border>>,
        base: PlacementInfo,
        row: &RowData,
        this_row_is_header: bool,
        this_row_color: Color,
        this_text_color: Color,
        this_row_font: FontInfo,
        is_top_border: bool,
        is_bottom_border: bool,
        no_top_border_exception: bool,
        range: ColumnRange,
    ) -> (r: (PlacementInfo, PlacementInfo))
        requires
            self.config_wf(),
            old(pm).wf(),
            base.draw_ok(),
            base.page_size_info == old(pm).geometry(),
            range.wf(),
            widths_sum(self.spec_columns(), self.spec_columns().len() as int) <= range.end
                - range.start,
            range.start + widths_sum(self.spec_columns(), self.spec_columns().len() as int)
                <= 100,
            forall|j: int|
                0 <= j < row.data@.len() ==> (#[trigger] row.data@[j])@.len() <= MAX_TEXT,
            this_row_font.wf(),
        ensures
            final(pm).wf(),
            final(pm).geometry() == old(pm).geometry(),
            final(draw_info).pages().len() >= old(draw_info).pages().len(),
            final(draw_info).pages().len() > base.page_number,
            r.0.draw_ok(),
            r.1.draw_ok(),
            r.0.page_size_info == old(pm).geometry(),
            r.1.page_size_info == old(pm).geometry(),
            r.0.page_number == base.page_number,
            r.1.page_number == base.page_number,
            r.0.rec.y == base.rec.y,
            r.1.rec.y == base.rec.y,
            r.0.rec.height == base.rec.height,
            r.1.rec.height == base.rec.height,
            committed_into(
                *final(pm),
                r.1,
                if this_row_is_header && self.spec_exclude_border_on_header() {
                    Option::None
                } else {
                    self.spec_group()
                },
            ),
            *final(borders) == *old(borders),
    {
        let ghost g = pm.geometry();
        let blank_string = String::new();
        let cols = self.list_data.column_widths_percentage.len();
        let mut column_width_total: usize = 0;
        let mut first = base;
        let mut last = base;
        let mut column_index: usize = 0;
        while column_index < cols
            invariant
                self.config_wf(),
                pm.wf(),
                pm.geometry() == g,
                base.draw_ok(),
                base.page_size_info == g,
                range.wf(),
                cols == self.spec_columns().len(),
                widths_sum(self.spec_columns(), cols as int) <= range.end - range.start,
                range.start + widths_sum(self.spec_columns(), cols as int) <= 100,
                forall|j: int|
                    0 <= j < row.data@.len() ==> (#[trigger] row.data@[j])@.len() <= MAX_TEXT,
                this_row_font.wf(),
                blank_string@.len() == 0,
                column_index <= cols,
                column_width_total == widths_sum(self.spec_columns(), column_index as int),
                0 <= column_width_total <= 100,
                draw_info.pages().len() >= old(draw_info).pages().len(),
                column_index > 0 ==> draw_info.pages().len() > base.page_number,
                column_index > 0 ==> first.draw_ok() && first.page_size_info == g
                    && first.page_number == base.page_number && first.rec.y == base.rec.y
                    && first.rec.height == base.rec.height,
                column_index >= cols ==> last.draw_ok() && last.page_size_info == g
                    && last.page_number == base.page_number && last.rec.y == base.rec.y
                    && last.rec.height == base.rec.height,
                column_index >= cols ==> committed_into(
                    *pm,
                    last,
                    if this_row_is_header && self.spec_exclude_border_on_header() {
                        Option::None
                    } else {
                        self.spec_group()
                    },
                ),
                *borders == *old(borders),
                column_index == 0 ==> first == base && last == base,
            decreases cols - column_index,
        {
            proof {
                lemma_widths_sum_mono(self.spec_columns(), column_index as int, cols as int);
                lemma_widths_sum_mono(
                    self.spec_columns(),
                    column_index + 1,
                    cols as int,
                );
                lemma_widths_sum_mono(self.spec_columns(), 0, column_index as int);
            }
            let is_left_border = column_index == 0;
            let is_right_border = !is_left_border && column_index == cols - 1;
            let width_here = self.list_data.column_widths_percentage[column_index];
            let current_column_start = column_width_total + range.start;
            let current_column_end = current_column_start + width_here;
            column_width_total = column_width_total + width_here;
            let insets = Self::adjust_for_border(
                &self.list_data.list_box_border,
                is_left_border,
                is_top_border,
                is_right_border,
                is_bottom_border,
                no_top_border_exception,
            );
            let cell = Self::make_cell(
                &base,
                ColumnRange { start: current_column_start, end: current_column_end },
                insets,
            );
            let col_data = if column_index < row.data.len() {
                &row.data[column_index]
            } else {
                &blank_string
            };
            let text_alignment = self.get_row_align(column_index, this_row_is_header);
            let (display_text, text_color) = format_column(
                &self.list_data.types_of_items[column_index],
                col_data,
                this_text_color,
                this_row_is_header,
            );
            let mut font_i = this_row_font;
            font_i.font_color = text_color;
            let group = if this_row_is_header && self.list_data.exclude_border_on_header {
                None
            } else {
                self.list_data.group
            };
            Self::draw_cell(
                pm,
                draw_info,
                borders,
                &cell,
                &display_text,
                font_i,
                text_alignment,
                this_row_color,
                group,
            );
            if column_index == 0 {
                first = cell;
            }
            if column_index == cols - 1 {
                last = cell;
            }
            column_index = column_index + 1;
        }
        (first, last)
    }

    /// Render a single-span row: one cell over the whole column range, with
    /// the span's own color and alignment when it carries them.
    fn render_single_cell<T: DrawInfoReq>(
        &self,
        pm: &mut PageMaster,
        draw_info: &mut T,
        borders: &mut Option<Vec<Border>>,
        base: PlacementInfo,
        row: &RowData,
        this_row_color: Color,
        this_text_color: Color,
        this_row_font: FontInfo,
        is_top_border: bool,
        is_bottom_border: bool,
        no_top_border_exception: bool,
    ) -> (cell: PlacementInfo)
        requires
            self.config_wf(),
            old(pm).wf(),
            base.draw_ok(),
            base.page_size_info == old(pm).geometry(),
            base.percent_range.wf(),
            forall|j: int|
                0 <= j < row.data@.len() ==> (#[trigger] row.data@[j])@.len() <= MAX_TEXT,
            row.param.wf(),
            this_row_font.wf(),
        ensures
            final(pm).wf(),
            final(pm).geometry() == old(pm).geometry(),
            final(draw_info).pages().len() >= old(draw_info).pages().len(),
            final(draw_info).pages().len() > base.page_number,
            cell.draw_ok(),
            cell.page_size_info == old(pm).geometry(),
            cell.page_number == base.page_number,
            cell.rec.y == base.rec.y,
            cell.rec.height == base.rec.height,
            cell.rec.x == base.rec.x,
            cell.rec.width == base.rec.width,
            committed_into(*final(pm), cell, self.spec_group()),
            *final(borders) == *old(borders),
    {
        let blank_string = String::new();
        let insets = Self::adjust_for_border(
            &self.list_data.list_box_border,
            true,
            is_top_border,
            false,
            is_bottom_border,
            no_top_border_exception,
        );
        let restricted = Rectangle {
            x: base.rec.x + insets.1,
            y: base.rec.y + insets.0,
            width: base.rec.width - insets.1 - insets.2,
            height: base.rec.height - insets.0 - insets.3,
        };
        let cell = PlacementInfo { restricted_area_option: Some(restricted), ..base };
        let col_data = if 0 < row.data.len() {
            &row.data[0]
        } else {
            &blank_string
        };
        let (display_text, formatted_color) = format_column(
            &self.list_data.types_of_items[0],
            col_data,
            this_text_color,
            false,
        );
        let (color, align) = match &row.param {
            RowDataTypes::SingleWithColor(col, al) => (*col, *al),
            RowDataTypes::SingleNoBorderWithColor(col, al) => (*col, *al),
            _ => (formatted_color, self.get_row_align(0, false)),
        };
        let mut font_i = this_row_font;
        font_i.font_color = color;
        Self::draw_cell(
            pm,
            draw_info,
            borders,
            &cell,
            &display_text,
            font_i,
            align,
            this_row_color,
            self.list_data.group,
        );
        cell
    }
}

impl ListBox {
    /// Per-row separator bookkeeping, run after a row's cells are placed:
    /// update the vertical-line spans, decide and draw the horizontal
    /// separator above the row, and at a page end flush one vertical line
    /// per interior column boundary per span.
    fn row_bookkeeping<T: DrawInfoReq>(
        &self,
        draw_info: &mut T,
        line_spaces: &mut Vec<(i64, i64)>,
        last_connected: &mut bool,
        lines_to_ignore_top_border: &mut usize,
        ignore_next_horizontal: &mut bool,
        index_on_page: usize,
        row_param: RowDataTypes,
        row_placement: PlacementInfo,
        first: PlacementInfo,
        last: PlacementInfo,
        no_more_under: bool,
        range: ColumnRange,
    )
        requires
            self.config_wf(),
            row_placement.draw_ok(),
            first.draw_ok(),
            last.draw_ok(),
            first.page_number < old(draw_info).pages().len(),
            last.page_number < old(draw_info).pages().len(),
            range.wf(),
            range.start + widths_sum(self.spec_columns(), self.spec_columns().len() as int)
                <= 100,
            forall|k: int|
                0 <= k < old(line_spaces)@.len() ==> 0 <= (#[trigger] old(line_spaces)@[k]).0
                    <= CURSOR_LIMIT && 0 <= old(line_spaces)@[k].1 <= i64::MAX - CURSOR_LIMIT,
        ensures
            final(draw_info).pages().len() == old(draw_info).pages().len(),
            *final(ignore_next_horizontal) == spec_update_ignore_flags(
                row_param,
                *old(ignore_next_horizontal),
            ).1,
            *final(lines_to_ignore_top_border) == (
            if index_on_page > *old(lines_to_ignore_top_border) && !spec_update_ignore_flags(
                row_param,
                *old(ignore_next_horizontal),
            ).0 {
                0int
            } else {
                *old(lines_to_ignore_top_border) as int
            }),
            no_more_under ==> final(line_spaces)@ == Seq::<(i64, i64)>::empty(),
            ({
                let exempt = self.spec_has_header() && self.spec_exclude_border_on_header()
                    && index_on_page == 0;
                let mid: Seq<(i64, i64)> = if exempt || row_param.is_single() {
                    old(line_spaces)@
                } else if *old(last_connected) && old(line_spaces)@.len() > 0 {
                    old(line_spaces)@.update(
                        old(line_spaces)@.len() - 1,
                        (
                            old(line_spaces)@.last().0,
                            (old(line_spaces)@.last().1 + row_placement.rec.height) as i64,
                        ),
                    )
                } else {
                    old(line_spaces)@.push((row_placement.rec.y, row_placement.rec.height))
                };
                !no_more_under ==> final(line_spaces)@ == mid
            }),
            forall|k: int|
                0 <= k < final(line_spaces)@.len() ==> 0 <= (#[trigger] final(line_spaces)@[k]).0
                    <= CURSOR_LIMIT && 0 <= final(line_spaces)@[k].1,
            forall|k: int|
                0 <= k < final(line_spaces)@.len() ==> (#[trigger] final(line_spaces)@[k]).1 <= (
                if k < old(line_spaces)@.len() {
                    old(line_spaces)@[k].1 as int
                } else {
                    0int
                }) + CURSOR_LIMIT,
    {
        let exempt = self.list_data.header.is_some() && self.list_data.exclude_border_on_header
            && index_on_page == 0;
        let is_single = match row_param {
            RowDataTypes::Normal => false,
            _ => true,
        };
        update_line_spaces(
            line_spaces,
            last_connected,
            exempt,
            is_single,
            row_placement.rec.y,
            row_placement.rec.height,
        );
        let is_single_no_border = match row_param {
            RowDataTypes::SingleNoBorder(_) => true,
            RowDataTypes::SingleNoBorderWithColor(_, _) => true,
            _ => false,
        };
        let ignore_horizontal_line: bool;
        if is_single_no_border {
            ignore_horizontal_line = true;
            *ignore_next_horizontal = true;
        } else {
            ignore_horizontal_line = *ignore_next_horizontal;
            *ignore_next_horizontal = false;
        }
        if index_on_page > *lines_to_ignore_top_border && !ignore_horizontal_line {
            *lines_to_ignore_top_border = 0;
            match self.list_data.list_box_border {
                ListBoxBorder::All(inner_size, _) => {
                    draw_horizontal_line(
                        draw_info,
                        first.page_number,
                        first.rec.y,
                        first.rec.x,
                        last.rec.x + last.rec.width - first.rec.x,
                        first.page_size_info.page_height_pixels,
                        inner_size,
                        self.list_data.border_color,
                    );
                },
                ListBoxBorder::Inner(inner_size) => {
                    draw_horizontal_line(
                        draw_info,
                        first.page_number,
                        first.rec.y,
                        first.rec.x,
                        last.rec.x + last.rec.width - first.rec.x,
                        first.page_size_info.page_height_pixels,
                        inner_size,
                        self.list_data.border_color,
                    );
                },
                _ => {},
            }
        }
        if no_more_under {
            let cols = self.list_data.column_widths_percentage.len();
            let ghost g = first.page_size_info;
            let mut si: usize = 0;
            while si < line_spaces.len()
                invariant
                    self.config_wf(),
                    cols == self.spec_columns().len(),
                    range.wf(),
                    range.start + widths_sum(self.spec_columns(), cols as int) <= 100,
                    si <= line_spaces@.len(),
                    forall|k: int|
                        0 <= k < line_spaces@.len() ==> 0 <= (#[trigger] line_spaces@[k]).0
                            <= CURSOR_LIMIT,
                    first.draw_ok(),
                    last.draw_ok(),
                    g == first.page_size_info,
                    last.page_number < draw_info.pages().len(),
                    draw_info.pages().len() == old(draw_info).pages().len(),
                decreases line_spaces.len() - si,
            {
                let span = line_spaces[si];
                let mut column_width_total: usize = 0;
                let mut ci: usize = 0;
                while ci < cols
                    invariant
                        self.config_wf(),
                        cols == self.spec_columns().len(),
                        range.wf(),
                        range.start + widths_sum(self.spec_columns(), cols as int) <= 100,
                        ci <= cols,
                        column_width_total == widths_sum(self.spec_columns(), ci as int),
                        0 <= span.0 <= CURSOR_LIMIT,
                        first.draw_ok(),
                        last.draw_ok(),
                        g == first.page_size_info,
                        last.page_number < draw_info.pages().len(),
                        draw_info.pages().len() == old(draw_info).pages().len(),
                    decreases cols - ci,
                {
                    proof {
                        lemma_widths_sum_mono(self.spec_columns(), 0, ci as int);
                        lemma_widths_sum_mono(self.spec_columns(), ci + 1, cols as int);
                    }
                    let current_column_start = column_width_total + range.start;
                    column_width_total = column_width_total
                        + self.list_data.column_widths_percentage[ci];
                    if ci > 0 {
                        let x_span: i64 = current_column_start as i64;
                        proof {
                            lemma_mul_le(
                                first.page_size_info.page_width_pixels as int,
                                x_span as int,
                                MAX_DIM as int,
                                100,
                            );
                        }
                        let x = first.page_size_info.page_width_pixels * x_span / 100;
                        match self.list_data.list_box_border {
                            ListBoxBorder::All(inner_size, _) => {
                                draw_vertical_line(
                                    draw_info,
                                    last.page_number,
                                    span.0,
                                    x,
                                    span.1,
                                    last.page_size_info.page_height_pixels,
                                    inner_size,
                                    self.list_data.border_color,
                                );
                            },
                            ListBoxBorder::Inner(inner_size) => {
                                draw_vertical_line(
                                    draw_info,
                                    last.page_number,
                                    span.0,
                                    x,
                                    span.1,
                                    last.page_size_info.page_height_pixels,
                                    inner_size,
                                    self.list_data.border_color,
                                );
                            },
                            _ => {},
                        }
                    }
                    ci = ci + 1;
                }
                si = si + 1;
            }
            line_spaces.clear();
        }
    }
}

/// Law: with interior separators configured and no suppression pending, a
/// separator is due above a row exactly when its on-page index is positive:
/// every interior row of a page segment gets one, the segment's first row
/// does not.
pub proof fn lemma_separator_above_every_interior_row(index_on_page: int, border: ListBoxBorder)
    requires
        border.has_inner(),
    ensures
        spec_separator_due(index_on_page, 0, false, border) <==> index_on_page > 0,
{
}

/// Law: a no-border single-span row never yields a horizontal separator
/// above its successor, whatever the successor row is and whatever
/// suppression state preceded it.
pub proof fn lemma_single_no_border_suppresses_successor(
    param: RowDataTypes,
    prior_ignore_next: bool,
    successor: RowDataTypes,
    index_on_page: int,
    lines_to_ignore: int,
    border: ListBoxBorder,
)
    requires
        param.is_single_no_border(),
    ensures
        !spec_separator_due(
            index_on_page,
            lines_to_ignore,
            spec_update_ignore_flags(
                successor,
                spec_update_ignore_flags(param, prior_ignore_next).1,
            ).0,
            border,
        ),
{
}


impl ListBox {
    /// Even out the top of the list box: request a zero-height placement
    /// over the range and commit it through a blank cell, so every column
    /// of the range starts at the same cursor.
    fn place_level_line<T: DrawInfoReq>(
        &self,
        pm: &mut PageMaster,
        draw_info: &mut T,
        borders: &mut Option<Vec<Border>>,
        top_y_current_page: &mut i64,
        percentage_start_x: usize,
        percentage_width_x: usize,
    ) -> (r: PlacementInfo)
        requires
            old(pm).wf(),
            percentage_width_x >= 1,
            percentage_start_x + percentage_width_x <= 100,
        ensures
            final(pm).wf(),
            final(pm).geometry() == old(pm).geometry(),
            r == old(pm).next_position(
                false,
                ColumnRange {
                    start: percentage_start_x,
                    end: (percentage_start_x + percentage_width_x) as usize,
                },
            ),
            r.draw_ok(),
            r.page_size_info == old(pm).geometry(),
            *final(top_y_current_page) == r.rec.y,
            committed_into(*final(pm), r, self.spec_group()),
            forall|k: int|
                percentage_start_x <= k < percentage_start_x + percentage_width_x
                    ==> #[trigger] final(pm).slots()[k] == (ColumnSlot {
                    page: r.page_number,
                    cursor: r.rec.y,
                }),
            final(draw_info).pages().len() > r.page_number,
            *final(borders) == *old(borders),
    {
        let range = ColumnRange {
            start: percentage_start_x,
            end: percentage_start_x + percentage_width_x,
        };
        proof {
            assert(crate::manager::clamp_range(range) == range);
        }
        let placement_handle = CurrentPlacement::new(pm, Some(range), false);
        let info = placement_handle.get_placement_info();
        *top_y_current_page = info.rec.y;
        let blank = String::new();
        Self::draw_cell(
            pm,
            draw_info,
            borders,
            &info,
            &blank,
            FontInfo::new(0, Font::Courier),
            TextAlignment::LeftBottom,
            Color { r: 1000, g: 1000, b: 1000 },
            self.list_data.group,
        );
        info
    }
}

impl ContainerTrait for ListBox {
    open spec fn spec_get_group(&self) -> Option<usize> {
        self.spec_group()
    }

    open spec fn draw_requires(&self, range: ColumnRange, geometry: PageSizeInfo) -> bool {
        &&& self.config_wf()
        &&& range.wf()
        &&& widths_sum(self.spec_columns(), self.spec_columns().len() as int) <= range.end
            - range.start
        &&& self.fits_geometry(geometry)
    }

    #[verifier::rlimit(100)]
    fn on_draw<T: DrawInfoReq>(
        &mut self,
        placement_info: PlacementInfo,
        pm: &mut PageMaster,
        draw_info: &mut T,
        borders: &mut Option<Vec<Border>>,
    ) -> (r: Option<PlacementInfo>)
        ensures
            r is Some <==> old(self).spec_data_len() > 0,
            old(self).spec_data_len() == 0 ==> *final(pm) == *old(pm) && final(draw_info).pages()
                == old(draw_info).pages() && *final(borders) == *old(borders),
            final(self).config_wf(),
            final(self).same_config(old(self)),
            r matches Some(p) ==> committed_into(*final(pm), p, final(self).spec_group())
                && final(draw_info).pages().len() > p.page_number,
            final(self).spec_extents().len() >= old(self).spec_extents().len(),
            forall|k: int|
                0 <= k < old(self).spec_extents().len() ==> #[trigger] final(self).spec_extents()[k]
                    == old(self).spec_extents()[k],
            *old(borders) is Some ==> *final(borders) is Some && final(borders)->0@.len() >= old(
                borders,
            )->0@.len() && forall|k: int|
                0 <= k < old(borders)->0@.len() ==> #[trigger] final(borders)->0@[k] == old(
                    borders,
                )->0@[k],
            *old(borders) is None ==> *final(borders) is None,
    {
        if self.list_data.data.len() == 0 {
            return None;
        }
        let ghost self0 = *self;
        let ghost g = pm.geometry();
        let range = placement_info.percent_range;
        let mut level_top_y: i64 = placement_info.rec.y;
        let mut last_placement = self.place_level_line(
            pm,
            draw_info,
            borders,
            &mut level_top_y,
            range.start,
            range.end - range.start,
        );
        let mut is_start_row = true;
        let mut row_index: usize = 0;
        let mut index_on_page: usize = 0;
        let mut line_spaces: Vec<(i64, i64)> = Vec::new();
        let mut lines_to_ignore_top_border: usize = 0;
        let mut no_more_under_row_on_page = false;
        let mut last_connected = false;
        let mut ignore_next_horizontal = false;
        let n = self.list_data.data.len();
        while row_index < n
            invariant
                self.config_wf(),
                n == self.spec_data_len(),
                n >= 1,
                n <= MAX_TEXT,
                range.wf(),
                widths_sum(self.spec_columns(), self.spec_columns().len() as int) <= range.end
                    - range.start,
                self.fits_geometry(g),
                pm.wf(),
                pm.geometry() == g,
                row_index <= n,
                index_on_page <= 2 * row_index + 1,
                forall|k: int|
                    0 <= k < line_spaces@.len() ==> 0 <= (#[trigger] line_spaces@[k]).0
                        <= CURSOR_LIMIT && 0 <= line_spaces@[k].1 <= (2 * row_index + 2) * (
                    CURSOR_LIMIT as int),
                last_placement.draw_ok(),
                last_placement.page_size_info == g,
                self.same_config(&self0),
                committed_into(*pm, last_placement, self.spec_group()),
                draw_info.pages().len() > last_placement.page_number,
                self0.spec_extents().len() <= self.spec_extents().len(),
                forall|k: int|
                    0 <= k < self0.spec_extents().len() ==> #[trigger] self.spec_extents()[k]
                        == self0.spec_extents()[k],
                *borders == *old(borders),
            decreases n - row_index,
        {
            let is_on_last_row = row_index == n - 1;
            let mut bpd = self.get_position_border_info(
                pm,
                row_index,
                range,
                is_start_row,
                is_on_last_row,
                &mut index_on_page,
            );
            if bpd.list_placement_handle.get_placement_info().is_new_page {
                index_on_page = 0;
            }
            if matches!(bpd.row_type_and_size, RowPositionType::Header(_)) {
                // render the header first; the triggering row is then
                // re-evaluated as if starting fresh on the now-begun page
                let no_top_exc = self.apply_row_kind(
                    pm,
                    &mut bpd,
                    &mut lines_to_ignore_top_border,
                    &mut no_more_under_row_on_page,
                );
                let info = bpd.list_placement_handle.get_placement_info();
                let hdr_color = self.row_color_for(index_on_page, info.is_new_page);
                let hdr_font = self.list_data.header_font;
                let (first, last) = match &self.list_data.header {
                    Some(h) => self.render_row_cells(
                        pm,
                        draw_info,
                        borders,
                        info,
                        h,
                        true,
                        hdr_color,
                        hdr_font.font_color,
                        hdr_font,
                        bpd.is_top_border,
                        bpd.is_bottom_border,
                        no_top_exc,
                        range,
                    ),
                    None => {
                        proof {
                            assert(false);
                        }
                        (info, info)
                    },
                };
                last_placement = last;
                let hdr_param = match &self.list_data.header {
                    Some(h) => h.param,
                    None => RowDataTypes::Normal,
                };
                self.row_bookkeeping(
                    draw_info,
                    &mut line_spaces,
                    &mut last_connected,
                    &mut lines_to_ignore_top_border,
                    &mut ignore_next_horizontal,
                    index_on_page,
                    hdr_param,
                    info,
                    first,
                    last,
                    no_more_under_row_on_page,
                    range,
                );
                index_on_page = index_on_page + 1;
                is_start_row = false;
                bpd = self.get_position_border_info(
                    pm,
                    row_index,
                    range,
                    false,
                    is_on_last_row,
                    &mut index_on_page,
                );
                if bpd.list_placement_handle.get_placement_info().is_new_page {
                    index_on_page = 0;
                }
                if matches!(bpd.row_type_and_size, RowPositionType::Header(_)) {
                    // only reachable when a forced page break saturated at
                    // the engine's page limit: continue as a fresh top row
                    bpd.row_type_and_size = RowPositionType::Top;
                    bpd.is_top_border = true;
                    bpd.is_bottom_border = false;
                    index_on_page = 0;
                }
            }
            let no_top_exc = self.apply_row_kind(
                pm,
                &mut bpd,
                &mut lines_to_ignore_top_border,
                &mut no_more_under_row_on_page,
            );
            let info = bpd.list_placement_handle.get_placement_info();
            let this_row_color = self.row_color_for(index_on_page, info.is_new_page);
            let row_param = self.list_data.data[row_index].param;
            let is_single = match row_param {
                RowDataTypes::Normal => false,
                _ => true,
            };
            let black = Color { r: 0, g: 0, b: 0 };
            let item_font = self.list_data.list_item_font;
            let (first, last) = if is_single {
                let cell = self.render_single_cell(
                    pm,
                    draw_info,
                    borders,
                    info,
                    &self.list_data.data[row_index],
                    this_row_color,
                    black,
                    item_font,
                    bpd.is_top_border,
                    bpd.is_bottom_border,
                    no_top_exc,
                );
                (cell, cell)
            } else {
                self.render_row_cells(
                    pm,
                    draw_info,
                    borders,
                    info,
                    &self.list_data.data[row_index],
                    false,
                    this_row_color,
                    black,
                    item_font,
                    bpd.is_top_border,
                    bpd.is_bottom_border,
                    no_top_exc,
                    range,
                )
            };
            last_placement = last;
            self.row_bookkeeping(
                draw_info,
                &mut line_spaces,
                &mut last_connected,
                &mut lines_to_ignore_top_border,
                &mut ignore_next_horizontal,
                index_on_page,
                row_param,
                info,
                first,
                last,
                no_more_under_row_on_page,
                range,
            );
            is_start_row = false;
            row_index = row_index + 1;
            index_on_page = index_on_page + 1;
        }
        // outer frame: one full-width rectangle per page segment whose top
        // and bottom edges are both strictly positive
        let frame_size: Option<i64> = match self.list_data.list_box_border {
            ListBoxBorder::All(_, border_size) => Some(border_size),
            ListBoxBorder::Outer(border_size) => Some(border_size),
            _ => None,
        };
        if let Some(border_size) = frame_size {
            let m = self.list_data.list_box_page_height_info.len();
            let mut i: usize = 0;
            while i < m
                invariant
                    self.config_wf(),
                    m == self.spec_extents().len(),
                    range.wf(),
                    placement_info.page_size_info == g,
                    placement_info.draw_ok(),
                    draw_info.pages().len() > last_placement.page_number,
                    *old(borders) is Some ==> *borders is Some && borders->0@.len() >= old(
                        borders,
                    )->0@.len() && forall|k: int|
                        0 <= k < old(borders)->0@.len() ==> #[trigger] borders->0@[k] == old(
                            borders,
                        )->0@[k],
                    *old(borders) is None ==> *borders is None,
                decreases m - i,
            {
                let vs = self.list_data.list_box_page_height_info[i];
                if vs.top > 0 && vs.bottom > 0 {
                    let start_span: i64 = range.start as i64;
                    let width_span: i64 = (range.end - range.start) as i64;
                    proof {
                        lemma_mul_le(
                            placement_info.page_size_info.page_width_pixels as int,
                            start_span as int,
                            MAX_DIM as int,
                            100,
                        );
                        lemma_mul_le(
                            placement_info.page_size_info.page_width_pixels as int,
                            width_span as int,
                            MAX_DIM as int,
                            100,
                        );
                    }
                    let pl = PlacementInfo {
                        rec: Rectangle {
                            x: placement_info.page_size_info.page_width_pixels * start_span / 100,
                            y: vs.top,
                            width: placement_info.page_size_info.page_width_pixels * width_span
                                / 100,
                            height: vs.bottom - vs.top,
                        },
                        is_new_page: false,
                        draw_height_left_on_page: 0,
                        page_number: vs.page,
                        page_size_info: placement_info.page_size_info,
                        percent_range: range,
                        restricted_area_option: None,
                    };
                    match borders {
                        None => {
                            if pl.page_number >= draw_info.page_array_size() {
                                draw_info.increment_page_buffer(pl.page_number);
                            }
                            draw_rectangle(
                                draw_info,
                                &pl,
                                border_size,
                                self.list_data.border_color,
                            );
                        },
                        Some(rec) => {
                            rec.push(Border::new(pl, self.list_data.border_color, border_size));
                        },
                    }
                }
                i = i + 1;
            }
        }
        Some(last_placement)
    }

    fn get_group(&self) -> (g: Option<usize>) {
        self.list_data.group
    }
}

} // verus!
