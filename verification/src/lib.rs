//! Paginated layout engine for flowing rectangular content across a
//! multi-column, multi-page canvas, with a table renderer that makes
//! page-break decisions and tracks border and separator geometry.
//!
//! All lengths are integer pixels; colors are RGB triples in thousandths
//! (0 = none, 1000 = full intensity). Rendering backends consume the
//! instruction stream produced here and turn it into concrete output.

pub mod container_trait;
pub mod currency;
pub mod draw;
pub mod font_info;
pub mod format;
pub mod geometry;
pub mod lines;
pub mod list_box;
pub mod manager;
pub mod page_master;
pub mod placement;
pub mod text_box;
