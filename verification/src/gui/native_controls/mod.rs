//! Native controls.

pub mod list_view_columns;
pub mod list_view_items;
