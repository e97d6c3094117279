//! Shell items.

pub mod ishellitem;
