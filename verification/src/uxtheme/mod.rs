//! Themes.

pub mod calls;
pub mod htheme;
