//! Window subclassing.

pub mod calls;
pub mod hwnd;
