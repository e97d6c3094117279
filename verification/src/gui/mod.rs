//! Windows and controls.

pub mod base;
pub mod dlg_base;
pub mod native_controls;
pub mod privs;
