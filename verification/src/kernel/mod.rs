//! Files.

pub mod calls;
pub mod funcs;
pub mod hfile;
