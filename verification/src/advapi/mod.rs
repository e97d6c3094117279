//! Registry values.

pub mod privs;
