//! Values that are one of several kinds.

use vstd::prelude::*;

verus! {

/// A resource, named by its number or by a string.
#[derive(Debug, PartialEq, Eq)]
pub enum IdStr {
    Id(i32),
    Str(String),
}

} // verus!
