//! Values read from the registry in one block.

use vstd::prelude::*;
use crate::co::REG;

verus! {

pub const SECURITY_DESCRIPTOR_REVISION: u32 = 1;

pub const UNLEN: usize = 256;

/// One of the values that a query for many registry values gives: where its
/// name and its data lie in memory, how long the data is, and of what type.
/// The data lies inside the buffer that was handed to the query.
#[derive(Clone, Copy, Debug, PartialEq, Eq, Structural)]
pub struct VALENT {
    pub ve_valuename: usize,
    pub ve_valuelen: u32,
    pub ve_valueptr: usize,
    pub ve_type: REG,
}

impl VALENT {
    /// Whether the data of this value lies inside a buffer of `len` bytes
    /// that starts at the address `src_addr`.
    pub open spec fn lies_within(&self, src_addr: usize, len: nat) -> bool {
        &&& src_addr <= self.ve_valueptr
        &&& self.ve_valueptr - src_addr + self.ve_valuelen <= len
    }

    /// The data of this value: the part of the buffer `src`, which starts at
    /// the address `src_addr`, that begins where the data lies and has the
    /// data's length.
    pub fn buf_projection<'a>(&self, src_addr: usize, src: &'a [u8]) -> (r: &'a [u8])
        requires
            self.lies_within(src_addr, src@.len()),
        ensures
            r@ == src@.subrange(
                self.ve_valueptr - src_addr,
                self.ve_valueptr - src_addr + self.ve_valuelen,
            ),
    {
        let _len: usize = src.len();
        let proj_idx: usize = self.ve_valueptr - src_addr;
        assert(proj_idx + self.ve_valuelen <= _len);
        let proj_past_idx: usize = proj_idx + self.ve_valuelen as usize;
        vstd::slice::slice_subrange(src, proj_idx, proj_past_idx)
    }
}

} // verus!
