//! Splitting of 64-bit values.

use vstd::prelude::*;

verus! {

/// The low 32 bits of a 64-bit value.
pub fn LODWORD(v: u64) -> (r: u32)
    ensures
        r == v % 0x1_0000_0000,
{
    assert(v & 0xffff_ffff == v % 0x1_0000_0000) by (bit_vector);
    (v & 0xffff_ffff) as u32
}

/// The high 32 bits of a 64-bit value.
pub fn HIDWORD(v: u64) -> (r: u32)
    ensures
        r == v / 0x1_0000_0000,
{
    assert(v >> 32 == v / 0x1_0000_0000) by (bit_vector);
    (v >> 32) as u32
}

} // verus!
