//! Narrowing of wide compiler values to the 32 bits the schema keeps.
use vstd::prelude::*;

verus! {

/// The low 32 bits of a non-negative integer.
pub open spec fn low32(x: int) -> u32 {
    (x % 0x1_0000_0000) as u32
}

/// Keeps the low 32 bits of a 64-bit value. A value that fits in 32 bits
/// is kept as it is.
pub fn narrow_u64(x: u64) -> (r: u32)
    ensures
        r == low32(x as int),
        x <= u32::MAX ==> r == x,
{
    assert(x & 0xffff_ffff == x % 0x1_0000_0000) by (bit_vector);
    (x & 0xffff_ffff) as u32
}

/// Keeps the low 32 bits of a 128-bit value. A value that fits in 32 bits
/// is kept as it is.
pub fn narrow_u128(x: u128) -> (r: u32)
    ensures
        r == low32(x as int),
        x <= u32::MAX ==> r == x,
{
    assert(x & 0xffff_ffff == x % 0x1_0000_0000) by (bit_vector);
    (x & 0xffff_ffff) as u32
}

} // verus!
