//! Bit patterns of the single-precision numbers that the model names.

use vstd::prelude::*;

verus! {

/// `0.0`
pub const ZERO: u32 = 0x0000_0000;

/// `0.5`
pub const HALF: u32 = 0x3F00_0000;

/// `1.0`
pub const ONE: u32 = 0x3F80_0000;

/// `-1.0`
pub const MINUS_ONE: u32 = 0xBF80_0000;

/// Whether `bits` is `1.0` or `-1.0`: the two numbers of magnitude one.
pub open spec fn is_sign(bits: u32) -> bool {
    bits == ONE || bits == MINUS_ONE
}

/// Whether `bits` is `1.0` or `-1.0`.
pub fn is_unit(bits: u32) -> (yes: bool)
    ensures
        yes == is_sign(bits),
{
    bits == ONE || bits == MINUS_ONE
}

} // verus!
