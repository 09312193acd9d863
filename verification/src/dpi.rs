//! Scaling of logical pixel values to a monitor's DPI.

use vstd::prelude::*;

verus! {

/// The baseline DPI, meaning 100% scale.
pub const DEFAULT_DPI: u32 = 96;

/// The mathematically scaled value: `value * dpi / 96`, truncated
/// toward zero as the 64-bit integer division does.
pub open spec fn spec_scale(value: int, dpi: int) -> int {
    if value >= 0 {
        (value * dpi) / 96
    } else {
        -(((-value) * dpi) / 96)
    }
}

/// Scales a logical value by `dpi / 96`.
pub fn scale(value: i32, dpi: u32) -> (r: i32)
    ensures
        i32::MIN <= spec_scale(value as int, dpi as int) <= i32::MAX ==> r as int == spec_scale(
            value as int,
            dpi as int,
        ),
{
    if value >= 0 {
        proof {
            vstd::arithmetic::mul::lemma_mul_upper_bound(
                value as int,
                0x7FFF_FFFF,
                dpi as int,
                0xFFFF_FFFF,
            );
        }
        let q: u64 = (value as u64) * (dpi as u64) / (DEFAULT_DPI as u64);
        #[verifier::truncate]
        (q as i32)
    } else {
        proof {
            vstd::arithmetic::mul::lemma_mul_upper_bound(
                -(value as int),
                0x8000_0000,
                dpi as int,
                0xFFFF_FFFF,
            );
        }
        let mag: u64 = ((-(value as i64)) as u64) * (dpi as u64) / (DEFAULT_DPI as u64);
        let neg: i64 = -(mag as i64);
        #[verifier::truncate]
        (neg as i32)
    }
}

} // verus!
