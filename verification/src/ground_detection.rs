//! Ground classifier: decides whether the controlled body rests on a surface.
//!
//! No raycast and no contact enumeration: the body is grounded on a tick iff
//! its vertical position, quantized to hundredths of a unit, is unchanged
//! since the previous tick. The quantization guards against sub-hundredth
//! jitter; the verdict is one tick late by design.

use vstd::prelude::*;

use crate::hit_box::WORLD_LIMIT;

verus! {

/// Vertical position in millis, quantized to hundredths of a unit (tens of
/// millis), rounding halves away from zero.
pub open spec fn quantize(y: int) -> int {
    if y >= 0 {
        (y + 5) / 10
    } else {
        -(((-y) + 5) / 10)
    }
}

/// `quantize` as executable code.
pub fn quantize_y(y: i64) -> (q: i64)
    requires
        -WORLD_LIMIT <= y <= WORLD_LIMIT,
    ensures
        q == quantize(y as int),
{
    if y >= 0 {
        let q = (y as u64 + 5) / 10;
        q as i64
    } else {
        let m = (-y) as u64;
        let q = (m + 5) / 10;
        -(q as i64)
    }
}

/// One classification step, after movement has been applied: compares the
/// quantized vertical position against the one retained last tick. Returns
/// the verdict (grounded iff they are equal) and the new retained value.
pub fn ground_detection(y: i64, last_quantized: i64) -> (r: (bool, i64))
    requires
        -WORLD_LIMIT <= y <= WORLD_LIMIT,
    ensures
        r.0 == (quantize(y as int) == last_quantized),
        r.1 == quantize(y as int),
{
    let q = quantize_y(y);
    (q == last_quantized, q)
}

} // verus!
