//! Value arithmetic for interactive controls.
//!
//! A drag control moves a numeric value by a number of ticks, each worth one
//! step. The update below is the whole of that rule on integers: the widget
//! plumbing around it (labels, layout, event handling) lives in the driver.

use vstd::prelude::*;

verus! {

/// Where `x` lands when clamped to the `i64` range.
pub open spec fn clamp_i64(x: int) -> int {
    if x > i64::MAX as int {
        i64::MAX as int
    } else if x < i64::MIN as int {
        i64::MIN as int
    } else {
        x
    }
}

/// Applies one drag gesture to a numeric control: the value moves by
/// `ticks * step`, saturating at the ends of the `i64` range.
pub fn dragger(value: &mut i64, ticks: i64, step: i64)
    ensures
        *final(value) == clamp_i64(*old(value) + ticks * step),
{
    proof {
        assert((ticks as int) * (step as int) <= 0x4000_0000_0000_0000_0000_0000_0000_0000int
            && (ticks as int) * (step as int) >= -0x4000_0000_0000_0000_0000_0000_0000_0000int)
            by (nonlinear_arith)
            requires
                -0x8000_0000_0000_0000 <= ticks <= 0x7FFF_FFFF_FFFF_FFFF,
                -0x8000_0000_0000_0000 <= step <= 0x7FFF_FFFF_FFFF_FFFF,
        ;
    }
    let moved: i128 = (ticks as i128) * (step as i128);
    let sum: i128 = (*value as i128) + moved;
    *value = if sum > i64::MAX as i128 {
        i64::MAX
    } else if sum < i64::MIN as i128 {
        i64::MIN
    } else {
        sum as i64
    };
}

} // verus!
