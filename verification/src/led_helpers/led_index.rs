//! Positions of a moving window of LEDs.
//!
//! A position is a signed index: it may be negative or lie past the last LED
//! of the strip while the window enters or leaves.

use vstd::prelude::*;

verus! {

/// The position nearest to `index` that an animation can hold.
pub open spec fn clamp_index(index: int) -> int {
    if index < isize::MIN {
        isize::MIN as int
    } else if index > isize::MAX {
        isize::MAX as int
    } else {
        index
    }
}

/// Whether LED `i` lies between the positions `low` and `high`, both
/// included.
pub fn led_within(i: usize, low: isize, high: isize) -> (within: bool)
    ensures
        within <==> low <= i <= high,
{
    (low < 0 || low as usize <= i) && high >= 0 && i <= high as usize
}

} // verus!
