//! Time on the device's clock, which counts milliseconds in 32 bits and
//! starts again at zero when it is full.

use vstd::prelude::*;

verus! {

/// The milliseconds from `start` to `now`, where the clock was full at most
/// once in between.
pub open spec fn elapsed_ms(start: u32, now: u32) -> u32 {
    if now >= start {
        (now - start) as u32
    } else {
        (now - start + 0x1_0000_0000) as u32
    }
}

/// The milliseconds from `start` to `now`.
pub fn elapsed(start: u32, now: u32) -> (r: u32)
    ensures
        r == elapsed_ms(start, now),
{
    now.wrapping_sub(start)
}

} // verus!
