//! The frame rate shown in the window title.

use vstd::prelude::*;

verus! {

/// The whole number of frames per second at which `frames` frames were
/// drawn in `millis` milliseconds: zero when no time has passed, and never
/// more than a `u32` holds.
pub open spec fn frame_rate(frames: u32, millis: u64) -> int {
    if millis == 0 {
        0
    } else if frames * 1000 / (millis as int) > u32::MAX {
        u32::MAX as int
    } else {
        frames * 1000 / (millis as int)
    }
}

pub fn frames_per_second(frames: u32, millis: u64) -> (r: u32)
    ensures
        r == frame_rate(frames, millis),
{
    if millis == 0 {
        return 0;
    }
    let scaled: u64 = frames as u64 * 1000;
    let rate: u64 = scaled / millis;
    if rate > 0xffff_ffff {
        0xffff_ffff
    } else {
        rate as u32
    }
}

} // verus!
