//! The lead-in of a recording: the first half second shows the selection
//! window closing, so a recording that is encoded whole leaves it out.

use vstd::prelude::*;

verus! {

/// How many leading frames make up the lead-in at `fps` frames per second:
/// half a second's worth, and at least one.
pub open spec fn skipped_frames(fps: u8) -> nat {
    if fps / 2 >= 1 {
        (fps / 2) as nat
    } else {
        1
    }
}

/// The number of lead-in frames at `fps` frames per second.
pub fn lead_in_frames(fps: u8) -> (n: usize)
    ensures
        n == skipped_frames(fps),
{
    let half = (fps / 2) as usize;
    if half >= 1 {
        half
    } else {
        1
    }
}

} // verus!
