//! The trim step: choosing the sub-range of recorded frames to encode.

use vstd::prelude::*;
use std::ops::Range;
use crate::encode::{lead_in_frames, skipped_frames};

verus! {

/// User's choice from the trim dialog.
pub enum TrimResult {
    /// Encode frames in `start..end` (half-open).
    Save(Range<usize>),
    /// Discard the recording — no file written.
    Cancel,
}

/// The start and end frames picked in the trim dialog (both inclusive) over
/// a recording of `total` frames. The end never precedes the start, and both
/// stay within the recording.
pub struct TrimState {
    total: usize,
    start: usize,
    end: usize,
}

/// The index of the last frame of a recording of `total` frames (0 when it
/// is empty).
pub open spec fn last_index(total: nat) -> nat {
    if total == 0 {
        0
    } else {
        (total - 1) as nat
    }
}

/// `v` clamped into `lo..=hi`.
pub open spec fn clamp(v: int, lo: int, hi: int) -> int {
    if v < lo {
        lo
    } else if v > hi {
        hi
    } else {
        v
    }
}

impl TrimState {
    #[verifier::type_invariant]
    spec fn well_formed(self) -> bool {
        self.start <= self.end <= last_index(self.total as nat)
    }

    /// Number of frames in the recording.
    pub closed spec fn total_frames(self) -> nat {
        self.total as nat
    }

    /// First selected frame.
    pub closed spec fn first(self) -> nat {
        self.start as nat
    }

    /// Last selected frame.
    pub closed spec fn last(self) -> nat {
        self.end as nat
    }

    /// The selection lies within the recording, in order.
    pub open spec fn in_bounds(self) -> bool {
        self.first() <= self.last() <= last_index(self.total_frames())
    }

    /// The dialog opens with every frame selected.
    pub fn new(total: usize) -> (s: TrimState)
        ensures
            s.total_frames() == total,
            s.first() == 0,
            s.last() == last_index(total as nat),
            s.in_bounds(),
    {
        let last = if total == 0 {
            0
        } else {
            total - 1
        };
        TrimState { total, start: 0, end: last }
    }

    /// First selected frame.
    pub fn start_index(&self) -> (i: usize)
        ensures
            i == self.first(),
            self.in_bounds(),
    {
        proof {
            use_type_invariant(self);
        }
        self.start
    }

    /// Last selected frame.
    pub fn end_index(&self) -> (i: usize)
        ensures
            i == self.last(),
            self.in_bounds(),
    {
        proof {
            use_type_invariant(self);
        }
        self.end
    }

    /// Number of frames in the recording.
    pub fn total(&self) -> (n: usize)
        ensures
            n == self.total_frames(),
    {
        self.total
    }

    /// Moves the start slider; its range is `0..=end`.
    pub fn set_start(&mut self, v: usize)
        ensures
            final(self).total_frames() == old(self).total_frames(),
            final(self).last() == old(self).last(),
            final(self).first() == clamp(v as int, 0, old(self).last() as int),
            final(self).in_bounds(),
    {
        proof {
            use_type_invariant(&*self);
        }
        let nv = if v > self.end {
            self.end
        } else {
            v
        };
        self.start = nv;
    }

    /// Moves the end slider; its range is `start..=last frame`.
    pub fn set_end(&mut self, v: usize)
        ensures
            final(self).total_frames() == old(self).total_frames(),
            final(self).first() == old(self).first(),
            final(self).last() == clamp(
                v as int,
                old(self).first() as int,
                last_index(old(self).total_frames()) as int,
            ),
            final(self).in_bounds(),
    {
        proof {
            use_type_invariant(&*self);
        }
        let last = if self.total == 0 {
            0
        } else {
            self.total - 1
        };
        let nv = if v < self.start {
            self.start
        } else if v > last {
            last
        } else {
            v
        };
        self.end = nv;
    }

    /// How many frames are selected.
    pub fn selected_frames(&self) -> (n: usize)
        ensures
            n == self.last() - self.first() + 1,
    {
        proof {
            use_type_invariant(self);
        }
        self.end - self.start + 1
    }

    /// "Save trimmed": the selected frames.
    pub fn save_trimmed(&self) -> (r: TrimResult)
        ensures
            r matches TrimResult::Save(range) && range.start == self.first() && range.end
                == self.last() + 1,
    {
        proof {
            use_type_invariant(self);
        }
        TrimResult::Save(Range { start: self.start, end: self.end + 1 })
    }

    /// "Save full": every frame.
    pub fn save_full(&self) -> (r: TrimResult)
        ensures
            r matches TrimResult::Save(range) && range.start == 0 && range.end
                == self.total_frames(),
    {
        TrimResult::Save(Range { start: 0, end: self.total })
    }
}

/// A trimmed selection of a non-empty recording is a non-empty range of
/// frames that lies within the recording.
pub proof fn lemma_trimmed_range_within(first: nat, last: nat, total: nat)
    requires
        total > 0,
        first <= last <= last_index(total),
    ensures
        first < last + 1 <= total,
{
}

/// What the recorder does after recording: the trim dialog is shown only when
/// enabled and there is more than one frame.
pub fn wants_trim_dialog(show_trim_ui: bool, frame_count: usize) -> (b: bool)
    ensures
        b == (show_trim_ui && frame_count > 1),
{
    show_trim_ui && frame_count > 1
}

/// How the trim step ended.
pub enum TrimOutcome {
    /// The dialog was not shown.
    Skipped,
    /// The dialog could not be shown.
    Failed,
    /// The user made a choice.
    Chosen(TrimResult),
}

/// The captured frames that go into the GIF: exactly the range the user
/// chose in the trim dialog, none when the user discarded the recording, and
/// otherwise every frame after the lead-in (none when the recording is no
/// longer than its lead-in).
pub fn frames_to_encode(frame_count: usize, fps: u8, outcome: TrimOutcome) -> (r: Option<
    Range<usize>,
>)
    ensures
        match outcome {
            TrimOutcome::Chosen(TrimResult::Cancel) => r is None,
            TrimOutcome::Chosen(TrimResult::Save(range)) => r == Some(range),
            _ => r == Some(
                Range {
                    start: (if skipped_frames(fps) < frame_count {
                        skipped_frames(fps) as usize
                    } else {
                        frame_count
                    }),
                    end: frame_count,
                },
            ),
        },
{
    match outcome {
        TrimOutcome::Chosen(TrimResult::Cancel) => None,
        TrimOutcome::Chosen(TrimResult::Save(range)) => Some(range),
        _ => {
            let lead = lead_in_frames(fps);
            let start = if lead < frame_count {
                lead
            } else {
                frame_count
            };
            Some(Range { start, end: frame_count })
        },
    }
}

} // verus!
