//! The decisions of a recording run: when the capture loop stops, what
//! happens to the frames it gathered, and what follows a saved GIF. The loop
//! itself (polling, sleeping, looking for the stop file) is run by the caller,
//! which hands each observation to these functions.

use vstd::prelude::*;
use crate::config::GeneralSettings;
use crate::trim::wants_trim_dialog;

verus! {

/// What the capture loop does after one poll.
#[derive(Debug, Clone, Copy, PartialEq, Eq, Structural)]
pub enum CaptureStep {
    /// Sleep a little and poll again.
    KeepPolling,
    /// Stop capturing.
    Stop,
}

/// The capture stops when the frame source has gone away, when the stop file
/// has appeared, or when the maximum duration has elapsed.
pub open spec fn capture_stops(
    disconnected: bool,
    stop_file_seen: bool,
    elapsed_millis: nat,
    max_duration_secs: nat,
) -> bool {
    disconnected || stop_file_seen || elapsed_millis >= max_duration_secs * 1000
}

/// One decision of the capture loop, from what the last poll observed:
/// whether the frame source is disconnected, whether the stop file exists,
/// and how many milliseconds have passed since the capture started.
pub fn capture_step(
    disconnected: bool,
    stop_file_seen: bool,
    elapsed_millis: u64,
    max_duration_secs: u32,
) -> (s: CaptureStep)
    ensures
        s == (if capture_stops(
            disconnected,
            stop_file_seen,
            elapsed_millis as nat,
            max_duration_secs as nat,
        ) {
            CaptureStep::Stop
        } else {
            CaptureStep::KeepPolling
        }),
{
    let deadline_millis: u64 = max_duration_secs as u64 * 1000;
    if disconnected || stop_file_seen || elapsed_millis >= deadline_millis {
        CaptureStep::Stop
    } else {
        CaptureStep::KeepPolling
    }
}

/// Once the deadline has passed the capture stops, whatever else is
/// observed, and it stays stopped at every later time; before the deadline
/// only a disconnection or the stop file stops it.
pub proof fn lemma_capture_deadline(
    disconnected: bool,
    stop_file_seen: bool,
    elapsed_millis: nat,
    later_millis: nat,
    max_duration_secs: nat,
)
    requires
        elapsed_millis <= later_millis,
    ensures
        capture_stops(disconnected, stop_file_seen, elapsed_millis, max_duration_secs)
            ==> capture_stops(disconnected, stop_file_seen, later_millis, max_duration_secs),
        elapsed_millis >= max_duration_secs * 1000 ==> capture_stops(
            false,
            false,
            elapsed_millis,
            max_duration_secs,
        ),
        elapsed_millis < max_duration_secs * 1000 ==> (capture_stops(
            disconnected,
            stop_file_seen,
            elapsed_millis,
            max_duration_secs,
        ) <==> (disconnected || stop_file_seen)),
{
}

/// What follows the capture.
#[derive(Debug, Clone, Copy, PartialEq, Eq, Structural)]
pub enum RecordingNext {
    /// No frame was captured: there is nothing to encode.
    Discard,
    /// Let the user trim the recording first.
    ShowTrimDialog,
    /// Encode every captured frame.
    EncodeAll,
}

/// After the capture: with no frames nothing is encoded; with more than one
/// frame and the trim step enabled the user trims first; otherwise every
/// frame is encoded.
pub fn after_capture(frame_count: usize, show_trim_ui: bool) -> (next: RecordingNext)
    ensures
        next == (if frame_count == 0 {
            RecordingNext::Discard
        } else if show_trim_ui && frame_count > 1 {
            RecordingNext::ShowTrimDialog
        } else {
            RecordingNext::EncodeAll
        }),
{
    if frame_count == 0 {
        RecordingNext::Discard
    } else if wants_trim_dialog(show_trim_ui, frame_count) {
        RecordingNext::ShowTrimDialog
    } else {
        RecordingNext::EncodeAll
    }
}

/// What follows a saved GIF: whether its path goes to the clipboard, and
/// whether a notification tells the user where it was saved.
pub fn after_save(general: GeneralSettings) -> (a: (bool, bool))
    ensures
        a.0 == general.copy_to_clipboard,
        a.1 == general.notify_on_save,
{
    (general.copy_to_clipboard, general.notify_on_save)
}

} // verus!
