use rugif::config::{GeneralSettings, Settings};
use rugif::recording::{after_capture, after_save, capture_step, CaptureStep, RecordingNext};

#[test]
fn capture_keeps_polling_before_the_deadline() {
    assert_eq!(capture_step(false, false, 0, 60), CaptureStep::KeepPolling);
    assert_eq!(capture_step(false, false, 59_999, 60), CaptureStep::KeepPolling);
}

#[test]
fn capture_stops_at_the_deadline() {
    assert_eq!(capture_step(false, false, 60_000, 60), CaptureStep::Stop);
    assert_eq!(capture_step(false, false, 60_001, 60), CaptureStep::Stop);
    assert_eq!(capture_step(false, false, 0, 0), CaptureStep::Stop);
    assert_eq!(capture_step(false, false, u64::MAX, u32::MAX), CaptureStep::Stop);
    assert_eq!(
        capture_step(false, false, u32::MAX as u64 * 1000 - 1, u32::MAX),
        CaptureStep::KeepPolling
    );
}

#[test]
fn capture_stops_on_stop_file_or_disconnect() {
    assert_eq!(capture_step(false, true, 10, 60), CaptureStep::Stop);
    assert_eq!(capture_step(true, false, 10, 60), CaptureStep::Stop);
    assert_eq!(capture_step(true, true, 10, 60), CaptureStep::Stop);
}

#[test]
fn empty_recording_is_discarded() {
    assert_eq!(after_capture(0, true), RecordingNext::Discard);
    assert_eq!(after_capture(0, false), RecordingNext::Discard);
}

#[test]
fn after_capture_trims_only_several_frames() {
    assert_eq!(after_capture(1, true), RecordingNext::EncodeAll);
    assert_eq!(after_capture(2, true), RecordingNext::ShowTrimDialog);
    assert_eq!(after_capture(2, false), RecordingNext::EncodeAll);
    assert_eq!(after_capture(500, false), RecordingNext::EncodeAll);
}

#[test]
fn after_save_follows_the_settings() {
    let defaults = Settings::default().general;
    assert_eq!(after_save(defaults), (true, true));
    let quiet = GeneralSettings {
        start_on_login: false,
        start_minimized: false,
        notify_on_save: false,
        show_trim_ui: true,
        copy_to_clipboard: false,
    };
    assert_eq!(after_save(quiet), (false, false));
    let mut only_clip = quiet;
    only_clip.copy_to_clipboard = true;
    assert_eq!(after_save(only_clip), (true, false));
}
