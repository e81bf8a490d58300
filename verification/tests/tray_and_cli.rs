use rugif::cli::{
    build_config, chrono_timestamp, clipboard_uri, screenshot_file_path, selection_file_name,
    timestamp_text, timestamped_output_path, Args,
};
use rugif::config::Settings;
use rugif::tray::{
    controls_position, tray_menu, tray_stop_file_name, tray_title, tray_tooltip, MenuAction,
    MenuEntry, RecordingState, TrayAction,
};

fn args() -> Args {
    Args {
        output: None,
        fps: None,
        quality: None,
        max_duration: None,
        region: None,
        tray: false,
        settings: false,
        stop_file: None,
        select_region: None,
    }
}

#[test]
fn tray_state_start_and_stop() {
    let mut s = RecordingState::new();
    assert!(!s.is_recording());
    assert_eq!(s.elapsed_secs(), 0);
    assert_eq!(s.stop_recording(), None);
    let now = std::time::Instant::now();
    let a = s.start_recording("/tmp/stop".to_string(), now);
    assert_eq!(a, Some(vec!["--stop-file".to_string(), "/tmp/stop".to_string()]));
    assert!(s.is_recording());
    assert_eq!(s.start_recording("/tmp/other".to_string(), now), None);
    assert_eq!(s.stop_recording(), Some("/tmp/stop".to_string()));
    assert!(!s.is_recording());
    assert_eq!(s.elapsed_secs(), 0);
}

#[test]
fn tray_click_toggles() {
    let mut s = RecordingState::new();
    let now = std::time::Instant::now();
    match s.activate("/tmp/s1".to_string(), now) {
        TrayAction::Spawn(a) => assert_eq!(a, vec!["--stop-file", "/tmp/s1"]),
        _ => panic!("expected a spawn"),
    }
    match s.activate("/tmp/s2".to_string(), now) {
        TrayAction::SignalStop(p) => assert_eq!(p, "/tmp/s1"),
        _ => panic!("expected a stop"),
    }
    assert!(!s.is_recording());
}

#[test]
fn tray_labels() {
    assert_eq!(tray_title(true, 75), "rugif - Recording 01:15");
    assert_eq!(tray_title(false, 75), "rugif");
    assert_eq!(tray_tooltip(true), ("rugif - Recording...".to_string(), "Click to stop recording".to_string()));
    assert_eq!(tray_tooltip(false), ("rugif - GIF Recorder".to_string(), "Right-click for options".to_string()));
    let m = tray_menu(true, 3605);
    assert_eq!(m.len(), 1);
    match &m[0] {
        MenuEntry::Item(l, a) => {
            assert_eq!(l, "Stop Recording (60:05)");
            assert_eq!(*a, MenuAction::StopRecording);
        }
        MenuEntry::Separator => panic!("expected an item"),
    }
    let m = tray_menu(false, 0);
    assert_eq!(m.len(), 5);
    assert!(matches!(&m[0], MenuEntry::Item(l, MenuAction::StartRecording) if l == "Record GIF"));
    assert!(matches!(&m[1], MenuEntry::Separator));
    assert!(matches!(&m[2], MenuEntry::Item(l, MenuAction::OpenSettings) if l == "Settings"));
    assert!(matches!(&m[3], MenuEntry::Separator));
    assert!(matches!(&m[4], MenuEntry::Item(l, MenuAction::Quit) if l == "Quit"));
}

#[test]
fn file_names() {
    assert_eq!(tray_stop_file_name(1234), "rugif_tray_stop_1234");
    assert_eq!(selection_file_name(99), "rugif_sel_99");
    assert_eq!(screenshot_file_path("/tmp/rugif_sel_99"), "/tmp/rugif_sel_99.screenshot");
    assert_eq!(clipboard_uri("/home/a/x.gif"), "file:///home/a/x.gif\n");
}

#[test]
fn controls_window_position() {
    assert_eq!(controls_position(100, 50), (100, 0));
    assert_eq!(controls_position(10, 200), (10, 120));
    assert_eq!(controls_position(-5, i32::MIN + 80), (-5, 0));
}

#[test]
fn timestamps_and_output_paths() {
    let ts = chrono_timestamp();
    assert!(!ts.is_empty() && ts.chars().all(|c| c.is_ascii_digit()));
    assert!(ts.parse::<u64>().unwrap() > 1_600_000_000);
    assert_eq!(timestamped_output_path("/v", "123"), "/v/rugif_123.gif");
}

#[test]
fn timestamp_before_the_epoch_is_zero() {
    assert_eq!(timestamp_text(None), "0");
    assert_eq!(timestamp_text(Some(0)), "0");
    assert_eq!(timestamp_text(Some(1_700_000_123)), "1700000123");
    assert_eq!(timestamp_text(Some(u64::MAX)), "18446744073709551615");
}

#[test]
fn tray_start_keeps_the_first_start() {
    let mut s = RecordingState::new();
    let t0 = std::time::Instant::now();
    let args = s.start_recording("/tmp/a".to_string(), t0);
    assert_eq!(args, Some(vec!["--stop-file".to_string(), "/tmp/a".to_string()]));
    assert!(s.is_recording());
    let later = t0 + std::time::Duration::from_secs(3600);
    assert_eq!(s.start_recording("/tmp/b".to_string(), later), None);
    assert!(s.elapsed_secs() < 3600);
    assert_eq!(s.stop_recording(), Some("/tmp/a".to_string()));
    assert!(!s.is_recording());
    assert_eq!(s.elapsed_secs(), 0);
}

#[test]
fn config_from_arguments() {
    let mut settings = Settings::default();
    settings.recording.save_directory = "/videos".to_string();
    let mut a = args();
    a.fps = Some(20);
    a.quality = Some(95);
    a.output = Some("demo.gif".to_string());
    let c = build_config(&a, &settings);
    assert_eq!((c.fps, c.quality, c.max_duration_secs), (20, 95, 30));
    assert_eq!(c.output_path, "demo.gif");

    let mut b = args();
    b.max_duration = Some(5);
    let c = build_config(&b, &settings);
    assert_eq!((c.fps, c.quality, c.max_duration_secs), (15, 90, 5));
    assert!(c.output_path.starts_with("/videos/rugif_"));
    assert!(c.output_path.ends_with(".gif"));
}

#[test]
fn tray_icon_from_png() {
    let img = image::RgbaImage::from_raw(2, 1, vec![1, 2, 3, 4, 5, 6, 7, 8]).unwrap();
    let mut png = Vec::new();
    img.write_to(&mut std::io::Cursor::new(&mut png), image::ImageFormat::Png).unwrap();
    let (w, h, data) = rugif::tray::tray_icon_pixels(&png).unwrap();
    assert_eq!((w, h), (2, 1));
    assert_eq!(data, vec![4, 1, 2, 3, 8, 5, 6, 7]);
    assert_eq!(rugif::tray::tray_icon_pixels(&[1, 2, 3]), None);
}
