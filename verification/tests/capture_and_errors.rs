use rugif::capture::{CaptureSession, DisplayServer};
use rugif::errors::{CaptureError, EncodeError, RugifError};

#[test]
fn display_server_detection() {
    assert_eq!(DisplayServer::detect_from(true, true), Some(DisplayServer::Wayland));
    assert_eq!(DisplayServer::detect_from(true, false), Some(DisplayServer::Wayland));
    assert_eq!(DisplayServer::detect_from(false, true), Some(DisplayServer::X11));
    assert_eq!(DisplayServer::detect_from(false, false), None);
}

#[test]
fn capture_session_protocol() {
    let mut s = CaptureSession::new();
    assert!(!s.is_capturing());
    assert!(matches!(s.stop(), Err(CaptureError::NotCapturing)));
    assert!(s.start().is_ok());
    assert!(s.is_capturing());
    assert!(matches!(s.start(), Err(CaptureError::AlreadyCapturing)));
    assert!(s.stop().is_ok());
    assert!(!s.is_capturing());
    assert!(s.start().is_ok());
}

#[test]
fn error_messages() {
    assert_eq!(RugifError::NoDisplayServer.message(), "no display server detected");
    assert_eq!(RugifError::Capture("x".into()).message(), "capture error: x");
    assert_eq!(RugifError::Encode("y".into()).message(), "encoding error: y");
    assert_eq!(RugifError::Ui("z".into()).message(), "ui error: z");
    assert_eq!(CaptureError::Connection.message(), "failed to connect to display server");
    assert_eq!(CaptureError::Screenshot("shmget failed".into()).message(), "failed to capture screenshot: shmget failed");
    assert_eq!(CaptureError::StartCapture("no node".into()).message(), "failed to start capture: no node");
    assert_eq!(CaptureError::AlreadyCapturing.message(), "capture already in progress");
    assert_eq!(CaptureError::NotCapturing.message(), "no capture in progress");
    assert_eq!(EncodeError::Init("gifski::new failed".into()).message(), "failed to initialize encoder: gifski::new failed");
    assert_eq!(EncodeError::AddFrame("frame 3".into()).message(), "failed to add frame: frame 3");
    assert_eq!(EncodeError::Write("disk".into()).message(), "failed to write GIF: disk");
}
