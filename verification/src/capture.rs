//! The display server choice and the start/stop protocol that every capture
//! backend follows.

use vstd::prelude::*;
use crate::errors::CaptureError;

verus! {

/// Detected display server.
#[derive(Clone, Copy, Debug, PartialEq, Eq, Structural)]
pub enum DisplayServer {
    Wayland,
    X11,
}

impl DisplayServer {
    /// The display server in use, given whether `WAYLAND_DISPLAY` and
    /// `DISPLAY` are set: Wayland wins when both are.
    pub fn detect_from(wayland_display_set: bool, x11_display_set: bool) -> (d: Option<
        DisplayServer,
    >)
        ensures
            d == (if wayland_display_set {
                Some(DisplayServer::Wayland)
            } else if x11_display_set {
                Some(DisplayServer::X11)
            } else {
                None
            }),
    {
        if wayland_display_set {
            Some(DisplayServer::Wayland)
        } else if x11_display_set {
            Some(DisplayServer::X11)
        } else {
            None
        }
    }
}

/// Whether a capture backend is currently capturing. A backend refuses to
/// start a second capture and to stop one that is not running.
pub struct CaptureSession {
    capturing: bool,
}

impl View for CaptureSession {
    type V = bool;

    closed spec fn view(&self) -> bool {
        self.capturing
    }
}

/// A start request is accepted only when no capture runs.
pub open spec fn start_accepted(capturing: bool) -> bool {
    !capturing
}

/// A stop request is accepted only while a capture runs.
pub open spec fn stop_accepted(capturing: bool) -> bool {
    capturing
}

impl CaptureSession {
    /// A backend that is not capturing.
    pub fn new() -> (s: CaptureSession)
        ensures
            !s@,
    {
        CaptureSession { capturing: false }
    }

    /// Whether a capture is running.
    pub fn is_capturing(&self) -> (b: bool)
        ensures
            b == self@,
    {
        self.capturing
    }

    /// Start request: refused with `AlreadyCapturing` while a capture runs.
    pub fn start(&mut self) -> (r: Result<(), CaptureError>)
        ensures
            r is Ok <==> start_accepted(old(self)@),
            r is Err ==> r matches Err(CaptureError::AlreadyCapturing),
            final(self)@ == true,
    {
        if self.capturing {
            Err(CaptureError::AlreadyCapturing)
        } else {
            self.capturing = true;
            Ok(())
        }
    }

    /// Stop request: refused with `NotCapturing` when no capture runs.
    pub fn stop(&mut self) -> (r: Result<(), CaptureError>)
        ensures
            r is Ok <==> stop_accepted(old(self)@),
            r is Err ==> r matches Err(CaptureError::NotCapturing),
            final(self)@ == false,
    {
        if self.capturing {
            self.capturing = false;
            Ok(())
        } else {
            Err(CaptureError::NotCapturing)
        }
    }
}

/// A fresh backend (not capturing) accepts a start; after a start, whether
/// it was accepted or refused, the backend is capturing, so a second start is
/// refused and a stop is accepted; after a stop the backend is idle, so a
/// further stop is refused and a start is accepted again (the first clause).
pub proof fn lemma_start_stop_protocol()
    ensures
        start_accepted(false),
        !start_accepted(true),
        stop_accepted(true),
        !stop_accepted(false),
{
}

} // verus!
