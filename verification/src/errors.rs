//! Error kinds of the recorder and the messages that describe them.

use vstd::prelude::*;
use vstd::string::StringExecFns;

verus! {

broadcast use vstd::string::group_string_axioms;

/// Errors of the recorder as a whole.
#[derive(Debug, Clone)]
pub enum RugifError {
    NoDisplayServer,
    Capture(String),
    Encode(String),
    Ui(String),
}

/// Errors of the screen capture backends.
#[derive(Debug, Clone)]
pub enum CaptureError {
    Connection,
    Screenshot(String),
    StartCapture(String),
    AlreadyCapturing,
    NotCapturing,
}

/// Errors of the GIF encoder.
#[derive(Debug, Clone)]
pub enum EncodeError {
    Init(String),
    AddFrame(String),
    Write(String),
}

impl RugifError {
    /// The text that describes the error.
    pub open spec fn text(&self) -> Seq<char> {
        match self {
            RugifError::NoDisplayServer => "no display server detected"@,
            RugifError::Capture(s) => "capture error: "@ + s@,
            RugifError::Encode(s) => "encoding error: "@ + s@,
            RugifError::Ui(s) => "ui error: "@ + s@,
        }
    }

    /// The text that describes the error.
    pub fn message(&self) -> (m: String)
        ensures
            m@ == self.text(),
    {
        match self {
            RugifError::NoDisplayServer => String::from_str("no display server detected"),
            RugifError::Capture(s) => {
                let mut m = String::from_str("capture error: ");
                m.append(s.as_str());
                m
            },
            RugifError::Encode(s) => {
                let mut m = String::from_str("encoding error: ");
                m.append(s.as_str());
                m
            },
            RugifError::Ui(s) => {
                let mut m = String::from_str("ui error: ");
                m.append(s.as_str());
                m
            },
        }
    }
}

impl CaptureError {
    /// The text that describes the error.
    pub open spec fn text(&self) -> Seq<char> {
        match self {
            CaptureError::Connection => "failed to connect to display server"@,
            CaptureError::Screenshot(s) => "failed to capture screenshot: "@ + s@,
            CaptureError::StartCapture(s) => "failed to start capture: "@ + s@,
            CaptureError::AlreadyCapturing => "capture already in progress"@,
            CaptureError::NotCapturing => "no capture in progress"@,
        }
    }

    /// The text that describes the error.
    pub fn message(&self) -> (m: String)
        ensures
            m@ == self.text(),
    {
        match self {
            CaptureError::Connection => String::from_str("failed to connect to display server"),
            CaptureError::Screenshot(s) => {
                let mut m = String::from_str("failed to capture screenshot: ");
                m.append(s.as_str());
                m
            },
            CaptureError::StartCapture(s) => {
                let mut m = String::from_str("failed to start capture: ");
                m.append(s.as_str());
                m
            },
            CaptureError::AlreadyCapturing => String::from_str("capture already in progress"),
            CaptureError::NotCapturing => String::from_str("no capture in progress"),
        }
    }
}

impl EncodeError {
    /// The text that describes the error.
    pub open spec fn text(&self) -> Seq<char> {
        match self {
            EncodeError::Init(s) => "failed to initialize encoder: "@ + s@,
            EncodeError::AddFrame(s) => "failed to add frame: "@ + s@,
            EncodeError::Write(s) => "failed to write GIF: "@ + s@,
        }
    }

    /// The text that describes the error.
    pub fn message(&self) -> (m: String)
        ensures
            m@ == self.text(),
    {
        let (prefix, detail) = match self {
            EncodeError::Init(s) => (String::from_str("failed to initialize encoder: "), s),
            EncodeError::AddFrame(s) => (String::from_str("failed to add frame: "), s),
            EncodeError::Write(s) => (String::from_str("failed to write GIF: "), s),
        };
        let mut m = prefix;
        m.append(detail.as_str());
        m
    }
}

} // verus!
