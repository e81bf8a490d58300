//! Verified core of a GIF screen recorder: region parsing and formatting,
//! pixel-buffer conversion, settings defaults and the small state machines
//! that drive capture, encoding, trimming and the tray icon.

pub mod text;
pub mod numbers;
pub mod region;
pub mod frame;
pub mod errors;
pub mod capture;
pub mod config;
pub mod trim;
pub mod encode;
pub mod tray;
pub mod cli;
pub mod recording;
