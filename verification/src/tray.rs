//! The tray icon's recording state, and the labels that the tray and the
//! recording controls show.

use vstd::prelude::*;
use vstd::string::StringExecFns;
use crate::text::{decimal, decimal_string, format_minutes_seconds, minutes_seconds, concatenate};
use crate::frame::{argb_order, reorder_pixels, rgba_to_argb};

verus! {

broadcast use vstd::string::group_string_axioms;

/// `Instant::elapsed`: the time since `since`. It depends on the clock, so
/// nothing is stated of the result.
#[verifier::external_body]
fn instant_elapsed(since: &std::time::Instant) -> std::time::Duration {
    since.elapsed()
}

/// What decoding `png` as a PNG image and converting it to 8-bit RGBA gives:
/// width, height and pixel bytes, or `None` when it does not decode.
pub uninterp spec fn png_rgba(png: Seq<u8>) -> Option<(u32, u32, Seq<u8>)>;

/// `image::load_from_memory_with_format(png, ImageFormat::Png)`, converted
/// with `to_rgba8`: the result is left to the name `png_rgba`; `None` stands
/// for a decoding error. The contract assumes that malformed input comes back
/// as the `ImageError` the crate documents rather than as a panic inside the
/// PNG decoder, which is not stated here; the recorder only hands it the tray
/// icon file it installs.
#[verifier::external_body]
fn decode_png_rgba(png: &[u8]) -> (r: Option<(u32, u32, Vec<u8>)>)
    ensures
        match r {
            Some((w, h, d)) => png_rgba(png@) == Some((w, h, d@)),
            None => png_rgba(png@) is None,
        },
{
    match image::load_from_memory_with_format(png, image::ImageFormat::Png) {
        Ok(img) => {
            let rgba = img.to_rgba8();
            Some((rgba.width(), rgba.height(), rgba.into_raw()))
        },
        Err(_) => None,
    }
}

/// The tray icon made from a PNG image: width, height and ARGB pixel bytes
/// (in network byte order), or `None` when the image does not decode.
pub fn tray_icon_pixels(png: &[u8]) -> (icon: Option<(i32, i32, Vec<u8>)>)
    ensures
        match png_rgba(png@) {
            None => icon is None,
            Some((w, h, d)) => icon matches Some((iw, ih, data)) && iw == w as i32 && ih == h as i32
                && data@ == reorder_pixels(d, d.len() / 4, argb_order()),
        },
{
    match decode_png_rgba(png) {
        None => None,
        Some((w, h, rgba)) => {
            let argb = rgba_to_argb(rgba.as_slice());
            Some((w as i32, h as i32, argb))
        },
    }
}

/// What the tray knows about the recording it started.
pub struct RecordingState {
    is_recording: bool,
    started_at: Option<std::time::Instant>,
    stop_file: Option<String>,
}

/// The tray's recording state as the contracts see it.
pub struct TrayView {
    /// A recording started from the tray is running.
    pub recording: bool,
    /// When the recording started, where that is known.
    pub started_at: Option<std::time::Instant>,
    /// The file that stops the recording when written.
    pub stop_path: Option<Seq<char>>,
}

impl View for RecordingState {
    type V = TrayView;

    closed spec fn view(&self) -> TrayView {
        TrayView {
            recording: self.is_recording,
            started_at: self.started_at,
            stop_path: match self.stop_file {
                Some(p) => Some(p@),
                None => None,
            },
        }
    }
}

/// After a start request at time `now` with stop file `stop`: a running
/// recording is left alone, with its start time; otherwise a recording
/// watched through `stop` begins at `now`.
pub open spec fn started(v: TrayView, stop: Seq<char>, now: std::time::Instant) -> TrayView {
    if v.recording {
        v
    } else {
        TrayView { recording: true, started_at: Some(now), stop_path: Some(stop) }
    }
}

/// After a stop request: nothing runs, no start time is kept, the stop file
/// is remembered.
pub open spec fn stopped(v: TrayView) -> TrayView {
    TrayView { recording: false, started_at: None, stop_path: v.stop_path }
}

/// After a click on the tray icon at time `now`.
pub open spec fn clicked(v: TrayView, stop: Seq<char>, now: std::time::Instant) -> TrayView {
    if v.recording {
        stopped(v)
    } else {
        started(v, stop, now)
    }
}

/// `secs` is what the clock gives as the whole seconds elapsed since `since`:
/// the whole seconds of a duration that `instant_elapsed` returned for it.
pub closed spec fn clock_elapsed_secs(since: std::time::Instant, secs: u64) -> bool {
    exists|d: std::time::Duration|
        #![trigger call_ensures(instant_elapsed, (&since,), d)]
        call_ensures(instant_elapsed, (&since,), d) && call_ensures(
            crate::cli::duration_whole_secs,
            (&d,),
            secs,
        )
}

/// The running time that the tray shows in state `v`: 0 when no start time is
/// known, otherwise the whole seconds the clock has counted since the start.
pub open spec fn elapsed_reading(v: TrayView, secs: u64) -> bool {
    match v.started_at {
        None => secs == 0,
        Some(t) => clock_elapsed_secs(t, secs),
    }
}

/// What the tray has to do after a click.
pub enum TrayAction {
    /// Start the recorder with these arguments.
    Spawn(Vec<String>),
    /// Write the stop signal into this file.
    SignalStop(String),
    /// Nothing.
    Nothing,
}

/// The arguments that start a recorder watching `stop`.
pub open spec fn is_recorder_args(args: Seq<String>, stop: Seq<char>) -> bool {
    args.len() == 2 && args[0]@ == "--stop-file"@ && args[1]@ == stop
}

impl RecordingState {
    /// Nothing is being recorded.
    pub fn new() -> (s: RecordingState)
        ensures
            s@ == (TrayView { recording: false, started_at: None, stop_path: None }),
    {
        RecordingState { is_recording: false, started_at: None, stop_file: None }
    }

    /// Whether a recording is running.
    pub fn is_recording(&self) -> (b: bool)
        ensures
            b == self@.recording,
    {
        self.is_recording
    }

    /// Seconds since the recording started (0 when no start time is known).
    pub fn elapsed_secs(&self) -> (secs: u64)
        ensures
            elapsed_reading(self@, secs),
    {
        match &self.started_at {
            Some(t) => {
                let d = instant_elapsed(t);
                let secs = crate::cli::duration_whole_secs(&d);
                assert(clock_elapsed_secs(*t, secs)) by {
                    assert(call_ensures(instant_elapsed, (t,), d));
                }
                secs
            },
            None => 0,
        }
    }

    /// Starts a recording watched through `stop_file`, unless one is already
    /// running. Returns the recorder's arguments when one was started.
    pub fn start_recording(&mut self, stop_file: String, now: std::time::Instant) -> (args:
        Option<Vec<String>>)
        ensures
            final(self)@ == started(old(self)@, stop_file@, now),
            old(self)@.recording ==> args is None,
            !old(self)@.recording ==> (args matches Some(a) && is_recorder_args(a@, stop_file@)),
    {
        if self.is_recording {
            return None;
        }
        let arg = stop_file.clone();
        self.stop_file = Some(stop_file);
        self.started_at = Some(now);
        self.is_recording = true;
        let mut args: Vec<String> = Vec::new();
        args.push(String::from_str("--stop-file"));
        args.push(arg);
        Some(args)
    }

    /// Stops the recording: returns the file to write the stop signal into,
    /// when one was ever set up.
    pub fn stop_recording(&mut self) -> (signal: Option<String>)
        ensures
            final(self)@ == stopped(old(self)@),
            match signal {
                Some(p) => old(self)@.stop_path == Some(p@),
                None => old(self)@.stop_path is None,
            },
    {
        self.is_recording = false;
        self.started_at = None;
        match &self.stop_file {
            Some(p) => Some(p.clone()),
            None => None,
        }
    }

    /// A left click on the tray icon: stops a running recording, otherwise
    /// starts one watched through `stop_file`.
    pub fn activate(&mut self, stop_file: String, now: std::time::Instant) -> (action: TrayAction)
        ensures
            final(self)@ == clicked(old(self)@, stop_file@, now),
            old(self)@.recording ==> match action {
                TrayAction::SignalStop(p) => old(self)@.stop_path == Some(p@),
                TrayAction::Nothing => old(self)@.stop_path is None,
                TrayAction::Spawn(_) => false,
            },
            !old(self)@.recording ==> (action matches TrayAction::Spawn(a) && is_recorder_args(
                a@,
                stop_file@,
            )),
    {
        if self.is_recording {
            match self.stop_recording() {
                Some(p) => TrayAction::SignalStop(p),
                None => TrayAction::Nothing,
            }
        } else {
            match self.start_recording(stop_file, now) {
                Some(args) => TrayAction::Spawn(args),
                None => TrayAction::Nothing,
            }
        }
    }
}

/// Starting is idempotent while a recording runs: a second start, at any
/// later time `then`, keeps the first start's time and stop file. A start
/// from idle records `now` as the start time. Stopping a recording that was
/// started through `stop` signals through that same file and leaves the tray
/// idle with no start time; two clicks from idle start and then stop a
/// recording.
pub proof fn lemma_tray_start_stop(
    v: TrayView,
    stop: Seq<char>,
    other_stop: Seq<char>,
    now: std::time::Instant,
    then: std::time::Instant,
)
    ensures
        started(started(v, stop, now), other_stop, then) == started(v, stop, now),
        !v.recording ==> started(v, stop, now).started_at == Some(now),
        !v.recording ==> stopped(started(v, stop, now)).stop_path == Some(stop),
        !stopped(started(v, stop, now)).recording,
        stopped(started(v, stop, now)).started_at is None,
        !v.recording ==> clicked(clicked(v, stop, now), other_stop, then) == stopped(
            started(v, stop, now),
        ),
{
}

/// The running time is measured from the start: after a start from idle at
/// `now`, the tray reports the clock's whole seconds since `now`; a further
/// start request at any later time `then` does not restart the count; after a
/// stop it reads 0.
pub proof fn lemma_elapsed_counts_from_start(
    v: TrayView,
    stop: Seq<char>,
    other_stop: Seq<char>,
    now: std::time::Instant,
    then: std::time::Instant,
    secs: u64,
)
    requires
        !v.recording,
    ensures
        elapsed_reading(started(v, stop, now), secs) <==> clock_elapsed_secs(now, secs),
        elapsed_reading(started(started(v, stop, now), other_stop, then), secs)
            <==> clock_elapsed_secs(now, secs),
        elapsed_reading(stopped(started(v, stop, now)), secs) <==> secs == 0,
{
}

/// The tray's title: the elapsed time while recording.
pub open spec fn tray_title_text(recording: bool, elapsed_secs: nat) -> Seq<char> {
    if recording {
        "rugif - Recording "@ + minutes_seconds(elapsed_secs)
    } else {
        "rugif"@
    }
}

/// The tray's title.
pub fn tray_title(recording: bool, elapsed_secs: u64) -> (t: String)
    ensures
        t@ == tray_title_text(recording, elapsed_secs as nat),
{
    if recording {
        let time = format_minutes_seconds(elapsed_secs);
        concatenate("rugif - Recording ", time.as_str())
    } else {
        String::from_str("rugif")
    }
}

/// The tray's tooltip: title and description.
pub fn tray_tooltip(recording: bool) -> (tip: (String, String))
    ensures
        recording ==> tip.0@ == "rugif - Recording..."@ && tip.1@ == "Click to stop recording"@,
        !recording ==> tip.0@ == "rugif - GIF Recorder"@ && tip.1@ == "Right-click for options"@,
{
    if recording {
        (String::from_str("rugif - Recording..."), String::from_str("Click to stop recording"))
    } else {
        (String::from_str("rugif - GIF Recorder"), String::from_str("Right-click for options"))
    }
}

/// What a tray menu item does.
#[derive(Debug, Clone, Copy, PartialEq, Eq, Structural)]
pub enum MenuAction {
    StopRecording,
    StartRecording,
    OpenSettings,
    Quit,
}

/// An entry of the tray menu.
pub enum MenuEntry {
    Item(String, MenuAction),
    Separator,
}

/// The entry is an item with this label and action.
pub open spec fn is_item(e: MenuEntry, label: Seq<char>, action: MenuAction) -> bool {
    e matches MenuEntry::Item(l, a) && l@ == label && a == action
}

/// The tray menu: a single stop item while recording, otherwise record,
/// settings and quit separated by separators.
pub fn tray_menu(recording: bool, elapsed_secs: u64) -> (menu: Vec<MenuEntry>)
    ensures
        recording ==> menu@.len() == 1 && is_item(
            menu@[0],
            "Stop Recording ("@ + minutes_seconds(elapsed_secs as nat) + ")"@,
            MenuAction::StopRecording,
        ),
        !recording ==> {
            &&& menu@.len() == 5
            &&& is_item(menu@[0], "Record GIF"@, MenuAction::StartRecording)
            &&& menu@[1] is Separator
            &&& is_item(menu@[2], "Settings"@, MenuAction::OpenSettings)
            &&& menu@[3] is Separator
            &&& is_item(menu@[4], "Quit"@, MenuAction::Quit)
        },
{
    let mut menu: Vec<MenuEntry> = Vec::new();
    if recording {
        let time = format_minutes_seconds(elapsed_secs);
        let mut label = concatenate("Stop Recording (", time.as_str());
        label.append(")");
        menu.push(MenuEntry::Item(label, MenuAction::StopRecording));
    } else {
        menu.push(MenuEntry::Item(String::from_str("Record GIF"), MenuAction::StartRecording));
        menu.push(MenuEntry::Separator);
        menu.push(MenuEntry::Item(String::from_str("Settings"), MenuAction::OpenSettings));
        menu.push(MenuEntry::Separator);
        menu.push(MenuEntry::Item(String::from_str("Quit"), MenuAction::Quit));
    }
    menu
}

/// Name of the file through which the tray stops a recording it started.
pub fn tray_stop_file_name(pid: u32) -> (name: String)
    ensures
        name@ == "rugif_tray_stop_"@ + decimal(pid as nat),
{
    let digits = decimal_string(pid as u64);
    concatenate("rugif_tray_stop_", digits.as_str())
}

/// Where the recording controls window goes: 80 pixels above the region,
/// but not above the top of the screen.
pub fn controls_position(region_x: i32, region_y: i32) -> (pos: (i32, i32))
    requires
        region_y >= i32::MIN + 80,
    ensures
        pos.0 == region_x,
        pos.1 == (if region_y - 80 > 0 { region_y - 80 } else { 0 }),
{
    let y = region_y - 80;
    (region_x, if y > 0 { y } else { 0 })
}

} // verus!
