//! The command line: its arguments, the recording configuration built from
//! them, and the names of the files that the recorder's processes exchange.

use vstd::prelude::*;
use vstd::string::StringExecFns;
use crate::config::{RecordingConfig, Settings};
use crate::region::Region;
use crate::text::{decimal, decimal_string, path_join, join_path, concatenate};
use crate::numbers::{all_digits, digits_value, lemma_decimal_digits};

verus! {

broadcast use vstd::string::group_string_axioms;

/// Command-line arguments.
#[derive(Debug, Clone)]
pub struct Args {
    /// Output file path (overrides settings)
    pub output: Option<String>,
    /// Frames per second (overrides settings)
    pub fps: Option<u8>,
    /// GIF quality 1-100 (overrides settings)
    pub quality: Option<u8>,
    /// Maximum recording duration in seconds (overrides settings)
    pub max_duration: Option<u32>,
    /// Record a fixed region (x,y,width,height) — skips the selection UI
    pub region: Option<Region>,
    /// Run in system tray mode (background daemon)
    pub tray: bool,
    /// Open the settings window
    pub settings: bool,
    /// Internal: stop file path — recording stops when this file appears
    pub stop_file: Option<String>,
    /// Internal: show region selection overlay, write result to file
    pub select_region: Option<String>,
}

#[verifier::external_type_specification]
#[verifier::external_body]
pub struct ExSystemTime(std::time::SystemTime);

/// `SystemTime::now`: the current wall-clock time. Nothing is stated of it.
#[verifier::external_body]
fn system_time_now() -> std::time::SystemTime {
    std::time::SystemTime::now()
}

/// `SystemTime::duration_since(UNIX_EPOCH)`: the time since the Unix epoch,
/// or `None` when `t` lies before it. It depends on the clock, so nothing is
/// stated of the value.
#[verifier::external_body]
fn duration_since_epoch(t: &std::time::SystemTime) -> Option<std::time::Duration> {
    match t.duration_since(std::time::UNIX_EPOCH) {
        Ok(d) => Some(d),
        Err(_) => None,
    }
}

/// `Duration::as_secs`: the whole seconds of `d`. The durations handed to it
/// come from the clock, so nothing is stated of the value.
#[verifier::external_body]
pub(crate) fn duration_whole_secs(d: &std::time::Duration) -> u64 {
    d.as_secs()
}

/// The timestamp written for a clock reading of `secs` seconds since the
/// Unix epoch: its decimal digits, and `0` for a clock set before 1970.
pub open spec fn timestamp_of(secs: Option<u64>) -> Seq<char> {
    match secs {
        Some(s) => decimal(s as nat),
        None => decimal(0),
    }
}

/// The timestamp for a clock reading (`None` before the Unix epoch).
pub fn timestamp_text(secs: Option<u64>) -> (ts: String)
    ensures
        ts@ == timestamp_of(secs),
{
    let s: u64 = match secs {
        Some(s) => s,
        None => 0,
    };
    decimal_string(s)
}

/// `secs` is a reading of the system clock in whole seconds since the Unix
/// epoch: the whole seconds that `duration_since_epoch` gave for a time that
/// `system_time_now` returned, or `None` when that time lay before the epoch.
pub closed spec fn clock_seconds(secs: Option<u64>) -> bool {
    exists|t: std::time::SystemTime, d: Option<std::time::Duration>|
        #![trigger call_ensures(system_time_now, (), t), call_ensures(duration_since_epoch, (&t,), d)]
        call_ensures(system_time_now, (), t) && call_ensures(duration_since_epoch, (&t,), d)
            && match d {
            None => secs is None,
            Some(e) => secs matches Some(s) && call_ensures(duration_whole_secs, (&e,), s),
        }
}

/// The current Unix time in seconds, in decimal (0 when the clock is set
/// before 1970): the timestamp of a reading of the system clock.
pub fn chrono_timestamp() -> (ts: String)
    ensures
        exists|secs: Option<u64>| clock_seconds(secs) && ts@ == #[trigger] timestamp_of(secs),
{
    let now = system_time_now();
    let since = duration_since_epoch(&now);
    let secs = match since {
        Some(d) => Some(duration_whole_secs(&d)),
        None => None,
    };
    assert(clock_seconds(secs)) by {
        assert(call_ensures(system_time_now, (), now));
        assert(call_ensures(duration_since_epoch, (&now,), since));
    }
    timestamp_text(secs)
}

/// The file name of a recording made at `timestamp`, inside `save_directory`.
pub open spec fn timestamped_output_text(save_directory: Seq<char>, timestamp: Seq<char>) -> Seq<
    char,
> {
    path_join(save_directory, "rugif_"@ + timestamp + ".gif"@)
}

/// The output file of a recording made at `timestamp`.
pub fn timestamped_output_path(save_directory: &str, timestamp: &str) -> (p: String)
    ensures
        p@ == timestamped_output_text(save_directory@, timestamp@),
{
    let mut name = concatenate("rugif_", timestamp);
    name.append(".gif");
    join_path(save_directory, name.as_str())
}

/// The recording configuration: each command-line value overrides the
/// setting; without an output path the GIF goes to the save directory under
/// a name made from the current time.
pub fn build_config(args: &Args, settings: &Settings) -> (c: RecordingConfig)
    ensures
        c.fps == (match args.fps {
            Some(v) => v,
            None => settings.recording.fps,
        }),
        c.quality == (match args.quality {
            Some(v) => v,
            None => settings.recording.quality,
        }),
        c.max_duration_secs == (match args.max_duration {
            Some(v) => v,
            None => settings.recording.max_duration_secs,
        }),
        match args.output {
            Some(o) => c.output_path@ == o@,
            None => exists|secs: Option<u64>|
                clock_seconds(secs) && c.output_path@ == timestamped_output_text(
                    settings.recording.save_directory@,
                    #[trigger] timestamp_of(secs),
                ),
        },
{
    let fps = match args.fps {
        Some(v) => v,
        None => settings.recording.fps,
    };
    let quality = match args.quality {
        Some(v) => v,
        None => settings.recording.quality,
    };
    let max_duration_secs = match args.max_duration {
        Some(v) => v,
        None => settings.recording.max_duration_secs,
    };
    let output_path = match &args.output {
        Some(o) => o.clone(),
        None => {
            let timestamp = chrono_timestamp();
            timestamped_output_path(settings.recording.save_directory.as_str(), timestamp.as_str())
        },
    };
    RecordingConfig { fps, quality, output_path, max_duration_secs }
}

/// Without `--output`, the recording is written inside the save directory
/// under a name `rugif_<digits>.gif` whose digits spell a reading of the
/// system clock in whole seconds since the Unix epoch (0 for a clock set
/// before 1970).
pub proof fn lemma_output_named_by_clock(args: Args, settings: Settings, c: RecordingConfig)
    requires
        call_ensures(build_config, (&args, &settings), c),
        args.output is None,
    ensures
        exists|secs: Option<u64>, digits: Seq<char>|
            #![trigger clock_seconds(secs), all_digits(digits)]
            clock_seconds(secs) && all_digits(digits) && digits.len() >= 1 && digits_value(digits)
                == (match secs {
                Some(s) => s as nat,
                None => 0,
            }) && c.output_path@ == path_join(
                settings.recording.save_directory@,
                "rugif_"@ + digits + ".gif"@,
            ),
{
    let secs = choose|secs: Option<u64>|
        clock_seconds(secs) && c.output_path@ == timestamped_output_text(
            settings.recording.save_directory@,
            #[trigger] timestamp_of(secs),
        );
    let n: nat = match secs {
        Some(s) => s as nat,
        None => 0,
    };
    lemma_decimal_digits(n);
    assert(timestamp_of(secs) == decimal(n));
    assert(clock_seconds(secs) && all_digits(decimal(n)));
}

/// Recordings whose clock readings differ by at least a second are written
/// to different files.
pub proof fn lemma_output_paths_differ(save_directory: Seq<char>, a: u64, b: u64)
    requires
        a != b,
    ensures
        timestamped_output_text(save_directory, timestamp_of(Some(a))) != timestamped_output_text(
            save_directory,
            timestamp_of(Some(b)),
        ),
{
    let da = decimal(a as nat);
    let db = decimal(b as nat);
    lemma_decimal_digits(a as nat);
    lemma_decimal_digits(b as nat);
    let na = "rugif_"@ + da + ".gif"@;
    let nb = "rugif_"@ + db + ".gif"@;
    reveal_strlit("rugif_");
    reveal_strlit(".gif");
    assert(na[0] == 'r');
    assert(nb[0] == 'r');
    let pa = path_join(save_directory, na);
    let pb = path_join(save_directory, nb);
    if pa == pb {
        let k = pa.len() - na.len();
        assert(na =~= pa.subrange(k, pa.len() as int));
        assert(nb.len() == na.len());
        assert(nb =~= pb.subrange(k, pb.len() as int));
        assert(da =~= na.subrange(6, 6 + da.len() as int));
        assert(db =~= nb.subrange(6, 6 + db.len() as int));
        assert(da == db);
    }
}

/// Name of the file through which the selection process of recorder `pid`
/// reports its result.
pub fn selection_file_name(pid: u32) -> (name: String)
    ensures
        name@ == "rugif_sel_"@ + decimal(pid as nat),
{
    let digits = decimal_string(pid as u64);
    concatenate("rugif_sel_", digits.as_str())
}

/// The file that carries the screenshot to the selection process, next to
/// its result file.
pub fn screenshot_file_path(result_path: &str) -> (p: String)
    ensures
        p@ == result_path@ + ".screenshot"@,
{
    concatenate(result_path, ".screenshot")
}

/// What the clipboard receives for a saved GIF: its `file://` URI on a line.
pub fn clipboard_uri(absolute_path: &str) -> (uri: String)
    ensures
        uri@ == "file://"@ + absolute_path@ + "\n"@,
{
    let mut uri = concatenate("file://", absolute_path);
    uri.append("\n");
    uri
}

} // verus!

