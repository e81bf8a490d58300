//! Persistent settings, their defaults, and where the recorder keeps its
//! files. Locating the user's directories goes through the `directories`
//! crate; everything built from those locations is verified here.

use vstd::prelude::*;
use vstd::string::StringExecFns;
use crate::text::{path_join, join_path, concatenate, opt_text};

verus! {

broadcast use vstd::string::group_string_axioms;

// ---------------------------------------------------------------------------
// The `directories` crate
// ---------------------------------------------------------------------------

#[verifier::external_type_specification]
#[verifier::external_body]
pub struct ExUserDirs(directories::UserDirs);

#[verifier::external_type_specification]
#[verifier::external_body]
pub struct ExBaseDirs(directories::BaseDirs);

/// `directories::UserDirs::new`: the user's standard directories, or `None`
/// when no home directory can be found. It reads the environment, so nothing
/// is stated of the result.
#[verifier::external_body]
fn user_dirs_new() -> Option<directories::UserDirs> {
    directories::UserDirs::new()
}

/// `directories::UserDirs::video_dir`: the videos directory, when the
/// system names one (as text). Nothing is stated of the result.
#[verifier::external_body]
fn user_dirs_video_dir(dirs: &directories::UserDirs) -> Option<String> {
    dirs.video_dir().map(|p| p.to_string_lossy().into_owned())
}

/// `directories::BaseDirs::new`: the user's base directories, or `None`
/// when no home directory can be found. Nothing is stated of the result.
#[verifier::external_body]
fn base_dirs_new() -> Option<directories::BaseDirs> {
    directories::BaseDirs::new()
}

/// `directories::BaseDirs::home_dir` (as text). Nothing is stated of the
/// result.
#[verifier::external_body]
fn base_dirs_home_dir(dirs: &directories::BaseDirs) -> String {
    dirs.home_dir().to_string_lossy().into_owned()
}

/// `directories::BaseDirs::config_dir` (as text). Nothing is stated of the
/// result.
#[verifier::external_body]
fn base_dirs_config_dir(dirs: &directories::BaseDirs) -> String {
    dirs.config_dir().to_string_lossy().into_owned()
}

/// `s` ends with `suffix`.
pub open spec fn ends_with(s: Seq<char>, suffix: Seq<char>) -> bool {
    s.len() >= suffix.len() && s.subrange(s.len() - suffix.len(), s.len() as int) == suffix
}

/// A name that `directories` uses unchanged as the project path: lower-case
/// ASCII letters and digits only.
pub open spec fn plain_application_name(name: Seq<char>) -> bool {
    &&& name.len() > 0
    &&& forall|i: int|
        0 <= i < name.len() ==> ('a' <= #[trigger] name[i] <= 'z' || '0' <= name[i] <= '9')
}

/// `directories::ProjectDirs::from(qualifier, organization, application)`,
/// read through `ProjectDirs::config_dir` (which only returns the stored
/// field) and turned into text: the application's configuration directory,
/// or `None` when no home directory can be found.
///
/// Where the directory lies depends on the environment (`XDG_CONFIG_HOME`,
/// `HOME`) and is not stated. What is stated is what the crate's Unix source
/// fixes (lin.rs `project_dirs_from` and `project_dirs_from_path`): the
/// directory is a base directory joined with the project path, and for a
/// name of lower-case letters and digits the project path is the name itself
/// (the Linux code lower-cases it and removes white space; the macOS code
/// joins the non-empty parts of qualifier, organization and application with
/// dots). On Windows the crate appends a further `config` component; the
/// recorder does not run there (it captures through X11 and PipeWire).
#[verifier::external_body]
fn project_config_dir(qualifier: &str, organization: &str, application: &str) -> (r: Option<
    String,
>)
    requires
        qualifier@.len() == 0,
        organization@.len() == 0,
        plain_application_name(application@),
    ensures
        r matches Some(d) ==> ends_with(d@, "/"@ + application@),
{
    directories::ProjectDirs::from(qualifier, organization, application).map(
        |dirs| dirs.config_dir().to_string_lossy().into_owned(),
    )
}

/// `s` starts with `prefix`.
pub open spec fn starts_with(s: Seq<char>, prefix: Seq<char>) -> bool {
    s.len() >= prefix.len() && s.subrange(0, prefix.len() as int) == prefix
}

/// Joining a relative name onto a path keeps the path in front and the name
/// at the end.
pub proof fn lemma_path_join_extends(base: Seq<char>, name: Seq<char>)
    requires
        name.len() > 0,
        name[0] != '/',
    ensures
        starts_with(path_join(base, name), base),
        ends_with(path_join(base, name), name),
        base.len() > 0 && base.last() != '/' ==> path_join(base, name) == base + "/"@ + name,
        path_join(base, name).len() <= base.len() + 1 + name.len(),
{
    reveal_strlit("/");
    let r = path_join(base, name);
    if base.len() == 0 || base.last() == '/' {
        assert(r.subrange(0, base.len() as int) =~= base);
        assert(r.subrange(r.len() - name.len(), r.len() as int) =~= name);
    } else {
        assert(r =~= base + "/"@ + name);
        assert(r.subrange(0, base.len() as int) =~= base);
        assert(r.subrange(r.len() - name.len(), r.len() as int) =~= name);
    }
}

/// `v` is what looking up the user's videos directory gave: `None` when
/// `user_dirs_new` found no home directory, otherwise what
/// `user_dirs_video_dir` returned for the directories it found.
pub closed spec fn found_video_dir(v: Option<Seq<char>>) -> bool {
    exists|u: Option<directories::UserDirs>|
        #![trigger call_ensures(user_dirs_new, (), u)]
        call_ensures(user_dirs_new, (), u) && match u {
            None => v is None,
            Some(d) => exists|s: Option<String>|
                #![trigger call_ensures(user_dirs_video_dir, (&d,), s)]
                call_ensures(user_dirs_video_dir, (&d,), s) && v == opt_text(s),
        }
}

/// `h` is what looking up the user's home directory gave: `None` when
/// `base_dirs_new` found none, otherwise what `base_dirs_home_dir` returned.
pub closed spec fn found_home_dir(h: Option<Seq<char>>) -> bool {
    exists|b: Option<directories::BaseDirs>|
        #![trigger call_ensures(base_dirs_new, (), b)]
        call_ensures(base_dirs_new, (), b) && match b {
            None => h is None,
            Some(d) => exists|s: String|
                #![trigger call_ensures(base_dirs_home_dir, (&d,), s)]
                call_ensures(base_dirs_home_dir, (&d,), s) && h == Some(s@),
        }
}

/// `c` is what looking up the user's base configuration directory gave:
/// `None` when `base_dirs_new` found no home directory, otherwise what
/// `base_dirs_config_dir` returned.
pub closed spec fn found_base_config_dir(c: Option<Seq<char>>) -> bool {
    exists|b: Option<directories::BaseDirs>|
        #![trigger call_ensures(base_dirs_new, (), b)]
        call_ensures(base_dirs_new, (), b) && match b {
            None => c is None,
            Some(d) => exists|s: String|
                #![trigger call_ensures(base_dirs_config_dir, (&d,), s)]
                call_ensures(base_dirs_config_dir, (&d,), s) && c == Some(s@),
        }
}

/// `d` is what looking up the configuration directory of the application
/// `rugif` gave through `project_config_dir`.
pub closed spec fn found_config_dir(d: Option<Seq<char>>) -> bool {
    exists|o: Option<String>|
        #![trigger call_ensures(project_config_dir, ("", "", "rugif"), o)]
        call_ensures(project_config_dir, ("", "", "rugif"), o) && d == opt_text(o)
}

/// `r` is the default save directory built from the user's own directories:
/// from the videos directory that was found, and only when none was found,
/// from the home directory that was found.
pub closed spec fn user_default_save_directory(r: Seq<char>) -> bool {
    exists|v: Option<Seq<char>>, h: Option<Seq<char>>|
        #![trigger found_video_dir(v), default_save_directory_text(v, h)]
        found_video_dir(v) && (v is None ==> found_home_dir(h)) && (v is Some ==> h is None) && r
            == default_save_directory_text(v, h)
}

// ---------------------------------------------------------------------------
// Settings
// ---------------------------------------------------------------------------

/// Persistent application settings stored as TOML.
#[derive(Debug, Clone)]
pub struct Settings {
    pub recording: RecordingSettings,
    pub shortcuts: ShortcutSettings,
    pub general: GeneralSettings,
}

#[derive(Debug, Clone)]
pub struct RecordingSettings {
    /// Frames per second.
    pub fps: u8,
    /// GIF quality (1-100).
    pub quality: u8,
    /// Maximum recording duration in seconds.
    pub max_duration_secs: u32,
    /// Directory to save GIFs.
    pub save_directory: String,
}

#[derive(Debug, Clone)]
pub struct ShortcutSettings {
    /// Keyboard shortcut to start recording (e.g. "Super+Shift+R").
    pub record: String,
    /// Keyboard shortcut to stop recording.
    pub stop: String,
}

#[derive(Debug, Clone, Copy, PartialEq, Eq, Structural)]
pub struct GeneralSettings {
    /// Start rugif in the system tray on login.
    pub start_on_login: bool,
    /// Start minimized to tray.
    pub start_minimized: bool,
    /// Show a notification when GIF is saved.
    pub notify_on_save: bool,
    /// Offer to trim a recording before it is encoded.
    pub show_trim_ui: bool,
    /// Copy the saved GIF to the clipboard.
    pub copy_to_clipboard: bool,
}

/// Where GIFs go by default: `rugif` inside the videos directory, else inside
/// `Videos` in the home directory, else inside the current directory.
pub open spec fn default_save_directory_text(
    video_dir: Option<Seq<char>>,
    home_dir: Option<Seq<char>>,
) -> Seq<char> {
    let base = match video_dir {
        Some(v) => v,
        None => match home_dir {
            Some(h) => path_join(h, "Videos"@),
            None => "."@,
        },
    };
    path_join(base, "rugif"@)
}

/// The default save directory, given what was found for the videos and home
/// directories.
pub fn default_save_directory_from(video_dir: Option<String>, home_dir: Option<String>) -> (r:
    String)
    ensures
        r@ == default_save_directory_text(
            opt_text(video_dir),
            opt_text(home_dir),
        ),
{
    let base = match video_dir {
        Some(v) => v,
        None => match home_dir {
            Some(h) => join_path(h.as_str(), "Videos"),
            None => String::from_str("."),
        },
    };
    join_path(base.as_str(), "rugif")
}

/// The default save directory of this user.
pub fn default_save_directory() -> (r: String)
    ensures
        exists|v: Option<Seq<char>>, h: Option<Seq<char>>|
            r@ == default_save_directory_text(v, h),
        user_default_save_directory(r@),
{
    let ud = user_dirs_new();
    let video = match &ud {
        Some(dirs) => {
            let v = user_dirs_video_dir(dirs);
            assert(found_video_dir(opt_text(v))) by {
                assert(call_ensures(user_dirs_new, (), ud));
                assert(call_ensures(user_dirs_video_dir, (dirs,), v));
            }
            v
        },
        None => {
            assert(found_video_dir(None)) by {
                assert(call_ensures(user_dirs_new, (), ud));
            }
            None
        },
    };
    let home = match video {
        Some(_) => None,
        None => {
            let bd = base_dirs_new();
            match &bd {
                Some(dirs) => {
                    let h = base_dirs_home_dir(dirs);
                    assert(found_home_dir(Some(h@))) by {
                        assert(call_ensures(base_dirs_new, (), bd));
                        assert(call_ensures(base_dirs_home_dir, (dirs,), h));
                    }
                    Some(h)
                },
                None => {
                    assert(found_home_dir(None)) by {
                        assert(call_ensures(base_dirs_new, (), bd));
                    }
                    None
                },
            }
        },
    };
    let r = default_save_directory_from(video, home);
    assert(user_default_save_directory(r@)) by {
        assert(found_video_dir(opt_text(video)));
        assert(default_save_directory_text(opt_text(video), opt_text(home)) == r@);
    }
    r
}

impl Default for RecordingSettings {
    fn default() -> (r: Self)
        ensures
            r.fps == 15,
            r.quality == 90,
            r.max_duration_secs == 30,
            exists|v: Option<Seq<char>>, h: Option<Seq<char>>|
                r.save_directory@ == default_save_directory_text(v, h),
            user_default_save_directory(r.save_directory@),
    {
        RecordingSettings {
            fps: 15,
            quality: 90,
            max_duration_secs: 30,
            save_directory: default_save_directory(),
        }
    }
}

impl Default for ShortcutSettings {
    fn default() -> (r: Self)
        ensures
            r.record@ == "Super+Shift+R"@,
            r.stop@ == "Super+Shift+S"@,
    {
        ShortcutSettings {
            record: String::from_str("Super+Shift+R"),
            stop: String::from_str("Super+Shift+S"),
        }
    }
}

impl Default for GeneralSettings {
    fn default() -> (r: Self)
        ensures
            r == (GeneralSettings {
                start_on_login: false,
                start_minimized: true,
                notify_on_save: true,
                show_trim_ui: true,
                copy_to_clipboard: true,
            }),
    {
        GeneralSettings {
            start_on_login: false,
            start_minimized: true,
            notify_on_save: true,
            show_trim_ui: true,
            copy_to_clipboard: true,
        }
    }
}

impl Default for Settings {
    fn default() -> (r: Self)
        ensures
            r.recording.fps == 15,
            r.recording.quality == 90,
            r.recording.max_duration_secs == 30,
            exists|v: Option<Seq<char>>, h: Option<Seq<char>>|
                r.recording.save_directory@ == default_save_directory_text(v, h),
            user_default_save_directory(r.recording.save_directory@),
            r.shortcuts.record@ == "Super+Shift+R"@,
            r.shortcuts.stop@ == "Super+Shift+S"@,
            r.general == (GeneralSettings {
                start_on_login: false,
                start_minimized: true,
                notify_on_save: true,
                show_trim_ui: true,
                copy_to_clipboard: true,
            }),
    {
        Settings {
            recording: RecordingSettings::default(),
            shortcuts: ShortcutSettings::default(),
            general: GeneralSettings::default(),
        }
    }
}

/// Recording configuration (runtime, derived from Settings).
#[derive(Debug, Clone)]
pub struct RecordingConfig {
    pub fps: u8,
    pub quality: u8,
    pub output_path: String,
    pub max_duration_secs: u32,
}

impl Default for RecordingConfig {
    fn default() -> (r: Self)
        ensures
            r.fps == 15,
            r.quality == 90,
            r.max_duration_secs == 30,
            exists|v: Option<Seq<char>>, h: Option<Seq<char>>|
                r.output_path@ == path_join(default_save_directory_text(v, h), "output.gif"@),
            exists|dir: Seq<char>|
                user_default_save_directory(dir) && r.output_path@ == path_join(
                    dir,
                    "output.gif"@,
                ),
    {
        let settings = Settings::default();
        RecordingConfig {
            fps: settings.recording.fps,
            quality: settings.recording.quality,
            output_path: join_path(settings.recording.save_directory.as_str(), "output.gif"),
            max_duration_secs: settings.recording.max_duration_secs,
        }
    }
}

// ---------------------------------------------------------------------------
// Files
// ---------------------------------------------------------------------------

/// The settings file inside the configuration directory (or inside
/// `.config/rugif` when none is known).
pub open spec fn config_path_text(config_dir: Option<Seq<char>>) -> Seq<char> {
    let dir = match config_dir {
        Some(d) => d,
        None => ".config/rugif"@,
    };
    path_join(dir, "settings.toml"@)
}

/// The settings file, given the application's configuration directory.
pub fn config_path_from(config_dir: Option<String>) -> (r: String)
    ensures
        r@ == config_path_text(
            opt_text(config_dir),
        ),
{
    let dir = match config_dir {
        Some(d) => d,
        None => String::from_str(".config/rugif"),
    };
    join_path(dir.as_str(), "settings.toml")
}

/// Return the path to the config file (~/.config/rugif/settings.toml): the
/// settings file inside the configuration directory of the application
/// `rugif`, which ends in `/rugif`.
pub fn config_path() -> (r: String)
    ensures
        exists|d: Option<Seq<char>>|
            r@ == #[trigger] config_path_text(d) && (d matches Some(p) ==> ends_with(
                p,
                "/rugif"@,
            )),
        exists|d: Option<Seq<char>>|
            found_config_dir(d) && r@ == #[trigger] config_path_text(d) && (d matches Some(p)
                ==> ends_with(p, "/rugif"@)),
{
    proof {
        reveal_strlit("");
        reveal_strlit("rugif");
        reveal_strlit("/");
        reveal_strlit("/rugif");
    }
    let dir = project_config_dir("", "", "rugif");
    assert("/"@ + "rugif"@ =~= "/rugif"@);
    let r = config_path_from(dir);
    assert(r@ == config_path_text(opt_text(dir)));
    assert(found_config_dir(opt_text(dir))) by {
        assert(call_ensures(project_config_dir, ("", "", "rugif"), dir));
    }
    r
}

/// The desktop entry that starts the recorder in the tray on login.
pub open spec fn autostart_path_text(config_dir: Option<Seq<char>>) -> Seq<char> {
    let dir = match config_dir {
        Some(d) => path_join(d, "autostart"@),
        None => ".config/autostart"@,
    };
    path_join(dir, "rugif.desktop"@)
}

/// The autostart entry's file, given the user's configuration directory.
pub fn autostart_path_from(config_dir: Option<String>) -> (r: String)
    ensures
        r@ == autostart_path_text(
            opt_text(config_dir),
        ),
{
    let dir = match config_dir {
        Some(d) => join_path(d.as_str(), "autostart"),
        None => String::from_str(".config/autostart"),
    };
    join_path(dir.as_str(), "rugif.desktop")
}

/// The autostart entry's file of this user.
pub fn autostart_path() -> (r: String)
    ensures
        exists|d: Option<Seq<char>>| r@ == autostart_path_text(d),
        exists|d: Option<Seq<char>>|
            found_base_config_dir(d) && r@ == #[trigger] autostart_path_text(d),
{
    let bd = base_dirs_new();
    let dir = match &bd {
        Some(dirs) => {
            let c = base_dirs_config_dir(dirs);
            assert(found_base_config_dir(Some(c@))) by {
                assert(call_ensures(base_dirs_new, (), bd));
                assert(call_ensures(base_dirs_config_dir, (dirs,), c));
            }
            Some(c)
        },
        None => {
            assert(found_base_config_dir(None)) by {
                assert(call_ensures(base_dirs_new, (), bd));
            }
            None
        },
    };
    let r = autostart_path_from(dir);
    assert(r@ == autostart_path_text(opt_text(dir)));
    r
}

/// The default save directory is the `rugif` directory inside the videos
/// directory that the lookup found (the found path, a separator, `rugif`);
/// only when none was found is it `Videos/rugif` inside the home directory
/// that was found, and only when that was not found either is it `./rugif`.
pub proof fn lemma_default_save_directory_location(r: String)
    requires
        call_ensures(default_save_directory, (), r),
    ensures
        ends_with(r@, "rugif"@),
        exists|v: Option<Seq<char>>|
            #![trigger found_video_dir(v)]
            found_video_dir(v) && match v {
                Some(p) => starts_with(r@, p) && r@.len() <= p.len() + 6,
                None => exists|h: Option<Seq<char>>|
                    #![trigger found_home_dir(h)]
                    found_home_dir(h) && match h {
                        Some(q) => starts_with(r@, q) && ends_with(r@, "Videos/rugif"@),
                        None => r@ == "./rugif"@,
                    },
            },
{
    reveal_strlit("rugif");
    reveal_strlit("Videos");
    reveal_strlit("Videos/rugif");
    reveal_strlit(".");
    reveal_strlit("./rugif");
    reveal_strlit("/");
    let (v, h) = choose|v: Option<Seq<char>>, h: Option<Seq<char>>|
        found_video_dir(v) && (v is None ==> found_home_dir(h)) && (v is Some ==> h is None)
            && r@ == #[trigger] default_save_directory_text(v, h);
    assert(found_video_dir(v));
    lemma_path_join_extends(
        match v {
            Some(p) => p,
            None => match h {
                Some(q) => path_join(q, "Videos"@),
                None => "."@,
            },
        },
        "rugif"@,
    );
    match v {
        Some(p) => {},
        None => {
            assert(found_home_dir(h));
            match h {
                Some(q) => {
                    let base = path_join(q, "Videos"@);
                    lemma_path_join_extends(q, "Videos"@);
                    assert(base.len() > 0 && base.last() == 's');
                    assert(r@ == base + "/"@ + "rugif"@);
                    assert(r@.subrange(0, q.len() as int) =~= base.subrange(0, q.len() as int));
                    let k = base.len() - 6;
                    assert(base.subrange(k, base.len() as int) == "Videos"@);
                    assert(r@.subrange(r@.len() - 12, r@.len() as int) =~= "Videos/rugif"@);
                },
                None => {
                    assert(r@ =~= "./rugif"@);
                },
            }
        },
    }
}

/// The settings file is `settings.toml` inside the configuration directory
/// that the lookup for the application `rugif` found; only when none was
/// found (no home directory) is it the relative `.config/rugif/settings.toml`.
/// Either way it lies in a directory named `rugif`.
pub proof fn lemma_config_path_location(r: String)
    requires
        call_ensures(config_path, (), r),
    ensures
        ends_with(r@, "/rugif/settings.toml"@),
        exists|d: Option<Seq<char>>|
            #![trigger found_config_dir(d)]
            found_config_dir(d) && match d {
                Some(p) => r@ == p + "/settings.toml"@,
                None => r@ == ".config/rugif/settings.toml"@,
            },
{
    reveal_strlit("/rugif");
    reveal_strlit("settings.toml");
    reveal_strlit("/settings.toml");
    reveal_strlit("/rugif/settings.toml");
    reveal_strlit(".config/rugif");
    reveal_strlit(".config/rugif/settings.toml");
    reveal_strlit("/");
    let d = choose|d: Option<Seq<char>>|
        found_config_dir(d) && r@ == #[trigger] config_path_text(d) && (d matches Some(p)
            ==> ends_with(p, "/rugif"@));
    assert(found_config_dir(d));
    match d {
        Some(p) => {
            let t = p.subrange(p.len() - 6, p.len() as int);
            assert(t == "/rugif"@);
            assert(t[5] == 'f');
            assert(p.last() == t[5]);
            lemma_path_join_extends(p, "settings.toml"@);
            assert(r@ =~= p + "/settings.toml"@);
            assert(r@.subrange(r@.len() - 20, r@.len() as int) =~= t + "/settings.toml"@);
            assert("/rugif"@ + "/settings.toml"@ =~= "/rugif/settings.toml"@);
            assert("/rugif/settings.toml"@.len() == 20);
            assert(ends_with(r@, "/rugif/settings.toml"@));
        },
        None => {
            assert(r@ =~= ".config/rugif/settings.toml"@);
            assert(r@.subrange(r@.len() - 20, r@.len() as int) =~= "/rugif/settings.toml"@);
        },
    }
}

/// The autostart entry is `autostart/rugif.desktop` inside the base
/// configuration directory that the lookup found; only when none was found
/// (no home directory) is it the relative `.config/autostart/rugif.desktop`.
pub proof fn lemma_autostart_path_location(r: String)
    requires
        call_ensures(autostart_path, (), r),
    ensures
        ends_with(r@, "autostart/rugif.desktop"@),
        exists|c: Option<Seq<char>>|
            #![trigger found_base_config_dir(c)]
            found_base_config_dir(c) && match c {
                Some(p) => starts_with(r@, p) && r@.len() <= p.len() + 24,
                None => r@ == ".config/autostart/rugif.desktop"@,
            },
{
    reveal_strlit("autostart");
    reveal_strlit("rugif.desktop");
    reveal_strlit("autostart/rugif.desktop");
    reveal_strlit(".config/autostart");
    reveal_strlit(".config/autostart/rugif.desktop");
    reveal_strlit("/");
    let c = choose|c: Option<Seq<char>>|
        found_base_config_dir(c) && r@ == #[trigger] autostart_path_text(c);
    assert(found_base_config_dir(c));
    match c {
        Some(p) => {
            let dir = path_join(p, "autostart"@);
            lemma_path_join_extends(p, "autostart"@);
            lemma_path_join_extends(dir, "rugif.desktop"@);
            assert(dir.len() > 0 && dir.last() == 't');
            assert(r@ == dir + "/"@ + "rugif.desktop"@);
            assert(r@.subrange(0, p.len() as int) =~= dir.subrange(0, p.len() as int));
            let k = dir.len() - 9;
            let t = dir.subrange(k, dir.len() as int);
            assert(t == "autostart"@);
            assert(r@.len() >= 23);
            assert(r@.subrange(r@.len() - 23, r@.len() as int) =~= t + "/"@ + "rugif.desktop"@);
            assert("autostart"@ + "/"@ + "rugif.desktop"@ =~= "autostart/rugif.desktop"@);
            assert("autostart/rugif.desktop"@.len() == 23);
            assert(ends_with(r@, "autostart/rugif.desktop"@));
        },
        None => {
            assert(r@ =~= ".config/autostart/rugif.desktop"@);
            assert(r@.subrange(r@.len() - 23, r@.len() as int) =~= "autostart/rugif.desktop"@);
        },
    }
}

/// The contents of the autostart entry for the executable at `exe`.
pub open spec fn autostart_entry_text(exe: Seq<char>) -> Seq<char> {
    "[Desktop Entry]\nType=Application\nName=rugif\nComment=GIF screen recorder\nExec="@ + exe
        + " --tray\nTerminal=false\nStartupNotify=false\nX-GNOME-Autostart-enabled=true\n"@
}

/// The autostart entry for the executable at `exe`.
pub fn autostart_entry(exe: &str) -> (r: String)
    ensures
        r@ == autostart_entry_text(exe@),
{
    let mut r = String::from_str(
        "[Desktop Entry]\nType=Application\nName=rugif\nComment=GIF screen recorder\nExec=",
    );
    r.append(exe);
    r.append(" --tray\nTerminal=false\nStartupNotify=false\nX-GNOME-Autostart-enabled=true\n");
    r
}

/// What turning autostart on or off does to the entry's file.
#[derive(Debug, Clone, Copy, PartialEq, Eq, Structural)]
pub enum AutostartChange {
    /// Create the directory and write the entry.
    Write,
    /// Delete the existing entry.
    Remove,
    /// Leave things as they are.
    Keep,
}

/// Turning autostart on writes the entry; turning it off removes the entry
/// when there is one.
pub fn autostart_change(enabled: bool, entry_exists: bool) -> (c: AutostartChange)
    ensures
        c == (if enabled {
            AutostartChange::Write
        } else if entry_exists {
            AutostartChange::Remove
        } else {
            AutostartChange::Keep
        }),
{
    if enabled {
        AutostartChange::Write
    } else if entry_exists {
        AutostartChange::Remove
    } else {
        AutostartChange::Keep
    }
}

/// The status line that the settings window shows after Save: the save's
/// failure, or the autostart update's failure, or success.
pub open spec fn save_status_text(save_error: Option<Seq<char>>, autostart_error: Option<
    Seq<char>,
>) -> Seq<char> {
    match save_error {
        Some(e) => "Failed to save: "@ + e,
        None => match autostart_error {
            Some(e) => "Saved, but autostart failed: "@ + e,
            None => "Settings saved!"@,
        },
    }
}

/// The status line after Save.
pub fn save_status(save_error: Option<String>, autostart_error: Option<String>) -> (r: String)
    ensures
        r@ == save_status_text(
            opt_text(save_error),
            opt_text(autostart_error),
        ),
{
    match save_error {
        Some(e) => concatenate("Failed to save: ", e.as_str()),
        None => match autostart_error {
            Some(e) => concatenate("Saved, but autostart failed: ", e.as_str()),
            None => String::from_str("Settings saved!"),
        },
    }
}

} // verus!
