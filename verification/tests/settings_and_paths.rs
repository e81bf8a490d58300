use rugif::config::{
    autostart_change, autostart_entry, autostart_path_from, config_path, config_path_from,
    default_save_directory, default_save_directory_from, save_status, AutostartChange,
    GeneralSettings, RecordingConfig, RecordingSettings, Settings, ShortcutSettings,
};

#[test]
fn save_directory_prefers_videos() {
    assert_eq!(
        default_save_directory_from(Some("/home/a/Vids".into()), Some("/home/a".into())),
        "/home/a/Vids/rugif"
    );
    assert_eq!(default_save_directory_from(None, Some("/home/a".into())), "/home/a/Videos/rugif");
    assert_eq!(default_save_directory_from(None, None), "./rugif");
}

#[test]
fn save_directory_of_this_user_ends_in_rugif() {
    assert!(default_save_directory().ends_with("rugif"));
}

#[test]
fn config_file_location() {
    assert_eq!(config_path_from(Some("/home/a/.config/rugif".into())), "/home/a/.config/rugif/settings.toml");
    assert_eq!(config_path_from(None), ".config/rugif/settings.toml");
    assert!(config_path().ends_with("/rugif/settings.toml"));
}

#[test]
fn autostart_entry_location_and_contents() {
    assert_eq!(autostart_path_from(Some("/home/a/.config".into())), "/home/a/.config/autostart/rugif.desktop");
    assert_eq!(autostart_path_from(None), ".config/autostart/rugif.desktop");
    assert_eq!(
        autostart_entry("/usr/bin/rugif"),
        "[Desktop Entry]\nType=Application\nName=rugif\nComment=GIF screen recorder\nExec=/usr/bin/rugif --tray\nTerminal=false\nStartupNotify=false\nX-GNOME-Autostart-enabled=true\n"
    );
}

#[test]
fn autostart_changes() {
    assert_eq!(autostart_change(true, false), AutostartChange::Write);
    assert_eq!(autostart_change(true, true), AutostartChange::Write);
    assert_eq!(autostart_change(false, true), AutostartChange::Remove);
    assert_eq!(autostart_change(false, false), AutostartChange::Keep);
}

#[test]
fn save_status_lines() {
    assert_eq!(save_status(None, None), "Settings saved!");
    assert_eq!(save_status(None, Some("denied".into())), "Saved, but autostart failed: denied");
    assert_eq!(save_status(Some("disk full".into()), None), "Failed to save: disk full");
}

#[test]
fn default_settings() {
    let s = Settings::default();
    assert_eq!(s.recording.fps, 15);
    assert_eq!(s.recording.quality, 90);
    assert_eq!(s.recording.max_duration_secs, 30);
    assert!(s.recording.save_directory.ends_with("rugif"));
    assert_eq!(s.shortcuts.record, "Super+Shift+R");
    assert_eq!(s.shortcuts.stop, "Super+Shift+S");
    assert_eq!(
        s.general,
        GeneralSettings {
            start_on_login: false,
            start_minimized: true,
            notify_on_save: true,
            show_trim_ui: true,
            copy_to_clipboard: true,
        }
    );
    let r = RecordingSettings::default();
    assert_eq!((r.fps, r.quality, r.max_duration_secs), (15, 90, 30));
    let k = ShortcutSettings::default();
    assert_eq!(k.record, "Super+Shift+R");
}

#[test]
fn default_recording_config() {
    let c = RecordingConfig::default();
    assert_eq!((c.fps, c.quality, c.max_duration_secs), (15, 90, 30));
    assert!(c.output_path.ends_with("rugif/output.gif"));
}
