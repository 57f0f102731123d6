use wallpaper_refresh::settings::{effective_seconds, parse_custom_interval, tile_wallpaper_entry,
    wallpaper_style_entry, UpdateInterval};
use wallpaper_refresh::sources::{default_sources, shuffled_sources};
use wallpaper_refresh::startup::{startup_entry_name, startup_is_registered,
    startup_registration_action, StartupAction};

#[test]
fn fixed_intervals_have_their_seconds() {
    assert_eq!(UpdateInterval::OneMinute.as_seconds(), 60);
    assert_eq!(UpdateInterval::FiveMinutes.as_seconds(), 300);
    assert_eq!(UpdateInterval::FifteenMinutes.as_seconds(), 900);
    assert_eq!(UpdateInterval::ThirtyMinutes.as_seconds(), 1800);
    assert_eq!(UpdateInterval::OneHour.as_seconds(), 3600);
    assert_eq!(UpdateInterval::Custom(42).as_seconds(), 42);
}

#[test]
fn interval_labels() {
    assert_eq!(UpdateInterval::OneMinute.display_name(), "1 menit");
    assert_eq!(UpdateInterval::FiveMinutes.display_name(), "5 menit");
    assert_eq!(UpdateInterval::FifteenMinutes.display_name(), "15 menit");
    assert_eq!(UpdateInterval::ThirtyMinutes.display_name(), "30 menit");
    assert_eq!(UpdateInterval::OneHour.display_name(), "1 jam");
    assert_eq!(UpdateInterval::Custom(301).display_name(), "301 detik (kustom)");
}

#[test]
fn interval_choices_in_display_order() {
    let all = UpdateInterval::all_intervals();
    assert_eq!(
        all,
        vec![
            UpdateInterval::OneMinute,
            UpdateInterval::FiveMinutes,
            UpdateInterval::FifteenMinutes,
            UpdateInterval::ThirtyMinutes,
            UpdateInterval::OneHour,
        ]
    );
}

#[test]
fn custom_interval_text_falls_back_to_300() {
    assert_eq!(parse_custom_interval("250"), 250);
    assert_eq!(parse_custom_interval(" 90 "), 90);
    assert_eq!(parse_custom_interval(""), 300);
    assert_eq!(parse_custom_interval("abc"), 300);
    assert_eq!(parse_custom_interval("12.5"), 300);
}

#[test]
fn effective_seconds_rereads_custom_text() {
    assert_eq!(effective_seconds(&UpdateInterval::Custom(9), "120"), 120);
    assert_eq!(effective_seconds(&UpdateInterval::Custom(9), "junk"), 300);
    assert_eq!(effective_seconds(&UpdateInterval::FiveMinutes, "120"), 300);
}

#[test]
fn persisted_desktop_options_are_fill_and_no_tiling() {
    let (style_key, style_value) = wallpaper_style_entry();
    assert_eq!(style_key, "WallpaperStyle");
    assert_eq!(style_value, "2");
    let (tile_key, tile_value) = tile_wallpaper_entry();
    assert_eq!(tile_key, "TileWallpaper");
    assert_eq!(tile_value, "0");
}

#[test]
fn startup_toggle_targets_one_entry() {
    assert_eq!(startup_entry_name(), "WallpaperUpdater");
    match startup_registration_action(true, "C:\\app.exe".to_string()) {
        StartupAction::SetEntry { name, exe_path } => {
            assert_eq!(name, "WallpaperUpdater");
            assert_eq!(exe_path, "C:\\app.exe");
        }
        StartupAction::RemoveEntry { .. } => panic!("enabling must write the entry"),
    }
    match startup_registration_action(false, "C:\\app.exe".to_string()) {
        StartupAction::RemoveEntry { name } => assert_eq!(name, "WallpaperUpdater"),
        StartupAction::SetEntry { .. } => panic!("disabling must remove the entry"),
    }
}

#[test]
fn startup_check_compares_stored_path() {
    let exe = "C:\\app.exe".to_string();
    assert!(startup_is_registered(&Some("C:\\app.exe".to_string()), &exe));
    assert!(!startup_is_registered(&Some("C:\\other.exe".to_string()), &exe));
    assert!(!startup_is_registered(&None, &exe));
}

#[test]
fn default_sources_in_fixed_order() {
    let sources = default_sources();
    assert_eq!(
        sources,
        vec![
            "https://minimalistic-wallpaper.demolab.com/?random".to_string(),
            "https://source.unsplash.com/random/1920x1080".to_string(),
            "https://picsum.photos/1920/1080".to_string(),
            "https://images.pexels.com/photos/random/1920/1080".to_string(),
        ]
    );
}

#[test]
fn shuffle_keeps_the_same_sources() {
    let mut shuffled = shuffled_sources();
    let mut fixed = default_sources();
    assert_eq!(shuffled.len(), fixed.len());
    shuffled.sort();
    fixed.sort();
    assert_eq!(shuffled, fixed);
}
