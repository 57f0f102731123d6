use wallpaper_refresh::counter::{begin_trigger, counter_file_text, next_counter,
    parse_counter_text};
use wallpaper_refresh::files::{parse_wallpaper_stem, stale_marks, wallpaper_file_name,
    wallpaper_stem};

#[test]
fn counter_renders_as_plain_decimal() {
    assert_eq!(counter_file_text(0), "0");
    assert_eq!(counter_file_text(7), "7");
    assert_eq!(counter_file_text(123), "123");
    assert_eq!(counter_file_text(u32::MAX), "4294967295");
}

#[test]
fn counter_parses_stored_text() {
    assert_eq!(parse_counter_text("42"), 42);
    assert_eq!(parse_counter_text("  7\n"), 7);
    assert_eq!(parse_counter_text("0"), 0);
    assert_eq!(parse_counter_text("4294967295"), u32::MAX);
}

#[test]
fn counter_falls_back_to_zero_on_bad_text() {
    assert_eq!(parse_counter_text(""), 0);
    assert_eq!(parse_counter_text("   "), 0);
    assert_eq!(parse_counter_text("abc"), 0);
    assert_eq!(parse_counter_text("12x"), 0);
    assert_eq!(parse_counter_text("4294967296"), 0);
    assert_eq!(parse_counter_text("99999999999999999999999999"), 0);
}

#[test]
fn counter_round_trips_through_the_state_file() {
    for value in [0u32, 1, 9, 10, 300, 65535, u32::MAX] {
        assert_eq!(parse_counter_text(counter_file_text(value).as_str()), value);
    }
}

#[test]
fn counter_reads_number_of_triggers() {
    let mut counter = 0u32;
    let triggers = 5;
    let mut persisted = String::new();
    for _ in 0..triggers {
        let (stepped, text) = begin_trigger(counter);
        counter = stepped;
        persisted = text;
    }
    assert_eq!(counter, triggers);
    assert_eq!(persisted, "5");
    assert_eq!(parse_counter_text(persisted.as_str()), triggers);
}

#[test]
fn a_trigger_steps_and_persists_before_any_outcome() {
    let (stepped, text) = begin_trigger(41);
    assert_eq!(stepped, 42);
    assert_eq!(text, "42");
}

#[test]
fn file_names_carry_the_counter() {
    assert_eq!(wallpaper_stem(12), "wallpaper_12");
    assert_eq!(wallpaper_file_name(12, "jpg"), "wallpaper_12.jpg");
    assert_eq!(wallpaper_file_name(12, "bmp"), "wallpaper_12.bmp");
    assert_eq!(wallpaper_file_name(0, "jpg"), "wallpaper_0.jpg");
}

#[test]
fn stem_parsing_matches_the_naming_pattern() {
    assert_eq!(parse_wallpaper_stem("wallpaper_0"), Some(0));
    assert_eq!(parse_wallpaper_stem("wallpaper_37"), Some(37));
    assert_eq!(parse_wallpaper_stem("wallpaper_4294967295"), Some(u32::MAX));
    assert_eq!(parse_wallpaper_stem("wallpaper_"), None);
    assert_eq!(parse_wallpaper_stem("wallpaper"), None);
    assert_eq!(parse_wallpaper_stem("wallpaper_x"), None);
    assert_eq!(parse_wallpaper_stem("wallpaper_12x"), None);
    assert_eq!(parse_wallpaper_stem("wallpaper_4294967296"), None);
    assert_eq!(parse_wallpaper_stem("icon"), None);
    assert_eq!(parse_wallpaper_stem(""), None);
}

#[test]
fn cleanup_marks_only_earlier_counters() {
    let stems: Vec<String> = vec![
        "wallpaper_1".to_string(),
        "wallpaper_3".to_string(),
        "wallpaper_4".to_string(),
        "wallpaper_5".to_string(),
        "icon".to_string(),
        "wallpaper_x".to_string(),
    ];
    let marks = stale_marks(&stems, 4);
    assert_eq!(marks, vec![true, true, false, false, false, false]);
}

#[test]
fn cleanup_after_refresh_keeps_current_and_later_files() {
    let current = 4u32;
    let mut stems: Vec<String> = Vec::new();
    for value in 1u32..=5 {
        stems.push(wallpaper_stem(value));
    }
    let marks = stale_marks(&stems, current);
    for (stem, stale) in stems.iter().zip(marks.iter()) {
        let value = parse_wallpaper_stem(stem.as_str()).unwrap();
        assert_eq!(*stale, value < current);
    }
    assert_eq!(marks, vec![true, true, true, false, false]);
}
