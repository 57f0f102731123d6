use wallpaper_refresh::fetch::{is_jpeg, FetchPlan, MAX_ATTEMPTS};
use wallpaper_refresh::guard::BusyFlag;

fn jpeg_body() -> Vec<u8> {
    vec![0xFF, 0xD8, 0xFF, 0xE0, 0x00, 0x10]
}

fn png_body() -> Vec<u8> {
    vec![0x89, 0x50, 0x4E, 0x47]
}

#[test]
fn magic_check_accepts_jpeg_marker() {
    assert!(is_jpeg(&jpeg_body()));
}

#[test]
fn magic_check_rejects_other_bytes() {
    assert!(!is_jpeg(&png_body()));
    assert!(!is_jpeg(&vec![]));
}

#[test]
fn magic_check_accepts_the_bare_two_byte_marker() {
    assert!(is_jpeg(&vec![0xFF, 0xD8]));
    assert!(is_jpeg(&vec![0xFF, 0xD8, 0x00]));
    assert!(!is_jpeg(&vec![0xFF]));
}

#[test]
fn first_accepted_body_short_circuits() {
    let mut plan = FetchPlan::new(2);
    assert_eq!(plan.next_candidate(), Some(0));
    plan.record(None);
    assert_eq!(plan.next_candidate(), Some(1));
    plan.record(Some(png_body()));
    assert_eq!(plan.next_candidate(), Some(0));
    plan.record(Some(jpeg_body()));
    assert_eq!(plan.next_candidate(), None);
    assert_eq!(plan.fetches_made(), 3);
    assert!(!plan.has_failed());
    assert_eq!(plan.take_result(), Some(jpeg_body()));
}

#[test]
fn all_rejected_fails_after_whole_schedule() {
    let n_candidates = 2;
    let mut plan = FetchPlan::new(n_candidates);
    let mut fetches = 0;
    while let Some(index) = plan.next_candidate() {
        assert!(index < n_candidates);
        plan.record(Some(png_body()));
        fetches += 1;
        assert!(fetches <= MAX_ATTEMPTS * n_candidates);
    }
    assert_eq!(fetches, MAX_ATTEMPTS * n_candidates);
    assert_eq!(plan.fetches_made(), MAX_ATTEMPTS * n_candidates);
    assert!(plan.has_failed());
    assert_eq!(plan.take_result(), None);
}

#[test]
fn candidates_walked_in_order_per_attempt() {
    let mut plan = FetchPlan::new(3);
    let mut seen = Vec::new();
    while let Some(index) = plan.next_candidate() {
        seen.push(index);
        plan.record(None);
    }
    assert_eq!(seen, vec![0, 1, 2, 0, 1, 2, 0, 1, 2]);
}

#[test]
fn busy_flag_grants_one_worker_at_a_time() {
    let mut flag = BusyFlag::new();
    assert!(!flag.is_processing());
    assert!(flag.try_acquire());
    assert!(flag.is_processing());
    assert!(!flag.try_acquire());
    assert!(flag.is_processing());
    flag.release();
    assert!(!flag.is_processing());
    assert!(flag.try_acquire());
}
