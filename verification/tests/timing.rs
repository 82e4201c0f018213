use solana_stablecoin::timing::has_interval_elapsed;
use solana_stablecoin::timing::is_within_window;
use solana_stablecoin::timing::seconds_between;

#[test]
fn window_is_closed_at_its_far_end() {
    assert!(is_within_window(1_300, 1_000, 300));
    assert!(!is_within_window(1_301, 1_000, 300));
    assert!(is_within_window(1_000, 1_000, 300));
    // an observation from the future has a negative age
    assert!(is_within_window(900, 1_000, 300));
}

#[test]
fn interval_has_elapsed_from_its_length_on() {
    assert!(!has_interval_elapsed(604_799, 0, 604_800));
    assert!(has_interval_elapsed(604_800, 0, 604_800));
    assert!(has_interval_elapsed(604_801, 0, 604_800));
}

#[test]
fn differences_of_extreme_times_do_not_wrap() {
    assert_eq!(seconds_between(i64::MAX, i64::MIN), (1i128 << 64) - 1);
    assert_eq!(seconds_between(i64::MIN, i64::MAX), -((1i128 << 64) - 1));
    assert!(!is_within_window(i64::MAX, i64::MIN, 300));
    assert!(has_interval_elapsed(i64::MAX, i64::MIN, 604_800));
}
