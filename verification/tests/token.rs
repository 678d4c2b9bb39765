use keyvault_tui::token::{needs_refresh, refresh_threshold, ttl_millis};

#[test]
fn threshold_is_a_tenth_of_the_lifetime_between_one_second_and_two_minutes() {
    assert_eq!(refresh_threshold(3_600_000), 120);
    assert_eq!(refresh_threshold(600_000), 60);
    assert_eq!(refresh_threshold(5_000), 1);
    assert_eq!(refresh_threshold(0), 1);
    assert_eq!(refresh_threshold(1_200_000), 120);
    assert_eq!(refresh_threshold(1_199_999), 119);
}

#[test]
fn fresh_token_needs_no_refresh() {
    let fetched_at = 50_000;
    assert!(!needs_refresh(fetched_at + 1_000, fetched_at, 3_600_000));
}

#[test]
fn token_with_sixty_seconds_left_needs_refresh() {
    let fetched_at = 50_000;
    let now = fetched_at + 3_600_000 - 60_000;
    assert!(needs_refresh(now, fetched_at, 3_600_000));
}

#[test]
fn refresh_starts_exactly_at_the_margin() {
    assert!(!needs_refresh(3_479_999, 0, 3_600_000));
    assert!(needs_refresh(3_480_000, 0, 3_600_000));
    assert!(!needs_refresh(u64::MAX, u64::MAX, u64::MAX));
    assert!(needs_refresh(u64::MAX, 0, u64::MAX));
}

#[test]
fn lifetime_is_at_least_one_second_and_saturates() {
    assert_eq!(ttl_millis(-5), 1_000);
    assert_eq!(ttl_millis(0), 1_000);
    assert_eq!(ttl_millis(10), 10_000);
    assert_eq!(ttl_millis(3_600), 3_600_000);
    assert_eq!(ttl_millis(i64::MAX), u64::MAX);
}
