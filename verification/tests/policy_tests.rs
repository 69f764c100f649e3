use wiki::clock::{timestamp_from_text, Timestamp};
use wiki::policy::{
    needs_reverification, needs_reverification_text, staleness, Staleness, STALE_AFTER_SECS,
};

const DAY: i64 = 86_400;

#[test]
fn baseline_tiers_never_go_stale() {
    let now = Timestamp::from_secs(1_000 * DAY);
    assert!(!needs_reverification(0, Some(0), now));
    assert!(!needs_reverification(1, Some(0), now));
    assert_eq!(staleness(0, Some(0), now), Staleness::Exempt);
    assert_eq!(staleness(1, None, now), Staleness::Exempt);
}

#[test]
fn threshold_is_thirty_days() {
    assert_eq!(STALE_AFTER_SECS, 30 * DAY);
}

#[test]
fn elevated_privilege_goes_stale_after_thirty_days() {
    let anchor = 500 * DAY;
    let at_limit = Timestamp::from_secs(anchor + 30 * DAY);
    assert!(!needs_reverification(2, Some(anchor), at_limit));
    assert_eq!(staleness(2, Some(anchor), at_limit), Staleness::Fresh);

    let just_over = Timestamp::new(anchor + 30 * DAY, 1);
    assert!(needs_reverification(2, Some(anchor), just_over));
    assert_eq!(staleness(2, Some(anchor), just_over), Staleness::Stale);

    let next_second = Timestamp::from_secs(anchor + 30 * DAY + 1);
    assert!(needs_reverification(7, Some(anchor), next_second));
}

#[test]
fn thirty_one_days_is_stale_and_twenty_nine_is_not() {
    let now = Timestamp::new(2_000 * DAY, 999_999_999);
    assert!(needs_reverification(5, Some(now.secs - 31 * DAY), now));
    assert!(!needs_reverification(5, Some(now.secs - 29 * DAY), now));
}

#[test]
fn anchor_in_the_future_is_fresh() {
    let now = Timestamp::from_secs(100 * DAY);
    assert!(!needs_reverification(3, Some(200 * DAY), now));
    assert_eq!(staleness(3, Some(200 * DAY), now), Staleness::Fresh);
}

#[test]
fn negative_privilege_is_not_exempt() {
    let now = Timestamp::from_secs(100 * DAY);
    assert!(needs_reverification(-1, Some(0), now));
}

#[test]
fn extreme_timestamps_do_not_overflow() {
    let now = Timestamp::new(i64::MAX, u32::MAX);
    assert!(needs_reverification(2, Some(i64::MIN), now));
    let early = Timestamp::new(i64::MIN, 0);
    assert!(!needs_reverification(2, Some(i64::MAX), early));
}

#[test]
fn unreadable_anchor_fails_open_and_is_told_apart() {
    let now = Timestamp::from_secs(1_000 * DAY);
    assert!(!needs_reverification(4, None, now));
    assert_eq!(staleness(4, None, now), Staleness::Unreadable);
    assert_ne!(staleness(4, None, now), staleness(4, Some(now.secs), now));
}

#[test]
fn stored_text_is_parsed_as_utc() {
    assert_eq!(timestamp_from_text("1970-01-01 00:00:00"), Some(0));
    assert_eq!(timestamp_from_text("2015-09-05 23:56:04"), Some(1_441_497_364));
    assert_eq!(timestamp_from_text("2001-09-09 01:46:39"), Some(999_999_999));
}

#[test]
fn malformed_text_does_not_parse() {
    assert_eq!(timestamp_from_text(""), None);
    assert_eq!(timestamp_from_text("yesterday"), None);
    assert_eq!(timestamp_from_text("2015-09-05"), None);
    assert_eq!(timestamp_from_text("2015-09-05 24:00:00"), None);
    assert_eq!(timestamp_from_text("2015-09-05 23:56:04 trailing"), None);
}

#[test]
fn policy_on_stored_text() {
    let now = Timestamp::from_secs(1_441_497_364 + 31 * DAY);
    assert!(needs_reverification_text(5, "2015-09-05 23:56:04", now));
    assert!(!needs_reverification_text(1, "2015-09-05 23:56:04", now));
    assert!(!needs_reverification_text(5, "not a timestamp", now));
    let soon = Timestamp::from_secs(1_441_497_364 + 29 * DAY);
    assert!(!needs_reverification_text(5, "2015-09-05 23:56:04", soon));
}

#[test]
fn clock_reads_a_plausible_time() {
    let now = Timestamp::now();
    // After 2020-01-01 and with a sub-second part that chrono allows.
    assert!(now.secs > 1_577_836_800);
    assert!(now.nanos < 2_000_000_000);
}

#[test]
fn unix_seconds_are_the_whole_seconds() {
    assert_eq!(Timestamp::new(1_700_000_000, 999_999_999).unix_seconds(), 1_700_000_000);
    assert_eq!(Timestamp::from_secs(0).unix_seconds(), 0);
    assert_eq!(Timestamp::new(59, 1).unix_seconds(), 59);
    assert_eq!(Timestamp::from_secs(i64::MAX).unix_seconds(), i64::MAX as u64);
}

#[test]
fn clock_does_not_read_before_the_epoch() {
    assert!(Timestamp::now().secs >= 0);
}
