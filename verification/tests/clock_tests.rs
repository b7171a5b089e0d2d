use git_diary::clock::{
    DateTimeProvider, FixedClock, LocalDateTimeProvider, Moment, FIRST_SECOND, LAST_SECOND,
    SECONDS_PER_DAY,
};

// 2024-01-07 12:00:00 UTC
const NOON: i64 = 1704628800;

#[test]
fn moment_keeps_its_numbers() {
    let m = Moment::new(NOON, 3600).unwrap();
    assert_eq!(m.timestamp(), NOON);
    assert_eq!(m.utc_offset(), 3600);
}

#[test]
fn moment_outside_the_calendar_is_refused() {
    assert!(Moment::new(FIRST_SECOND, 0).is_some());
    assert!(Moment::new(LAST_SECOND, 0).is_some());
    assert!(Moment::new(FIRST_SECOND - 1, 0).is_none());
    assert!(Moment::new(LAST_SECOND + 1, 0).is_none());
    assert!(Moment::new(i64::MIN, 0).is_none());
    assert!(Moment::new(i64::MAX, 0).is_none());
}

#[test]
fn moment_with_a_zone_a_day_away_is_refused() {
    assert!(Moment::new(0, 86_399).is_some());
    assert!(Moment::new(0, -86_399).is_some());
    assert!(Moment::new(0, 86_400).is_none());
    assert!(Moment::new(0, -86_400).is_none());
    assert!(Moment::new(0, i32::MAX).is_none());
    assert!(Moment::new(0, i32::MIN).is_none());
}

#[test]
fn the_calendar_ends_where_chrono_ends() {
    assert!(chrono::DateTime::from_timestamp(FIRST_SECOND, 0).is_some());
    assert!(chrono::DateTime::from_timestamp(FIRST_SECOND - 1, 0).is_none());
    assert!(chrono::DateTime::from_timestamp(LAST_SECOND, 0).is_some());
    assert!(chrono::DateTime::from_timestamp(LAST_SECOND + 1, 0).is_none());
    assert_eq!(chrono::DateTime::<chrono::Utc>::MIN_UTC.timestamp(), FIRST_SECOND);
    assert_eq!(chrono::DateTime::<chrono::Utc>::MAX_UTC.timestamp(), LAST_SECOND);
}

#[test]
fn calendar_date_in_utc() {
    assert_eq!(Moment::new(NOON, 0).unwrap().calendar_date(), "2024-01-07");
    assert_eq!(Moment::new(0, 0).unwrap().calendar_date(), "1970-01-01");
    assert_eq!(Moment::new(-1, 0).unwrap().calendar_date(), "1969-12-31");
    assert_eq!(Moment::new(1709164800, 0).unwrap().calendar_date(), "2024-02-29");
}

#[test]
fn calendar_date_follows_the_zone() {
    // 2024-01-07 23:30:00 UTC
    let late: i64 = 1704670200;
    assert_eq!(Moment::new(late, 0).unwrap().calendar_date(), "2024-01-07");
    assert_eq!(Moment::new(late, 3600).unwrap().calendar_date(), "2024-01-08");
    // 2024-01-07 00:30:00 UTC
    let early: i64 = 1704587400;
    assert_eq!(Moment::new(early, -3600).unwrap().calendar_date(), "2024-01-06");
}

#[test]
fn calendar_date_at_the_ends_of_the_calendar() {
    assert_eq!(Moment::new(FIRST_SECOND, 0).unwrap().calendar_date(), "-262143-01-01");
    assert_eq!(Moment::new(LAST_SECOND, 0).unwrap().calendar_date(), "+262142-12-31");
    assert!(!Moment::new(FIRST_SECOND, -86_399).unwrap().calendar_date().is_empty());
    assert!(!Moment::new(LAST_SECOND, 86_399).unwrap().calendar_date().is_empty());
}

#[test]
fn fixed_clock_stands_still() {
    let now = Moment::new(NOON, 0).unwrap();
    let clock = FixedClock::new(now);
    assert_eq!(clock.now().timestamp(), NOON);
    assert_eq!(clock.now().timestamp(), NOON);
    assert_eq!(clock.now().utc_offset(), 0);
}

#[test]
fn fixed_clock_days_ago_is_never_after_now() {
    let clock = FixedClock::new(Moment::new(NOON, 7200).unwrap());
    let spans: Vec<i64> = vec![0, 1, 7, 30, 365, 10_000, 1_000_000];
    for days in spans {
        let then = clock.days_ago(days).unwrap();
        assert!(then.timestamp() <= clock.now().timestamp());
        assert_eq!(then.timestamp(), NOON - days * SECONDS_PER_DAY);
        assert_eq!(then.utc_offset(), 7200);
    }
}

#[test]
fn fixed_clock_zero_days_ago_is_now() {
    let clock = FixedClock::new(Moment::new(NOON, -18000).unwrap());
    let then = clock.days_ago(0).unwrap();
    assert_eq!(then.timestamp(), clock.now().timestamp());
    assert_eq!(then.utc_offset(), clock.now().utc_offset());
    assert_eq!(then.calendar_date(), clock.now().calendar_date());
}

#[test]
fn fixed_clock_a_week_ago() {
    let clock = FixedClock::new(Moment::new(NOON, 0).unwrap());
    let then = clock.days_ago(7).unwrap();
    assert_eq!(then.timestamp(), 1704024000);
    assert_eq!(then.calendar_date(), "2023-12-31");
}

#[test]
fn days_before_outside_the_calendar_is_none() {
    let now = Moment::new(NOON, 0).unwrap();
    assert!(now.days_before(i64::MAX).is_none());
    assert!(now.days_before(i64::MIN).is_none());
    assert!(now.days_before(200_000_001).is_none());
    assert!(now.days_before(-200_000_001).is_none());
    assert!(now.days_before(100_000_000).is_none());
    let first = Moment::new(FIRST_SECOND, 0).unwrap();
    assert!(first.days_before(1).is_none());
    assert!(first.days_before(0).is_some());
    let last_day = Moment::new(FIRST_SECOND + SECONDS_PER_DAY, 0).unwrap();
    assert_eq!(last_day.days_before(1).unwrap().timestamp(), FIRST_SECOND);
}

#[test]
fn days_before_a_negative_span_goes_forward() {
    let now = Moment::new(NOON, 0).unwrap();
    assert_eq!(now.days_before(-1).unwrap().timestamp(), NOON + SECONDS_PER_DAY);
}

#[test]
fn local_clock_reads_the_present() {
    let clock = LocalDateTimeProvider::new();
    let before = clock.now();
    let after = clock.now();
    // Later than 2024-01-01, and the clock has not gone back by a minute.
    assert!(before.timestamp() > 1704067200);
    assert!(after.timestamp() + 60 >= before.timestamp());
    assert_eq!(before.calendar_date().len(), 10);
}

#[test]
fn local_clock_days_ago() {
    let clock = LocalDateTimeProvider::new();
    let now = clock.now();
    let week = clock.days_ago(7).unwrap();
    let gap = now.timestamp() - week.timestamp();
    assert!(gap >= 7 * SECONDS_PER_DAY - 60 && gap <= 7 * SECONDS_PER_DAY + 60);
    let same = clock.days_ago(0).unwrap();
    assert!((same.timestamp() - now.timestamp()).abs() <= 60);
    assert!(clock.days_ago(i64::MAX).is_none());
    assert!(clock.days_ago(100_000_000).is_none());
}

#[test]
fn local_clock_shows_an_instant_since_1970_within_the_calendar() {
    let now = LocalDateTimeProvider::new().now();
    assert!(0 <= now.timestamp() && now.timestamp() <= LAST_SECOND);
    assert!(-SECONDS_PER_DAY < now.utc_offset() as i64);
    assert!((now.utc_offset() as i64) < SECONDS_PER_DAY);
}

#[test]
fn local_clock_days_ago_lies_whole_days_before_a_reading() {
    let clock = LocalDateTimeProvider::new();
    let spans: Vec<i64> = vec![0, 1, 7, 365, 10_000, -1, -7];
    for days in spans {
        let before = clock.now().timestamp();
        let then = clock.days_ago(days).unwrap();
        let after = clock.now().timestamp();
        let read = then.timestamp() + SECONDS_PER_DAY * days;
        assert!(0 <= read && read <= LAST_SECOND);
        assert!(before - 60 <= read && read <= after + 60);
        if days >= 0 {
            assert!(then.timestamp() <= after + 60);
        }
    }
}

#[test]
fn local_clock_gives_nothing_for_a_span_beyond_the_calendar() {
    let clock = LocalDateTimeProvider::new();
    let span = (LAST_SECOND - FIRST_SECOND) / SECONDS_PER_DAY + 1;
    assert!(clock.days_ago(span).is_none());
    assert!(clock.days_ago(-(LAST_SECOND / SECONDS_PER_DAY) - 1).is_none());
    assert!(clock.days_ago(i64::MIN).is_none());
}

#[test]
fn local_clock_always_reaches_back_as_far_as_the_calendar_does_from_1970() {
    let clock = LocalDateTimeProvider::new();
    let farthest = -FIRST_SECOND / SECONDS_PER_DAY;
    assert_eq!(farthest, 96_465_292);
    let spans: Vec<i64> = vec![0, 1, 7, 36_500, 1_000_000, farthest - 1, farthest];
    for days in spans {
        let before = clock.now().timestamp();
        let then = clock.days_ago(days).unwrap();
        let after = clock.now().timestamp();
        assert!(before <= then.timestamp() + SECONDS_PER_DAY * days);
        assert!(then.timestamp() + SECONDS_PER_DAY * days <= after);
        assert!(then.timestamp() <= after);
        assert!(!then.calendar_date().is_empty());
    }
}

#[test]
fn local_clock_zero_days_ago_is_the_reading() {
    let clock = LocalDateTimeProvider::new();
    let before = clock.now();
    let same = clock.days_ago(0).unwrap();
    let after = clock.now();
    assert!(before.timestamp() <= same.timestamp() && same.timestamp() <= after.timestamp());
    if before.utc_offset() == after.utc_offset() {
        assert_eq!(same.utc_offset(), before.utc_offset());
    }
}
