use brb::countdown::{format_duration, Countdown};

#[test]
fn set_duration_shows_full_duration() {
    for d in [0u64, 1, 5_000, 3_600_000, u64::MAX] {
        let mut c = Countdown::new();
        c.set_duration(d, 42);
        assert_eq!(c.remaining_ms, Some(d));
        assert_eq!(c.run, Some((42, d)));
    }
}

#[test]
fn set_duration_restarts_a_running_countdown() {
    let mut c = Countdown::new();
    c.set_duration(5_000, 0);
    c.tick(4_000, false);
    c.set_duration(10_000, 4_000);
    assert_eq!(c.remaining_ms, Some(10_000));
    c.tick(5_000, false);
    assert_eq!(c.remaining_ms, Some(9_000));
}

#[test]
fn tick_without_duration_does_nothing() {
    let mut c = Countdown::new();
    c.tick(1_000, false);
    assert_eq!(c.remaining_ms, None);
    assert_eq!(c.percentage(1_000), None);
}

#[test]
fn tick_before_expiry_counts_down() {
    let mut c = Countdown::new();
    c.set_duration(60_000, 1_000);
    for e in [0u64, 1, 999, 30_000, 59_999] {
        c.tick(1_000 + e, true);
        assert_eq!(c.remaining_ms, Some(60_000 - e));
    }
}

#[test]
fn tick_before_start_counts_as_no_time_elapsed() {
    let mut c = Countdown::new();
    c.set_duration(5_000, 10_000);
    c.tick(9_000, false);
    assert_eq!(c.remaining_ms, Some(5_000));
    assert_eq!(c.percentage(9_000), Some(0));
}

#[test]
fn five_second_countdown_shown_at_expiry() {
    let mut c = Countdown::new();
    c.set_duration(5_000, 0);
    c.tick(0, false);
    assert_eq!(c.remaining_ms, Some(5_000));
    c.tick(3_000, false);
    assert_eq!(c.remaining_ms, Some(2_000));
    c.tick(6_000, false);
    assert_eq!(c.remaining_ms, Some(0));
    c.tick(10_000, false);
    assert_eq!(c.remaining_ms, Some(0));
}

#[test]
fn five_second_countdown_hidden_at_expiry() {
    let mut c = Countdown::new();
    c.set_duration(5_000, 0);
    c.tick(6_000, true);
    assert_eq!(c.remaining_ms, None);
    for t in [6_100u64, 7_000, 60_000, u64::MAX] {
        c.tick(t, true);
        assert_eq!(c.remaining_ms, None);
    }
}

#[test]
fn expiry_exactly_at_duration() {
    let mut c = Countdown::new();
    c.set_duration(5_000, 0);
    c.tick(5_000, false);
    assert_eq!(c.remaining_ms, Some(0));
    c.tick(5_000, true);
    assert_eq!(c.remaining_ms, None);
}

#[test]
fn percentage_grows_and_stops_at_hundred() {
    let mut c = Countdown::new();
    c.set_duration(8_000, 2_000);
    let mut last = 0u16;
    for t in (2_000u64..20_000).step_by(250) {
        let p = c.percentage(t).unwrap();
        assert!(p >= last);
        assert!(p <= 100);
        last = p;
    }
    assert_eq!(c.percentage(2_000), Some(0));
    assert_eq!(c.percentage(4_000), Some(25));
    assert_eq!(c.percentage(6_000), Some(50));
    assert_eq!(c.percentage(9_999), Some(99));
    assert_eq!(c.percentage(10_000), Some(100));
    assert_eq!(c.percentage(u64::MAX), Some(100));
}

#[test]
fn percentage_rounds_down() {
    let mut c = Countdown::new();
    c.set_duration(3_000, 0);
    assert_eq!(c.percentage(1_000), Some(33));
    assert_eq!(c.percentage(2_000), Some(66));
}

#[test]
fn percentage_of_zero_duration_is_complete() {
    let mut c = Countdown::new();
    c.set_duration(0, 500);
    assert_eq!(c.percentage(500), Some(100));
    c.tick(500, false);
    assert_eq!(c.remaining_ms, Some(0));
}

#[test]
fn percentage_of_huge_duration_does_not_overflow() {
    let mut c = Countdown::new();
    c.set_duration(u64::MAX, 0);
    assert_eq!(c.percentage(u64::MAX / 2), Some(49));
    assert_eq!(c.percentage(u64::MAX - 1), Some(99));
}

#[test]
fn format_duration_minutes_and_seconds() {
    assert_eq!(format_duration(0), "00:00");
    assert_eq!(format_duration(999), "00:00");
    assert_eq!(format_duration(59_999), "00:59");
    assert_eq!(format_duration(65_000), "01:05");
    assert_eq!(format_duration(600_000), "10:00");
    assert_eq!(format_duration(5_999_000), "99:59");
    assert_eq!(format_duration(6_000_000), "100:00");
    assert_eq!(format_duration(u64::MAX), "307445734561825:51");
}
