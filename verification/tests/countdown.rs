use std::time::Duration;

use codex_usage_taskbar_monitor::clock::{now_unix_secs, UnixTime};
use codex_usage_taskbar_monitor::countdown::{
    display_change_delay_at, display_change_delay_from_secs, format_countdown, format_countdown_at,
    format_countdown_from_secs, format_two_units, seconds_until, time_until_display_change,
};
use codex_usage_taskbar_monitor::text::decimal_string;

#[test]
fn formats_countdowns_with_two_compact_ascii_units() {
    assert_eq!(format_countdown_from_secs(4 * 86_400 + 17 * 3_600), "4d17h");
    assert_eq!(format_countdown_from_secs(4 * 86_400), "4d");
    assert_eq!(format_countdown_from_secs(17 * 3_600 + 25 * 60), "17h25m");
    assert_eq!(format_countdown_from_secs(17 * 3_600), "17h");
    assert_eq!(format_countdown_from_secs(25 * 60 + 49), "25m49s");
    assert_eq!(format_countdown_from_secs(25 * 60), "25m");
    assert_eq!(format_countdown_from_secs(49), "49s");
}

#[test]
fn schedules_updates_for_the_smallest_displayed_unit() {
    assert_eq!(
        Duration::from_secs(display_change_delay_from_secs(4 * 86_400 + 17 * 3_600 + 25 * 60 + 49)),
        Duration::from_secs(25 * 60 + 50)
    );
    assert_eq!(
        Duration::from_secs(display_change_delay_from_secs(17 * 3_600 + 25 * 60 + 49)),
        Duration::from_secs(50)
    );
    assert_eq!(
        Duration::from_secs(display_change_delay_from_secs(25 * 60 + 49)),
        Duration::from_secs(1)
    );
}

#[test]
fn countdown_edges_and_zero() {
    assert_eq!(format_countdown_from_secs(0), "0s");
    assert_eq!(format_countdown_from_secs(59), "59s");
    assert_eq!(format_countdown_from_secs(60), "1m");
    assert_eq!(format_countdown_from_secs(3_599), "59m59s");
    assert_eq!(format_countdown_from_secs(3_600), "1h");
    assert_eq!(format_countdown_from_secs(86_399), "23h59m");
    assert_eq!(format_countdown_from_secs(86_400), "1d");
    assert_eq!(format_countdown_from_secs(u64::MAX), "213503982334601d7h");
    assert_eq!(format_two_units(3, 'h', 0, 'm'), "3h");
    assert_eq!(format_two_units(3, 'h', 7, 'm'), "3h7m");
}

#[test]
fn decimal_rendering_matches_to_string() {
    for n in [0u64, 7, 10, 99, 100, 12345, u64::MAX] {
        assert_eq!(decimal_string(n), n.to_string());
    }
}

#[test]
fn countdown_text_is_stable_until_the_scheduled_delay() {
    for total in [49u64, 25 * 60 + 49, 17 * 3_600 + 25 * 60 + 49, 4 * 86_400 + 17 * 3_600 + 25 * 60 + 49] {
        let delay = display_change_delay_from_secs(total);
        let text = format_countdown_from_secs(total);
        for elapsed in 0..delay {
            assert_eq!(format_countdown_from_secs(total - elapsed), text);
        }
        assert_ne!(format_countdown_from_secs(total - delay), text);
    }
}

#[test]
fn remaining_seconds_round_down_with_a_sub_second_clock() {
    let whole = UnixTime { secs: 100, nanos: 0 };
    let partial = UnixTime { secs: 100, nanos: 500_000_000 };
    assert_eq!(seconds_until(160, whole), Some(60));
    assert_eq!(seconds_until(160, partial), Some(59));
    assert_eq!(seconds_until(100, whole), Some(0));
    assert_eq!(seconds_until(100, partial), None);
    assert_eq!(seconds_until(99, whole), None);
}

#[test]
fn countdown_at_a_given_time() {
    let now = UnixTime { secs: 1_000, nanos: 0 };
    assert_eq!(format_countdown_at(None, "now", now), "");
    assert_eq!(format_countdown_at(Some(900), "now", now), "now");
    assert_eq!(format_countdown_at(Some(1_000 + 3_600 + 120), "now", now), "1h2m");
    assert_eq!(display_change_delay_at(None, now), None);
    assert_eq!(display_change_delay_at(Some(900), now), None);
    assert_eq!(display_change_delay_at(Some(1_000 + 3_600 + 125), now), Some(6));
}

#[test]
fn countdown_from_the_system_clock() {
    let now = now_unix_secs();
    assert!(now > 1_600_000_000);
    assert_eq!(time_until_display_change(None), None);
    assert_eq!(time_until_display_change(Some(0)), None);
    assert!(time_until_display_change(Some(now + 10 * 86_400)).is_some());
    assert_eq!(format_countdown(None, "now"), "");
    assert_eq!(format_countdown(Some(0), "now"), "now");
    assert!(format_countdown(Some(now + 10 * 86_400), "now").ends_with('h') || format_countdown(Some(now + 10 * 86_400), "now").ends_with('d'));
}

#[test]
fn countdown_changes_once_the_delay_has_passed() {
    for total in [0u64, 1, 59, 60, 61, 3_599, 3_600, 3_601, 3_660, 86_399, 86_400, 86_401, 89_999, 90_000, 4 * 86_400 + 17 * 3_600 + 25 * 60 + 49] {
        let delay = display_change_delay_from_secs(total);
        assert!(delay >= 1);
        for elapsed in 0..delay.min(total + 1) {
            assert_eq!(format_countdown_from_secs(total - elapsed), format_countdown_from_secs(total), "{total} {elapsed}");
        }
        if delay <= total {
            assert_ne!(format_countdown_from_secs(total - delay), format_countdown_from_secs(total), "{total}");
        }
    }
}
