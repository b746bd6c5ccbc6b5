use codex_usage_taskbar_monitor::radar_cache::{CachedSource, RadarCache, RadarRefreshResult, SourceUpdate};
use codex_usage_taskbar_monitor::radar_refresh::{
    format_radar_age, format_radar_tooltip, initial_radar_action, radar_timer_ms, replace_all,
    timer_after_update_ms, RadarRuntimeState, RadarStart, RadarStatus, RadarTooltipText,
};

fn state() -> RadarRuntimeState<u32, u32> {
    RadarRuntimeState {
        status: RadarStatus::Error,
        cache: RadarCache::default(),
        in_flight: false,
        request_generation: 0,
    }
}

#[test]
fn refresh_starts_once_and_respects_manual_cooldown() {
    let mut s = state();
    assert!(s.begin_refresh(false, false, 100).is_none());
    let (generation, validators) = s.begin_refresh(true, false, 100).unwrap();
    assert_eq!(generation, 1);
    assert_eq!(validators.radar_last_modified, None);
    assert!(s.in_flight);
    assert_eq!(s.status, RadarStatus::Loading);
    assert_eq!(s.cache.last_attempt_unix, Some(100));
    assert!(s.begin_refresh(true, false, 101).is_none());

    let refresh = RadarRefreshResult {
        radar: SourceUpdate::Updated { value: 5, validator: Some("d".to_string()) },
        computed: SourceUpdate::Failed("x".to_string()),
    };
    assert_eq!(s.complete_refresh(true, generation, refresh, 130), Some(false));
    assert!(!s.in_flight);
    assert_eq!(s.status, RadarStatus::Ready);
    assert_eq!(s.cache.last_attempt_unix, Some(130));
    assert!(s.begin_refresh(true, true, 189).is_none());
    assert_eq!(s.begin_refresh(true, true, 190).unwrap().0, 2);
}

#[test]
fn stale_results_are_dropped() {
    let mut s = state();
    let (generation, _) = s.begin_refresh(true, false, 100).unwrap();
    let refresh = RadarRefreshResult {
        radar: SourceUpdate::Updated { value: 5, validator: None },
        computed: SourceUpdate::Updated { value: 6, validator: None },
    };
    assert_eq!(s.complete_refresh(true, generation + 1, refresh.clone(), 110), None);
    assert!(s.in_flight);
    assert_eq!(s.complete_refresh(false, generation, refresh.clone(), 110), None);
    assert_eq!(s.complete_refresh(true, generation, refresh, 110), Some(true));
    assert!(s.cache.last_refresh_complete);
}

#[test]
fn failed_refresh_without_data_reports_error() {
    let mut s = state();
    let (generation, _) = s.begin_refresh(true, false, 100).unwrap();
    let refresh: RadarRefreshResult<u32, u32> = RadarRefreshResult {
        radar: SourceUpdate::NotModified,
        computed: SourceUpdate::Failed("offline".to_string()),
    };
    assert_eq!(s.complete_refresh(true, generation, refresh, 105), Some(false));
    assert_eq!(s.status, RadarStatus::Error);
    assert_eq!(s.cache.retry_count, 1);
}

#[test]
fn timers_and_start() {
    assert_eq!(initial_radar_action(false, 0), RadarStart::Idle);
    assert_eq!(initial_radar_action(true, 0), RadarStart::RefreshNow);
    assert_eq!(initial_radar_action(true, 30), RadarStart::ScheduleIn(30));
    assert_eq!(radar_timer_ms(0), 1000);
    assert_eq!(radar_timer_ms(90), 90_000);
    assert_eq!(radar_timer_ms(u64::MAX), u32::MAX);
    assert_eq!(radar_timer_ms(4_294_967), 4_294_967_000);
    assert_eq!(radar_timer_ms(4_294_968), u32::MAX);
    assert_eq!(timer_after_update_ms(0), 1000);
}

#[test]
fn ages_and_replacement() {
    assert_eq!(format_radar_age(59, "just now", "m", "h"), "just now");
    assert_eq!(format_radar_age(12 * 60, "just now", "分", "小时"), "12分");
    assert_eq!(format_radar_age(3 * 3600 + 5, "just now", "m", "h"), "3h");
    assert_eq!(replace_all("Updated {age} ago {age}", "{age}", "5m"), "Updated 5m ago 5m");
    assert_eq!(replace_all("none", "{age}", "5m"), "none");
    assert_eq!(replace_all("{age}前更新", "{age}", "12分"), "12分前更新");
}

fn text() -> RadarTooltipText<'static> {
    RadarTooltipText {
        loading: "Fetching CodexRadar recommendations...",
        fetch_error: "Unable to fetch CodexRadar recommendations",
        header_template: "Updated {age} ago",
        cached_warning: "May be outdated",
        just_now: "just now",
        minute_suffix: "m",
        hour_suffix: "h",
    }
}

#[test]
fn recommendation_tooltip() {
    let empty: RadarCache<u32, u32> = RadarCache::default();
    let body = vec!["Speed  Sol high".to_string(), "Daily  Luna low".to_string()];
    assert_eq!(format_radar_tooltip(false, RadarStatus::Ready, &empty, 100, &text(), &body), "");
    assert_eq!(
        format_radar_tooltip(true, RadarStatus::Loading, &empty, 100, &text(), &body),
        "Fetching CodexRadar recommendations..."
    );
    assert_eq!(
        format_radar_tooltip(true, RadarStatus::Error, &empty, 100, &text(), &body),
        "Unable to fetch CodexRadar recommendations"
    );
    let mut cache: RadarCache<u32, u32> = RadarCache::default();
    cache.radar = Some(CachedSource { value: 1, validated_at_unix: 100, validator: None });
    cache.computed = Some(CachedSource { value: 2, validated_at_unix: 40, validator: None });
    cache.last_refresh_complete = true;
    assert_eq!(
        format_radar_tooltip(true, RadarStatus::Ready, &cache, 100 + 12 * 60, &text(), &body),
        "Updated 13m ago\r\nSpeed  Sol high\r\nDaily  Luna low"
    );
    cache.last_refresh_complete = false;
    assert_eq!(
        format_radar_tooltip(true, RadarStatus::Ready, &cache, 100, &text(), &vec![]),
        "Updated 1m ago · May be outdated"
    );
}

#[test]
fn a_newer_refresh_supersedes_the_older_one() {
    let mut s = state();
    let (first, _) = s.begin_refresh(true, false, 100).unwrap();
    s.in_flight = false;
    let (second, _) = s.begin_refresh(true, false, 200).unwrap();
    assert_ne!(first, second);
    let refresh = RadarRefreshResult {
        radar: SourceUpdate::Updated { value: 1, validator: None },
        computed: SourceUpdate::Updated { value: 2, validator: None },
    };
    assert_eq!(s.complete_refresh(true, first, refresh.clone(), 210), None);
    assert_eq!(s.complete_refresh(true, second, refresh, 210), Some(true));

    let mut wrapped = RadarRuntimeState { request_generation: u64::MAX, ..state() };
    assert_eq!(wrapped.begin_refresh(true, false, 5).unwrap().0, 0);
}
