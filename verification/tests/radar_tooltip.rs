use codex_usage_taskbar_monitor::radar::model_display_name;
use codex_usage_taskbar_monitor::radar_cache::{CachedSource, RadarCache};
use codex_usage_taskbar_monitor::radar_refresh::{format_radar_tooltip, RadarStatus, RadarTooltipText};

fn english() -> RadarTooltipText<'static> {
    RadarTooltipText {
        loading: "Fetching CodexRadar recommendations...",
        fetch_error: "Unable to fetch CodexRadar recommendations",
        header_template: "Updated {age} ago",
        cached_warning: "Cached data · May be outdated",
        just_now: "just now",
        minute_suffix: "m",
        hour_suffix: "h",
    }
}

fn simplified_chinese() -> RadarTooltipText<'static> {
    RadarTooltipText {
        loading: "正在获取雷达推荐...",
        fetch_error: "雷达推荐数据获取异常",
        header_template: "CodexRadar · {age}更新",
        cached_warning: "缓存数据 · 可能已过期",
        just_now: "刚刚",
        minute_suffix: "分前",
        hour_suffix: "小时前",
    }
}

fn line(label: &str, model: &str, effort: &str, iq: f64, cost: f64) -> String {
    format!("{}  {} {} · IQ {:.1} · ${:.2}", label, model_display_name(model), effort, iq, cost)
}

fn full_cache() -> RadarCache<String, String> {
    let mut cache = RadarCache::default();
    cache.radar = Some(CachedSource { value: "radar".to_string(), validated_at_unix: 100, validator: None });
    cache.computed = Some(CachedSource { value: "computed".to_string(), validated_at_unix: 100, validator: None });
    cache.last_refresh_complete = true;
    cache
}

#[test]
fn formats_complete_simplified_chinese_tooltip() {
    let body = vec![
        line("雷达推荐", "gpt-5.6-sol", "high", 89.73, 4.998),
        line("IQ/$", "gpt-5.6-terra", "max", 93.75, 4.70),
        line("偏智力", "gpt-5.6-sol", "xhigh", 105.8, 6.19),
    ];
    let text = format_radar_tooltip(true, RadarStatus::Ready, &full_cache(), 100 + 12 * 60, &simplified_chinese(), &body);

    assert!(text.contains("12分前更新"));
    assert!(text.contains("雷达推荐  Sol high · IQ 89.7 · $5.00"));
    assert!(text.contains("IQ/$  Terra max · IQ 93.8 · $4.70"));
    assert!(text.contains("偏智力  Sol xhigh · IQ 105.8 · $6.19"));
}

#[test]
fn formats_partial_cached_english_tooltip() {
    let mut cache = full_cache();
    cache.computed = None;
    cache.last_refresh_complete = false;
    let body = vec![
        line("CodexRadar", "gpt-5.6-sol", "high", 89.73, 4.998),
        "IQ/$  Data temporarily unavailable".to_string(),
        "IQ-first  Data temporarily unavailable".to_string(),
    ];
    let text = format_radar_tooltip(true, RadarStatus::Ready, &cache, 100 + 60, &english(), &body);

    assert!(text.contains("Cached data · May be outdated"));
    assert!(text.contains("IQ/$  Data temporarily unavailable"));
    assert!(text.contains("IQ-first  Data temporarily unavailable"));
    assert!(text.starts_with("Updated 1m ago · Cached data · May be outdated\r\n"));
}

#[test]
fn distinguishes_loading_and_fetch_errors() {
    let empty: RadarCache<String, String> = RadarCache::default();
    assert_eq!(
        format_radar_tooltip(true, RadarStatus::Loading, &empty, 100, &english(), &vec![]),
        "Fetching CodexRadar recommendations..."
    );
    assert_eq!(
        format_radar_tooltip(true, RadarStatus::Error, &empty, 100, &simplified_chinese(), &vec![]),
        "雷达推荐数据获取异常"
    );
}
