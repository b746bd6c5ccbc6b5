use codex_usage_taskbar_monitor::layout::{
    clamp_offset_for_taskbar, client_point_from_lparam, compute_anchor_y, dpi_from_wparam, drag_offset,
    is_drag_handle_point, model_usage_width, offset_for_drop_point, row_bar_segment_count, sc,
    taskbar_at_point, total_widget_width_for, tray_left_edge, Rect,
};
use codex_usage_taskbar_monitor::menu::{
    menu_command, toggle_usage_window, version_action_label, InstallChannel, LanguageId, MenuCommand,
    UpdateStatus, UsageWindowChoice, VersionLabels,
};
use codex_usage_taskbar_monitor::settings::{
    default_poll_interval, default_show_usage_window, default_widget_visible, SettingsFile, POLL_15_MIN,
    POLL_1_HOUR,
};
use codex_usage_taskbar_monitor::tray::{
    encode_utf16, fixed_wide_text, handle_message, preferred_tray_window, tray_tooltip, TrayAction,
    TrayTooltipInput, TrayUsageWindow,
};
use codex_usage_taskbar_monitor::updater::ReleaseDescriptor;
use codex_usage_taskbar_monitor::usage::UsageDisplayMode;

#[test]
fn tray_icon_prefers_the_5_hour_window_when_it_is_visible_and_available() {
    assert_eq!(
        preferred_tray_window(true, true, true, true),
        Some(TrayUsageWindow::Session)
    );
}

#[test]
fn tray_icon_falls_back_to_the_7_day_window_when_5_hour_is_hidden_or_missing() {
    assert_eq!(
        preferred_tray_window(false, true, true, true),
        Some(TrayUsageWindow::Weekly)
    );
    assert_eq!(
        preferred_tray_window(true, false, true, true),
        Some(TrayUsageWindow::Weekly)
    );
}

#[test]
fn no_tray_window_when_nothing_is_shown() {
    assert_eq!(preferred_tray_window(false, true, false, true), None);
    assert_eq!(preferred_tray_window(true, false, true, false), None);
}

#[test]
fn scaling_matches_float_rounding() {
    for dpi in [0u32, 96, 120, 144, 168, 192, 240, 288, 1000, u32::MAX] {
        for px in [-500i32, -48, -25, -1, 0, 1, 3, 10, 13, 25, 46, 62, i32::MAX, i32::MIN] {
            let expected = (px as f64 * dpi as f64 / 96.0).round() as i32;
            assert_eq!(sc(px, dpi), expected, "px {px} dpi {dpi}");
        }
    }
    assert_eq!(sc(25, 144), 38);
    assert_eq!(sc(1, 144), 2);
}

#[test]
fn widget_width_at_common_dpis() {
    assert_eq!(row_bar_segment_count(3), 10);
    assert_eq!(model_usage_width(10, true, 96), 62);
    assert_eq!(model_usage_width(10, false, 96), 11 * 10 - 1 + 4 + 62);
    assert_eq!(total_widget_width_for(1, false, 96), 3 + 10 + 18 + 10 + 175 + 0 + 1);
    assert_eq!(total_widget_width_for(1, true, 96), 3 + 10 + 18 + 10 + 62 + 1);
    assert_eq!(total_widget_width_for(2, true, 96), 3 + 10 + 18 + 10 + 124 + 3 + 1);
    assert_eq!(total_widget_width_for(1, true, 192), 6 + 20 + 36 + 20 + 124 + 2);
}

#[test]
fn drag_handle_region() {
    assert!(is_drag_handle_point(0, 10, 96));
    assert!(is_drag_handle_point(2, 34, 96));
    assert!(!is_drag_handle_point(3, 20, 96));
    assert!(!is_drag_handle_point(0, 35, 96));
    assert!(!is_drag_handle_point(0, 9, 96));
    assert!(!is_drag_handle_point(-1, 20, 96));
}

#[test]
fn anchoring_and_offsets() {
    assert_eq!(compute_anchor_y(1000, 48, 46), 1002);
    assert_eq!(compute_anchor_y(1000, 40, 46), 1000);
    assert_eq!(tray_left_edge(1920, Some(1700)), 1700);
    assert_eq!(tray_left_edge(1920, None), 1920);
    assert_eq!(clamp_offset_for_taskbar(1700, 0, 200, -5), 0);
    assert_eq!(clamp_offset_for_taskbar(1700, 0, 200, 50), 50);
    assert_eq!(clamp_offset_for_taskbar(1700, 0, 200, 5000), 1500);
    assert_eq!(clamp_offset_for_taskbar(100, 0, 200, 50), 0);
    assert_eq!(offset_for_drop_point(1700, 0, 200, 1000, 10), 510);
    assert_eq!(drag_offset(100, 500, 450, None), 150);
    assert_eq!(drag_offset(100, 500, 700, None), 0);
    assert_eq!(drag_offset(100, 500, 0, Some((1700, 0, 200))), 600);
    assert_eq!(drag_offset(100, 5000, 0, Some((1700, 0, 200))), 1500);
}

#[test]
fn taskbar_hit_testing() {
    let bars = vec![
        Rect { left: 0, top: 1040, right: 1920, bottom: 1080 },
        Rect { left: 1920, top: 1040, right: 3840, bottom: 1080 },
    ];
    assert_eq!(taskbar_at_point(&bars, 10, 1050), Some(0));
    assert_eq!(taskbar_at_point(&bars, 1920, 1079), Some(1));
    assert_eq!(taskbar_at_point(&bars, 1920, 1080), None);
    assert_eq!(taskbar_at_point(&vec![], 0, 0), None);
}

#[test]
fn message_parameters() {
    assert_eq!(client_point_from_lparam(0x0014_000A), (10, 20));
    assert_eq!(client_point_from_lparam(0xFFFF_FFFE_u32 as i32 as isize), (-2, -1));
    assert_eq!(client_point_from_lparam(0x8000_7FFF_u32 as isize), (32767, -32768));
    assert_eq!(dpi_from_wparam(0x0090_0090), 0x90);
    assert_eq!(handle_message(0x0202), TrayAction::ToggleWidget);
    assert_eq!(handle_message(0x0205), TrayAction::ShowContextMenu);
    assert_eq!(handle_message(0x0200), TrayAction::Nothing);
}

#[test]
fn menu_commands() {
    assert_eq!(menu_command(1), MenuCommand::Refresh);
    assert_eq!(menu_command(2), MenuCommand::Exit);
    assert_eq!(menu_command(12), MenuCommand::SetPollInterval(POLL_15_MIN));
    assert_eq!(menu_command(13), MenuCommand::SetPollInterval(POLL_1_HOUR));
    assert_eq!(menu_command(81), MenuCommand::SetUsageDisplay(UsageDisplayMode::Remaining));
    assert_eq!(menu_command(40), MenuCommand::SetLanguage(None));
    assert_eq!(menu_command(51), MenuCommand::SetLanguage(Some(LanguageId::SimplifiedChinese)));
    assert_eq!(menu_command(70), MenuCommand::ToggleWidget);
    assert_eq!(menu_command(33), MenuCommand::ToggleUsageWindow(UsageWindowChoice::FiveHour));
    assert_eq!(menu_command(999), MenuCommand::Ignored);
}

#[test]
fn usage_window_toggles_keep_one_window() {
    assert_eq!(toggle_usage_window(true, false, UsageWindowChoice::FiveHour), (true, false, false));
    assert_eq!(toggle_usage_window(true, true, UsageWindowChoice::FiveHour), (false, true, true));
    assert_eq!(toggle_usage_window(false, true, UsageWindowChoice::FiveHour), (true, true, true));
    assert_eq!(toggle_usage_window(false, true, UsageWindowChoice::SevenDay), (false, true, false));
    assert_eq!(toggle_usage_window(true, true, UsageWindowChoice::SevenDay), (true, false, true));
}

fn labels() -> VersionLabels<'static> {
    VersionLabels {
        check_for_updates: "Check for updates",
        checking_for_updates: "Checking...",
        applying_update: "Applying update...",
        up_to_date_short: "Up to date",
        update_to: "Update to",
        update_via_winget: "Update via WinGet to",
    }
}

#[test]
fn version_labels() {
    let l = labels();
    assert_eq!(
        version_action_label("1.5.2", &l, InstallChannel::Portable, &UpdateStatus::Idle),
        "v1.5.2 - Check for updates"
    );
    assert_eq!(
        version_action_label("1.5.2", &l, InstallChannel::Portable, &UpdateStatus::UpToDate),
        "v1.5.2 - Up to date"
    );
    let release = ReleaseDescriptor { latest_version: "1.6.0".to_string(), asset_url: "u".to_string() };
    assert_eq!(
        version_action_label("1.5.2", &l, InstallChannel::Portable, &UpdateStatus::Available(release.clone())),
        "v1.5.2 - Update to v1.6.0"
    );
    assert_eq!(
        version_action_label("1.5.2", &l, InstallChannel::Winget, &UpdateStatus::Available(release)),
        "v1.5.2 - Update via WinGet to v1.6.0"
    );
}

#[test]
fn settings_defaults() {
    let s = SettingsFile::default();
    assert_eq!(s.poll_interval_ms, 900_000);
    assert_eq!(default_poll_interval(), 900_000);
    assert!(default_widget_visible() && default_show_usage_window());
    assert_eq!(s.usage_display, UsageDisplayMode::Used);
    assert!(s.show_5hour_window && s.show_7day_window && s.widget_visible && !s.compact_mode);
    assert_eq!(s.language, None);
}

#[test]
fn tray_tooltips() {
    let mut input = TrayTooltipInput {
        last_poll_ok: true,
        codex_model: "Codex",
        no_data: "No data",
        window_title: "Codex Usage Monitor",
        show_5hour_window: true,
        session_available: true,
        session_text: "42% · 2h",
        show_7day_window: true,
        weekly_available: true,
        weekly_text: "64% · 3d",
    };
    assert_eq!(tray_tooltip(&input), "Codex 5h: 42% · 2h | 7d: 64% · 3d");
    input.session_available = false;
    assert_eq!(tray_tooltip(&input), "Codex 7d: 64% · 3d");
    input.show_7day_window = false;
    assert_eq!(tray_tooltip(&input), "Codex: No data");
    input.last_poll_ok = false;
    assert_eq!(tray_tooltip(&input), "Codex Usage Monitor");
}

#[test]
fn wide_text_buffers() {
    assert_eq!(encode_utf16("a😀é"), "a😀é".encode_utf16().collect::<Vec<u16>>());
    assert_eq!(fixed_wide_text("abc", 128, true), vec![97, 98, 99, 0]);
    assert_eq!(fixed_wide_text("abcdef", 4, false), vec![97, 98, 99, 0]);
    let emoji_at_edge = format!("{}😀", "x".repeat(126));
    let tip = fixed_wide_text(&emoji_at_edge, 128, true);
    assert_eq!(tip.len(), 127);
    assert_eq!(*tip.last().unwrap(), 0);
    let plain = fixed_wide_text(&emoji_at_edge, 128, false);
    assert_eq!(plain.len(), 128);
}
