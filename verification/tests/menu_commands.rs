use codex_usage_taskbar_monitor::menu::{
    start_update_check, status_after_check, update_check_due_in, UPDATE_CHECK_INTERVAL_SECS,
    apply_menu_command, menu_command, preferences_from, settings_for, version_action, InstallChannel, LanguageId, MenuCommand, MenuEffects,
    UpdateStatus, UpdateStep, UsageWindowChoice, WidgetPreferences, IDM_COMPACT_MODE, IDM_FREQ_5MIN,
    IDM_RESET_POSITION, IDM_SHOW_5HOUR_WINDOW, IDM_USAGE_DISPLAY_REMAINING,
};
use codex_usage_taskbar_monitor::settings::{POLL_15_MIN, POLL_5_MIN};
use codex_usage_taskbar_monitor::updater::ReleaseDescriptor;
use codex_usage_taskbar_monitor::usage::UsageDisplayMode;

fn prefs() -> WidgetPreferences {
    WidgetPreferences {
        tray_offset: 40,
        compact_mode: false,
        show_5hour_window: true,
        show_7day_window: true,
        poll_interval_ms: POLL_15_MIN,
        usage_display: UsageDisplayMode::Used,
        language_override: None,
        widget_visible: true,
    }
}

fn nothing() -> MenuEffects {
    MenuEffects {
        mark_usage_pending: false,
        refresh_usage_texts: false,
        apply_language: false,
        save_settings: false,
        restart_poll_timer: false,
        reposition: false,
        show_widget: None,
        render: false,
        sync_tray_icons: false,
        poll_now: false,
        run_version_step: false,
        toggle_start_with_windows: false,
        exit: false,
    }
}

fn release() -> ReleaseDescriptor {
    ReleaseDescriptor {
        latest_version: "1.4.0".to_string(),
        asset_url: "https://example.com/app.exe".to_string(),
    }
}

#[test]
fn version_item_installs_an_available_release_through_its_channel() {
    let available = UpdateStatus::Available(release());
    assert_eq!(version_action(InstallChannel::Winget, &available), UpdateStep::InstallViaWinget);
    assert_eq!(version_action(InstallChannel::Portable, &available), UpdateStep::ApplyUpdate(release()));
}

#[test]
fn version_item_checks_again_without_a_release() {
    for status in [UpdateStatus::Idle, UpdateStatus::Checking, UpdateStatus::Applying, UpdateStatus::UpToDate] {
        assert_eq!(version_action(InstallChannel::Portable, &status), UpdateStep::CheckForUpdates);
        assert_eq!(version_action(InstallChannel::Winget, &status), UpdateStep::CheckForUpdates);
    }
}

#[test]
fn reset_position_clears_the_offset_and_repositions() {
    let mut p = prefs();
    let effects = apply_menu_command(&mut p, menu_command(IDM_RESET_POSITION));
    assert_eq!(p.tray_offset, 0);
    assert_eq!(effects, MenuEffects { save_settings: true, reposition: true, ..nothing() });
}

#[test]
fn compact_mode_toggles_back_and_forth() {
    let mut p = prefs();
    let effects = apply_menu_command(&mut p, menu_command(IDM_COMPACT_MODE));
    assert!(p.compact_mode);
    assert_eq!(effects, MenuEffects { save_settings: true, reposition: true, render: true, ..nothing() });
    apply_menu_command(&mut p, MenuCommand::ToggleCompactMode);
    assert_eq!(p, prefs());
}

#[test]
fn the_last_visible_usage_window_cannot_be_hidden() {
    let mut p = WidgetPreferences { show_7day_window: false, ..prefs() };
    let before = p;
    let effects = apply_menu_command(&mut p, menu_command(IDM_SHOW_5HOUR_WINDOW));
    assert_eq!(p, before);
    assert_eq!(effects, nothing());

    let mut p = prefs();
    let effects = apply_menu_command(&mut p, MenuCommand::ToggleUsageWindow(UsageWindowChoice::FiveHour));
    assert!(!p.show_5hour_window);
    assert!(p.show_7day_window);
    assert_eq!(effects, MenuEffects { save_settings: true, render: true, sync_tray_icons: true, ..nothing() });
}

#[test]
fn poll_frequency_is_stored_and_the_timer_restarted() {
    let mut p = prefs();
    let effects = apply_menu_command(&mut p, menu_command(IDM_FREQ_5MIN));
    assert_eq!(p.poll_interval_ms, POLL_5_MIN);
    assert_eq!(effects, MenuEffects { save_settings: true, restart_poll_timer: true, ..nothing() });
}

#[test]
fn display_mode_change_refreshes_texts_and_tray() {
    let mut p = prefs();
    let effects = apply_menu_command(&mut p, menu_command(IDM_USAGE_DISPLAY_REMAINING));
    assert_eq!(p.usage_display, UsageDisplayMode::Remaining);
    assert_eq!(
        effects,
        MenuEffects { refresh_usage_texts: true, save_settings: true, render: true, sync_tray_icons: true, ..nothing() }
    );
}

#[test]
fn language_choice_is_applied_and_saved() {
    let mut p = prefs();
    let effects = apply_menu_command(&mut p, MenuCommand::SetLanguage(Some(LanguageId::German)));
    assert_eq!(p.language_override, Some(LanguageId::German));
    assert_eq!(effects, MenuEffects { apply_language: true, save_settings: true, render: true, ..nothing() });
}

#[test]
fn widget_visibility_toggle_hides_then_shows() {
    let mut p = prefs();
    let hide = apply_menu_command(&mut p, MenuCommand::ToggleWidget);
    assert!(!p.widget_visible);
    assert_eq!(hide, MenuEffects { save_settings: true, show_widget: Some(false), ..nothing() });
    let show = apply_menu_command(&mut p, MenuCommand::ToggleWidget);
    assert!(p.widget_visible);
    assert_eq!(show, MenuEffects { save_settings: true, reposition: true, show_widget: Some(true), render: true, ..nothing() });
}

#[test]
fn commands_without_preferences_leave_them_alone() {
    let cases = [
        (MenuCommand::Refresh, MenuEffects { mark_usage_pending: true, render: true, poll_now: true, ..nothing() }),
        (MenuCommand::VersionAction, MenuEffects { run_version_step: true, ..nothing() }),
        (MenuCommand::Exit, MenuEffects { exit: true, ..nothing() }),
        (MenuCommand::ToggleStartWithWindows, MenuEffects { toggle_start_with_windows: true, ..nothing() }),
        (MenuCommand::Ignored, nothing()),
    ];
    for (command, expected) in cases {
        let mut p = prefs();
        let effects = apply_menu_command(&mut p, command);
        assert_eq!(p, prefs());
        assert_eq!(effects, expected);
    }
    assert_eq!(menu_command(999), MenuCommand::Ignored);
}

#[test]
fn saved_preferences_are_restored() {
    let p = WidgetPreferences {
        tray_offset: 120,
        compact_mode: true,
        show_5hour_window: false,
        show_7day_window: true,
        poll_interval_ms: POLL_5_MIN,
        usage_display: UsageDisplayMode::Remaining,
        language_override: Some(LanguageId::Japanese),
        widget_visible: false,
    };
    let settings = settings_for(&p, 2, Some("ja".to_string()), Some(1_700_000_000));
    assert_eq!(settings.tray_offset, 120);
    assert_eq!(settings.taskbar_index, 2);
    assert_eq!(settings.language.as_deref(), Some("ja"));
    assert_eq!(settings.last_update_check_unix, Some(1_700_000_000));
    assert_eq!(settings.usage_display, UsageDisplayMode::Remaining);
    assert!(!settings.show_5hour_window);
    assert!(!settings.widget_visible);
    assert_eq!(preferences_from(&settings, Some(LanguageId::Japanese)), p);
}

#[test]
fn updates_are_checked_once_a_day() {
    assert_eq!(UPDATE_CHECK_INTERVAL_SECS, 86_400);
    assert_eq!(update_check_due_in(None, 1_000), 0);
    assert_eq!(update_check_due_in(Some(1_000), 1_000), 86_400);
    assert_eq!(update_check_due_in(Some(1_000), 1_000 + 86_399), 1);
    assert_eq!(update_check_due_in(Some(1_000), 1_000 + 86_400), 0);
    assert_eq!(update_check_due_in(Some(1_000), 500_000), 0);
    assert_eq!(update_check_due_in(Some(u64::MAX - 5), 0), u64::MAX);
    assert_eq!(update_check_due_in(Some(2_000), 1_000), 87_400);
}

#[test]
fn only_one_update_check_runs_at_a_time() {
    for status in [UpdateStatus::Idle, UpdateStatus::UpToDate, UpdateStatus::Available(release())] {
        let mut s = status;
        assert!(start_update_check(&mut s));
        assert_eq!(s, UpdateStatus::Checking);
    }
    for status in [UpdateStatus::Checking, UpdateStatus::Applying] {
        let mut s = status.clone();
        assert!(!start_update_check(&mut s));
        assert_eq!(s, status);
    }
    assert_eq!(status_after_check(Ok(Some(release()))), UpdateStatus::Available(release()));
    assert_eq!(status_after_check(Ok(None)), UpdateStatus::UpToDate);
    assert_eq!(status_after_check(Err("offline".to_string())), UpdateStatus::Idle);
}
