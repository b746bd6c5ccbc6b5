//! The context menu: command ids and what each one asks for, the usage-window
//! toggles, and the version / update label.

use vstd::prelude::*;
use crate::settings::{SettingsFile, POLL_15_MIN, POLL_1_HOUR, POLL_1_MIN, POLL_5_MIN};
use crate::updater::ReleaseDescriptor;
use crate::usage::UsageDisplayMode;

verus! {

pub const IDM_REFRESH: u16 = 1;
pub const IDM_EXIT: u16 = 2;
pub const IDM_FREQ_1MIN: u16 = 10;
pub const IDM_FREQ_5MIN: u16 = 11;
pub const IDM_FREQ_15MIN: u16 = 12;
pub const IDM_FREQ_1HOUR: u16 = 13;
pub const IDM_START_WITH_WINDOWS: u16 = 20;
pub const IDM_RESET_POSITION: u16 = 30;
pub const IDM_VERSION_ACTION: u16 = 31;
pub const IDM_COMPACT_MODE: u16 = 32;
pub const IDM_SHOW_5HOUR_WINDOW: u16 = 33;
pub const IDM_SHOW_7DAY_WINDOW: u16 = 34;
pub const IDM_LANG_SYSTEM: u16 = 40;
pub const IDM_LANG_ENGLISH: u16 = 41;
pub const IDM_LANG_DUTCH: u16 = 42;
pub const IDM_LANG_SPANISH: u16 = 43;
pub const IDM_LANG_FRENCH: u16 = 44;
pub const IDM_LANG_GERMAN: u16 = 45;
pub const IDM_LANG_JAPANESE: u16 = 46;
pub const IDM_LANG_KOREAN: u16 = 47;
pub const IDM_LANG_TRADITIONAL_CHINESE: u16 = 48;
pub const IDM_LANG_RUSSIAN: u16 = 49;
pub const IDM_LANG_PORTUGUESE_BRAZIL: u16 = 50;
pub const IDM_LANG_SIMPLIFIED_CHINESE: u16 = 51;
pub const IDM_TOGGLE_WIDGET: u16 = 70;
pub const IDM_USAGE_DISPLAY_USED: u16 = 80;
pub const IDM_USAGE_DISPLAY_REMAINING: u16 = 81;

/// The built-in interface languages.
#[derive(Clone, Copy, Debug, PartialEq, Eq)]
pub enum LanguageId {
    English,
    Dutch,
    Spanish,
    French,
    German,
    Japanese,
    Korean,
    TraditionalChinese,
    SimplifiedChinese,
    Russian,
    PortugueseBrazil,
}

/// Which usage window a menu toggle refers to.
#[derive(Clone, Copy, Debug, PartialEq, Eq)]
pub enum UsageWindowChoice {
    FiveHour,
    SevenDay,
}

/// What a context-menu command asks for.
#[derive(Clone, Copy, Debug, PartialEq, Eq)]
pub enum MenuCommand {
    Refresh,
    VersionAction,
    Exit,
    ResetPosition,
    ToggleCompactMode,
    ToggleUsageWindow(UsageWindowChoice),
    ToggleStartWithWindows,
    SetPollInterval(u32),
    SetUsageDisplay(UsageDisplayMode),
    /// `None` follows the system language.
    SetLanguage(Option<LanguageId>),
    ToggleWidget,
    Ignored,
}

/// The command a menu item id stands for.
pub open spec fn menu_command_spec(id: u16) -> MenuCommand {
    if id == IDM_REFRESH { MenuCommand::Refresh }
    else if id == IDM_VERSION_ACTION { MenuCommand::VersionAction }
    else if id == IDM_EXIT { MenuCommand::Exit }
    else if id == IDM_RESET_POSITION { MenuCommand::ResetPosition }
    else if id == IDM_COMPACT_MODE { MenuCommand::ToggleCompactMode }
    else if id == IDM_SHOW_5HOUR_WINDOW { MenuCommand::ToggleUsageWindow(UsageWindowChoice::FiveHour) }
    else if id == IDM_SHOW_7DAY_WINDOW { MenuCommand::ToggleUsageWindow(UsageWindowChoice::SevenDay) }
    else if id == IDM_START_WITH_WINDOWS { MenuCommand::ToggleStartWithWindows }
    else if id == IDM_FREQ_1MIN { MenuCommand::SetPollInterval(POLL_1_MIN) }
    else if id == IDM_FREQ_5MIN { MenuCommand::SetPollInterval(POLL_5_MIN) }
    else if id == IDM_FREQ_15MIN { MenuCommand::SetPollInterval(POLL_15_MIN) }
    else if id == IDM_FREQ_1HOUR { MenuCommand::SetPollInterval(POLL_1_HOUR) }
    else if id == IDM_USAGE_DISPLAY_USED { MenuCommand::SetUsageDisplay(UsageDisplayMode::Used) }
    else if id == IDM_USAGE_DISPLAY_REMAINING { MenuCommand::SetUsageDisplay(UsageDisplayMode::Remaining) }
    else if id == IDM_LANG_SYSTEM { MenuCommand::SetLanguage(None) }
    else if id == IDM_LANG_ENGLISH { MenuCommand::SetLanguage(Some(LanguageId::English)) }
    else if id == IDM_LANG_DUTCH { MenuCommand::SetLanguage(Some(LanguageId::Dutch)) }
    else if id == IDM_LANG_SPANISH { MenuCommand::SetLanguage(Some(LanguageId::Spanish)) }
    else if id == IDM_LANG_FRENCH { MenuCommand::SetLanguage(Some(LanguageId::French)) }
    else if id == IDM_LANG_GERMAN { MenuCommand::SetLanguage(Some(LanguageId::German)) }
    else if id == IDM_LANG_JAPANESE { MenuCommand::SetLanguage(Some(LanguageId::Japanese)) }
    else if id == IDM_LANG_KOREAN { MenuCommand::SetLanguage(Some(LanguageId::Korean)) }
    else if id == IDM_LANG_TRADITIONAL_CHINESE { MenuCommand::SetLanguage(Some(LanguageId::TraditionalChinese)) }
    else if id == IDM_LANG_SIMPLIFIED_CHINESE { MenuCommand::SetLanguage(Some(LanguageId::SimplifiedChinese)) }
    else if id == IDM_LANG_RUSSIAN { MenuCommand::SetLanguage(Some(LanguageId::Russian)) }
    else if id == IDM_LANG_PORTUGUESE_BRAZIL { MenuCommand::SetLanguage(Some(LanguageId::PortugueseBrazil)) }
    else if id == IDM_TOGGLE_WIDGET { MenuCommand::ToggleWidget }
    else { MenuCommand::Ignored }
}

/// The command a menu item id stands for.
pub fn menu_command(id: u16) -> (command: MenuCommand)
    ensures
        command == menu_command_spec(id),
{
    match id {
        IDM_REFRESH => MenuCommand::Refresh,
        IDM_VERSION_ACTION => MenuCommand::VersionAction,
        IDM_EXIT => MenuCommand::Exit,
        IDM_RESET_POSITION => MenuCommand::ResetPosition,
        IDM_COMPACT_MODE => MenuCommand::ToggleCompactMode,
        IDM_SHOW_5HOUR_WINDOW => MenuCommand::ToggleUsageWindow(UsageWindowChoice::FiveHour),
        IDM_SHOW_7DAY_WINDOW => MenuCommand::ToggleUsageWindow(UsageWindowChoice::SevenDay),
        IDM_START_WITH_WINDOWS => MenuCommand::ToggleStartWithWindows,
        IDM_FREQ_1MIN => MenuCommand::SetPollInterval(POLL_1_MIN),
        IDM_FREQ_5MIN => MenuCommand::SetPollInterval(POLL_5_MIN),
        IDM_FREQ_15MIN => MenuCommand::SetPollInterval(POLL_15_MIN),
        IDM_FREQ_1HOUR => MenuCommand::SetPollInterval(POLL_1_HOUR),
        IDM_USAGE_DISPLAY_USED => MenuCommand::SetUsageDisplay(UsageDisplayMode::Used),
        IDM_USAGE_DISPLAY_REMAINING => MenuCommand::SetUsageDisplay(UsageDisplayMode::Remaining),
        IDM_LANG_SYSTEM => MenuCommand::SetLanguage(None),
        IDM_LANG_ENGLISH => MenuCommand::SetLanguage(Some(LanguageId::English)),
        IDM_LANG_DUTCH => MenuCommand::SetLanguage(Some(LanguageId::Dutch)),
        IDM_LANG_SPANISH => MenuCommand::SetLanguage(Some(LanguageId::Spanish)),
        IDM_LANG_FRENCH => MenuCommand::SetLanguage(Some(LanguageId::French)),
        IDM_LANG_GERMAN => MenuCommand::SetLanguage(Some(LanguageId::German)),
        IDM_LANG_JAPANESE => MenuCommand::SetLanguage(Some(LanguageId::Japanese)),
        IDM_LANG_KOREAN => MenuCommand::SetLanguage(Some(LanguageId::Korean)),
        IDM_LANG_TRADITIONAL_CHINESE => MenuCommand::SetLanguage(Some(LanguageId::TraditionalChinese)),
        IDM_LANG_SIMPLIFIED_CHINESE => MenuCommand::SetLanguage(Some(LanguageId::SimplifiedChinese)),
        IDM_LANG_RUSSIAN => MenuCommand::SetLanguage(Some(LanguageId::Russian)),
        IDM_LANG_PORTUGUESE_BRAZIL => MenuCommand::SetLanguage(Some(LanguageId::PortugueseBrazil)),
        IDM_TOGGLE_WIDGET => MenuCommand::ToggleWidget,
        _ => MenuCommand::Ignored,
    }
}

/// Visibility of the two usage windows after toggling `which`: a window is
/// switched off only while the other stays on; returns the new pair and
/// whether anything changed.
pub open spec fn toggled_windows(show_5hour: bool, show_7day: bool, which: UsageWindowChoice) -> (bool, bool, bool) {
    match which {
        UsageWindowChoice::FiveHour => if show_5hour && !show_7day {
            (show_5hour, show_7day, false)
        } else {
            (!show_5hour, show_7day, true)
        },
        UsageWindowChoice::SevenDay => if show_7day && !show_5hour {
            (show_5hour, show_7day, false)
        } else {
            (show_5hour, !show_7day, true)
        },
    }
}

/// Toggles one usage window, refusing to switch off the last visible one.
pub fn toggle_usage_window(show_5hour: bool, show_7day: bool, which: UsageWindowChoice) -> (result: (bool, bool, bool))
    ensures
        result == toggled_windows(show_5hour, show_7day, which),
{
    match which {
        UsageWindowChoice::FiveHour => if show_5hour && !show_7day {
            (show_5hour, show_7day, false)
        } else {
            (!show_5hour, show_7day, true)
        },
        UsageWindowChoice::SevenDay => if show_7day && !show_5hour {
            (show_5hour, show_7day, false)
        } else {
            (show_5hour, !show_7day, true)
        },
    }
}

/// At least one usage window stays selected: toggling never leaves both
/// windows switched off when one of them was on.
pub proof fn lemma_toggle_keeps_a_window(show_5hour: bool, show_7day: bool, which: UsageWindowChoice)
    requires
        show_5hour || show_7day,
    ensures
        toggled_windows(show_5hour, show_7day, which).0 || toggled_windows(show_5hour, show_7day, which).1,
{
}

/// How the application was installed, which decides how updates are applied.
#[derive(Clone, Copy, Debug, PartialEq, Eq)]
pub enum InstallChannel {
    Portable,
    Winget,
}

/// State of the update check.
#[derive(Clone, Debug, PartialEq, Eq)]
pub enum UpdateStatus {
    Idle,
    Checking,
    Applying,
    UpToDate,
    Available(ReleaseDescriptor),
}

/// Interval between automatic update checks: one day.
pub const UPDATE_CHECK_INTERVAL_SECS: u64 = 86_400;

/// Seconds from `now` until the next automatic update check: one day after
/// the last check (saturating), and at once when there has been none.
pub open spec fn update_check_due_spec(last_check_unix: Option<u64>, now: u64) -> u64 {
    match last_check_unix {
        None => 0,
        Some(last) => {
            let due: int = if last + UPDATE_CHECK_INTERVAL_SECS > u64::MAX {
                u64::MAX as int
            } else {
                last + UPDATE_CHECK_INTERVAL_SECS
            };
            if due > now {
                (due - now) as u64
            } else {
                0
            }
        },
    }
}

/// Seconds until the next automatic update check.
pub fn update_check_due_in(last_check_unix: Option<u64>, now: u64) -> (secs: u64)
    ensures
        secs == update_check_due_spec(last_check_unix, now),
        last_check_unix is Some && last_check_unix->0 <= now ==> secs <= UPDATE_CHECK_INTERVAL_SECS,
{
    match last_check_unix {
        None => 0,
        Some(last) => last.saturating_add(UPDATE_CHECK_INTERVAL_SECS).saturating_sub(now),
    }
}

/// Updates are checked automatically once a day: after a check at `last`,
/// the next one is due exactly when a day has passed.
pub proof fn lemma_update_check_daily(last: u64, now: u64)
    requires
        last + UPDATE_CHECK_INTERVAL_SECS <= u64::MAX,
    ensures
        (update_check_due_spec(Some(last), now) == 0) <==> now >= last + UPDATE_CHECK_INTERVAL_SECS,
        update_check_due_spec(None, now) == 0,
{
}

/// Starts an update check unless one is already running or an update is
/// being applied; a started check shows as `Checking`.
pub fn start_update_check(status: &mut UpdateStatus) -> (started: bool)
    ensures
        started == !(*old(status) is Checking || *old(status) is Applying),
        started ==> *final(status) == UpdateStatus::Checking,
        !started ==> *final(status) == *old(status),
{
    let busy = match *status {
        UpdateStatus::Checking => true,
        UpdateStatus::Applying => true,
        _ => false,
    };
    if busy {
        false
    } else {
        *status = UpdateStatus::Checking;
        true
    }
}

/// The status a finished check leaves: the newer release when there is one,
/// up to date when there is none, idle again after a failure.
pub open spec fn status_after_check_spec(result: Result<Option<ReleaseDescriptor>, String>) -> UpdateStatus {
    match result {
        Ok(Some(release)) => UpdateStatus::Available(release),
        Ok(None) => UpdateStatus::UpToDate,
        Err(_) => UpdateStatus::Idle,
    }
}

/// The status after an update check finished with `result`.
pub fn status_after_check(result: Result<Option<ReleaseDescriptor>, String>) -> (status: UpdateStatus)
    ensures
        status == status_after_check_spec(result),
{
    match result {
        Ok(Some(release)) => UpdateStatus::Available(release),
        Ok(None) => UpdateStatus::UpToDate,
        Err(_) => UpdateStatus::Idle,
    }
}

/// The localized texts of the version menu item.
pub struct VersionLabels<'a> {
    pub check_for_updates: &'a str,
    pub checking_for_updates: &'a str,
    pub applying_update: &'a str,
    pub up_to_date_short: &'a str,
    pub update_to: &'a str,
    pub update_via_winget: &'a str,
}

/// The version menu item: `v<current> - <status>`, with the available
/// version appended when an update can be installed.
pub open spec fn version_label_spec(current: Seq<char>, labels: VersionLabels, channel: InstallChannel, status: UpdateStatus) -> Seq<char> {
    let prefix = "v"@ + current + " - "@;
    match status {
        UpdateStatus::Idle => prefix + labels.check_for_updates@,
        UpdateStatus::Checking => prefix + labels.checking_for_updates@,
        UpdateStatus::Applying => prefix + labels.applying_update@,
        UpdateStatus::UpToDate => prefix + labels.up_to_date_short@,
        UpdateStatus::Available(release) => match channel {
            InstallChannel::Portable => prefix + labels.update_to@ + " v"@ + release.latest_version@,
            InstallChannel::Winget => prefix + labels.update_via_winget@ + " v"@ + release.latest_version@,
        },
    }
}

/// The text of the version menu item.
pub fn version_action_label(current_version: &str, labels: &VersionLabels, install_channel: InstallChannel, status: &UpdateStatus) -> (label: String)
    ensures
        label@ == version_label_spec(current_version@, *labels, install_channel, *status),
{
    let mut label = String::from_str("v");
    label.append(current_version);
    label.append(" - ");
    match status {
        UpdateStatus::Idle => label.append(labels.check_for_updates),
        UpdateStatus::Checking => label.append(labels.checking_for_updates),
        UpdateStatus::Applying => label.append(labels.applying_update),
        UpdateStatus::UpToDate => label.append(labels.up_to_date_short),
        UpdateStatus::Available(release) => {
            match install_channel {
                InstallChannel::Portable => label.append(labels.update_to),
                InstallChannel::Winget => label.append(labels.update_via_winget),
            }
            label.append(" v");
            label.append(release.latest_version.as_str());
        },
    }
    label
}

/// What the version menu item does when chosen.
#[derive(Clone, Debug, PartialEq, Eq)]
pub enum UpdateStep {
    /// Hand the upgrade to winget.
    InstallViaWinget,
    /// Download and install this release over the portable executable.
    ApplyUpdate(ReleaseDescriptor),
    /// Ask GitHub whether a newer release exists.
    CheckForUpdates,
}

/// The step the version menu item takes: an available release is installed
/// through the channel the application came from; otherwise it checks again.
pub open spec fn update_step_spec(channel: InstallChannel, status: UpdateStatus) -> UpdateStep {
    match status {
        UpdateStatus::Available(release) => match channel {
            InstallChannel::Winget => UpdateStep::InstallViaWinget,
            InstallChannel::Portable => UpdateStep::ApplyUpdate(release),
        },
        _ => UpdateStep::CheckForUpdates,
    }
}

/// The step the version menu item takes for this install channel and status.
pub fn version_action(install_channel: InstallChannel, status: &UpdateStatus) -> (step: UpdateStep)
    ensures
        step == update_step_spec(install_channel, *status),
{
    match status {
        UpdateStatus::Available(release) => match install_channel {
            InstallChannel::Winget => UpdateStep::InstallViaWinget,
            InstallChannel::Portable => UpdateStep::ApplyUpdate(ReleaseDescriptor {
                latest_version: release.latest_version.clone(),
                asset_url: release.asset_url.clone(),
            }),
        },
        _ => UpdateStep::CheckForUpdates,
    }
}

/// The widget preferences that menu commands change.
#[derive(Clone, Copy, Debug, PartialEq, Eq)]
pub struct WidgetPreferences {
    pub tray_offset: i32,
    pub compact_mode: bool,
    pub show_5hour_window: bool,
    pub show_7day_window: bool,
    pub poll_interval_ms: u32,
    pub usage_display: UsageDisplayMode,
    pub language_override: Option<LanguageId>,
    pub widget_visible: bool,
}

/// The settings file that records the preferences, the chosen taskbar, the
/// language's code and the time of the last update check.
pub open spec fn settings_for_spec(
    prefs: WidgetPreferences,
    taskbar_index: usize,
    language: Option<String>,
    last_update_check_unix: Option<u64>,
) -> SettingsFile {
    SettingsFile {
        tray_offset: prefs.tray_offset,
        taskbar_index,
        poll_interval_ms: prefs.poll_interval_ms,
        language,
        last_update_check_unix,
        widget_visible: prefs.widget_visible,
        compact_mode: prefs.compact_mode,
        usage_display: prefs.usage_display,
        show_5hour_window: prefs.show_5hour_window,
        show_7day_window: prefs.show_7day_window,
    }
}

/// The settings file to write for the preferences.
pub fn settings_for(
    prefs: &WidgetPreferences,
    taskbar_index: usize,
    language: Option<String>,
    last_update_check_unix: Option<u64>,
) -> (settings: SettingsFile)
    ensures
        settings == settings_for_spec(*prefs, taskbar_index, language, last_update_check_unix),
{
    SettingsFile {
        tray_offset: prefs.tray_offset,
        taskbar_index,
        poll_interval_ms: prefs.poll_interval_ms,
        language,
        last_update_check_unix,
        widget_visible: prefs.widget_visible,
        compact_mode: prefs.compact_mode,
        usage_display: prefs.usage_display,
        show_5hour_window: prefs.show_5hour_window,
        show_7day_window: prefs.show_7day_window,
    }
}

/// The preferences a settings file restores; the language is passed as
/// already resolved from the file's language code.
pub open spec fn preferences_from_spec(settings: SettingsFile, language_override: Option<LanguageId>) -> WidgetPreferences {
    WidgetPreferences {
        tray_offset: settings.tray_offset,
        compact_mode: settings.compact_mode,
        show_5hour_window: settings.show_5hour_window,
        show_7day_window: settings.show_7day_window,
        poll_interval_ms: settings.poll_interval_ms,
        usage_display: settings.usage_display,
        language_override,
        widget_visible: settings.widget_visible,
    }
}

/// The preferences a settings file restores.
pub fn preferences_from(settings: &SettingsFile, language_override: Option<LanguageId>) -> (prefs: WidgetPreferences)
    ensures
        prefs == preferences_from_spec(*settings, language_override),
{
    WidgetPreferences {
        tray_offset: settings.tray_offset,
        compact_mode: settings.compact_mode,
        show_5hour_window: settings.show_5hour_window,
        show_7day_window: settings.show_7day_window,
        poll_interval_ms: settings.poll_interval_ms,
        usage_display: settings.usage_display,
        language_override,
        widget_visible: settings.widget_visible,
    }
}

/// Saved preferences come back unchanged: restoring the settings written for
/// some preferences, with the same language, gives those preferences.
pub proof fn lemma_saved_preferences_restore(
    prefs: WidgetPreferences,
    taskbar_index: usize,
    language: Option<String>,
    last_update_check_unix: Option<u64>,
)
    ensures
        preferences_from_spec(
            settings_for_spec(prefs, taskbar_index, language, last_update_check_unix),
            prefs.language_override,
        ) == prefs,
{
}

/// The work a menu command leaves for the window to do, in this order:
/// mark the usage texts as pending, update the texts for the display mode,
/// save the settings, restart the poll timer with the stored interval,
/// reposition, show or hide the widget, render, sync the tray icons, then
/// start a poll, run the version step, toggle the startup entry or exit.
#[derive(Clone, Copy, Debug, PartialEq, Eq)]
pub struct MenuEffects {
    pub mark_usage_pending: bool,
    pub refresh_usage_texts: bool,
    pub apply_language: bool,
    pub save_settings: bool,
    pub restart_poll_timer: bool,
    pub reposition: bool,
    pub show_widget: Option<bool>,
    pub render: bool,
    pub sync_tray_icons: bool,
    pub poll_now: bool,
    pub run_version_step: bool,
    pub toggle_start_with_windows: bool,
    pub exit: bool,
}

/// A command that leaves nothing to do.
pub open spec fn no_effects() -> MenuEffects {
    MenuEffects {
        mark_usage_pending: false,
        refresh_usage_texts: false,
        apply_language: false,
        save_settings: false,
        restart_poll_timer: false,
        reposition: false,
        show_widget: None,
        render: false,
        sync_tray_icons: false,
        poll_now: false,
        run_version_step: false,
        toggle_start_with_windows: false,
        exit: false,
    }
}

/// The preferences after `command`.
pub open spec fn preferences_after(prefs: WidgetPreferences, command: MenuCommand) -> WidgetPreferences {
    match command {
        MenuCommand::ResetPosition => WidgetPreferences { tray_offset: 0, ..prefs },
        MenuCommand::ToggleCompactMode => WidgetPreferences { compact_mode: !prefs.compact_mode, ..prefs },
        MenuCommand::ToggleUsageWindow(which) => {
            let t = toggled_windows(prefs.show_5hour_window, prefs.show_7day_window, which);
            WidgetPreferences { show_5hour_window: t.0, show_7day_window: t.1, ..prefs }
        },
        MenuCommand::SetPollInterval(ms) => WidgetPreferences { poll_interval_ms: ms, ..prefs },
        MenuCommand::SetUsageDisplay(mode) => WidgetPreferences { usage_display: mode, ..prefs },
        MenuCommand::SetLanguage(language) => WidgetPreferences { language_override: language, ..prefs },
        MenuCommand::ToggleWidget => WidgetPreferences { widget_visible: !prefs.widget_visible, ..prefs },
        _ => prefs,
    }
}

/// The work `command` leaves for the window, given the preferences it
/// found.
pub open spec fn menu_effects_spec(prefs: WidgetPreferences, command: MenuCommand) -> MenuEffects {
    let none = no_effects();
    match command {
        MenuCommand::Refresh => MenuEffects { mark_usage_pending: true, render: true, poll_now: true, ..none },
        MenuCommand::VersionAction => MenuEffects { run_version_step: true, ..none },
        MenuCommand::Exit => MenuEffects { exit: true, ..none },
        MenuCommand::ResetPosition => MenuEffects { save_settings: true, reposition: true, ..none },
        MenuCommand::ToggleCompactMode => MenuEffects { save_settings: true, reposition: true, render: true, ..none },
        MenuCommand::ToggleUsageWindow(which) => {
            if toggled_windows(prefs.show_5hour_window, prefs.show_7day_window, which).2 {
                MenuEffects { save_settings: true, render: true, sync_tray_icons: true, ..none }
            } else {
                none
            }
        },
        MenuCommand::ToggleStartWithWindows => MenuEffects { toggle_start_with_windows: true, ..none },
        MenuCommand::SetPollInterval(_) => MenuEffects { save_settings: true, restart_poll_timer: true, ..none },
        MenuCommand::SetUsageDisplay(_) => MenuEffects {
            refresh_usage_texts: true,
            save_settings: true,
            render: true,
            sync_tray_icons: true,
            ..none
        },
        MenuCommand::SetLanguage(_) => MenuEffects { apply_language: true, save_settings: true, render: true, ..none },
        MenuCommand::ToggleWidget => if prefs.widget_visible {
            MenuEffects { save_settings: true, show_widget: Some(false), ..none }
        } else {
            MenuEffects { save_settings: true, reposition: true, show_widget: Some(true), render: true, ..none }
        },
        MenuCommand::Ignored => none,
    }
}

fn nothing_to_do() -> (effects: MenuEffects)
    ensures
        effects == no_effects(),
{
    MenuEffects {
        mark_usage_pending: false,
        refresh_usage_texts: false,
        apply_language: false,
        save_settings: false,
        restart_poll_timer: false,
        reposition: false,
        show_widget: None,
        render: false,
        sync_tray_icons: false,
        poll_now: false,
        run_version_step: false,
        toggle_start_with_windows: false,
        exit: false,
    }
}

/// Applies a context-menu command to the widget preferences and returns the
/// work left for the window.
pub fn apply_menu_command(prefs: &mut WidgetPreferences, command: MenuCommand) -> (effects: MenuEffects)
    ensures
        *final(prefs) == preferences_after(*old(prefs), command),
        effects == menu_effects_spec(*old(prefs), command),
{
    let none = nothing_to_do();
    match command {
        MenuCommand::Refresh => MenuEffects { mark_usage_pending: true, render: true, poll_now: true, ..none },
        MenuCommand::VersionAction => MenuEffects { run_version_step: true, ..none },
        MenuCommand::Exit => MenuEffects { exit: true, ..none },
        MenuCommand::ResetPosition => {
            prefs.tray_offset = 0;
            MenuEffects { save_settings: true, reposition: true, ..none }
        },
        MenuCommand::ToggleCompactMode => {
            prefs.compact_mode = !prefs.compact_mode;
            MenuEffects { save_settings: true, reposition: true, render: true, ..none }
        },
        MenuCommand::ToggleUsageWindow(which) => {
            let (show_5hour, show_7day, changed) = toggle_usage_window(prefs.show_5hour_window, prefs.show_7day_window, which);
            prefs.show_5hour_window = show_5hour;
            prefs.show_7day_window = show_7day;
            if changed {
                MenuEffects { save_settings: true, render: true, sync_tray_icons: true, ..none }
            } else {
                none
            }
        },
        MenuCommand::ToggleStartWithWindows => MenuEffects { toggle_start_with_windows: true, ..none },
        MenuCommand::SetPollInterval(ms) => {
            prefs.poll_interval_ms = ms;
            MenuEffects { save_settings: true, restart_poll_timer: true, ..none }
        },
        MenuCommand::SetUsageDisplay(mode) => {
            prefs.usage_display = mode;
            MenuEffects { refresh_usage_texts: true, save_settings: true, render: true, sync_tray_icons: true, ..none }
        },
        MenuCommand::SetLanguage(language) => {
            prefs.language_override = language;
            MenuEffects { apply_language: true, save_settings: true, render: true, ..none }
        },
        MenuCommand::ToggleWidget => {
            if prefs.widget_visible {
                prefs.widget_visible = false;
                MenuEffects { save_settings: true, show_widget: Some(false), ..none }
            } else {
                prefs.widget_visible = true;
                MenuEffects { save_settings: true, reposition: true, show_widget: Some(true), render: true, ..none }
            }
        },
        MenuCommand::Ignored => none,
    }
}

/// Every change a menu command makes to the preferences is saved.
pub proof fn lemma_preference_changes_are_saved(prefs: WidgetPreferences, command: MenuCommand)
    requires
        preferences_after(prefs, command) != prefs,
    ensures
        menu_effects_spec(prefs, command).save_settings,
{
}

/// Applying a toggle command twice gives back the preferences it started
/// from: the compact mode, the widget's visibility, and either usage window
/// while at least one window is shown.
pub proof fn lemma_toggles_undo_themselves(prefs: WidgetPreferences, command: MenuCommand)
    requires
        command == MenuCommand::ToggleCompactMode
            || command == MenuCommand::ToggleWidget
            || (command is ToggleUsageWindow && (prefs.show_5hour_window || prefs.show_7day_window)),
    ensures
        preferences_after(preferences_after(prefs, command), command) == prefs,
{
}

/// After any menu command at least one usage window is still shown, when
/// one was shown before.
pub proof fn lemma_commands_keep_a_usage_window(prefs: WidgetPreferences, command: MenuCommand)
    requires
        prefs.show_5hour_window || prefs.show_7day_window,
    ensures
        preferences_after(prefs, command).show_5hour_window || preferences_after(prefs, command).show_7day_window,
{
}

} // verus!
