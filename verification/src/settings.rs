//! Persisted widget preferences and their defaults.

use vstd::prelude::*;
use crate::usage::UsageDisplayMode;

verus! {

/// Poll every minute.
pub const POLL_1_MIN: u32 = 60_000;
/// Poll every 5 minutes.
pub const POLL_5_MIN: u32 = 300_000;
/// Poll every 15 minutes (the default).
pub const POLL_15_MIN: u32 = 900_000;
/// Poll every hour.
pub const POLL_1_HOUR: u32 = 3_600_000;

/// Poll interval used when the settings name none.
pub fn default_poll_interval() -> (ms: u32)
    ensures
        ms == POLL_15_MIN,
{
    POLL_15_MIN
}

/// Widget visibility used when the settings name none.
pub fn default_widget_visible() -> (visible: bool)
    ensures
        visible,
{
    true
}

/// Usage-window visibility used when the settings name none.
pub fn default_show_usage_window() -> (show: bool)
    ensures
        show,
{
    true
}

/// The widget preferences kept in `settings.json`.
#[derive(Clone, Debug, PartialEq, Eq)]
pub struct SettingsFile {
    pub tray_offset: i32,
    pub taskbar_index: usize,
    pub poll_interval_ms: u32,
    pub language: Option<String>,
    pub last_update_check_unix: Option<u64>,
    pub widget_visible: bool,
    pub compact_mode: bool,
    pub usage_display: UsageDisplayMode,
    pub show_5hour_window: bool,
    pub show_7day_window: bool,
}

impl Default for SettingsFile {
    fn default() -> (settings: Self)
        ensures
            settings.tray_offset == 0,
            settings.taskbar_index == 0,
            settings.poll_interval_ms == POLL_15_MIN,
            settings.language is None,
            settings.last_update_check_unix is None,
            settings.widget_visible,
            !settings.compact_mode,
            settings.usage_display == UsageDisplayMode::Used,
            settings.show_5hour_window,
            settings.show_7day_window,
    {
        SettingsFile {
            tray_offset: 0,
            taskbar_index: 0,
            poll_interval_ms: default_poll_interval(),
            language: None,
            last_update_check_unix: None,
            widget_visible: default_widget_visible(),
            compact_mode: false,
            usage_display: UsageDisplayMode::Used,
            show_5hour_window: default_show_usage_window(),
            show_7day_window: default_show_usage_window(),
        }
    }
}

} // verus!
