//! Verified core of the Codex usage taskbar monitor: countdown formatting,
//! the CodexRadar recommendation cache, release-check parsing, widget layout
//! arithmetic and the other decisions the Windows front end relies on.

pub mod text;
pub mod clock;
pub mod countdown;
pub mod radar_cache;
pub mod radar;
pub mod updater;
pub mod usage;
pub mod layout;
pub mod settings;
pub mod menu;
pub mod tray;
pub mod radar_refresh;
pub mod paint;
pub mod radar_fetch;
