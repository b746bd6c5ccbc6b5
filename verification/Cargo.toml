[package]
name = "codex_usage_taskbar_monitor"
version = "0.1.0"
edition = "2021"
publish = false

[dependencies]
serde = { version = "=1.0.229", features = ["derive"] }
serde_json = "=1.0.154"
ureq = { version = "=2.12.1", features = ["json", "native-tls"] }
native-tls = "=0.2.18"
dirs = "=5.0.1"
windows = { version = "=0.58.0", features = ["Win32_Foundation", "Win32_Graphics_Gdi", "Win32_UI_WindowsAndMessaging", "Win32_UI_Shell", "Win32_UI_HiDpi", "Win32_UI_Accessibility", "Win32_UI_Controls", "Win32_System_LibraryLoader", "Win32_System_Threading", "Win32_System_Registry", "Win32_UI_Input_KeyboardAndMouse"] }
