# Codex usage taskbar monitor

A Windows taskbar widget that shows the Codex CLI's 5-hour and 7-day usage
windows with their reset countdowns, a tray badge, and optional CodexRadar
model recommendations.

The decisions the widget makes are a Verus-verified library under `src/`:

| Module | What it decides |
| --- | --- |
| `countdown` | reset countdown texts and when they next change |
| `usage` | credential handling, poll errors, the token-refresh command line |
| `radar`, `radar_cache`, `radar_fetch`, `radar_refresh` | CodexRadar payload selection, the two-source cache with expiry and retry back-off, request outcomes, refresh generations and the tooltip |
| `updater` | release tags, version order, asset choice, GitHub fallbacks |
| `layout`, `paint` | DPI scaling, widget width, dragging and dropping, colours, row and segment positions, pixel alpha |
| `menu`, `tray`, `settings` | menu commands and their effects, tray actions and tooltip, setting defaults |
| `text`, `clock` | string helpers and the clock reading |

`app/` is the Windows program around it: the Win32 window, GDI drawing, the
tray icon, HTTP requests, files, the Codex CLI process, and the
floating-point usage percentages and recommendation ranking. `tests/` runs
the library on concrete values.
