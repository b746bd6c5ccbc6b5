//! The notification-area icon: what a mouse callback asks for, which usage
//! window the badge shows, the icon's tooltip text and the UTF-16 buffers the
//! shell expects.

use vstd::prelude::*;
use crate::text::chars_vec;

verus! {

/// Mouse message reported when the left button is released.
pub const WM_LBUTTONUP: u32 = 0x0202;
/// Mouse message reported when the right button is released.
pub const WM_RBUTTONUP: u32 = 0x0205;
/// Menu item id that shows or hides the widget.
pub const IDM_TOGGLE_WIDGET: u16 = 70;
/// Notification-icon id of the Codex icon.
pub const CODEX_TRAY_ICON_ID: u32 = 2;
/// Capacity of the icon tooltip buffer, terminator included.
pub const TIP_CAPACITY: usize = 128;

/// Actions the tray callback can request from the main window.
#[derive(Clone, Copy, Debug, PartialEq, Eq)]
pub enum TrayAction {
    Nothing,
    ToggleWidget,
    ShowContextMenu,
}

/// The action for a tray callback whose `lparam` carries the mouse message
/// in its low 32 bits.
pub open spec fn tray_action_spec(lparam: isize) -> TrayAction {
    if lparam as u32 == WM_LBUTTONUP {
        TrayAction::ToggleWidget
    } else if lparam as u32 == WM_RBUTTONUP {
        TrayAction::ShowContextMenu
    } else {
        TrayAction::Nothing
    }
}

/// Interprets a tray callback: a left click toggles the widget, a right
/// click opens the context menu.
pub fn handle_message(lparam: isize) -> (action: TrayAction)
    ensures
        action == tray_action_spec(lparam),
{
    let mouse_msg = lparam as u32;
    if mouse_msg == WM_LBUTTONUP {
        TrayAction::ToggleWidget
    } else if mouse_msg == WM_RBUTTONUP {
        TrayAction::ShowContextMenu
    } else {
        TrayAction::Nothing
    }
}

/// Which usage window the tray badge shows.
#[derive(Clone, Copy, Debug, PartialEq, Eq)]
pub enum TrayUsageWindow {
    Session,
    Weekly,
}

/// The window shown on the badge: the 5-hour window when enabled and
/// available, otherwise the 7-day window when enabled and available.
pub open spec fn preferred_window_spec(show_5hour_window: bool, session_available: bool, show_7day_window: bool, weekly_available: bool) -> Option<TrayUsageWindow> {
    if show_5hour_window && session_available {
        Some(TrayUsageWindow::Session)
    } else if show_7day_window && weekly_available {
        Some(TrayUsageWindow::Weekly)
    } else {
        None
    }
}

/// The window shown on the tray badge.
pub fn preferred_tray_window(show_5hour_window: bool, session_available: bool, show_7day_window: bool, weekly_available: bool) -> (window: Option<TrayUsageWindow>)
    ensures
        window == preferred_window_spec(show_5hour_window, session_available, show_7day_window, weekly_available),
{
    if show_5hour_window && session_available {
        Some(TrayUsageWindow::Session)
    } else if show_7day_window && weekly_available {
        Some(TrayUsageWindow::Weekly)
    } else {
        None
    }
}

/// What the tray tooltip is made of.
pub struct TrayTooltipInput<'a> {
    pub last_poll_ok: bool,
    pub codex_model: &'a str,
    pub no_data: &'a str,
    pub window_title: &'a str,
    pub show_5hour_window: bool,
    pub session_available: bool,
    pub session_text: &'a str,
    pub show_7day_window: bool,
    pub weekly_available: bool,
    pub weekly_text: &'a str,
}

/// The usage entries listed in the tooltip: every enabled and available window.
pub open spec fn tooltip_entries(input: TrayTooltipInput) -> Seq<Seq<char>> {
    let first: Seq<Seq<char>> = if input.show_5hour_window && input.session_available {
        seq!["5h: "@ + input.session_text@]
    } else {
        Seq::empty()
    };
    if input.show_7day_window && input.weekly_available {
        first.push("7d: "@ + input.weekly_text@)
    } else {
        first
    }
}

/// The tray tooltip: the window title until a poll has succeeded, then the
/// model name with each shown window's usage separated by ` | `, or a
/// no-data note when no window is shown.
pub open spec fn tray_tooltip_spec(input: TrayTooltipInput) -> Seq<char> {
    let entries = tooltip_entries(input);
    if !input.last_poll_ok {
        input.window_title@
    } else if entries.len() == 0 {
        input.codex_model@ + ": "@ + input.no_data@
    } else if entries.len() == 1 {
        input.codex_model@ + " "@ + entries[0]
    } else {
        input.codex_model@ + " "@ + entries[0] + " | "@ + entries[1]
    }
}

/// The tray tooltip text.
pub fn tray_tooltip(input: &TrayTooltipInput) -> (tooltip: String)
    ensures
        tooltip@ == tray_tooltip_spec(*input),
        !input.show_5hour_window ==> tooltip@ == tray_tooltip_spec(
            (TrayTooltipInput { session_available: false, ..*input }),
        ),
        !input.show_7day_window ==> tooltip@ == tray_tooltip_spec(
            (TrayTooltipInput { weekly_available: false, ..*input }),
        ),
{
    proof { lemma_hidden_windows_stay_out_of_tooltip(*input); }
    if !input.last_poll_ok {
        return String::from_str(input.window_title);
    }
    let session = input.show_5hour_window && input.session_available;
    let weekly = input.show_7day_window && input.weekly_available;
    let mut tooltip = String::from_str(input.codex_model);
    if !session && !weekly {
        tooltip.append(": ");
        tooltip.append(input.no_data);
        return tooltip;
    }
    tooltip.append(" ");
    if session {
        tooltip.append("5h: ");
        tooltip.append(input.session_text);
    }
    if session && weekly {
        tooltip.append(" | ");
    }
    if weekly {
        tooltip.append("7d: ");
        tooltip.append(input.weekly_text);
    }
    tooltip
}

/// A usage window the user has hidden never shows in the tooltip: with the
/// 5-hour window hidden the tooltip is the one built as if no 5-hour data
/// were available, and likewise for the 7-day window.
pub proof fn lemma_hidden_windows_stay_out_of_tooltip(input: TrayTooltipInput)
    ensures
        !input.show_5hour_window ==> tray_tooltip_spec(input) == tray_tooltip_spec(
            (TrayTooltipInput { session_available: false, ..input }),
        ),
        !input.show_7day_window ==> tray_tooltip_spec(input) == tray_tooltip_spec(
            (TrayTooltipInput { weekly_available: false, ..input }),
        ),
        !input.show_5hour_window && !input.show_7day_window && input.last_poll_ok ==> tray_tooltip_spec(input)
            == input.codex_model@ + ": "@ + input.no_data@,
{
    let hide5 = TrayTooltipInput { session_available: false, ..input };
    let hide7 = TrayTooltipInput { weekly_available: false, ..input };
    if !input.show_5hour_window {
        assert(tooltip_entries(input) =~= tooltip_entries(hide5));
    }
    if !input.show_7day_window {
        assert(tooltip_entries(input) =~= tooltip_entries(hide7));
    }
}

/// UTF-16 code units of one character.
pub open spec fn utf16_of_char(c: char) -> Seq<u16> {
    let u = c as u32;
    if u < 0x10000 {
        seq![u as u16]
    } else {
        seq![(0xD800 + (u - 0x10000) / 0x400) as u16, (0xDC00 + (u - 0x10000) % 0x400) as u16]
    }
}

/// UTF-16 encoding of a character sequence (`str::encode_utf16`).
pub open spec fn utf16(s: Seq<char>) -> Seq<u16>
    decreases s.len(),
{
    if s.len() == 0 {
        Seq::empty()
    } else {
        utf16(s.drop_last()) + utf16_of_char(s.last())
    }
}

/// UTF-16 code units of `s`.
pub fn encode_utf16(s: &str) -> (units: Vec<u16>)
    ensures
        units@ == utf16(s@),
{
    let chars = chars_vec(s);
    let mut units: Vec<u16> = Vec::new();
    let mut i: usize = 0;
    while i < chars.len()
        invariant
            chars@ == s@,
            0 <= i <= chars.len(),
            units@ == utf16(chars@.take(i as int)),
        decreases chars.len() - i,
    {
        let c = chars[i];
        let u = c as u32;
        proof {
            assert(chars@.take(i + 1).drop_last() =~= chars@.take(i as int));
            vstd::utf8::char_is_scalar(c);
        }
        if u < 0x10000 {
            units.push(u as u16);
        } else {
            let v = u - 0x10000;
            assert(v < 0x100000);
            units.push((0xD800 + v / 0x400) as u16);
            units.push((0xDC00 + v % 0x400) as u16);
        }
        i += 1;
        assert(units@ =~= utf16(chars@.take(i as int)));
    }
    assert(chars@.take(chars.len() as int) =~= chars@);
    units
}

/// Whether a code unit is a UTF-16 high (leading) surrogate.
pub open spec fn is_high_surrogate(u: u16) -> bool {
    0xD800 <= u <= 0xDBFF
}

/// How many code units of `wide` fit in a buffer of `capacity` units with
/// its terminator, without splitting a surrogate pair when `whole_pairs`.
pub open spec fn fitted_len(wide: Seq<u16>, capacity: nat, whole_pairs: bool) -> nat {
    let n = if wide.len() < capacity - 1 { wide.len() } else { (capacity - 1) as nat };
    if whole_pairs && n > 0 && is_high_surrogate(wide[n - 1]) {
        (n - 1) as nat
    } else {
        n
    }
}

/// The UTF-16 text of `s` as written into a fixed buffer of `capacity`
/// units: as many leading units as fit before the zero terminator (for
/// `whole_pairs`, dropping a final lone high surrogate), then the terminator.
pub fn fixed_wide_text(s: &str, capacity: usize, whole_pairs: bool) -> (buffer: Vec<u16>)
    requires
        capacity >= 1,
    ensures
        buffer@ == utf16(s@).take(fitted_len(utf16(s@), capacity as nat, whole_pairs) as int).push(0u16),
        buffer@.len() <= capacity,
{
    let wide = encode_utf16(s);
    let mut len = if wide.len() < capacity - 1 { wide.len() } else { capacity - 1 };
    if whole_pairs && len > 0 && 0xD800 <= wide[len - 1] && wide[len - 1] <= 0xDBFF {
        len -= 1;
    }
    let mut buffer: Vec<u16> = Vec::new();
    let mut i: usize = 0;
    while i < len
        invariant
            0 <= i <= len <= wide.len(),
            buffer@ == wide@.take(i as int),
        decreases len - i,
    {
        buffer.push(wide[i]);
        i += 1;
        assert(buffer@ =~= wide@.take(i as int));
    }
    buffer.push(0u16);
    buffer
}

proof fn lemma_char_units_paired(c: char)
    ensures
        forall|k: int| 0 <= k < utf16_of_char(c).len() && is_high_surrogate(#[trigger] utf16_of_char(c)[k])
            ==> k + 1 < utf16_of_char(c).len() && !is_high_surrogate(utf16_of_char(c)[k + 1]),
{
    vstd::utf8::char_is_scalar(c);
    let u = c as u32;
    if u >= 0x10000 {
        let v = u - 0x10000;
        assert(v < 0x100000);
        assert(0xD800 + v / 0x400 <= 0xDBFF);
        assert(0xDC00 <= 0xDC00 + v % 0x400 <= 0xDFFF);
    }
}

/// In the UTF-16 text of any string, each high surrogate is followed by a
/// unit that is not a high surrogate (its low half).
pub proof fn lemma_high_surrogates_are_paired(s: Seq<char>)
    ensures
        forall|k: int| 0 <= k < utf16(s).len() && is_high_surrogate(#[trigger] utf16(s)[k])
            ==> k + 1 < utf16(s).len() && !is_high_surrogate(utf16(s)[k + 1]),
    decreases s.len(),
{
    if s.len() > 0 {
        let prefix = utf16(s.drop_last());
        let tail = utf16_of_char(s.last());
        lemma_high_surrogates_are_paired(s.drop_last());
        lemma_char_units_paired(s.last());
        let w = utf16(s);
        assert(w == prefix + tail);
        assert forall|k: int| 0 <= k < w.len() && is_high_surrogate(#[trigger] w[k]) implies k + 1 < w.len() && !is_high_surrogate(w[k + 1]) by {
            if k < prefix.len() {
                assert(w[k] == prefix[k]);
                assert(w[k + 1] == prefix[k + 1]);
            } else {
                assert(w[k] == tail[k - prefix.len()]);
                assert(w[k + 1] == tail[k + 1 - prefix.len()]);
            }
        }
    }
}

/// A tooltip cut to fit its buffer with whole pairs never ends in the first
/// half of a surrogate pair.
pub proof fn lemma_fitted_tip_keeps_pairs_whole(s: Seq<char>, capacity: nat)
    requires
        capacity >= 1,
    ensures
        ({
            let w = utf16(s);
            let n = fitted_len(w, capacity, true);
            n > 0 ==> !is_high_surrogate(w[n - 1])
        }),
{
    let w = utf16(s);
    lemma_high_surrogates_are_paired(s);
    let m = if w.len() < capacity - 1 { w.len() } else { (capacity - 1) as nat };
    if m > 0 && is_high_surrogate(w[m - 1]) && m >= 2 {
        if is_high_surrogate(w[m - 2]) {
            assert(!is_high_surrogate(w[m - 2 + 1]));
        }
    }
}

} // verus!
