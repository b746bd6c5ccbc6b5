//! What the widget and the tray badge draw: the colour palettes, the badge
//! text and font size, the alpha given to rendered pixels, and where the
//! divider, the usage rows, the bar segments and the texts go.

use vstd::prelude::*;
use crate::layout::{
    scaled, sc, fits_i32, BAR_RIGHT_MARGIN, DIVIDER_HEIGHT, DIVIDER_RIGHT_MARGIN, LABEL_RIGHT_MARGIN,
    LABEL_WIDTH, LEFT_DIVIDER_W, SEGMENT_GAP, SEGMENT_H, SEGMENT_W,
};
use crate::text::{decimal, push_decimal};

verus! {

/// A Win32 `COLORREF` for an RGB colour: red in the low byte, blue in the
/// third.
pub open spec fn rgb(r: u8, g: u8, b: u8) -> u32 {
    (r as int + g as int * 256 + b as int * 65536) as u32
}

/// The `COLORREF` of an RGB colour.
pub fn colorref(r: u8, g: u8, b: u8) -> (color: u32)
    ensures
        color == rgb(r, g, b),
        color == r as int + g as int * 256 + b as int * 65536,
{
    r as u32 + g as u32 * 256 + b as u32 * 65536
}

/// The widget's colours for one theme.
#[derive(Clone, Copy, Debug, PartialEq, Eq)]
pub struct WidgetColors {
    pub background: u32,
    pub text: u32,
    pub accent: u32,
    pub track: u32,
    pub divider_left: u32,
    pub divider_right: u32,
}

/// The widget palette: light text on the dark taskbar, dark text on the
/// light one.
pub open spec fn widget_colors_spec(is_dark: bool) -> WidgetColors {
    if is_dark {
        WidgetColors {
            background: rgb(0x1C, 0x1C, 0x1C),
            text: rgb(0x88, 0x88, 0x88),
            accent: rgb(0xF5, 0xF5, 0xF5),
            track: rgb(0x44, 0x44, 0x44),
            divider_left: rgb(80, 80, 80),
            divider_right: rgb(40, 40, 40),
        }
    } else {
        WidgetColors {
            background: rgb(0xF3, 0xF3, 0xF3),
            text: rgb(0x40, 0x40, 0x40),
            accent: rgb(0x1F, 0x1F, 0x1F),
            track: rgb(0xAA, 0xAA, 0xAA),
            divider_left: rgb(160, 160, 160),
            divider_right: rgb(230, 230, 230),
        }
    }
}

/// The widget palette for the taskbar theme.
pub fn widget_colors(is_dark: bool) -> (colors: WidgetColors)
    ensures
        colors == widget_colors_spec(is_dark),
{
    if is_dark {
        WidgetColors {
            background: colorref(0x1C, 0x1C, 0x1C),
            text: colorref(0x88, 0x88, 0x88),
            accent: colorref(0xF5, 0xF5, 0xF5),
            track: colorref(0x44, 0x44, 0x44),
            divider_left: colorref(80, 80, 80),
            divider_right: colorref(40, 40, 40),
        }
    } else {
        WidgetColors {
            background: colorref(0xF3, 0xF3, 0xF3),
            text: colorref(0x40, 0x40, 0x40),
            accent: colorref(0x1F, 0x1F, 0x1F),
            track: colorref(0xAA, 0xAA, 0xAA),
            divider_left: colorref(160, 160, 160),
            divider_right: colorref(230, 230, 230),
        }
    }
}

/// Used percentage from which the tray badge switches to its warning look.
pub const BADGE_WARNING_PERCENT: u32 = 90;

/// The tray badge's colours.
#[derive(Clone, Copy, Debug, PartialEq, Eq)]
pub struct BadgeColors {
    pub fill: u32,
    pub text: u32,
    pub outline: u32,
}

/// A near-black badge with a white outline and text; at the warning level a
/// white badge with near-black outline and text.
pub open spec fn badge_colors_spec(warning: bool) -> BadgeColors {
    let white = rgb(0xFF, 0xFF, 0xFF);
    let black = rgb(0x11, 0x11, 0x11);
    if warning {
        BadgeColors { fill: white, text: black, outline: black }
    } else {
        BadgeColors { fill: black, text: white, outline: white }
    }
}

/// The badge colours; `warning` is whether the used percentage has reached
/// `BADGE_WARNING_PERCENT`.
pub fn badge_colors(warning: bool) -> (colors: BadgeColors)
    ensures
        colors == badge_colors_spec(warning),
{
    let white = colorref(0xFF, 0xFF, 0xFF);
    let black = colorref(0x11, 0x11, 0x11);
    if warning {
        BadgeColors { fill: white, text: black, outline: black }
    } else {
        BadgeColors { fill: black, text: white, outline: white }
    }
}

/// The badge text: the rounded percentage, or `C` when there is none.
pub open spec fn badge_text_spec(percent: Option<u32>) -> Seq<char> {
    match percent {
        Some(p) => decimal(p as nat),
        None => seq!['C'],
    }
}

/// The text on the tray badge for a rounded display percentage.
pub fn badge_text(percent: Option<u32>) -> (text: String)
    ensures
        text@ == badge_text_spec(percent),
{
    let mut text = String::new();
    match percent {
        Some(p) => push_decimal(&mut text, p as u64),
        None => crate::text::push_char(&mut text, 'C'),
    }
    proof {
        assert(text@ =~= badge_text_spec(percent));
    }
    text
}

/// Font height of the badge text by its length: the fewer characters, the
/// larger (negative heights ask for the character height).
pub open spec fn badge_font_height_spec(text_len: nat) -> int {
    if text_len == 1 {
        -50
    } else if text_len == 2 {
        -42
    } else {
        -30
    }
}

/// Font height for a badge text of `text_len` characters.
pub fn badge_font_height(text_len: usize) -> (height: i32)
    ensures
        height == badge_font_height_spec(text_len as nat),
{
    if text_len == 1 {
        -50
    } else if text_len == 2 {
        -42
    } else {
        -30
    }
}

/// A badge pixel after drawing: anything drawn becomes fully opaque, the
/// untouched background stays transparent.
pub open spec fn opaque_if_drawn(px: u32) -> u32 {
    if px == 0 {
        0
    } else {
        (px & 0x00FF_FFFFu32) | 0xFF00_0000u32
    }
}

/// Makes every drawn pixel of the badge fully opaque.
pub fn make_drawn_pixels_opaque(pixels: &mut Vec<u32>)
    ensures
        final(pixels)@.len() == old(pixels)@.len(),
        forall|i: int| 0 <= i < old(pixels)@.len() ==> final(pixels)@[i] == opaque_if_drawn(#[trigger] old(pixels)@[i]),
{
    let ghost before = pixels@;
    let mut i: usize = 0;
    while i < pixels.len()
        invariant
            pixels@.len() == before.len(),
            0 <= i <= pixels@.len(),
            forall|k: int| 0 <= k < i ==> pixels@[k] == opaque_if_drawn(#[trigger] before[k]),
            forall|k: int| i <= k < pixels@.len() ==> pixels@[k] == before[k],
        decreases pixels@.len() - i,
    {
        let px = pixels[i];
        if px != 0 {
            pixels.set(i, (px & 0x00FF_FFFF) | 0xFF00_0000);
        }
        i += 1;
    }
}

/// A widget pixel pushed to the layered window: the background colour gets
/// alpha 1 (invisible but still hit by the mouse), anything else is opaque.
pub open spec fn layered_pixel(px: u32, background: u32) -> u32 {
    let color = px & 0x00FF_FFFFu32;
    if color == background {
        0x0100_0000u32
    } else {
        color | 0xFF00_0000u32
    }
}

/// Sets the alpha of every rendered widget pixel for the layered window.
pub fn apply_layered_alpha(pixels: &mut Vec<u32>, background: u32)
    ensures
        final(pixels)@.len() == old(pixels)@.len(),
        forall|i: int| 0 <= i < old(pixels)@.len() ==> final(pixels)@[i] == layered_pixel(#[trigger] old(pixels)@[i], background),
{
    let ghost before = pixels@;
    let mut i: usize = 0;
    while i < pixels.len()
        invariant
            pixels@.len() == before.len(),
            0 <= i <= pixels@.len(),
            forall|k: int| 0 <= k < i ==> pixels@[k] == layered_pixel(#[trigger] before[k], background),
            forall|k: int| i <= k < pixels@.len() ==> pixels@[k] == before[k],
        decreases pixels@.len() - i,
    {
        let color = pixels[i] & 0x00FF_FFFF;
        let out = if color == background {
            0x0100_0000
        } else {
            color | 0xFF00_0000
        };
        pixels.set(i, out);
        i += 1;
    }
}

/// Every pixel of the layered widget keeps a non-zero alpha, so the whole
/// widget answers the mouse, and every pixel that is not background keeps
/// its colour and is fully opaque.
pub proof fn lemma_layered_pixels_stay_hittable(px: u32, background: u32)
    ensures
        layered_pixel(px, background) >= 0x0100_0000,
        (px & 0x00FF_FFFFu32) != background ==> layered_pixel(px, background) & 0x00FF_FFFFu32 == px
            & 0x00FF_FFFFu32 && layered_pixel(px, background) >= 0xFF00_0000,
{
    assert((px & 0x00FF_FFFFu32) | 0xFF00_0000u32 >= 0xFF00_0000u32) by (bit_vector);
    assert(((px & 0x00FF_FFFFu32) | 0xFF00_0000u32) & 0x00FF_FFFFu32 == px & 0x00FF_FFFFu32) by (bit_vector);
}

/// `x / 2` rounded toward zero, as integer division does on a negative `x`.
pub open spec fn half_toward_zero(x: int) -> int {
    if x >= 0 {
        x / 2
    } else {
        -((-x) / 2)
    }
}

/// Top of the drag-handle divider in a widget `height` pixels tall.
pub open spec fn divider_top_spec(height: i32, dpi: u32) -> int {
    half_toward_zero(height - scaled(DIVIDER_HEIGHT, dpi))
}

/// The divider's vertical span, top and bottom, in a widget of `height`.
pub fn divider_span(height: i32, dpi: u32) -> (span: (i32, i32))
    requires
        fits_i32(divider_top_spec(height, dpi) + scaled(DIVIDER_HEIGHT, dpi)),
    ensures
        span.0 == divider_top_spec(height, dpi),
        span.1 == divider_top_spec(height, dpi) + scaled(DIVIDER_HEIGHT, dpi),
{
    let divider_h = sc(DIVIDER_HEIGHT, dpi) as i64;
    let room = height as i64 - divider_h;
    let top: i64 = if room >= 0 { room / 2 } else { -((-room) / 2) };
    (top as i32, (top + divider_h) as i32)
}

/// Space under the lower usage row at 96 DPI.
pub const ROW_BOTTOM_MARGIN: i32 = 5;
/// Space between the two usage rows at 96 DPI.
pub const ROW_GAP: i32 = 10;

/// Left edge of the usage rows: past the divider and its margin.
pub open spec fn content_left_spec(dpi: u32) -> int {
    scaled(LEFT_DIVIDER_W, dpi) + scaled(DIVIDER_RIGHT_MARGIN, dpi)
}

/// Left edge of the usage rows.
pub fn content_left(dpi: u32) -> (x: i32)
    requires
        fits_i32(content_left_spec(dpi)),
    ensures
        x == content_left_spec(dpi),
{
    (sc(LEFT_DIVIDER_W, dpi) as i64 + sc(DIVIDER_RIGHT_MARGIN, dpi) as i64) as i32
}

/// Where the usage rows go in a widget `height` pixels tall.
#[derive(Clone, Copy, Debug, PartialEq, Eq)]
pub enum RowLayout {
    /// Both windows: the 5-hour row above the 7-day row.
    Both { session_y: i32, weekly_y: i32 },
    /// Only the 5-hour row, vertically centred.
    SessionOnly(i32),
    /// Only the 7-day row, vertically centred.
    WeeklyOnly(i32),
    /// No row: the "no data" text is centred instead.
    NoData,
}

/// Top of the lower of two rows.
pub open spec fn lower_row_top(height: i32, dpi: u32) -> int {
    height - scaled(ROW_BOTTOM_MARGIN, dpi) - scaled(SEGMENT_H, dpi)
}

/// Top of the upper of two rows.
pub open spec fn upper_row_top(height: i32, dpi: u32) -> int {
    lower_row_top(height, dpi) - scaled(ROW_GAP, dpi) - scaled(SEGMENT_H, dpi)
}

/// Top of a single, vertically centred row.
pub open spec fn single_row_top(height: i32, dpi: u32) -> int {
    half_toward_zero(height - scaled(SEGMENT_H, dpi))
}

/// Whether the row positions for these inputs fit in an `i32`.
pub open spec fn row_layout_fits(height: i32, show_session: bool, show_weekly: bool, dpi: u32) -> bool {
    if show_session && show_weekly {
        fits_i32(lower_row_top(height, dpi)) && fits_i32(upper_row_top(height, dpi))
    } else {
        true
    }
}

/// The row layout for the visible windows.
pub open spec fn row_layout_spec(height: i32, show_session: bool, show_weekly: bool, dpi: u32) -> RowLayout {
    if show_session && show_weekly {
        RowLayout::Both {
            session_y: upper_row_top(height, dpi) as i32,
            weekly_y: lower_row_top(height, dpi) as i32,
        }
    } else if show_session {
        RowLayout::SessionOnly(single_row_top(height, dpi) as i32)
    } else if show_weekly {
        RowLayout::WeeklyOnly(single_row_top(height, dpi) as i32)
    } else {
        RowLayout::NoData
    }
}

/// Where the usage rows go; `show_session` and `show_weekly` say which
/// windows are both selected and available.
pub fn row_layout(height: i32, show_session: bool, show_weekly: bool, dpi: u32) -> (layout: RowLayout)
    requires
        row_layout_fits(height, show_session, show_weekly, dpi),
    ensures
        layout == row_layout_spec(height, show_session, show_weekly, dpi),
        layout matches RowLayout::Both { session_y, weekly_y } ==> session_y <= weekly_y,
{
    let seg_h = sc(SEGMENT_H, dpi) as i64;
    if show_session && show_weekly {
        let lower = height as i64 - sc(ROW_BOTTOM_MARGIN, dpi) as i64 - seg_h;
        let upper = lower - sc(ROW_GAP, dpi) as i64 - seg_h;
        RowLayout::Both { session_y: upper as i32, weekly_y: lower as i32 }
    } else {
        let room = height as i64 - seg_h;
        let single: i64 = if room >= 0 { room / 2 } else { -((-room) / 2) };
        if show_session {
            RowLayout::SessionOnly(single as i32)
        } else if show_weekly {
            RowLayout::WeeklyOnly(single as i32)
        } else {
            RowLayout::NoData
        }
    }
}

/// Left edge of a row's usage bar: past the row label and its margin.
pub open spec fn usage_bar_left_spec(row_x: i32, dpi: u32) -> int {
    row_x + scaled(LABEL_WIDTH, dpi) + scaled(LABEL_RIGHT_MARGIN, dpi)
}

/// Left edge of a row's usage bar.
pub fn usage_bar_left(row_x: i32, dpi: u32) -> (x: i32)
    requires
        fits_i32(usage_bar_left_spec(row_x, dpi)),
    ensures
        x == usage_bar_left_spec(row_x, dpi),
{
    (row_x as i64 + sc(LABEL_WIDTH, dpi) as i64 + sc(LABEL_RIGHT_MARGIN, dpi) as i64) as i32
}

/// Left edge of bar segment `index`.
pub open spec fn segment_left_spec(bar_x: i32, index: i32, dpi: u32) -> int {
    bar_x + index * (scaled(SEGMENT_W, dpi) + scaled(SEGMENT_GAP, dpi))
}

/// Left edge of bar segment `index`.
pub fn segment_left(bar_x: i32, index: i32, dpi: u32) -> (x: i32)
    requires
        fits_i32(segment_left_spec(bar_x, index, dpi)),
    ensures
        x == segment_left_spec(bar_x, index, dpi),
{
    let pitch = sc(SEGMENT_W, dpi) as i128 + sc(SEGMENT_GAP, dpi) as i128;
    proof {
        assert(-0x1_0000_0000_0000_0000 <= index * pitch <= 0x1_0000_0000_0000_0000) by (nonlinear_arith)
            requires
                -0x8000_0000 <= index <= 0x7FFF_FFFF,
                -0x1_0000_0000 <= pitch <= 0x1_0000_0000,
        ;
    }
    (bar_x as i128 + index as i128 * pitch) as i32
}

/// Left edge of a row's usage text: right after the bar and its margin,
/// or at the bar's place in compact mode.
pub open spec fn bar_text_left_spec(bar_x: i32, segment_count: i32, compact_mode: bool, dpi: u32) -> int {
    if compact_mode {
        bar_x as int
    } else {
        segment_left_spec(bar_x, segment_count, dpi) - scaled(SEGMENT_GAP, dpi) + scaled(BAR_RIGHT_MARGIN, dpi)
    }
}

/// Left edge of a row's usage text.
pub fn bar_text_left(bar_x: i32, segment_count: i32, compact_mode: bool, dpi: u32) -> (x: i32)
    requires
        fits_i32(bar_text_left_spec(bar_x, segment_count, compact_mode, dpi)),
    ensures
        x == bar_text_left_spec(bar_x, segment_count, compact_mode, dpi),
{
    if compact_mode {
        bar_x
    } else {
        let pitch = sc(SEGMENT_W, dpi) as i128 + sc(SEGMENT_GAP, dpi) as i128;
        proof {
            assert(-0x1_0000_0000_0000_0000 <= segment_count * pitch <= 0x1_0000_0000_0000_0000) by (nonlinear_arith)
                requires
                    -0x8000_0000 <= segment_count <= 0x7FFF_FFFF,
                    -0x1_0000_0000 <= pitch <= 0x1_0000_0000,
            ;
        }
        (bar_x as i128 + segment_count as i128 * pitch - sc(SEGMENT_GAP, dpi) as i128 + sc(BAR_RIGHT_MARGIN, dpi) as i128) as i32
    }
}

} // verus!
