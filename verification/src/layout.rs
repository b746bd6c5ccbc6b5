//! Widget geometry: DPI scaling of the 96-DPI design values, the widget's
//! width, the drag handle, vertical anchoring, and the horizontal offset of
//! the widget inside the taskbar while dragging and after a drop.

use vstd::prelude::*;

verus! {

pub const SEGMENT_W: i32 = 10;
pub const SEGMENT_H: i32 = 13;
pub const SEGMENT_GAP: i32 = 1;
pub const SEGMENT_COUNT: i32 = 10;
pub const CORNER_RADIUS: i32 = 2;
pub const LEFT_DIVIDER_W: i32 = 3;
pub const DIVIDER_RIGHT_MARGIN: i32 = 10;
pub const LABEL_WIDTH: i32 = 18;
pub const LABEL_RIGHT_MARGIN: i32 = 10;
pub const BAR_RIGHT_MARGIN: i32 = 4;
pub const TEXT_WIDTH: i32 = 62;
pub const MODEL_RIGHT_MARGIN: i32 = 3;
pub const RIGHT_MARGIN: i32 = 1;
pub const WIDGET_HEIGHT: i32 = 46;
/// Height of the drag-handle divider at 96 DPI.
pub const DIVIDER_HEIGHT: i32 = 25;

/// `x / 96` rounded to the nearest integer, halves away from zero.
pub open spec fn round_div96(x: int) -> int {
    if x >= 0 {
        (x + 48) / 96
    } else {
        -((-x + 48) / 96)
    }
}

/// An integer held in an `i32`, saturating at its bounds.
pub open spec fn saturate_i32(x: int) -> i32 {
    if x > i32::MAX {
        i32::MAX
    } else if x < i32::MIN {
        i32::MIN
    } else {
        x as i32
    }
}

/// A 96-DPI pixel length scaled to `dpi`, rounded half away from zero and
/// saturated to `i32`.
pub open spec fn scaled(px: i32, dpi: u32) -> i32 {
    saturate_i32(round_div96(px * dpi))
}

/// Scales a length designed at 96 DPI to `dpi` (96 is 100 %, 144 is 150 %).
/// Equals `(px as f64 * dpi as f64 / 96.0).round() as i32`: the product is
/// exact below 2^53, the quotient of an integer by 96 cannot land on the
/// wrong side of a half, and larger products saturate either way.
pub fn sc(px: i32, dpi: u32) -> (scaled_px: i32)
    ensures
        scaled_px == scaled(px, dpi),
{
    proof {
        assert(-2147483648 * 4294967295 <= px as int * dpi as int <= 2147483647 * 4294967295) by (nonlinear_arith)
            requires
                -2147483648 <= px <= 2147483647,
                0 <= dpi <= 4294967295,
        ;
    }
    let x: i64 = px as i64 * dpi as i64;
    let r: i64 = if x >= 0 {
        (x + 48) / 96
    } else {
        -((-x + 48) / 96)
    };
    if r > i32::MAX as i64 {
        i32::MAX
    } else if r < i32::MIN as i64 {
        i32::MIN
    } else {
        r as i32
    }
}

/// Whether a client point lies on the drag handle: the divider strip at the
/// left edge, vertically centred in the widget.
pub open spec fn on_drag_handle(client_x: i32, client_y: i32, dpi: u32) -> bool {
    let h = scaled(DIVIDER_HEIGHT, dpi) as int;
    let top = (scaled(WIDGET_HEIGHT, dpi) - h) / 2;
    client_x >= 0 && client_x < scaled(LEFT_DIVIDER_W, dpi) && client_y >= top && client_y < top + h
}

/// Whether a client point lies on the drag handle.
pub fn is_drag_handle_point(client_x: i32, client_y: i32, dpi: u32) -> (on: bool)
    ensures
        on == on_drag_handle(client_x, client_y, dpi),
{
    let divider_h = sc(DIVIDER_HEIGHT, dpi) as i64;
    let divider_top = (sc(WIDGET_HEIGHT, dpi) as i64 - divider_h) / 2;
    client_x >= 0 && client_x < sc(LEFT_DIVIDER_W, dpi) && client_y as i64 >= divider_top && (client_y as i64)
        < divider_top + divider_h
}

/// Bar segments per usage row (a fixed count for every number of rows).
pub fn row_bar_segment_count(active_models: i32) -> (count: i32)
    ensures
        count == SEGMENT_COUNT,
{
    SEGMENT_COUNT
}

/// Whether a value fits in an `i32`.
pub open spec fn fits_i32(x: int) -> bool {
    i32::MIN <= x <= i32::MAX
}

/// Width of one usage row body at `dpi`: in compact mode just the text,
/// otherwise the segment bar, its margin and the text.
pub open spec fn usage_width(segment_count: i32, compact_mode: bool, dpi: u32) -> int {
    if compact_mode {
        scaled(TEXT_WIDTH, dpi) as int
    } else {
        (scaled(SEGMENT_W, dpi) + scaled(SEGMENT_GAP, dpi)) * segment_count - scaled(SEGMENT_GAP, dpi)
            + scaled(BAR_RIGHT_MARGIN, dpi) + scaled(TEXT_WIDTH, dpi)
    }
}

/// Every intermediate of the usage-row width fits in an `i32`.
pub open spec fn usage_width_fits(segment_count: i32, compact_mode: bool, dpi: u32) -> bool {
    compact_mode || {
        let pitch = scaled(SEGMENT_W, dpi) + scaled(SEGMENT_GAP, dpi);
        let bar = pitch * segment_count;
        &&& fits_i32(pitch)
        &&& fits_i32(bar)
        &&& fits_i32(bar - scaled(SEGMENT_GAP, dpi))
        &&& fits_i32(bar - scaled(SEGMENT_GAP, dpi) + scaled(BAR_RIGHT_MARGIN, dpi))
        &&& fits_i32(usage_width(segment_count, compact_mode, dpi))
    }
}

/// Width of one usage row body.
pub fn model_usage_width(segment_count: i32, compact_mode: bool, dpi: u32) -> (width: i32)
    requires
        usage_width_fits(segment_count, compact_mode, dpi),
    ensures
        width == usage_width(segment_count, compact_mode, dpi),
{
    if compact_mode {
        sc(TEXT_WIDTH, dpi)
    } else {
        let pitch = sc(SEGMENT_W, dpi) + sc(SEGMENT_GAP, dpi);
        let bar = pitch * segment_count;
        bar - sc(SEGMENT_GAP, dpi) + sc(BAR_RIGHT_MARGIN, dpi) + sc(TEXT_WIDTH, dpi)
    }
}

/// Total widget width for `active_models` rows side by side.
pub open spec fn widget_width(active_models: i32, compact_mode: bool, dpi: u32) -> int {
    let lead = scaled(LEFT_DIVIDER_W, dpi) + scaled(DIVIDER_RIGHT_MARGIN, dpi) + scaled(LABEL_WIDTH, dpi)
        + scaled(LABEL_RIGHT_MARGIN, dpi);
    lead + usage_width(SEGMENT_COUNT, compact_mode, dpi) * active_models + scaled(MODEL_RIGHT_MARGIN, dpi) * (
    active_models - 1) + scaled(RIGHT_MARGIN, dpi)
}

/// Every intermediate of the widget width fits in an `i32`.
pub open spec fn widget_width_fits(active_models: i32, compact_mode: bool, dpi: u32) -> bool {
    let s1 = scaled(LEFT_DIVIDER_W, dpi) + scaled(DIVIDER_RIGHT_MARGIN, dpi);
    let s2 = s1 + scaled(LABEL_WIDTH, dpi);
    let s3 = s2 + scaled(LABEL_RIGHT_MARGIN, dpi);
    let rows = usage_width(SEGMENT_COUNT, compact_mode, dpi) * active_models;
    let gaps = scaled(MODEL_RIGHT_MARGIN, dpi) * (active_models - 1);
    &&& usage_width_fits(SEGMENT_COUNT, compact_mode, dpi)
    &&& fits_i32(s1)
    &&& fits_i32(s2)
    &&& fits_i32(s3)
    &&& fits_i32(rows)
    &&& fits_i32(s3 + rows)
    &&& fits_i32(active_models - 1)
    &&& fits_i32(gaps)
    &&& fits_i32(s3 + rows + gaps)
    &&& fits_i32(widget_width(active_models, compact_mode, dpi))
}

/// Total widget width for `active_models` rows.
pub fn total_widget_width_for(active_models: i32, compact_mode: bool, dpi: u32) -> (width: i32)
    requires
        widget_width_fits(active_models, compact_mode, dpi),
    ensures
        width == widget_width(active_models, compact_mode, dpi),
{
    let bar_segments = row_bar_segment_count(active_models);
    let model_width = model_usage_width(bar_segments, compact_mode, dpi);
    let lead = sc(LEFT_DIVIDER_W, dpi) + sc(DIVIDER_RIGHT_MARGIN, dpi) + sc(LABEL_WIDTH, dpi) + sc(LABEL_RIGHT_MARGIN, dpi);
    let rows = model_width * active_models;
    let gaps = sc(MODEL_RIGHT_MARGIN, dpi) * (active_models - 1);
    lead + rows + gaps + sc(RIGHT_MARGIN, dpi)
}

/// A scaled length is never negative and grows with the DPI: at 5 DPI and
/// above a 10-pixel length is at least one pixel.
proof fn lemma_scaled_nonnegative(px: i32, dpi: u32)
    requires
        px >= 0,
    ensures
        scaled(px, dpi) >= 0,
        px >= 10 && dpi >= 5 ==> scaled(px, dpi) >= 1,
{
    assert(px * dpi >= 0) by (nonlinear_arith)
        requires
            px >= 0,
            dpi >= 0,
    ;
    if px >= 10 && dpi >= 5 {
        assert(px * dpi >= 50) by (nonlinear_arith)
            requires
                px >= 10,
                dpi >= 5,
        ;
    }
}

/// Compact mode never widens the widget, and narrows it at every DPI of 5
/// and above, for any number of rows.
pub proof fn lemma_compact_mode_is_narrower(active_models: i32, dpi: u32)
    requires
        active_models >= 1,
    ensures
        widget_width(active_models, true, dpi) <= widget_width(active_models, false, dpi),
        dpi >= 5 ==> widget_width(active_models, true, dpi) < widget_width(active_models, false, dpi),
{
    lemma_scaled_nonnegative(SEGMENT_W, dpi);
    lemma_scaled_nonnegative(SEGMENT_GAP, dpi);
    lemma_scaled_nonnegative(BAR_RIGHT_MARGIN, dpi);
    let bar = usage_width(SEGMENT_COUNT, false, dpi) - usage_width(SEGMENT_COUNT, true, dpi);
    assert(bar == scaled(SEGMENT_W, dpi) * 10 + scaled(SEGMENT_GAP, dpi) * 9 + scaled(BAR_RIGHT_MARGIN, dpi));
    assert(usage_width(SEGMENT_COUNT, true, dpi) * active_models + bar * active_models
        == usage_width(SEGMENT_COUNT, false, dpi) * active_models) by (nonlinear_arith)
        requires
            bar == usage_width(SEGMENT_COUNT, false, dpi) - usage_width(SEGMENT_COUNT, true, dpi),
    ;
    assert(bar * active_models >= bar) by (nonlinear_arith)
        requires
            bar >= 0,
            active_models >= 1,
    ;
}

/// Top of the widget: aligned with the bottom of the anchor area, but never
/// above its top.
pub open spec fn anchor_y(anchor_top: i32, anchor_height: i32, widget_height: i32) -> int {
    let below = anchor_top + anchor_height - widget_height;
    if below >= anchor_top { below } else { anchor_top as int }
}

/// Vertical position of the widget relative to the taskbar.
pub fn compute_anchor_y(anchor_top: i32, anchor_height: i32, widget_height: i32) -> (y: i32)
    requires
        fits_i32(anchor_top + anchor_height),
        fits_i32(anchor_top + anchor_height - widget_height),
    ensures
        y == anchor_y(anchor_top, anchor_height, widget_height),
{
    let anchor_bottom = anchor_top + anchor_height;
    let below = anchor_bottom - widget_height;
    if below >= anchor_top { below } else { anchor_top }
}

/// Left edge of the notification area: its own left edge when known, else
/// the right edge of the taskbar.
pub fn tray_left_edge(taskbar_right: i32, tray_area_left: Option<i32>) -> (left: i32)
    ensures
        left == match tray_area_left {
            Some(l) => l,
            None => taskbar_right,
        },
{
    match tray_area_left {
        Some(l) => l,
        None => taskbar_right,
    }
}

/// Largest offset (distance left of the notification area) that keeps the
/// widget inside the taskbar; 0 when the widget does not fit.
pub open spec fn max_offset(tray_left: i32, taskbar_left: i32, widget_width: i32) -> int {
    let room = tray_left - taskbar_left - widget_width;
    if room > 0 { room } else { 0 }
}

/// `offset` limited to `0..=max_offset(..)`.
pub open spec fn clamped_offset(tray_left: i32, taskbar_left: i32, widget_width: i32, offset: int) -> int {
    let m = max_offset(tray_left, taskbar_left, widget_width);
    if offset < 0 {
        0
    } else if offset > m {
        m
    } else {
        offset
    }
}

/// The room computation fits in an `i32`.
pub open spec fn room_fits(tray_left: i32, taskbar_left: i32, widget_width: i32) -> bool {
    fits_i32(tray_left - taskbar_left) && fits_i32(tray_left - taskbar_left - widget_width)
}

/// An offset limited to the room available in the taskbar.
pub fn clamp_offset_for_taskbar(tray_left: i32, taskbar_left: i32, widget_width: i32, offset: i32) -> (clamped: i32)
    requires
        room_fits(tray_left, taskbar_left, widget_width),
    ensures
        clamped == clamped_offset(tray_left, taskbar_left, widget_width, offset as int),
        0 <= clamped <= max_offset(tray_left, taskbar_left, widget_width),
{
    let room = tray_left - taskbar_left - widget_width;
    let max_offset = if room > 0 { room } else { 0 };
    if offset < 0 {
        0
    } else if offset > max_offset {
        max_offset
    } else {
        offset
    }
}

/// The offset that places the widget where it was dropped: its left edge at
/// the drop point minus where inside the widget the drag started.
pub open spec fn drop_offset_spec(tray_left: i32, taskbar_left: i32, widget_width: i32, drop_x: i32, drag_start_client_x: i32) -> int {
    let desired_left = drop_x - taskbar_left - drag_start_client_x;
    clamped_offset(tray_left, taskbar_left, widget_width, tray_left - taskbar_left - widget_width - desired_left)
}

/// The drop-point arithmetic fits in an `i32`.
pub open spec fn drop_fits(tray_left: i32, taskbar_left: i32, widget_width: i32, drop_x: i32, drag_start_client_x: i32) -> bool {
    let desired_left = drop_x - taskbar_left - drag_start_client_x;
    &&& room_fits(tray_left, taskbar_left, widget_width)
    &&& fits_i32(drop_x - taskbar_left)
    &&& fits_i32(desired_left)
    &&& fits_i32(tray_left - taskbar_left - widget_width - desired_left)
}

/// Offset for a widget dropped at `drop_x` on a taskbar.
pub fn offset_for_drop_point(tray_left: i32, taskbar_left: i32, widget_width: i32, drop_x: i32, drag_start_client_x: i32) -> (offset: i32)
    requires
        drop_fits(tray_left, taskbar_left, widget_width, drop_x, drag_start_client_x),
    ensures
        offset == drop_offset_spec(tray_left, taskbar_left, widget_width, drop_x, drag_start_client_x),
        0 <= offset <= max_offset(tray_left, taskbar_left, widget_width),
{
    let desired_left = drop_x - taskbar_left - drag_start_client_x;
    let offset = tray_left - taskbar_left - widget_width - desired_left;
    clamp_offset_for_taskbar(tray_left, taskbar_left, widget_width, offset)
}

/// Offset while dragging: the start offset moved by how far the mouse went
/// left, never negative, and never past the left edge of the taskbar when
/// the taskbar's extent is known as `(tray_left, taskbar_left, widget_width)`.
pub open spec fn drag_offset_spec(start_offset: i32, start_mouse_x: i32, mouse_x: i32, bounds: Option<(i32, i32, i32)>) -> int {
    let moved = start_offset + (start_mouse_x - mouse_x);
    let at_least_zero = if moved < 0 { 0 } else { moved };
    match bounds {
        None => at_least_zero,
        Some((tray_left, taskbar_left, widget_width)) => {
            let m = max_offset(tray_left, taskbar_left, widget_width);
            if at_least_zero > m { m } else { at_least_zero }
        },
    }
}

/// Offset while dragging.
pub fn drag_offset(start_offset: i32, start_mouse_x: i32, mouse_x: i32, bounds: Option<(i32, i32, i32)>) -> (offset: i32)
    requires
        fits_i32(start_mouse_x - mouse_x),
        fits_i32(start_offset + (start_mouse_x - mouse_x)),
        match bounds {
            Some((tray_left, taskbar_left, widget_width)) => room_fits(tray_left, taskbar_left, widget_width),
            None => true,
        },
    ensures
        offset == drag_offset_spec(start_offset, start_mouse_x, mouse_x, bounds),
        offset >= 0,
        match bounds {
            Some((tray_left, taskbar_left, widget_width)) => offset <= max_offset(tray_left, taskbar_left, widget_width),
            None => true,
        },
{
    let delta = start_mouse_x - mouse_x;
    let mut new_offset = start_offset + delta;
    if new_offset < 0 {
        new_offset = 0;
    }
    match bounds {
        None => new_offset,
        Some((tray_left, taskbar_left, widget_width)) => {
            let room = tray_left - taskbar_left - widget_width;
            let max_offset = if room > 0 { room } else { 0 };
            if new_offset > max_offset { max_offset } else { new_offset }
        },
    }
}

/// Left edge of the widget placed `offset` pixels left of the notification
/// area: relative to the taskbar when the widget is embedded in it, in
/// screen coordinates otherwise.
pub open spec fn widget_left_spec(tray_left: i32, taskbar_left: i32, widget_width: i32, offset: i32, embedded: bool) -> int {
    if embedded {
        tray_left - taskbar_left - widget_width - offset
    } else {
        tray_left - widget_width - offset
    }
}

/// Every intermediate of the widget's left edge fits in an `i32`.
pub open spec fn widget_left_fits(tray_left: i32, taskbar_left: i32, widget_width: i32, offset: i32, embedded: bool) -> bool {
    if embedded {
        room_fits(tray_left, taskbar_left, widget_width) && fits_i32(widget_left_spec(tray_left, taskbar_left, widget_width, offset, embedded))
    } else {
        fits_i32(tray_left - widget_width) && fits_i32(widget_left_spec(tray_left, taskbar_left, widget_width, offset, embedded))
    }
}

/// Left edge of the widget for an offset.
pub fn widget_left(tray_left: i32, taskbar_left: i32, widget_width: i32, offset: i32, embedded: bool) -> (x: i32)
    requires
        widget_left_fits(tray_left, taskbar_left, widget_width, offset, embedded),
    ensures
        x == widget_left_spec(tray_left, taskbar_left, widget_width, offset, embedded),
{
    if embedded {
        tray_left - taskbar_left - widget_width - offset
    } else {
        tray_left - widget_width - offset
    }
}

/// An embedded widget placed at a clamped offset lies inside the taskbar,
/// between its left edge and the notification area, whenever it fits there.
pub proof fn lemma_clamped_widget_stays_in_taskbar(tray_left: i32, taskbar_left: i32, widget_width: i32, offset: int)
    requires
        widget_width >= 0,
        tray_left - taskbar_left >= widget_width,
    ensures
        ({
            let o = clamped_offset(tray_left, taskbar_left, widget_width, offset);
            let left = tray_left - taskbar_left - widget_width - o;
            &&& 0 <= left
            &&& left + widget_width <= tray_left - taskbar_left
        }),
{
}

/// A screen rectangle, right and bottom edges exclusive.
#[derive(Clone, Copy, Debug, PartialEq, Eq)]
pub struct Rect {
    pub left: i32,
    pub top: i32,
    pub right: i32,
    pub bottom: i32,
}

/// Whether `rect` contains the point `(x, y)`.
pub open spec fn rect_contains(rect: Rect, x: i32, y: i32) -> bool {
    rect.left <= x < rect.right && rect.top <= y < rect.bottom
}

/// Index of the first taskbar whose rectangle contains `(x, y)`.
pub fn taskbar_at_point(taskbars: &Vec<Rect>, x: i32, y: i32) -> (found: Option<usize>)
    ensures
        match found {
            Some(i) => i < taskbars@.len() && rect_contains(taskbars@[i as int], x, y) && forall|j: int|
                0 <= j < i ==> !rect_contains(#[trigger] taskbars@[j], x, y),
            None => forall|j: int| 0 <= j < taskbars@.len() ==> !rect_contains(#[trigger] taskbars@[j], x, y),
        },
{
    let mut i: usize = 0;
    while i < taskbars.len()
        invariant
            0 <= i <= taskbars.len(),
            forall|j: int| 0 <= j < i ==> !rect_contains(#[trigger] taskbars@[j], x, y),
        decreases taskbars.len() - i,
    {
        let r = taskbars[i];
        if x >= r.left && x < r.right && y >= r.top && y < r.bottom {
            return Some(i);
        }
        i += 1;
    }
    None
}

} // verus!
verus! {

/// The low 16 bits of `v` (two's complement) read as a signed 16-bit value.
pub open spec fn signed_low16(v: int) -> int {
    let lo = v % 65536;
    if lo >= 32768 { lo - 65536 } else { lo }
}

fn signed_low16_exec(v: i64) -> (r: i32)
    ensures
        r == signed_low16(v as int),
{
    let m = v % 65536;
    let lo = if m < 0 { m + 65536 } else { m };
    assert(lo == (v as int) % 65536);
    if lo >= 32768 { (lo - 65536) as i32 } else { lo as i32 }
}

/// The client point packed in a mouse message's `lparam`: x in the low
/// word and y in the high word, each a signed 16-bit value.
pub fn client_point_from_lparam(lparam: isize) -> (point: (i32, i32))
    ensures
        point.0 == signed_low16(lparam as int),
        point.1 == signed_low16((lparam as int) / 65536),
{
    let v = lparam as i64;
    let q = v / 65536;
    let floor_q = if v < 0 && v % 65536 != 0 { q - 1 } else { q };
    assert(floor_q == (v as int) / 65536);
    (signed_low16_exec(v), signed_low16_exec(floor_q))
}

/// The new DPI carried in the low word of a DPI-change message's `wparam`.
pub fn dpi_from_wparam(wparam: usize) -> (dpi: u32)
    ensures
        dpi == wparam % 65536,
{
    (wparam % 65536) as u32
}

} // verus!
