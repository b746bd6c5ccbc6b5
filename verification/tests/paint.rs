use codex_usage_taskbar_monitor::layout::total_widget_width_for;
use codex_usage_taskbar_monitor::tray::fixed_wide_text;
use codex_usage_taskbar_monitor::paint::{
    apply_layered_alpha, badge_colors, badge_font_height, badge_text, bar_text_left, colorref, content_left,
    divider_span, make_drawn_pixels_opaque, row_layout, segment_left, usage_bar_left, widget_colors, RowLayout,
};

#[test]
fn colorref_puts_red_in_the_low_byte() {
    assert_eq!(colorref(0x12, 0x34, 0x56), 0x0056_3412);
    assert_eq!(colorref(0xFF, 0, 0), 0xFF);
}

#[test]
fn palettes_follow_the_theme() {
    let dark = widget_colors(true);
    assert_eq!(dark.background, 0x001C_1C1C);
    assert_eq!(dark.accent, 0x00F5_F5F5);
    assert_eq!(dark.text, 0x0088_8888);
    assert_eq!(dark.track, 0x0044_4444);
    assert_eq!(dark.divider_left, 0x0050_5050);
    assert_eq!(dark.divider_right, 0x0028_2828);
    let light = widget_colors(false);
    assert_eq!(light.background, 0x00F3_F3F3);
    assert_eq!(light.accent, 0x001F_1F1F);
    assert_eq!(light.text, 0x0040_4040);
    assert_eq!(light.track, 0x00AA_AAAA);
    assert_eq!(light.divider_left, 0x00A0_A0A0);
    assert_eq!(light.divider_right, 0x00E6_E6E6);
}

#[test]
fn badge_turns_white_at_the_warning_level() {
    let normal = badge_colors(false);
    assert_eq!((normal.fill, normal.text, normal.outline), (0x0011_1111, 0x00FF_FFFF, 0x00FF_FFFF));
    let warning = badge_colors(true);
    assert_eq!((warning.fill, warning.text, warning.outline), (0x00FF_FFFF, 0x0011_1111, 0x0011_1111));
}

#[test]
fn badge_text_and_font_size() {
    assert_eq!(badge_text(None), "C");
    assert_eq!(badge_text(Some(7)), "7");
    assert_eq!(badge_text(Some(42)), "42");
    assert_eq!(badge_text(Some(100)), "100");
    assert_eq!(badge_font_height(badge_text(None).len()), -50);
    assert_eq!(badge_font_height(badge_text(Some(42)).len()), -42);
    assert_eq!(badge_font_height(badge_text(Some(100)).len()), -30);
    assert_eq!(badge_font_height(0), -30);
}

#[test]
fn drawn_badge_pixels_become_opaque() {
    let mut pixels = vec![0, 0x0012_3456, 0x8011_2233, 0xFFFF_FFFF];
    make_drawn_pixels_opaque(&mut pixels);
    assert_eq!(pixels, vec![0, 0xFF12_3456, 0xFF11_2233, 0xFFFF_FFFF]);
}

#[test]
fn layered_pixels_keep_the_background_hittable() {
    let background = 0x001C_1C1C;
    let mut pixels = vec![0x001C_1C1C, 0xAB1C_1C1C, 0x00F5_F5F5, 0x0000_0000];
    apply_layered_alpha(&mut pixels, background);
    assert_eq!(pixels, vec![0x0100_0000, 0x0100_0000, 0xFFF5_F5F5, 0xFF00_0000]);
}

#[test]
fn divider_is_centred() {
    assert_eq!(divider_span(46, 96), (10, 35));
    assert_eq!(divider_span(69, 144), (15, 53));
    assert_eq!(divider_span(20, 96), (-2, 23));
}

#[test]
fn rows_are_stacked_or_centred() {
    assert_eq!(row_layout(46, true, true, 96), RowLayout::Both { session_y: 5, weekly_y: 28 });
    assert_eq!(row_layout(46, true, false, 96), RowLayout::SessionOnly(16));
    assert_eq!(row_layout(46, false, true, 96), RowLayout::WeeklyOnly(16));
    assert_eq!(row_layout(46, false, false, 96), RowLayout::NoData);
    assert_eq!(row_layout(10, false, true, 96), RowLayout::WeeklyOnly(-1));
    assert_eq!(row_layout(69, true, true, 144), RowLayout::Both { session_y: 6, weekly_y: 41 });
}

#[test]
fn row_pieces_are_placed_left_to_right() {
    assert_eq!(content_left(96), 13);
    assert_eq!(content_left(192), 26);
    assert_eq!(usage_bar_left(13, 96), 41);
    assert_eq!(segment_left(41, 0, 96), 41);
    assert_eq!(segment_left(41, 3, 96), 74);
    assert_eq!(bar_text_left(41, 10, false, 96), 41 + 110 - 1 + 4);
    assert_eq!(bar_text_left(41, 10, true, 96), 41);
    assert_eq!(segment_left(0, 2, 144), 2 * (15 + 2));
}

#[test]
fn compact_mode_is_narrower_at_common_dpis() {
    for dpi in [96, 120, 144, 192] {
        for rows in [1, 2] {
            assert!(total_widget_width_for(rows, true, dpi) < total_widget_width_for(rows, false, dpi));
        }
    }
}

#[test]
fn cut_tooltips_never_end_in_half_a_pair() {
    let text: String = std::iter::repeat('😀').take(100).collect();
    for capacity in 1..40 {
        let tip = fixed_wide_text(&text, capacity, true);
        let body = &tip[..tip.len() - 1];
        assert!(body.last().map_or(true, |u| !(0xD800..=0xDBFF).contains(u)));
        assert_eq!(body.len() % 2, 0);
    }
}
