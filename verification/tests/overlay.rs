use timesdump::config::HudPosition;
use timesdump::overlay::{hud_origin, hud_placement, MonitorGeometry, PixelSize, SCREEN_EDGE_PADDING};

const SCREEN: PixelSize = PixelSize { width: 1920, height: 1080 };
const WINDOW: PixelSize = PixelSize { width: 380, height: 120 };

#[test]
fn every_anchor_on_a_full_hd_screen() {
    assert_eq!(SCREEN_EDGE_PADDING, 20);
    assert_eq!(hud_origin(HudPosition::TopLeft, SCREEN, WINDOW, 20), Some((20, 20)));
    assert_eq!(hud_origin(HudPosition::TopRight, SCREEN, WINDOW, 20), Some((1520, 20)));
    assert_eq!(hud_origin(HudPosition::BottomLeft, SCREEN, WINDOW, 20), Some((20, 940)));
    assert_eq!(hud_origin(HudPosition::BottomRight, SCREEN, WINDOW, 20), Some((1520, 940)));
    assert_eq!(hud_origin(HudPosition::TopCenter, SCREEN, WINDOW, 20), Some((770, 20)));
    assert_eq!(hud_origin(HudPosition::BottomCenter, SCREEN, WINDOW, 20), Some((770, 940)));
}

#[test]
fn scaled_padding_moves_the_corner() {
    let screen = PixelSize { width: 3840, height: 2160 };
    let window = PixelSize { width: 760, height: 240 };
    assert_eq!(hud_origin(HudPosition::BottomRight, screen, window, 40), Some((3040, 1880)));
    assert_eq!(hud_origin(HudPosition::TopCenter, screen, window, 40), Some((1540, 40)));
}

#[test]
fn centring_rounds_toward_zero() {
    let window = PixelSize { width: 381, height: 120 };
    assert_eq!(hud_origin(HudPosition::TopCenter, SCREEN, window, 20), Some((769, 20)));
    let narrow = PixelSize { width: 100, height: 100 };
    let wide = PixelSize { width: 103, height: 300 };
    assert_eq!(hud_origin(HudPosition::TopCenter, narrow, wide, 5), Some((-1, 5)));
    assert_eq!(hud_origin(HudPosition::BottomCenter, narrow, wide, 5), Some((-1, -205)));
    assert_eq!(hud_origin(HudPosition::BottomRight, narrow, wide, 5), Some((-8, -205)));
}

#[test]
fn corners_beyond_32_bits_are_not_placed() {
    let huge = PixelSize { width: u32::MAX, height: u32::MAX };
    let none = PixelSize { width: 0, height: 0 };
    assert_eq!(hud_origin(HudPosition::TopRight, huge, none, 0), None);
    assert_eq!(hud_origin(HudPosition::BottomLeft, huge, none, 0), None);
    assert_eq!(hud_origin(HudPosition::TopLeft, huge, none, 0), Some((0, 0)));
    assert_eq!(hud_origin(HudPosition::TopCenter, huge, none, 7), Some((2147483647, 7)));
    assert_eq!(hud_origin(HudPosition::TopRight, none, huge, 0), None);
    assert_eq!(hud_origin(HudPosition::TopCenter, none, huge, -7), Some((-2147483647, -7)));
    assert_eq!(hud_origin(HudPosition::TopRight, none, none, i32::MIN), None);
    assert_eq!(hud_origin(HudPosition::TopRight, none, none, i32::MAX), Some((-2147483647, 2147483647)));
    let edge = PixelSize { width: 2147483647, height: 0 };
    assert_eq!(hud_origin(HudPosition::TopRight, edge, none, 0), Some((2147483647, 0)));
}

#[test]
fn placement_needs_a_monitor_but_not_a_window_size() {
    let monitor = MonitorGeometry { size: SCREEN, padding: 20 };
    assert_eq!(hud_placement(HudPosition::BottomRight, None, Some(WINDOW)), None);
    assert_eq!(hud_placement(HudPosition::BottomRight, None, None), None);
    assert_eq!(hud_placement(HudPosition::BottomRight, Some(monitor), Some(WINDOW)), Some((1520, 940)));
    assert_eq!(hud_placement(HudPosition::TopCenter, Some(monitor), None), Some((770, 20)));
    let small = PixelSize { width: 200, height: 50 };
    assert_eq!(hud_placement(HudPosition::BottomRight, Some(monitor), Some(small)), Some((1700, 1010)));
    assert_eq!(hud_placement(HudPosition::BottomRight, Some(monitor), None), Some((1520, 940)));
}
