//! Where on the screen the overlay window goes.

use crate::config::HudPosition;
use vstd::prelude::*;

verus! {

/// Distance kept from the screen's edges, in logical pixels. The caller scales
/// it by the monitor's scale factor.
pub const SCREEN_EDGE_PADDING: i32 = 20;

/// Outer width assumed for the overlay where the window does not report one.
pub const FALLBACK_WINDOW_WIDTH: u32 = 380;

/// Outer height assumed for the overlay where the window does not report one.
pub const FALLBACK_WINDOW_HEIGHT: u32 = 120;

/// A size in physical pixels.
#[derive(Debug, Clone, Copy, PartialEq, Eq, Structural)]
pub struct PixelSize {
    pub width: u32,
    pub height: u32,
}

/// What is known of the monitor that shows the overlay: its size, and the
/// edge padding already scaled to its pixels.
#[derive(Debug, Clone, Copy, PartialEq, Eq, Structural)]
pub struct MonitorGeometry {
    pub size: PixelSize,
    pub padding: i32,
}

/// Half of `distance`, rounded toward zero.
pub open spec fn half(distance: int) -> int {
    if distance >= 0 {
        distance / 2
    } else {
        -((-distance) / 2)
    }
}

/// The top-left corner of a window of size `window` anchored at `position` on
/// a screen of size `screen`, `padding` pixels off the edges it is anchored
/// to.
pub open spec fn anchor_origin(
    position: HudPosition,
    screen: PixelSize,
    window: PixelSize,
    padding: int,
) -> (int, int) {
    let right = screen.width - window.width - padding;
    let bottom = screen.height - window.height - padding;
    let centre = half(screen.width - window.width);
    match position {
        HudPosition::TopLeft => (padding, padding),
        HudPosition::TopRight => (right, padding),
        HudPosition::BottomLeft => (padding, bottom),
        HudPosition::BottomRight => (right, bottom),
        HudPosition::TopCenter => (centre, padding),
        HudPosition::BottomCenter => (centre, bottom),
    }
}

/// Whether both coordinates can be handed to a window system that places
/// windows by signed 32-bit pixel coordinates.
pub open spec fn placeable(origin: (int, int)) -> bool {
    i32::MIN <= origin.0 <= i32::MAX && i32::MIN <= origin.1 <= i32::MAX
}

/// The overlay's size as reported, or the fallback size.
pub open spec fn window_or_fallback(window: Option<PixelSize>) -> PixelSize {
    match window {
        Some(size) => size,
        None => PixelSize { width: FALLBACK_WINDOW_WIDTH, height: FALLBACK_WINDOW_HEIGHT },
    }
}

/// Where the overlay is moved before it is revealed: nowhere if the monitor
/// is unknown or the corner cannot be expressed, and else to the anchored
/// corner.
pub open spec fn placement(
    position: HudPosition,
    monitor: Option<MonitorGeometry>,
    window: Option<PixelSize>,
) -> Option<(i32, i32)> {
    match monitor {
        None => None,
        Some(geometry) => {
            let origin = anchor_origin(
                position,
                geometry.size,
                window_or_fallback(window),
                geometry.padding as int,
            );
            if placeable(origin) {
                Some((origin.0 as i32, origin.1 as i32))
            } else {
                None
            }
        },
    }
}

fn half_toward_zero(distance: i64) -> (result: i64)
    requires
        distance > i64::MIN,
    ensures
        result == half(distance as int),
{
    if distance >= 0 {
        distance / 2
    } else {
        -((-distance) / 2)
    }
}

/// The top-left corner for the overlay, or `None` where a coordinate does not
/// fit a signed 32-bit number.
pub fn hud_origin(position: HudPosition, screen: PixelSize, window: PixelSize, padding: i32) -> (origin:
    Option<(i32, i32)>)
    ensures
        origin == (if placeable(anchor_origin(position, screen, window, padding as int)) {
            Some(
                (
                    anchor_origin(position, screen, window, padding as int).0 as i32,
                    anchor_origin(position, screen, window, padding as int).1 as i32,
                ),
            )
        } else {
            None
        }),
{
    let pad: i64 = padding as i64;
    let right: i64 = screen.width as i64 - window.width as i64 - pad;
    let bottom: i64 = screen.height as i64 - window.height as i64 - pad;
    let centre: i64 = half_toward_zero(screen.width as i64 - window.width as i64);
    let (x, y): (i64, i64) = match position {
        HudPosition::TopLeft => (pad, pad),
        HudPosition::TopRight => (right, pad),
        HudPosition::BottomLeft => (pad, bottom),
        HudPosition::BottomRight => (right, bottom),
        HudPosition::TopCenter => (centre, pad),
        HudPosition::BottomCenter => (centre, bottom),
    };
    if x < i32::MIN as i64 || x > i32::MAX as i64 || y < i32::MIN as i64 || y > i32::MAX as i64 {
        None
    } else {
        Some((x as i32, y as i32))
    }
}

/// Decides where to move the overlay before revealing it. With no monitor
/// geometry the overlay stays where it is; a window that does not report its
/// size is taken to have the fallback size. The overlay is revealed either
/// way.
pub fn hud_placement(
    position: HudPosition,
    monitor: Option<MonitorGeometry>,
    window: Option<PixelSize>,
) -> (target: Option<(i32, i32)>)
    ensures
        target == placement(position, monitor, window),
{
    let geometry = match monitor {
        Some(geometry) => geometry,
        None => {
            return None;
        },
    };
    let size = match window {
        Some(size) => size,
        None => PixelSize { width: FALLBACK_WINDOW_WIDTH, height: FALLBACK_WINDOW_HEIGHT },
    };
    hud_origin(position, geometry.size, size, geometry.padding)
}

/// A window that fits the screen together with its padding lies wholly on
/// the screen, wherever it is anchored.
pub proof fn lemma_fitting_window_stays_on_screen(
    position: HudPosition,
    screen: PixelSize,
    window: PixelSize,
    padding: int,
)
    requires
        0 <= padding,
        window.width + 2 * padding <= screen.width,
        window.height + 2 * padding <= screen.height,
    ensures
        ({
            let (x, y) = anchor_origin(position, screen, window, padding);
            &&& 0 <= x
            &&& x + window.width <= screen.width
            &&& 0 <= y
            &&& y + window.height <= screen.height
        }),
{
}

} // verus!
