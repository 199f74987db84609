//! Bar placement: the bar's screen rectangle derived from the primary
//! monitor's geometry, the window-manager strut reservations, and the
//! placement of the clock text inside the bar.
//!
//! Continuous quantities are plain integers here. A color channel is scaled
//! by `COLOR_SCALE` (192 stands for a channel value of 0.192), the font size
//! by 1000 (18000 stands for 18.0 points), and sub-pixel positions by
//! `crate::render::PX_SCALE` milli-pixels. The drawing layer divides the
//! scales back out; every formula below is exact in these units.

use vstd::prelude::*;
use crate::window::Rectangle;

verus! {

/// One color channel unit is 1/1000 of full intensity.
pub const COLOR_SCALE: u32 = 1000;

/// The process-wide bar parameters, read-only after construction.
pub struct BarConfig {
    /// Height of the bar in pixels.
    pub height: u32,
    /// Background color channels, scaled by `COLOR_SCALE`.
    pub background_color: (u32, u32, u32),
    /// Clock text color channels, scaled by `COLOR_SCALE`.
    pub font_color: (u32, u32, u32),
    /// Font size in thousandths of a point.
    pub font_size: u32,
}

impl Default for BarConfig {
    /// A 48-pixel bar, dark background, light text, 18-point font.
    fn default() -> (r: Self)
        ensures
            r.height == 48,
            r.background_color == (192u32, 200u32, 219u32),
            r.font_color == (920u32, 920u32, 920u32),
            r.font_size == 18000,
    {
        BarConfig {
            height: 48,
            background_color: (192, 200, 219),
            font_color: (920, 920, 920),
            font_size: 18000,
        }
    }
}

/// The bar hugs the bottom edge of the monitor and spans its full width:
/// same `x` and `width` as the monitor, height from the config, and `y`
/// such that the bar's bottom edge coincides with the monitor's bottom edge.
pub fn compute_bar_rect(monitor: &Rectangle, cfg: &BarConfig) -> (r: Rectangle)
    requires
        i32::MIN <= monitor.y + monitor.height - cfg.height <= i32::MAX,
    ensures
        r.x == monitor.x,
        r.width == monitor.width,
        r.height == cfg.height,
        r.y == monitor.y + monitor.height - cfg.height,
        r.y + r.height == monitor.y + monitor.height,
{
    let y64: i64 = monitor.y as i64 + monitor.height as i64 - cfg.height as i64;
    Rectangle { x: monitor.x, y: y64 as i32, width: monitor.width, height: cfg.height }
}

/// The 12-value partial-strut reservation the window manager is given before
/// the window is mapped: only the bottom reservation is non-zero, set to the
/// bar height; the extent fields carry the monitor's height and width.
pub fn partial_strut(monitor: &Rectangle, cfg: &BarConfig) -> (r: Vec<u32>)
    ensures
        r@ == seq![
            0u32, 0u32, 0u32, cfg.height,
            0u32, monitor.height, 0u32, monitor.height,
            0u32, monitor.width, 0u32, monitor.width,
        ],
{
    let mut v: Vec<u32> = Vec::new();
    v.push(0);
    v.push(0);
    v.push(0);
    v.push(cfg.height);
    v.push(0);
    v.push(monitor.height);
    v.push(0);
    v.push(monitor.height);
    v.push(0);
    v.push(monitor.width);
    v.push(0);
    v.push(monitor.width);
    proof {
        assert(v@ =~= seq![
            0u32, 0u32, 0u32, cfg.height,
            0u32, monitor.height, 0u32, monitor.height,
            0u32, monitor.width, 0u32, monitor.width,
        ]);
    }
    v
}

/// The simpler 4-value strut reservation: left, right and top are zero, the
/// bottom reservation is the bar height.
pub fn strut(cfg: &BarConfig) -> (r: Vec<u32>)
    ensures
        r@ == seq![0u32, 0u32, 0u32, cfg.height],
{
    let mut v: Vec<u32> = Vec::new();
    v.push(0);
    v.push(0);
    v.push(0);
    v.push(cfg.height);
    proof {
        assert(v@ =~= seq![0u32, 0u32, 0u32, cfg.height]);
    }
    v
}

/// Where the clock text's baseline reference point goes, in milli-pixels:
/// right-aligned against the monitor's right edge with a margin of half the
/// bar's free height, and vertically centered in the bar.
pub open spec fn clock_x_spec(monitor_width: int, bar_height: int, text_w: int, text_h: int) -> int {
    monitor_width * 1000 - (bar_height * 1000 - text_h) / 2 - text_w
}

/// The vertical center: half the bar height plus half the text height.
pub open spec fn clock_y_spec(bar_height: int, text_h: int) -> int {
    bar_height * 1000 / 2 + text_h / 2
}

/// Computes the clock text's position in milli-pixels from the measured text
/// extents. The text is assumed to fit vertically inside the bar, and the
/// measured width must fit the coordinate space.
pub fn clock_text_position(monitor: &Rectangle, cfg: &BarConfig, text_w: i64, text_h: i64) -> (r: (i64, i64))
    requires
        0 <= text_w <= 0x4000_0000_0000,
        0 <= text_h <= cfg.height * 1000,
    ensures
        r.0 == clock_x_spec(monitor.width as int, cfg.height as int, text_w as int, text_h as int),
        r.1 == clock_y_spec(cfg.height as int, text_h as int),
{
    let bh: i64 = cfg.height as i64 * 1000;
    let mw: i64 = monitor.width as i64 * 1000;
    let x: i64 = mw - (bh - text_h) / 2 - text_w;
    let y: i64 = bh / 2 + text_h / 2;
    (x, y)
}

} // verus!
