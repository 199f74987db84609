//! The render step of the frame loop: from the bar configuration, the
//! monitor geometry, the overlay state and the measured clock text, the exact
//! sequence of drawing commands for one frame. The drawing backend that
//! executes the commands is an outside collaborator; it divides the integer
//! scales back out.

use vstd::prelude::*;
use crate::bar::{BarConfig, clock_x_spec, clock_y_spec, clock_text_position};
use crate::overlay::{ClickMarker, OverlayState, alpha_at};
use crate::window::Rectangle;

verus! {

/// One position or length unit is 1/1000 of a pixel.
pub const PX_SCALE: i64 = 1000;

/// One alpha unit is 1/3000 of full opacity, so a marker's linear fade over
/// its 3000-millisecond lifetime is exact in these units.
pub const ALPHA_SCALE: u32 = 3000;

/// The bar background's alpha: 0.975 of full opacity.
pub const BACKGROUND_ALPHA: u32 = 2925;

/// A marker is drawn as a square of 10 pixels, centered on the click.
pub const MARKER_SIZE: i64 = 10000;

/// Half the marker square, from center to edge.
pub const MARKER_HALF: i64 = 5000;

/// One drawing command. Positions and lengths are in milli-pixels, color
/// channels are scaled by `crate::bar::COLOR_SCALE`, and alpha by
/// `ALPHA_SCALE`.
#[derive(Debug, PartialEq)]
pub enum DrawCmd {
    /// Clear the surface to full transparency.
    Clear,
    /// Fill an axis-aligned rectangle.
    FillRect { x: i64, y: i64, width: i64, height: i64, red: u32, green: u32, blue: u32, alpha: u32 },
    /// Draw text from the given reference point.
    DrawText { x: i64, y: i64, red: u32, green: u32, blue: u32, alpha: u32, text: String },
}

/// What a frame's drawing commands must be, in order: clear the surface,
/// paint the bar background across the full bar, paint each marker of the
/// sequence as a pure-green square centered on its click at its opacity at
/// `now_ms`, and paint the clock text right-aligned and vertically centered
/// in the bar.
pub open spec fn frame_cmds_ok(
    r: Seq<DrawCmd>,
    cfg: BarConfig,
    monitor: Rectangle,
    markers: Seq<ClickMarker>,
    text_view: Seq<char>,
    text_w: int,
    text_h: int,
    now_ms: u64,
) -> bool {
    &&& r.len() == markers.len() + 3
    &&& r[0] is Clear
    &&& (r[1] matches DrawCmd::FillRect { x, y, width, height, red, green, blue, alpha }
        && x == 0 && y == 0
        && width == monitor.width * PX_SCALE && height == cfg.height * PX_SCALE
        && red == cfg.background_color.0 && green == cfg.background_color.1
        && blue == cfg.background_color.2 && alpha == BACKGROUND_ALPHA)
    &&& forall|i: int| 0 <= i < markers.len() ==> (#[trigger] r[2 + i] matches DrawCmd::FillRect {
        x, y, width, height, red, green, blue, alpha }
        && x == markers[i].x - MARKER_HALF && y == markers[i].y - MARKER_HALF
        && width == MARKER_SIZE && height == MARKER_SIZE
        && red == 0 && green == 1000 && blue == 0
        && alpha == alpha_at(markers[i].created_at_ms as int, now_ms as int))
    &&& (r[markers.len() as int + 2] matches DrawCmd::DrawText { x, y, red, green, blue, alpha, text }
        && x == clock_x_spec(monitor.width as int, cfg.height as int, text_w, text_h)
        && y == clock_y_spec(cfg.height as int, text_h)
        && red == cfg.font_color.0 && green == cfg.font_color.1 && blue == cfg.font_color.2
        && alpha == ALPHA_SCALE && text@ == text_view)
}

/// Produces the drawing commands for one frame, in order: clear the surface,
/// paint the bar background across the full bar, paint each held marker as a
/// pure-green square centered on its click at its current opacity, and paint
/// the clock text right-aligned and vertically centered in the bar. Markers
/// are read before any eviction, so an expired marker still held is drawn at
/// opacity 0.
pub fn render_frame(
    cfg: &BarConfig,
    monitor: &Rectangle,
    overlay: &OverlayState,
    clock_text: String,
    text_w: i64,
    text_h: i64,
    now_ms: u64,
) -> (r: Vec<DrawCmd>)
    requires
        0 <= text_w <= 0x4000_0000_0000,
        0 <= text_h <= cfg.height * 1000,
        forall|i: int| 0 <= i < overlay@.len() ==> i64::MIN + MARKER_HALF <= (#[trigger] overlay@[i]).x
            && i64::MIN + MARKER_HALF <= overlay@[i].y,
    ensures
        frame_cmds_ok(r@, *cfg, *monitor, overlay@, clock_text@, text_w as int, text_h as int, now_ms),
{
    let mut r: Vec<DrawCmd> = Vec::new();
    r.push(DrawCmd::Clear);
    r.push(DrawCmd::FillRect {
        x: 0,
        y: 0,
        width: monitor.width as i64 * 1000,
        height: cfg.height as i64 * 1000,
        red: cfg.background_color.0,
        green: cfg.background_color.1,
        blue: cfg.background_color.2,
        alpha: BACKGROUND_ALPHA,
    });
    let markers = overlay.decay_and_opacity(now_ms);
    let n = markers.len();
    let mut i: usize = 0;
    while i < n
        invariant
            i <= n,
            n == overlay@.len(),
            markers@.len() == n,
            forall|j: int| 0 <= j < n ==> (#[trigger] markers@[j]).0 == overlay@[j].x
                && markers@[j].1 == overlay@[j].y
                && markers@[j].2 == alpha_at(overlay@[j].created_at_ms as int, now_ms as int),
            forall|j: int| 0 <= j < n ==> i64::MIN + MARKER_HALF <= (#[trigger] overlay@[j]).x
                && i64::MIN + MARKER_HALF <= overlay@[j].y,
            r@.len() == 2 + i,
            r@[0] is Clear,
            r@[1] matches DrawCmd::FillRect { x, y, width, height, red, green, blue, alpha }
                && x == 0 && y == 0
                && width == monitor.width * PX_SCALE && height == cfg.height * PX_SCALE
                && red == cfg.background_color.0 && green == cfg.background_color.1
                && blue == cfg.background_color.2 && alpha == BACKGROUND_ALPHA,
            forall|j: int| 0 <= j < i ==> (#[trigger] r@[2 + j] matches DrawCmd::FillRect {
                x, y, width, height, red, green, blue, alpha }
                && x == overlay@[j].x - MARKER_HALF && y == overlay@[j].y - MARKER_HALF
                && width == MARKER_SIZE && height == MARKER_SIZE
                && red == 0 && green == 1000 && blue == 0
                && alpha == alpha_at(overlay@[j].created_at_ms as int, now_ms as int)),
        decreases n - i,
    {
        let (mx, my, malpha) = markers[i];
        r.push(DrawCmd::FillRect {
            x: mx - MARKER_HALF,
            y: my - MARKER_HALF,
            width: MARKER_SIZE,
            height: MARKER_SIZE,
            red: 0,
            green: 1000,
            blue: 0,
            alpha: malpha,
        });
        i = i + 1;
    }
    let (tx, ty) = clock_text_position(monitor, cfg, text_w, text_h);
    r.push(DrawCmd::DrawText {
        x: tx,
        y: ty,
        red: cfg.font_color.0,
        green: cfg.font_color.1,
        blue: cfg.font_color.2,
        alpha: ALPHA_SCALE,
        text: clock_text,
    });
    r
}

} // verus!
