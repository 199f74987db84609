//! One full iteration of the frame loop as a pure function of the loop's
//! state, the frame's events and the clock: process the drained events in
//! arrival order, render the frame (markers read before eviction), evict
//! expired markers as a post-render step, advance the decorative animator,
//! and advance the loop's lifecycle. The caller performs the surrounding
//! outside work — draining the event queue, executing the drawing commands,
//! presenting, and pacing the loop.

use vstd::prelude::*;
use crate::animator::{next_dt_spec, next_t_spec, phase_wf, AnimationPhase};
use crate::bar::BarConfig;
use crate::events::{
    click_markers, lemma_click_markers_coords, next_loop_state, next_state_spec, process_events,
    requests_close, LoopState, WindowEvent,
};
use crate::overlay::{surviving, OverlayState};
use crate::render::{frame_cmds_ok, render_frame, DrawCmd, MARKER_HALF};
use crate::window::Rectangle;

verus! {

/// Runs one frame: the drained events extend the overlay in arrival order,
/// the returned commands draw exactly the extended overlay (so a click is
/// drawn in the frame it arrives, and an expired marker is drawn once more at
/// opacity 0), eviction then removes the expired markers, the animator moves
/// one step, and the loop's lifecycle advances on whether a close was
/// requested.
pub fn frame_step(
    overlay: &mut OverlayState,
    phase: &mut AnimationPhase,
    state: LoopState,
    events: &Vec<WindowEvent>,
    cfg: &BarConfig,
    monitor: &Rectangle,
    clock_text: String,
    text_w: i64,
    text_h: i64,
    now_ms: u64,
) -> (r: (Vec<DrawCmd>, LoopState))
    requires
        phase_wf(*old(phase)),
        0 <= text_w <= 0x4000_0000_0000,
        0 <= text_h <= cfg.height * 1000,
        forall|i: int| 0 <= i < old(overlay)@.len() ==> i64::MIN + MARKER_HALF <= (
        #[trigger] old(overlay)@[i]).x && i64::MIN + MARKER_HALF <= old(overlay)@[i].y,
        forall|i: int| 0 <= i < events@.len() ==> ((#[trigger] events@[i])
            matches WindowEvent::MouseClick { x, y, .. } ==> x >= i64::MIN + MARKER_HALF
            && y >= i64::MIN + MARKER_HALF),
    ensures
        frame_cmds_ok(
            r.0@,
            *cfg,
            *monitor,
            old(overlay)@ + click_markers(events@, now_ms),
            clock_text@,
            text_w as int,
            text_h as int,
            now_ms,
        ),
        final(overlay)@ == surviving(old(overlay)@ + click_markers(events@, now_ms), now_ms),
        r.1 == next_state_spec(state, requests_close(events@)),
        phase_wf(*final(phase)),
        final(phase).t == next_t_spec(*old(phase)),
        final(phase).dt == next_dt_spec(*old(phase)),
{
    let close_requested = process_events(overlay, events, now_ms);
    proof {
        lemma_click_markers_coords(events@, now_ms, i64::MIN + MARKER_HALF);
    }
    let cmds = render_frame(cfg, monitor, overlay, clock_text, text_w, text_h, now_ms);
    overlay.evict(now_ms);
    phase.advance();
    let next = next_loop_state(state, close_requested);
    (cmds, next)
}

} // verus!
