//! The per-frame event step and the loop's state machine. Each frame drains
//! the queued window events in arrival order: left-button presses become
//! click markers, a close request moves the loop toward termination, and
//! everything else is ignored. A close request ends the loop: the frame in
//! progress finishes, then the loop stops.

use vstd::prelude::*;
use crate::overlay::{ClickMarker, OverlayState};

verus! {

#[derive(Debug, Clone, Copy, PartialEq, Eq, Structural)]
pub enum MouseButton {
    Left,
    Right,
    Middle,
    Other,
}

#[derive(Debug, Clone, Copy, PartialEq, Eq, Structural)]
pub enum PressState {
    Pressed,
    Released,
}

/// One event handed in by the windowing layer; positions in milli-pixels.
#[derive(Debug, Clone, Copy, PartialEq, Eq, Structural)]
pub enum WindowEvent {
    MouseClick { x: i64, y: i64, button: MouseButton, state: PressState },
    CloseHappened,
    Other,
}

/// Only a left-button press creates a marker.
pub open spec fn is_marker_click(ev: WindowEvent) -> bool {
    ev matches WindowEvent::MouseClick {
        button: MouseButton::Left,
        state: PressState::Pressed,
        ..
    }
}

/// The marker a click event creates at `now_ms`.
pub open spec fn marker_of(ev: WindowEvent, now_ms: u64) -> ClickMarker {
    match ev {
        WindowEvent::MouseClick { x, y, .. } => ClickMarker { x, y, created_at_ms: now_ms },
        _ => ClickMarker { x: 0, y: 0, created_at_ms: now_ms },
    }
}

/// The markers a batch of events creates, in arrival order.
pub open spec fn click_markers(evs: Seq<WindowEvent>, now_ms: u64) -> Seq<ClickMarker>
    decreases evs.len(),
{
    if evs.len() == 0 {
        Seq::empty()
    } else {
        let rest = click_markers(evs.drop_last(), now_ms);
        if is_marker_click(evs.last()) {
            rest.push(marker_of(evs.last(), now_ms))
        } else {
            rest
        }
    }
}

/// Every marker a batch of events creates sits where some click event of the
/// batch sat: a lower bound on all the batch's click coordinates bounds the
/// created markers' coordinates too.
pub proof fn lemma_click_markers_coords(evs: Seq<WindowEvent>, now_ms: u64, lo: int)
    requires
        forall|i: int| 0 <= i < evs.len() ==> ((#[trigger] evs[i]) matches WindowEvent::MouseClick {
            x, y, .. } ==> x >= lo && y >= lo),
    ensures
        forall|j: int| 0 <= j < click_markers(evs, now_ms).len() ==> (#[trigger] click_markers(
            evs, now_ms)[j]).x >= lo && click_markers(evs, now_ms)[j].y >= lo,
    decreases evs.len(),
{
    if evs.len() > 0 {
        assert(forall|i: int| 0 <= i < evs.drop_last().len() ==> evs.drop_last()[i] == evs[i]);
        lemma_click_markers_coords(evs.drop_last(), now_ms, lo);
        let rest = click_markers(evs.drop_last(), now_ms);
        let all = click_markers(evs, now_ms);
        if is_marker_click(evs.last()) {
            assert(evs.last() == evs[evs.len() - 1]);
            let m = marker_of(evs.last(), now_ms);
            assert(m.x >= lo && m.y >= lo);
            assert(all == rest.push(m));
            assert forall|j: int| 0 <= j < all.len() implies all[j].x >= lo && all[j].y >= lo by {
                if j < rest.len() {
                    assert(all[j] == rest[j]);
                } else {
                    assert(all[j] == m);
                }
            }
        } else {
            assert(all == rest);
        }
    }
}

/// Whether some event in the batch asks the loop to close.
pub open spec fn requests_close(evs: Seq<WindowEvent>) -> bool {
    exists|i: int| 0 <= i < evs.len() && evs[i] is CloseHappened
}

/// Processes one frame's drained events in arrival order: appends a marker to
/// the overlay for each left-button press, and reports whether a close was
/// requested. All other events have no effect.
pub fn process_events(overlay: &mut OverlayState, events: &Vec<WindowEvent>, now_ms: u64) -> (close: bool)
    ensures
        final(overlay)@ == old(overlay)@ + click_markers(events@, now_ms),
        close == requests_close(events@),
{
    let mut close = false;
    let n = events.len();
    let mut i: usize = 0;
    while i < n
        invariant
            i <= n,
            n == events@.len(),
            overlay@ == old(overlay)@ + click_markers(events@.subrange(0, i as int), now_ms),
            close == requests_close(events@.subrange(0, i as int)),
        decreases n - i,
    {
        let ev = events[i];
        let ghost prefix = events@.subrange(0, i as int);
        let ghost prefix1 = events@.subrange(0, i + 1 as int);
        proof {
            assert(prefix1.drop_last() =~= prefix);
            assert(prefix1.last() == events@[i as int]);
        }
        match ev {
            WindowEvent::MouseClick { x, y, button, state } => {
                overlay.record_click(x, y, button, state, now_ms);
                proof {
                    if is_marker_click(events@[i as int]) {
                        assert(overlay@ == (old(overlay)@ + click_markers(prefix, now_ms)).push(
                            marker_of(events@[i as int], now_ms),
                        ));
                        assert((old(overlay)@ + click_markers(prefix, now_ms)).push(
                            marker_of(events@[i as int], now_ms),
                        ) =~= old(overlay)@ + click_markers(prefix1, now_ms));
                    }
                }
            }
            WindowEvent::CloseHappened => {
                close = true;
            }
            WindowEvent::Other => {}
        }
        proof {
            if close {
                if requests_close(prefix) {
                    let w = choose|k: int| 0 <= k < prefix.len() && prefix[k] is CloseHappened;
                    assert(prefix1[w] is CloseHappened);
                } else {
                    assert(events@[i as int] is CloseHappened);
                    assert(prefix1[i as int] is CloseHappened);
                }
                assert(requests_close(prefix1));
            } else {
                assert forall|k: int| 0 <= k < prefix1.len() implies !(prefix1[k]
                    is CloseHappened) by {
                    if k < i as int {
                        assert(prefix1[k] == prefix[k]);
                    }
                }
            }
        }
        i = i + 1;
    }
    proof {
        assert(events@.subrange(0, n as int) =~= events@);
    }
    close
}

/// The frame loop's lifecycle: it runs until a close is requested, finishes
/// the frame in progress while closing, and then stays terminated.
#[derive(Debug, Clone, Copy, PartialEq, Eq, Structural)]
pub enum LoopState {
    Running,
    Closing,
    Terminated,
}

/// The transition relation of the loop's state machine.
pub open spec fn next_state_spec(cur: LoopState, close_requested: bool) -> LoopState {
    match cur {
        LoopState::Running => if close_requested {
            LoopState::Closing
        } else {
            LoopState::Running
        },
        LoopState::Closing => LoopState::Terminated,
        LoopState::Terminated => LoopState::Terminated,
    }
}

/// Advances the loop's lifecycle once per frame: a running loop keeps running
/// until a close is requested, a closing loop terminates after its final
/// frame, and a terminated loop stays terminated.
pub fn next_loop_state(cur: LoopState, close_requested: bool) -> (r: LoopState)
    ensures
        r == next_state_spec(cur, close_requested),
{
    match cur {
        LoopState::Running => if close_requested {
            LoopState::Closing
        } else {
            LoopState::Running
        },
        LoopState::Closing => LoopState::Terminated,
        LoopState::Terminated => LoopState::Terminated,
    }
}

} // verus!
