use statusbar::events::{MouseButton, PressState};
use statusbar::overlay::OverlayState;

#[test]
fn click_fades_to_half_and_disappears() {
    // A click at (100.0, 20.0) pixels at t = 0.
    let mut ov = OverlayState::new();
    ov.record_click(100_000, 20_000, MouseButton::Left, PressState::Pressed, 0);

    // At t = 1.5 s the opacity is exactly one half.
    let drawn = ov.decay_and_opacity(1500);
    assert_eq!(drawn, vec![(100_000, 20_000, 1500)]);
    assert_eq!(drawn[0].2 as f64 / 3000.0, 0.5);

    // At t = 3.1 s the marker is gone from the returned sequence.
    ov.evict(3100);
    assert_eq!(ov.decay_and_opacity(3100), vec![]);
    assert_eq!(ov.len(), 0);
}

#[test]
fn marker_drawn_until_the_lifetime_then_evicted() {
    let mut ov = OverlayState::new();
    ov.record_click(0, 0, MouseButton::Left, PressState::Pressed, 0);

    // Just before the lifetime ends the marker is still drawn, near zero.
    ov.evict(2999);
    let drawn = ov.decay_and_opacity(2999);
    assert_eq!(drawn.len(), 1);
    assert_eq!(drawn[0].2, 1);

    // At exactly the lifetime the opacity is exactly zero.
    assert_eq!(ov.decay_and_opacity(3000)[0].2, 0);

    // The next eviction pass removes it for good.
    ov.evict(3000);
    assert_eq!(ov.len(), 0);
}

#[test]
fn evicting_twice_keeps_the_same_survivors() {
    let mut ov = OverlayState::new();
    ov.record_click(1000, 1000, MouseButton::Left, PressState::Pressed, 0);
    ov.record_click(2000, 2000, MouseButton::Left, PressState::Pressed, 2000);
    ov.evict(3500);
    let once = ov.decay_and_opacity(3500);
    ov.evict(3500);
    let twice = ov.decay_and_opacity(3500);
    assert_eq!(once, twice);
    assert_eq!(once, vec![(2000, 2000, 1500)]);
}

#[test]
fn non_left_or_released_clicks_leave_the_overlay_unchanged() {
    let mut ov = OverlayState::new();
    ov.record_click(5, 5, MouseButton::Right, PressState::Pressed, 10);
    ov.record_click(5, 5, MouseButton::Middle, PressState::Pressed, 10);
    ov.record_click(5, 5, MouseButton::Other, PressState::Pressed, 10);
    ov.record_click(5, 5, MouseButton::Left, PressState::Released, 10);
    assert_eq!(ov.len(), 0);
    assert_eq!(ov.decay_and_opacity(10), vec![]);
}

#[test]
fn opacity_is_monotone_and_full_at_creation() {
    let mut ov = OverlayState::new();
    ov.record_click(0, 0, MouseButton::Left, PressState::Pressed, 1000);
    assert_eq!(ov.decay_and_opacity(1000)[0].2, 3000);
    let mut last: u32 = 3000;
    for now in [1001u64, 1500, 2500, 3999, 4000, 4001, 9000] {
        let a = ov.decay_and_opacity(now)[0].2;
        assert!(a <= last);
        last = a;
    }
    assert_eq!(last, 0);
}

#[test]
fn markers_keep_arrival_order() {
    let mut ov = OverlayState::new();
    ov.record_click(1, 1, MouseButton::Left, PressState::Pressed, 0);
    ov.record_click(2, 2, MouseButton::Left, PressState::Pressed, 500);
    ov.record_click(3, 3, MouseButton::Left, PressState::Pressed, 1000);
    let drawn = ov.decay_and_opacity(1000);
    assert_eq!(drawn, vec![(1, 1, 2000), (2, 2, 2500), (3, 3, 3000)]);
}
