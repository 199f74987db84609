use statusbar::animator::AnimationPhase;
use statusbar::bar::BarConfig;
use statusbar::events::{
    next_loop_state, process_events, LoopState, MouseButton, PressState, WindowEvent,
};
use statusbar::frame::frame_step;
use statusbar::overlay::OverlayState;
use statusbar::render::{render_frame, DrawCmd};
use statusbar::window::Rectangle;

#[test]
fn only_left_presses_become_markers_and_close_is_reported() {
    let mut ov = OverlayState::new();
    let events = vec![
        WindowEvent::Other,
        WindowEvent::MouseClick {
            x: 10_000,
            y: 5_000,
            button: MouseButton::Left,
            state: PressState::Pressed,
        },
        WindowEvent::MouseClick {
            x: 1,
            y: 1,
            button: MouseButton::Right,
            state: PressState::Pressed,
        },
        WindowEvent::MouseClick {
            x: 2,
            y: 2,
            button: MouseButton::Left,
            state: PressState::Released,
        },
        WindowEvent::CloseHappened,
    ];
    let close = process_events(&mut ov, &events, 100);
    assert!(close);
    assert_eq!(ov.decay_and_opacity(100), vec![(10_000, 5_000, 3000)]);
}

#[test]
fn a_quiet_frame_requests_no_close() {
    let mut ov = OverlayState::new();
    let events = vec![WindowEvent::Other, WindowEvent::Other];
    assert!(!process_events(&mut ov, &events, 0));
    assert_eq!(ov.len(), 0);
}

#[test]
fn loop_state_machine_transitions() {
    assert_eq!(next_loop_state(LoopState::Running, false), LoopState::Running);
    assert_eq!(next_loop_state(LoopState::Running, true), LoopState::Closing);
    assert_eq!(next_loop_state(LoopState::Closing, false), LoopState::Terminated);
    assert_eq!(next_loop_state(LoopState::Closing, true), LoopState::Terminated);
    assert_eq!(next_loop_state(LoopState::Terminated, false), LoopState::Terminated);
    assert_eq!(next_loop_state(LoopState::Terminated, true), LoopState::Terminated);
}

#[test]
fn one_frame_of_drawing_commands() {
    let cfg = BarConfig::default();
    let monitor = Rectangle { x: 0, y: 0, width: 1920, height: 1080 };
    let mut ov = OverlayState::new();
    ov.record_click(100_000, 20_000, MouseButton::Left, PressState::Pressed, 0);

    let cmds = render_frame(&cfg, &monitor, &ov, String::from("now"), 10_000, 18_000, 1500);
    assert_eq!(cmds.len(), 4);
    assert_eq!(cmds[0], DrawCmd::Clear);
    assert_eq!(
        cmds[1],
        DrawCmd::FillRect {
            x: 0,
            y: 0,
            width: 1_920_000,
            height: 48_000,
            red: 192,
            green: 200,
            blue: 219,
            alpha: 2925,
        }
    );
    assert_eq!(
        cmds[2],
        DrawCmd::FillRect {
            x: 95_000,
            y: 15_000,
            width: 10_000,
            height: 10_000,
            red: 0,
            green: 1000,
            blue: 0,
            alpha: 1500,
        }
    );
    assert_eq!(
        cmds[3],
        DrawCmd::DrawText {
            x: 1_920_000 - (48_000 - 18_000) / 2 - 10_000,
            y: 33_000,
            red: 920,
            green: 920,
            blue: 920,
            alpha: 3000,
            text: String::from("now"),
        }
    );
}

#[test]
fn a_whole_frame_draws_evicts_and_advances() {
    let cfg = BarConfig::default();
    let monitor = Rectangle { x: 0, y: 0, width: 1920, height: 1080 };
    let mut ov = OverlayState::new();
    ov.record_click(50_000, 10_000, MouseButton::Left, PressState::Pressed, 0);
    let mut phase = AnimationPhase::new();

    // At 3.2 s the old marker is expired; the frame's own click joins it.
    let events = vec![
        WindowEvent::MouseClick {
            x: 200_000,
            y: 30_000,
            button: MouseButton::Left,
            state: PressState::Pressed,
        },
        WindowEvent::CloseHappened,
    ];
    let (cmds, state) = frame_step(
        &mut ov,
        &mut phase,
        LoopState::Running,
        &events,
        &cfg,
        &monitor,
        String::from("clock"),
        30_000,
        18_000,
        3200,
    );

    // Clear, background, the expired marker at opacity 0, the new click at
    // full opacity, and the clock text.
    assert_eq!(cmds.len(), 5);
    assert_eq!(cmds[0], DrawCmd::Clear);
    match &cmds[2] {
        DrawCmd::FillRect { x, y, alpha, .. } => {
            assert_eq!((*x, *y, *alpha), (45_000, 5_000, 0));
        }
        other => panic!("expected the expired marker, got {:?}", other),
    }
    match &cmds[3] {
        DrawCmd::FillRect { x, y, alpha, .. } => {
            assert_eq!((*x, *y, *alpha), (195_000, 25_000, 3000));
        }
        other => panic!("expected the fresh marker, got {:?}", other),
    }

    // Post-render eviction kept only the fresh click.
    assert_eq!(ov.decay_and_opacity(3200), vec![(200_000, 30_000, 3000)]);

    // The animator moved one step and the close request was honored.
    assert_eq!((phase.t, phase.dt), (16, 16));
    assert_eq!(state, LoopState::Closing);
}

#[test]
fn an_expired_marker_still_held_is_drawn_at_zero_opacity() {
    let cfg = BarConfig::default();
    let monitor = Rectangle { x: 0, y: 0, width: 1920, height: 1080 };
    let mut ov = OverlayState::new();
    ov.record_click(0, 0, MouseButton::Left, PressState::Pressed, 0);

    // The frame reads markers before eviction: past the lifetime but not yet
    // evicted, the marker is drawn once more, fully transparent.
    let cmds = render_frame(&cfg, &monitor, &ov, String::from("t"), 1_000, 18_000, 3100);
    assert_eq!(cmds.len(), 4);
    match &cmds[2] {
        DrawCmd::FillRect { alpha, .. } => assert_eq!(*alpha, 0),
        other => panic!("expected a marker rectangle, got {:?}", other),
    }

    // After the post-render eviction the next frame no longer draws it.
    ov.evict(3100);
    let cmds = render_frame(&cfg, &monitor, &ov, String::from("t"), 1_000, 18_000, 3116);
    assert_eq!(cmds.len(), 3);
}
