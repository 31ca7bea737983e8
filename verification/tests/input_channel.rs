//! Tests of the input-state channel: key-set parity, the consume-then-zero
//! mouse accumulator, the window cell, and the event dispatch step.

use gloom_rs::input::{
    dispatch_event, InputEvent, KeySet, MouseState, WindowState, KEY_A, KEY_ESCAPE, KEY_Q, KEY_W,
};
use gloom_rs::watchdog::{observe_render_exit, Health};

#[test]
fn key_down_inserts_and_is_idempotent() {
    let mut keys = KeySet::new();
    assert!(!keys.is_pressed(KEY_A));
    keys.key_down(KEY_A);
    assert!(keys.is_pressed(KEY_A));
    // A duplicate down is a no-op.
    keys.key_down(KEY_A);
    assert!(keys.is_pressed(KEY_A));
    assert_eq!(keys.held(), vec![KEY_A]);
}

#[test]
fn key_up_removes_and_tolerates_absence() {
    let mut keys = KeySet::new();
    keys.key_down(KEY_A);
    keys.key_up(KEY_A);
    assert!(!keys.is_pressed(KEY_A));
    // Releasing an absent key is a no-op.
    keys.key_up(KEY_A);
    assert!(!keys.is_pressed(KEY_A));
}

#[test]
fn key_parity_over_alternating_runs() {
    // Odd number of alternating down/up events leaves the key held, an even
    // number leaves it absent; duplicate downs do not count double.
    let mut keys = KeySet::new();
    keys.key_down(KEY_W);
    assert!(keys.is_pressed(KEY_W));
    keys.key_up(KEY_W);
    assert!(!keys.is_pressed(KEY_W));
    keys.key_down(KEY_W);
    assert!(keys.is_pressed(KEY_W));
    // Down, duplicate down, up: the key ends absent.
    let mut keys2 = KeySet::new();
    keys2.key_down(KEY_A);
    keys2.key_down(KEY_A);
    keys2.key_up(KEY_A);
    assert!(!keys2.is_pressed(KEY_A));
}

#[test]
fn held_keeps_down_order_without_duplicates() {
    let mut keys = KeySet::new();
    keys.key_down(3);
    keys.key_down(1);
    keys.key_down(3);
    keys.key_down(2);
    assert_eq!(keys.held(), vec![3, 1, 2]);
}

#[test]
fn mouse_consume_is_idempotent() {
    let mut mouse = MouseState::new();
    mouse.accumulate(5, -7);
    mouse.accumulate(10, 2);
    // First read yields everything accumulated, non-zero here.
    assert_eq!(mouse.consume(), (15, -5));
    // Second read without intervening writes yields exactly (0, 0).
    assert_eq!(mouse.consume(), (0, 0));
    assert_eq!(mouse, MouseState { dx: 0, dy: 0 });
}

#[test]
fn mouse_accumulates_between_consumes() {
    let mut mouse = MouseState::new();
    mouse.accumulate(1, 1);
    assert_eq!(mouse.consume(), (1, 1));
    mouse.accumulate(-3, 4);
    mouse.accumulate(1, 1);
    assert_eq!(mouse.consume(), (-2, 5));
}

#[test]
fn mouse_saturates_at_the_ends() {
    let mut mouse = MouseState::new();
    mouse.accumulate(i64::MAX, i64::MIN);
    mouse.accumulate(1, -1);
    assert_eq!(mouse.consume(), (i64::MAX, i64::MIN));
}

#[test]
fn window_cell_latest_size_wins_and_flag_clears() {
    let mut window = WindowState::new(800, 600);
    assert_eq!(window.take_resize(), None);
    window.record_resize(1024, 768);
    window.record_resize(1280, 720);
    assert_eq!(window.take_resize(), Some((1280, 720)));
    assert_eq!(window.take_resize(), None);
    assert_eq!(window.width, 1280);
    assert_eq!(window.height, 720);
}

#[test]
fn dispatch_updates_exactly_the_touched_cell() {
    let mut keys = KeySet::new();
    let mut mouse = MouseState::new();
    let mut window = WindowState::new(800, 600);
    let h = Health::Running;

    let exit = dispatch_event(h, &mut keys, &mut mouse, &mut window, InputEvent::Key {
        pressed: true,
        code: KEY_A,
    });
    assert!(!exit);
    assert!(keys.is_pressed(KEY_A));

    let exit = dispatch_event(h, &mut keys, &mut mouse, &mut window, InputEvent::MouseMotion {
        dx: 3,
        dy: -4,
    });
    assert!(!exit);
    assert_eq!((mouse.dx, mouse.dy), (3, -4));

    let exit = dispatch_event(h, &mut keys, &mut mouse, &mut window, InputEvent::Resized {
        width: 1024,
        height: 768,
    });
    assert!(!exit);
    assert_eq!(window, WindowState { width: 1024, height: 768, changed: true });

    let exit = dispatch_event(h, &mut keys, &mut mouse, &mut window, InputEvent::Key {
        pressed: false,
        code: KEY_A,
    });
    assert!(!exit);
    assert!(!keys.is_pressed(KEY_A));
}

#[test]
fn quit_keys_and_close_request_end_the_loop() {
    let mut keys = KeySet::new();
    let mut mouse = MouseState::new();
    let mut window = WindowState::new(800, 600);
    let h = Health::Running;
    assert!(dispatch_event(h, &mut keys, &mut mouse, &mut window, InputEvent::CloseRequested));
    assert!(dispatch_event(h, &mut keys, &mut mouse, &mut window, InputEvent::Key {
        pressed: true,
        code: KEY_ESCAPE,
    }));
    assert!(dispatch_event(h, &mut keys, &mut mouse, &mut window, InputEvent::Key {
        pressed: false,
        code: KEY_Q,
    }));
}

#[test]
fn watchdog_stops_on_abnormal_exit_and_next_event_terminates() {
    // The render thread dies abnormally: the flag transitions to Stopped.
    let h = observe_render_exit(Health::Running, false);
    assert_eq!(h, Health::Stopped);
    // The very next dispatched event — whatever it is — ends the loop.
    let mut keys = KeySet::new();
    let mut mouse = MouseState::new();
    let mut window = WindowState::new(800, 600);
    assert!(dispatch_event(h, &mut keys, &mut mouse, &mut window, InputEvent::MouseMotion {
        dx: 1,
        dy: 1,
    }));
    // A clean exit leaves the flag as it was.
    assert_eq!(observe_render_exit(Health::Running, true), Health::Running);
    // Stopped is absorbing.
    assert_eq!(observe_render_exit(Health::Stopped, true), Health::Stopped);
}
