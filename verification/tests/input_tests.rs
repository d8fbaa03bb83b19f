use gloom::input::{
    handle_event, HealthFlag, InputEvent, LoopControl, MouseDelta, PressedKeys, WindowSize,
    KEY_A, KEY_ESCAPE, KEY_Q, KEY_W,
};

#[test]
fn keys_insert_once_and_remove() {
    let mut keys = PressedKeys::new();
    keys.key_down(KEY_A);
    keys.key_down(KEY_A);
    assert_eq!(keys.keys.len(), 1);
    keys.key_down(KEY_W);
    assert_eq!(keys.keys, vec![KEY_A, KEY_W]);
    keys.key_up(KEY_A);
    assert_eq!(keys.keys, vec![KEY_W]);
    keys.key_up(KEY_A);
    assert_eq!(keys.keys, vec![KEY_W]);
}

#[test]
fn mouse_delta_accumulates_and_resets_on_take() {
    let mut mouse = MouseDelta::new();
    mouse.accumulate(5, -3);
    mouse.accumulate(2, 10);
    let (dx, dy) = mouse.take();
    assert_eq!((dx, dy), (7, 7));
    // After consumption the cell reads back as zero, whatever it held.
    assert_eq!(mouse.dx, 0);
    assert_eq!(mouse.dy, 0);
    let (dx2, dy2) = mouse.take();
    assert_eq!((dx2, dy2), (0, 0));
}

#[test]
fn mouse_delta_saturates_at_the_machine_range() {
    let mut mouse = MouseDelta::new();
    mouse.accumulate(i64::MAX, i64::MIN);
    mouse.accumulate(1, -1);
    assert_eq!(mouse.dx, i64::MAX);
    assert_eq!(mouse.dy, i64::MIN);
}

#[test]
fn window_resize_flag_set_and_cleared() {
    let mut w = WindowSize::new(800, 600);
    assert_eq!(w.take_resize(), None);
    w.record_resize(1024, 768);
    assert!(w.dirty);
    assert_eq!(w.take_resize(), Some((1024, 768)));
    assert!(!w.dirty);
    assert_eq!(w.take_resize(), None);
    assert_eq!((w.width, w.height), (1024, 768));
}

#[test]
fn watchdog_flips_health_on_abnormal_exit() {
    let mut h = HealthFlag::new();
    assert!(h.healthy);
    h.on_render_exit(true);
    assert!(h.healthy);
    h.on_render_exit(false);
    assert!(!h.healthy);
}

#[test]
fn dead_render_task_shuts_the_event_loop_down() {
    let mut keys = PressedKeys::new();
    let mut mouse = MouseDelta::new();
    let mut window = WindowSize::new(800, 600);
    // Health still good: an ordinary event keeps the loop running.
    let r = handle_event(&mut keys, &mut mouse, &mut window, true, InputEvent::Other);
    assert_eq!(r, LoopControl::KeepRunning);
    // The very next poll after the health flag flips initiates shutdown.
    let r = handle_event(&mut keys, &mut mouse, &mut window, false, InputEvent::Other);
    assert_eq!(r, LoopControl::Shutdown);
}

#[test]
fn quit_keys_and_close_request_shut_down() {
    let mut keys = PressedKeys::new();
    let mut mouse = MouseDelta::new();
    let mut window = WindowSize::new(800, 600);
    let r = handle_event(&mut keys, &mut mouse, &mut window, true, InputEvent::KeyPressed(KEY_A));
    assert_eq!(r, LoopControl::KeepRunning);
    let r = handle_event(
        &mut keys, &mut mouse, &mut window, true, InputEvent::KeyPressed(KEY_ESCAPE));
    assert_eq!(r, LoopControl::Shutdown);
    let r = handle_event(&mut keys, &mut mouse, &mut window, true, InputEvent::KeyPressed(KEY_Q));
    assert_eq!(r, LoopControl::Shutdown);
    let r = handle_event(&mut keys, &mut mouse, &mut window, true, InputEvent::CloseRequested);
    assert_eq!(r, LoopControl::Shutdown);
}

#[test]
fn events_update_the_right_cell() {
    let mut keys = PressedKeys::new();
    let mut mouse = MouseDelta::new();
    let mut window = WindowSize::new(800, 600);
    handle_event(&mut keys, &mut mouse, &mut window, true, InputEvent::Resized(640, 480));
    assert_eq!((window.width, window.height, window.dirty), (640, 480, true));
    handle_event(&mut keys, &mut mouse, &mut window, true, InputEvent::KeyPressed(KEY_W));
    assert_eq!(keys.keys, vec![KEY_W]);
    handle_event(&mut keys, &mut mouse, &mut window, true, InputEvent::MouseMoved(3, 4));
    assert_eq!((mouse.dx, mouse.dy), (3, 4));
    handle_event(&mut keys, &mut mouse, &mut window, true, InputEvent::KeyReleased(KEY_W));
    assert!(keys.keys.is_empty());
}
