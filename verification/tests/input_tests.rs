use learnopengl::camera::MovementEvent;
use learnopengl::input::{
    command_for_event, commands_for_keys, Key, KeyAction, KeyStates, WindowCommand, WindowEvent,
};

fn keys(escape: bool, w: bool, s: bool, a: bool, d: bool) -> KeyStates {
    KeyStates { escape, w, s, a, d }
}

#[test]
fn no_keys_no_commands() {
    let r = commands_for_keys(keys(false, false, false, false, false));
    assert!(!r.close_window);
    assert!(r.movements.is_empty());
}

#[test]
fn escape_closes_the_window() {
    let r = commands_for_keys(keys(true, false, false, false, false));
    assert!(r.close_window);
    assert!(r.movements.is_empty());
}

#[test]
fn each_key_gives_its_movement() {
    assert_eq!(commands_for_keys(keys(false, true, false, false, false)).movements, vec![MovementEvent::Forward]);
    assert_eq!(commands_for_keys(keys(false, false, true, false, false)).movements, vec![MovementEvent::Backward]);
    assert_eq!(commands_for_keys(keys(false, false, false, true, false)).movements, vec![MovementEvent::Left]);
    assert_eq!(commands_for_keys(keys(false, false, false, false, true)).movements, vec![MovementEvent::Right]);
}

#[test]
fn all_keys_give_movements_in_order() {
    let r = commands_for_keys(keys(true, true, true, true, true));
    assert!(r.close_window);
    assert_eq!(
        r.movements,
        vec![
            MovementEvent::Forward,
            MovementEvent::Backward,
            MovementEvent::Left,
            MovementEvent::Right
        ]
    );
    let r = commands_for_keys(keys(false, false, true, false, true));
    assert_eq!(r.movements, vec![MovementEvent::Backward, MovementEvent::Right]);
}

#[test]
fn resize_sets_the_viewport() {
    assert_eq!(
        command_for_event(WindowEvent::FramebufferSize { width: 1600, height: 1200 }),
        Some(WindowCommand::SetViewport { x: 0, y: 0, width: 1600, height: 1200 })
    );
    assert_eq!(
        command_for_event(WindowEvent::FramebufferSize { width: 0, height: 0 }),
        Some(WindowCommand::SetViewport { x: 0, y: 0, width: 0, height: 0 })
    );
}

#[test]
fn escape_press_closes() {
    assert_eq!(
        command_for_event(WindowEvent::Key { key: Key::Escape, action: KeyAction::Press }),
        Some(WindowCommand::Close)
    );
}

#[test]
fn other_events_need_nothing() {
    assert_eq!(command_for_event(WindowEvent::Key { key: Key::Escape, action: KeyAction::Release }), None);
    assert_eq!(command_for_event(WindowEvent::Key { key: Key::Escape, action: KeyAction::Repeat }), None);
    assert_eq!(command_for_event(WindowEvent::Key { key: Key::Other, action: KeyAction::Press }), None);
    assert_eq!(command_for_event(WindowEvent::Other), None);
}
