use idaphs_cad::input_handler::InputEventHandler;
use idaphs_cad::key_set::KeySet;
use idaphs_cad::messages::{AppMessage, CameraMessage, FileIOMessage, InputMessage, KeyModifiers};
use idaphs_cad::user_io::UserIOUtils;

fn mods(control: bool, shift: bool) -> KeyModifiers {
    KeyModifiers { alt: false, control, shift, meta: false }
}

#[test]
fn key_set_insert_remove() {
    let mut keys = KeySet::new();
    assert_eq!(keys.len(), 0);
    assert!(keys.insert("a".to_string()));
    assert!(!keys.insert("a".to_string()));
    assert!(keys.insert("Shift".to_string()));
    assert_eq!(keys.len(), 2);
    assert!(keys.contains("a"));
    assert!(!keys.contains("b"));
    assert!(keys.remove("a"));
    assert!(!keys.remove("a"));
    assert!(!keys.contains("a"));
    assert!(keys.contains("Shift"));
    assert_eq!(keys.len(), 1);
}

#[test]
fn mouse_positions_shift() {
    let mut io: UserIOUtils<f32> = UserIOUtils::new();
    assert_eq!(io.mouse_motion(), None);
    io.update_mouse_pos(1.0, 2.0);
    assert_eq!(io.current_pos, Some((1.0, 2.0)));
    assert_eq!(io.prev_pos, None);
    assert_eq!(io.mouse_motion(), None);
    io.update_mouse_pos(4.0, 6.0);
    assert_eq!(io.prev_pos, Some((1.0, 2.0)));
    assert_eq!(io.mouse_motion(), Some(((1.0, 2.0), (4.0, 6.0))));
}

#[test]
fn preprocess_buttons_and_keys() {
    let mut io: UserIOUtils<f32> = UserIOUtils::new();
    assert!(!io.preprocess_userio_event(&InputMessage::MiddleClickDown { x: 3.0, y: 4.0 }));
    assert!(io.is_middle_mouse_down);
    assert_eq!(io.current_pos, Some((3.0, 4.0)));
    io.preprocess_userio_event(&InputMessage::MouseMove { x: 5.0, y: 7.0, modifiers: mods(false, false) });
    assert_eq!(io.prev_pos, Some((3.0, 4.0)));
    assert_eq!(io.current_pos, Some((5.0, 7.0)));
    io.preprocess_userio_event(&InputMessage::Wheel { delta: 35.0 });
    assert_eq!(io.current_pos, Some((5.0, 7.0)));
    io.preprocess_userio_event(&InputMessage::MiddleClickUp);
    assert!(!io.is_middle_mouse_down);
    assert!(!io.is_mouse_down);
    io.preprocess_userio_event(&InputMessage::Click { x: 1.0, y: 1.0 });
    assert!(io.is_mouse_down);
    assert_eq!(io.prev_pos, Some((5.0, 7.0)));
    io.preprocess_userio_event(&InputMessage::KeyEventPressed { key: "Control".to_string(), modifiers: mods(true, false) });
    assert!(io.is_ctrl_pressed);
    assert!(!io.is_shift_pressed);
    assert!(io.key_pressed.contains("Control"));
    io.preprocess_userio_event(&InputMessage::KeyEventReleased { key: "Control".to_string(), modifiers: mods(false, true) });
    assert!(!io.is_ctrl_pressed);
    assert!(io.is_shift_pressed);
    assert!(!io.key_pressed.contains("Control"));
    assert_eq!(io.key_pressed.len(), 0);
}

#[test]
fn baseops_handler() {
    let mut h: InputEventHandler<f32> = InputEventHandler::new();
    assert!(matches!(h.last_input_msg, InputMessage::Click { x, y } if x == 0.0 && y == 0.0));
    h.handle_baseops_controls(InputMessage::MiddleClickDown { x: 2.0, y: 3.0 });
    assert!(h.is_middle_click_pressed);
    assert_eq!(h.middle_click_start_pos, Some((2.0, 3.0)));
    assert!(matches!(h.last_input_msg, InputMessage::MiddleClickDown { .. }));
    h.handle_baseops_controls(InputMessage::MiddleClickUp);
    assert!(!h.is_middle_click_pressed);
    assert_eq!(h.middle_click_start_pos, Some((2.0, 3.0)));
    h.handle_baseops_controls(InputMessage::KeyEventPressed { key: String::new(), modifiers: mods(true, false) });
    assert!(h.ctrl_pressed);
    assert_eq!(h.pressed_keys.len(), 0);
    h.handle_baseops_controls(InputMessage::KeyEventPressed { key: "x".to_string(), modifiers: mods(false, false) });
    assert!(!h.ctrl_pressed);
    assert!(h.pressed_keys.contains("x"));
    h.handle_baseops_controls(InputMessage::KeyEventReleased { key: "x".to_string(), modifiers: mods(false, false) });
    assert_eq!(h.pressed_keys.len(), 0);
}

#[test]
fn handler_takes_only_input_events() {
    let mut h: InputEventHandler<f32> = InputEventHandler::new();
    assert!(!h.handle_event(AppMessage::CameraMsg { msg: CameraMessage::Reset }));
    assert!(!h.handle_event(AppMessage::FileIOMsg { msg: FileIOMessage::NewFile }));
    assert!(!h.is_middle_click_pressed);
    assert!(h.handle_event(AppMessage::InputMsg { msg: InputMessage::MiddleClickDown { x: 1.0, y: 2.0 } }));
    assert!(h.is_middle_click_pressed);
}

#[test]
fn press_then_release_restores_keys() {
    let mut io: UserIOUtils<f32> = UserIOUtils::new();
    io.preprocess_userio_event(&InputMessage::KeyEventPressed { key: "a".to_string(), modifiers: mods(false, false) });
    io.preprocess_userio_event(&InputMessage::KeyEventPressed { key: "b".to_string(), modifiers: mods(false, false) });
    io.preprocess_userio_event(&InputMessage::KeyEventReleased { key: "b".to_string(), modifiers: mods(false, false) });
    assert!(io.key_pressed.contains("a"));
    assert!(!io.key_pressed.contains("b"));
    assert_eq!(io.key_pressed.len(), 1);
}
