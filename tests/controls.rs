use zombie_game::{
    poll_events, process_keyboard_input, process_window_event, set_position, CharacterControl,
    Command, Control, GameOptions, Key, KeyboardInput, Orientation, Position, TerrainShapeObjects,
    WindowEvent, WindowStatus,
};

fn key(pressed: bool, key: Option<Key>, ctrl: bool) -> KeyboardInput {
    KeyboardInput { pressed, key, ctrl }
}

#[test]
fn options_keep_mode() {
    assert!(GameOptions::new(true).is_windowed());
    assert!(!GameOptions::new(false).is_windowed());
}

#[test]
fn options_text_form() {
    assert_eq!(GameOptions::new(true).to_string(), "windowed_mode=true");
    assert_eq!(GameOptions::new(false).to_string(), "windowed_mode=false");
}

#[test]
fn zoom_keys() {
    let z = process_keyboard_input(key(true, Some(Key::Z), false));
    assert_eq!(z, (Some(Command::Zoom(Control::Negative)), WindowStatus::Open));
    let x = process_keyboard_input(key(true, Some(Key::X), false));
    assert_eq!(x.0, Some(Command::Zoom(Control::Plus)));
    let up = process_keyboard_input(key(false, Some(Key::X), false));
    assert_eq!(up.0, Some(Command::Zoom(Control::Released)));
}

#[test]
fn movement_keys() {
    let cases = [
        (true, Key::W, CharacterControl::Up),
        (true, Key::S, CharacterControl::Down),
        (false, Key::W, CharacterControl::YMoveStop),
        (false, Key::S, CharacterControl::YMoveStop),
        (true, Key::A, CharacterControl::Left),
        (true, Key::D, CharacterControl::Right),
        (false, Key::A, CharacterControl::XMoveStop),
        (false, Key::D, CharacterControl::XMoveStop),
    ];
    for (pressed, k, c) in cases {
        let r = process_keyboard_input(key(pressed, Some(k), true));
        assert_eq!(r, (Some(Command::MoveCharacter(c)), WindowStatus::Open));
    }
}

#[test]
fn reload_and_ctrl() {
    assert_eq!(process_keyboard_input(key(true, Some(Key::R), false)).0, Some(Command::ReloadWeapon(true)));
    assert_eq!(process_keyboard_input(key(false, Some(Key::R), false)).0, Some(Command::ReloadWeapon(false)));
    assert_eq!(process_keyboard_input(key(true, None, true)).0, Some(Command::CtrlPressed(true)));
    assert_eq!(process_keyboard_input(key(true, Some(Key::Other), false)).0, None);
    assert_eq!(process_keyboard_input(key(false, Some(Key::Other), false)).0, Some(Command::CtrlPressed(false)));
    assert_eq!(process_keyboard_input(key(false, None, true)).0, None);
}

#[test]
fn escape_closes() {
    assert_eq!(process_keyboard_input(key(true, Some(Key::Escape), false)), (None, WindowStatus::Close));
    assert_eq!(process_keyboard_input(key(false, Some(Key::Escape), false)).1, WindowStatus::Close);
}

#[test]
fn window_events() {
    assert_eq!(process_window_event(WindowEvent::CloseRequested), (None, WindowStatus::Close));
    assert_eq!(
        process_window_event(WindowEvent::MouseLeft(true)),
        (Some(Command::MouseLeftClick(true)), WindowStatus::Open)
    );
    assert_eq!(process_window_event(WindowEvent::CursorMoved), (None, WindowStatus::Open));
}

#[test]
fn batch_status_is_last_event() {
    let events = vec![
        WindowEvent::Keyboard(key(true, Some(Key::Escape), false)),
        WindowEvent::Keyboard(key(true, Some(Key::W), false)),
        WindowEvent::MouseLeft(false),
    ];
    let (commands, status) = poll_events(&events);
    assert_eq!(status, WindowStatus::Open);
    assert_eq!(
        commands,
        vec![Command::MoveCharacter(CharacterControl::Up), Command::MouseLeftClick(false)]
    );
    let (none, open) = poll_events(&vec![]);
    assert!(none.is_empty());
    assert_eq!(open, WindowStatus::Open);
    assert_eq!(poll_events(&vec![WindowEvent::CloseRequested]).1, WindowStatus::Close);
}

#[test]
fn tile_positions() {
    assert_eq!(set_position(0, 4), Position::new(0, 147_200));
    assert_eq!(set_position(-2, 1), Position::new(-92_000, 36_800));
    let objects = TerrainShapeObjects::new();
    assert_eq!(objects.objects.len(), 1);
    assert_eq!(objects.objects[0].position, Position::new(0, 147_200));
    assert_eq!(objects.objects[0].orientation, Orientation::DownLeft);
}
