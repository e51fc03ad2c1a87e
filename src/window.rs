use vstd::prelude::*;

verus! {

/// Start-up options of the game window.
#[derive(Clone, Copy, Debug, PartialEq, Eq, Structural)]
pub struct GameOptions {
    pub windowed_mode: bool,
}

impl GameOptions {
    pub fn new(windowed_mode: bool) -> (r: GameOptions)
        ensures
            r.windowed_mode == windowed_mode,
    {
        GameOptions { windowed_mode }
    }

    /// Text form of the options, `windowed_mode=<true|false>`.
    pub fn to_string(&self) -> (r: String)
        ensures
            r@ == if self.windowed_mode {
                "windowed_mode=true"@
            } else {
                "windowed_mode=false"@
            },
    {
        if self.windowed_mode {
            "windowed_mode=true".to_owned()
        } else {
            "windowed_mode=false".to_owned()
        }
    }

    pub fn is_windowed(&self) -> (r: bool)
        ensures
            r == self.windowed_mode,
    {
        self.windowed_mode
    }
}

/// Whether the window stays open after the events of a frame.
#[derive(Clone, Copy, Debug, PartialEq, Eq, Structural)]
pub enum WindowStatus {
    Open,
    Close,
}

/// The keys the game reacts to; every other key is `Other`.
#[derive(Clone, Copy, Debug, PartialEq, Eq, Structural)]
pub enum Key {
    A,
    D,
    Escape,
    R,
    S,
    W,
    X,
    Z,
    Other,
}

/// Zoom control signal.
#[derive(Clone, Copy, Debug, PartialEq, Eq, Structural)]
pub enum Control {
    Negative,
    Plus,
    Released,
}

/// Movement control signal for the player character.
#[derive(Clone, Copy, Debug, PartialEq, Eq, Structural)]
pub enum CharacterControl {
    Up,
    Down,
    YMoveStop,
    Left,
    Right,
    XMoveStop,
}

/// A control signal to hand to the game's controls.
#[derive(Clone, Copy, Debug, PartialEq, Eq, Structural)]
pub enum Command {
    Zoom(Control),
    MoveCharacter(CharacterControl),
    ReloadWeapon(bool),
    CtrlPressed(bool),
    /// `true`: the left button went down at the current cursor; `false`: it went up.
    MouseLeftClick(bool),
}

/// One key event: pressed or released, the key if it is known, and whether
/// a control key is held.
#[derive(Clone, Copy, Debug, PartialEq, Eq, Structural)]
pub struct KeyboardInput {
    pub pressed: bool,
    pub key: Option<Key>,
    pub ctrl: bool,
}

/// A window event, reduced to what the game reacts to.
#[derive(Clone, Copy, Debug, PartialEq, Eq, Structural)]
pub enum WindowEvent {
    Keyboard(KeyboardInput),
    /// The left mouse button; `true` when pressed.
    MouseLeft(bool),
    CursorMoved,
    CloseRequested,
    Other,
}

/// The control signal that a key event gives, if any.
pub open spec fn key_command(input: KeyboardInput) -> Option<Command> {
    let p = input.pressed;
    match input.key {
        Some(Key::Z) => Some(Command::Zoom(if p { Control::Negative } else { Control::Released })),
        Some(Key::X) => Some(Command::Zoom(if p { Control::Plus } else { Control::Released })),
        Some(Key::W) => Some(
            Command::MoveCharacter(if p { CharacterControl::Up } else { CharacterControl::YMoveStop }),
        ),
        Some(Key::S) => Some(
            Command::MoveCharacter(if p { CharacterControl::Down } else { CharacterControl::YMoveStop }),
        ),
        Some(Key::A) => Some(
            Command::MoveCharacter(if p { CharacterControl::Left } else { CharacterControl::XMoveStop }),
        ),
        Some(Key::D) => Some(
            Command::MoveCharacter(if p { CharacterControl::Right } else { CharacterControl::XMoveStop }),
        ),
        Some(Key::R) => Some(Command::ReloadWeapon(p)),
        _ => if p == input.ctrl {
            Some(Command::CtrlPressed(p))
        } else {
            None
        },
    }
}

/// Escape closes the window, whether pressed or released.
pub open spec fn key_status(input: KeyboardInput) -> WindowStatus {
    if input.key == Some(Key::Escape) {
        WindowStatus::Close
    } else {
        WindowStatus::Open
    }
}

/// Maps a key event to its control signal and to the window's status.
pub fn process_keyboard_input(input: KeyboardInput) -> (r: (Option<Command>, WindowStatus))
    ensures
        r.0 == key_command(input),
        r.1 == key_status(input),
{
    let p = input.pressed;
    let command = match input.key {
        Some(Key::Z) => Some(Command::Zoom(if p { Control::Negative } else { Control::Released })),
        Some(Key::X) => Some(Command::Zoom(if p { Control::Plus } else { Control::Released })),
        Some(Key::W) => Some(
            Command::MoveCharacter(if p { CharacterControl::Up } else { CharacterControl::YMoveStop }),
        ),
        Some(Key::S) => Some(
            Command::MoveCharacter(if p { CharacterControl::Down } else { CharacterControl::YMoveStop }),
        ),
        Some(Key::A) => Some(
            Command::MoveCharacter(if p { CharacterControl::Left } else { CharacterControl::XMoveStop }),
        ),
        Some(Key::D) => Some(
            Command::MoveCharacter(if p { CharacterControl::Right } else { CharacterControl::XMoveStop }),
        ),
        Some(Key::R) => Some(Command::ReloadWeapon(p)),
        _ => if p == input.ctrl {
            Some(Command::CtrlPressed(p))
        } else {
            None
        },
    };
    let status = match input.key {
        Some(Key::Escape) => WindowStatus::Close,
        _ => WindowStatus::Open,
    };
    (command, status)
}

/// The control signal and window status that one window event gives.
pub open spec fn event_outcome(event: WindowEvent) -> (Option<Command>, WindowStatus) {
    match event {
        WindowEvent::Keyboard(k) => (key_command(k), key_status(k)),
        WindowEvent::MouseLeft(pressed) => (Some(Command::MouseLeftClick(pressed)), WindowStatus::Open),
        WindowEvent::CloseRequested => (None, WindowStatus::Close),
        _ => (None, WindowStatus::Open),
    }
}

/// Decides what one window event means for the game.
pub fn process_window_event(event: WindowEvent) -> (r: (Option<Command>, WindowStatus))
    ensures
        r == event_outcome(event),
{
    match event {
        WindowEvent::Keyboard(k) => process_keyboard_input(k),
        WindowEvent::MouseLeft(pressed) => (Some(Command::MouseLeftClick(pressed)), WindowStatus::Open),
        WindowEvent::CloseRequested => (None, WindowStatus::Close),
        _ => (None, WindowStatus::Open),
    }
}

/// The status after a batch of events: that of the last one, or `Open` for none.
pub open spec fn batch_status(events: Seq<WindowEvent>) -> WindowStatus {
    if events.len() == 0 {
        WindowStatus::Open
    } else {
        event_outcome(events.last()).1
    }
}

/// Runs a frame's batch of events in order, collecting the control signals
/// they give, and reports the window status that the last event leaves.
pub fn poll_events(events: &Vec<WindowEvent>) -> (r: (Vec<Command>, WindowStatus))
    ensures
        r.1 == batch_status(events@),
        r.0@ == commands_of(events@),
{
    let mut commands: Vec<Command> = Vec::new();
    let mut status = WindowStatus::Open;
    let mut i: usize = 0;
    while i < events.len()
        invariant
            0 <= i <= events@.len(),
            status == batch_status(events@.subrange(0, i as int)),
            commands@ == commands_of(events@.subrange(0, i as int)),
        decreases events@.len() - i,
    {
        let (command, s) = process_window_event(events[i]);
        proof {
            let next = events@.subrange(0, i as int + 1);
            assert(next.drop_last() == events@.subrange(0, i as int));
            assert(next.last() == events@[i as int]);
        }
        match command {
            Some(c) => commands.push(c),
            None => {},
        }
        status = s;
        i = i + 1;
    }
    assert(events@.subrange(0, events@.len() as int) == events@);
    (commands, status)
}

/// The control signals of a batch of events, in order.
pub open spec fn commands_of(events: Seq<WindowEvent>) -> Seq<Command>
    decreases events.len(),
{
    if events.len() == 0 {
        Seq::empty()
    } else {
        let rest = commands_of(events.drop_last());
        match event_outcome(events.last()).0 {
            Some(c) => rest.push(c),
            None => rest,
        }
    }
}

} // verus!
