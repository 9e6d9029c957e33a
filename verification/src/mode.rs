//! The interaction modes, the actions that drive a session, and the table
//! that maps a key press to an action in each mode.

use vstd::prelude::*;

verus! {

/// How key presses are read: as movements, as text, or as a command line.
#[derive(Clone, Copy, Debug, PartialEq, Eq, Structural)]
pub enum Mode {
    Normal,
    Insert,
    Command,
}

/// One step of a session.
#[derive(Clone, Copy, Debug, PartialEq, Eq, Structural)]
pub enum Action {
    MoveUp,
    MoveDown,
    MoveLeft,
    MoveRight,
    Typing(char),
    EnterKey,
    TabKey,
    Backspace,
    SetMode(Mode),
}

/// A key press as the engine reads it. Every input that is none of the named
/// keys is `Other`.
#[derive(Clone, Copy, Debug, PartialEq, Eq, Structural)]
pub enum Key {
    Char(char),
    Up,
    Down,
    Left,
    Right,
    Enter,
    Esc,
    Tab,
    Backspace,
    Other,
}

/// The character that opens the command line and starts every command.
pub open spec fn command_prefix() -> char {
    ':'
}

/// The action of a key in normal mode: arrows and `h j k l` move, `i` and the
/// command prefix change the mode, enter moves down.
pub open spec fn normal_action(key: Key) -> Option<Action> {
    match key {
        Key::Char(c) => if c == command_prefix() {
            Some(Action::SetMode(Mode::Command))
        } else if c == 'k' {
            Some(Action::MoveUp)
        } else if c == 'j' {
            Some(Action::MoveDown)
        } else if c == 'h' {
            Some(Action::MoveLeft)
        } else if c == 'l' {
            Some(Action::MoveRight)
        } else if c == 'i' {
            Some(Action::SetMode(Mode::Insert))
        } else {
            None
        },
        Key::Up => Some(Action::MoveUp),
        Key::Down => Some(Action::MoveDown),
        Key::Left => Some(Action::MoveLeft),
        Key::Right => Some(Action::MoveRight),
        Key::Enter => Some(Action::EnterKey),
        _ => None,
    }
}

/// The action of a key in insert mode.
pub open spec fn insert_action(key: Key) -> Option<Action> {
    match key {
        Key::Char(c) => Some(Action::Typing(c)),
        Key::Esc => Some(Action::SetMode(Mode::Normal)),
        Key::Enter => Some(Action::EnterKey),
        Key::Tab => Some(Action::TabKey),
        Key::Backspace => Some(Action::Backspace),
        _ => None,
    }
}

/// The action of a key in command mode.
pub open spec fn command_action(key: Key) -> Option<Action> {
    match key {
        Key::Char(c) => Some(Action::Typing(c)),
        Key::Esc => Some(Action::SetMode(Mode::Normal)),
        Key::Enter => Some(Action::EnterKey),
        Key::Backspace => Some(Action::Backspace),
        _ => None,
    }
}

/// The action of a key in a given mode; `None` where the key means nothing
/// there.
pub open spec fn key_action(mode: Mode, key: Key) -> Option<Action> {
    match mode {
        Mode::Normal => normal_action(key),
        Mode::Insert => insert_action(key),
        Mode::Command => command_action(key),
    }
}

} // verus!
