//! Keyboard events and the mode-dependent mapping from events to actions.

use vstd::prelude::*;

verus! {

/// The interpretation context for input.
#[derive(Clone, Copy, Debug, PartialEq, Eq, Structural)]
pub enum Mode {
    /// Navigation and commands.
    Normal,
    /// Literal character entry.
    Insert,
}

/// The key that an event concerns.
#[derive(Clone, Copy, Debug, PartialEq, Eq, Structural)]
pub enum KeyCode {
    Char(char),
    Up,
    Down,
    Left,
    Right,
    Esc,
    /// Any key that the editor does not distinguish.
    Other,
}

/// Whether a key went down, repeated, or came up.
#[derive(Clone, Copy, Debug, PartialEq, Eq, Structural)]
pub enum KeyKind {
    Press,
    Repeat,
    Release,
}

/// One event read from the terminal.
#[derive(Clone, Copy, Debug, PartialEq, Eq, Structural)]
pub enum InputEvent {
    Key { code: KeyCode, kind: KeyKind },
    /// Resize, mouse, focus, paste: never acted upon.
    Other,
}

/// An intended effect of one event in one mode.
#[derive(Clone, Copy, Debug, PartialEq, Eq, Structural)]
pub enum Action {
    Quit,
    MoveUp,
    MoveDown,
    MoveLeft,
    MoveRight,
    EnterMode(Mode),
    InsertChar(char),
}

/// The action that a released key stands for in normal mode.
pub open spec fn normal_action(code: KeyCode) -> Option<Action> {
    match code {
        KeyCode::Char('q') => Some(Action::Quit),
        KeyCode::Up | KeyCode::Char('k') => Some(Action::MoveUp),
        KeyCode::Down | KeyCode::Char('j') => Some(Action::MoveDown),
        KeyCode::Left | KeyCode::Char('h') => Some(Action::MoveLeft),
        KeyCode::Right | KeyCode::Char('l') => Some(Action::MoveRight),
        KeyCode::Char('i') => Some(Action::EnterMode(Mode::Insert)),
        _ => None,
    }
}

/// Whether `c` is printable: not a C0 control character (U+0000 to U+001F),
/// DEL, nor a C1 control character (U+0080 to U+009F).
pub open spec fn printable(c: char) -> bool {
    !((c as u32) <= 0x1f || (0x7f <= (c as u32) && (c as u32) <= 0x9f))
}

/// Whether `c` is printable.
pub fn is_printable(c: char) -> (r: bool)
    ensures
        r == printable(c),
{
    let u = c as u32;
    !(u <= 0x1f || (0x7f <= u && u <= 0x9f))
}

/// The action that a released key stands for in insert mode.
pub open spec fn insert_action(code: KeyCode) -> Option<Action> {
    match code {
        KeyCode::Esc => Some(Action::EnterMode(Mode::Normal)),
        KeyCode::Char(c) => if printable(c) {
            Some(Action::InsertChar(c))
        } else {
            None
        },
        _ => None,
    }
}

/// The action of an event in a mode: only key releases count.
pub open spec fn classify(mode: Mode, event: InputEvent) -> Option<Action> {
    match event {
        InputEvent::Key { code, kind } => {
            if kind == KeyKind::Release {
                match mode {
                    Mode::Normal => normal_action(code),
                    Mode::Insert => insert_action(code),
                }
            } else {
                None
            }
        },
        InputEvent::Other => None,
    }
}

} // verus!
