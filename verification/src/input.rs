//! The input events the host delivers and the outcome the component reports
//! back: whether it consumed the event or left it for the host to route
//! elsewhere.

use vstd::prelude::*;

verus! {

/// The key that a key press carries.
#[derive(Clone, Copy, Debug)]
pub enum KeyCode {
    Char(char),
    Enter,
    Escape,
    Backspace,
    Tab,
    Up,
    Down,
    Left,
    Right,
}

/// One key press: a key together with its modifiers.
#[derive(Clone, Copy, Debug)]
pub struct KeyPress {
    pub code: KeyCode,
    pub ctrl: bool,
    pub alt: bool,
    pub shift: bool,
}

/// An event the host's terminal loop delivers to the component.
#[derive(Debug)]
pub enum InputEvent {
    Key(KeyPress),
    /// A mouse event at the given column and row.
    Mouse(u16, u16),
    Paste(String),
    Resize(u16, u16),
    FocusGained,
    FocusLost,
    IdleTimeout,
}

/// Whether the component handled an event, or the host remains free to route
/// it elsewhere.
#[derive(Clone, Copy, Debug, PartialEq, Eq, Structural)]
pub enum EventOutcome {
    Consumed,
    Ignored,
}

/// The press that moves the selection down: the unmodified character `j`.
pub open spec fn is_down_press(k: KeyPress) -> bool {
    k.code == (KeyCode::Char('j')) && !k.ctrl && !k.alt && !k.shift
}

/// The press that moves the selection up: the unmodified character `k`.
pub open spec fn is_up_press(k: KeyPress) -> bool {
    k.code == (KeyCode::Char('k')) && !k.ctrl && !k.alt && !k.shift
}

/// An event the component recognizes as "move down".
pub open spec fn is_down_event(e: InputEvent) -> bool {
    match e {
        InputEvent::Key(k) => is_down_press(k),
        _ => false,
    }
}

/// An event the component recognizes as "move up".
pub open spec fn is_up_event(e: InputEvent) -> bool {
    match e {
        InputEvent::Key(k) => is_up_press(k),
        _ => false,
    }
}

/// Decides whether a key press is the unmodified character `c`.
pub fn is_plain_char(key: &KeyPress, c: char) -> (r: bool)
    ensures
        r == (key.code == (KeyCode::Char(c)) && !key.ctrl && !key.alt && !key.shift),
{
    match key.code {
        KeyCode::Char(k) => k == c && !key.ctrl && !key.alt && !key.shift,
        _ => false,
    }
}

} // verus!
