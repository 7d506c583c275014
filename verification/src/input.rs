//! Input events delivered to interactive widgets.

use vstd::prelude::*;

verus! {

/// A key, as carried by [`Event::KeyWithModifiers`].
#[derive(Debug, Clone, Copy, PartialEq, Eq, Structural)]
pub enum KeyKind {
    Char(char),
    Left,
    Right,
    Up,
    Down,
    Enter,
    Escape,
    Backspace,
    Delete,
    Other,
}

/// Modifier keys held with a key.
#[derive(Debug, Clone, Copy, PartialEq, Eq, Structural)]
pub struct KeyModifiers {
    pub shift: bool,
    pub ctrl: bool,
    pub alt: bool,
}

/// A key together with its modifiers.
#[derive(Debug, Clone, Copy, PartialEq, Eq, Structural)]
pub struct KeyWithModifiers {
    pub key: KeyKind,
    pub mods: KeyModifiers,
}

/// An action bound to a key combination.
#[derive(Debug, Clone, Copy, PartialEq, Eq, Structural)]
pub enum KeybindAction {
    SelectAll,
    Copy,
    Cut,
    Paste,
    Other,
}

/// A mouse button.
#[derive(Debug, Clone, Copy, PartialEq, Eq, Structural)]
pub enum MouseButton {
    Left,
    Right,
    Middle,
}

/// An input event.
#[derive(Debug, Clone, PartialEq, Eq)]
pub enum Event {
    Character(char),
    Paste(String),
    Backspace,
    Delete,
    KeyLeft,
    KeyRight,
    KeyUp,
    KeyDown,
    Enter,
    Escape,
    Keybind(KeybindAction),
    KeyWithModifiers(KeyWithModifiers),
    /// A mouse button was pressed at `(x, y)`.
    MouseClick { x: u16, y: u16, button: MouseButton },
    /// The mouse moved to `(x, y)` with a button held.
    MouseDrag { x: u16, y: u16, button: MouseButton },
    /// A mouse button was released at `(x, y)`.
    MouseRelease { x: u16, y: u16, button: MouseButton },
    /// The mouse moved to `(x, y)` with no button held.
    MouseMove { x: u16, y: u16 },
    /// The wheel turned by `delta` notches (positive: down).
    MouseScroll { delta: i8 },
    /// The wheel turned sideways by `delta` notches (positive: right).
    MouseScrollHorizontal { delta: i8 },
    /// The terminal was resized to `width` x `height` cells.
    Resize { width: u16, height: u16 },
    Unknown,
}

/// The plain (unmodified) event that a key press stands for: a key held
/// without Ctrl or Alt maps to its plain event; everything else has none.
pub open spec fn legacy_of(k: KeyWithModifiers) -> Option<Event> {
    if k.mods.ctrl || k.mods.alt {
        None
    } else {
        match k.key {
            KeyKind::Char(c) => Some(Event::Character(c)),
            KeyKind::Left => Some(Event::KeyLeft),
            KeyKind::Right => Some(Event::KeyRight),
            KeyKind::Up => Some(Event::KeyUp),
            KeyKind::Down => Some(Event::KeyDown),
            KeyKind::Enter => Some(Event::Enter),
            KeyKind::Escape => Some(Event::Escape),
            KeyKind::Backspace => Some(Event::Backspace),
            KeyKind::Delete => Some(Event::Delete),
            KeyKind::Other => None,
        }
    }
}

impl Event {
    /// The plain event that a modified key press stands for, if any.
    pub open spec fn legacy_spec(&self) -> Option<Event> {
        match self {
            Event::KeyWithModifiers(k) => legacy_of(*k),
            _ => None,
        }
    }

    /// The plain event that a modified key press stands for, if any.
    pub fn as_legacy_key_event(&self) -> (r: Option<Event>)
        ensures
            r == self.legacy_spec(),
    {
        match self {
            Event::KeyWithModifiers(k) => {
                if k.mods.ctrl || k.mods.alt {
                    None
                } else {
                    match k.key {
                        KeyKind::Char(c) => Some(Event::Character(c)),
                        KeyKind::Left => Some(Event::KeyLeft),
                        KeyKind::Right => Some(Event::KeyRight),
                        KeyKind::Up => Some(Event::KeyUp),
                        KeyKind::Down => Some(Event::KeyDown),
                        KeyKind::Enter => Some(Event::Enter),
                        KeyKind::Escape => Some(Event::Escape),
                        KeyKind::Backspace => Some(Event::Backspace),
                        KeyKind::Delete => Some(Event::Delete),
                        KeyKind::Other => None,
                    }
                }
            },
            _ => None,
        }
    }
}

/// Whether `c` is a control character (general category Cc).
pub open spec fn is_control_spec(c: char) -> bool {
    (c as u32) < 0x20 || (0x7f <= (c as u32) && (c as u32) <= 0x9f)
}

/// Whether `c` is a control character (general category Cc).
pub fn is_control(c: char) -> (r: bool)
    ensures
        r == is_control_spec(c),
{
    let v = c as u32;
    v < 0x20 || (0x7f <= v && v <= 0x9f)
}

} // verus!
