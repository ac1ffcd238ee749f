//! Input events as the panes and the menu see them.
//!
//! These types hold, as plain values, the parts of a terminal event that the
//! key bindings read: which key, which modifiers, and whether the key went
//! down, repeats or came up.

use vstd::prelude::*;

verus! {

/// A key.  `Other` stands for every key that no binding can name.
#[derive(Clone, Copy, Debug, PartialEq, Eq, Structural)]
pub enum KeyCode {
    Backspace,
    Enter,
    Left,
    Right,
    Up,
    Down,
    Tab,
    Esc,
    Char(char),
    Other,
}

/// The modifiers held with a key.  `other` is set when any modifier beyond
/// shift, control and alt is held.
#[derive(Clone, Copy, Debug, PartialEq, Eq, Structural)]
pub struct KeyModifiers {
    pub shift: bool,
    pub control: bool,
    pub alt: bool,
    pub other: bool,
}

impl KeyModifiers {
    /// No modifier at all.
    pub open spec fn none() -> KeyModifiers {
        KeyModifiers { shift: false, control: false, alt: false, other: false }
    }

    /// No modifier at all.
    pub fn empty() -> (m: KeyModifiers)
        ensures
            m == KeyModifiers::none(),
    {
        KeyModifiers { shift: false, control: false, alt: false, other: false }
    }
}

/// Whether a key went down, repeats, or came up.
#[derive(Clone, Copy, Debug, PartialEq, Eq, Structural)]
pub enum KeyEventKind {
    Press,
    Repeat,
    Release,
}

/// One key event.
#[derive(Clone, Copy, Debug, PartialEq, Eq, Structural)]
pub struct KeyEvent {
    pub code: KeyCode,
    pub modifiers: KeyModifiers,
    pub kind: KeyEventKind,
}

impl KeyEvent {
    /// A plain press of `code` with no modifier.
    pub fn press(code: KeyCode) -> (e: KeyEvent)
        ensures
            e == (KeyEvent { code, modifiers: KeyModifiers::none(), kind: KeyEventKind::Press }),
    {
        KeyEvent { code, modifiers: KeyModifiers::empty(), kind: KeyEventKind::Press }
    }
}

/// An input event.  `Other` stands for everything that is not a key: the
/// mouse, a resize, a paste, a change of focus.
#[derive(Clone, Copy, Debug, PartialEq, Eq, Structural)]
pub enum Event {
    Key(KeyEvent),
    Other,
}

} // verus!
