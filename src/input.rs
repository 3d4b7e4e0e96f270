//! Terminal input as the widgets see it: keys with their modifiers, and mouse clicks.
use vstd::prelude::*;

verus! {

/// No modifier key held.
pub const MOD_NONE: u8 = 0;

/// Bit of a held shift key.
pub const MOD_SHIFT: u8 = 1;

/// Bit of a held control key.
pub const MOD_CONTROL: u8 = 2;

/// Bit of a held alt key.
pub const MOD_ALT: u8 = 4;

#[derive(Debug, PartialEq, Eq, Structural, Copy, Clone)]
pub enum KeyCode {
    Backspace,
    Enter,
    Left,
    Right,
    Up,
    Down,
    Home,
    End,
    PageUp,
    PageDown,
    Tab,
    BackTab,
    Delete,
    Insert,
    /// A function key: `F(1)` is F1.
    F(u8),
    Char(char),
    Null,
    Esc,
}

/// A key press; `modifiers` holds the bits `MOD_SHIFT`, `MOD_CONTROL` and `MOD_ALT`.
#[derive(Debug, PartialEq, Eq, Structural, Copy, Clone)]
pub struct KeyEvent {
    pub code: KeyCode,
    pub modifiers: u8,
}

#[derive(Debug, PartialEq, Eq, Structural, Copy, Clone)]
pub enum MouseEventKind {
    /// The left button went down.
    LeftDown,
    /// Any other button, release, drag, move or scroll.
    Other,
}

/// A mouse event at a terminal column and row.
#[derive(Debug, PartialEq, Eq, Structural, Copy, Clone)]
pub struct MouseEvent {
    pub kind: MouseEventKind,
    pub column: u16,
    pub row: u16,
    pub modifiers: u8,
}

#[derive(Debug, PartialEq, Eq, Structural, Copy, Clone)]
pub enum Event {
    Key(KeyEvent),
    Mouse(MouseEvent),
    /// The terminal now has this many columns and rows.
    Resize(u16, u16),
}

/// Whether `e` is the key `code` pressed with exactly the modifiers `modifiers`.
pub open spec fn is_key(e: Event, code: KeyCode, modifiers: u8) -> bool {
    e == Event::Key(KeyEvent { code, modifiers })
}

impl Event {
    /// The key `code` pressed with the modifier bits `modifiers`.
    pub fn key(code: KeyCode, modifiers: u8) -> (r: Event)
        ensures
            r == Event::Key(KeyEvent { code, modifiers }),
    {
        Event::Key(KeyEvent { code, modifiers })
    }

    /// The key `code` pressed alone.
    pub fn plain(code: KeyCode) -> (r: Event)
        ensures
            r == Event::Key(KeyEvent { code, modifiers: MOD_NONE }),
    {
        Event::Key(KeyEvent { code, modifiers: MOD_NONE })
    }
}

} // verus!
