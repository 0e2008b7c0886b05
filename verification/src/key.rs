//! The input boundary: logical key events, modeled as plain values.
//!
//! The host reads raw terminal events and hands the controller one of these
//! per key stroke; only presses drive transitions.

use vstd::prelude::*;

verus! {

/// A logical key code from the closed set the picker reacts to.
/// Every key outside that set is carried as `Other` and ignored.
#[derive(Clone, Copy, Debug, PartialEq, Eq)]
pub enum KeyCode {
    Char(char),
    Backspace,
    Delete,
    Left,
    Right,
    Up,
    Down,
    Home,
    Tab,
    BackTab,
    Enter,
    Esc,
    Other,
}

/// Press/release/repeat discriminator; only `Press` drives transitions.
#[derive(Clone, Copy, Debug, PartialEq, Eq, Structural)]
pub enum KeyEventKind {
    Press,
    Release,
    Repeat,
}

/// One key stroke as delivered by the host.
#[derive(Clone, Copy, Debug, PartialEq, Eq)]
pub struct KeyEvent {
    pub code: KeyCode,
    pub kind: KeyEventKind,
}

impl KeyEvent {
    /// A pressed key, the common case in tests and in the host loop.
    pub fn press(code: KeyCode) -> (r: KeyEvent)
        ensures
            r.code == code,
            r.kind == KeyEventKind::Press,
    {
        KeyEvent { code, kind: KeyEventKind::Press }
    }
}

} // verus!
