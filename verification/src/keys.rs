//! The keys that the screens react to.

use vstd::prelude::*;

verus! {

/// A key, as the screens tell keys apart.
#[derive(Clone, Copy, Debug, PartialEq, Eq, Structural)]
pub enum KeyCode {
    Char(char),
    Enter,
    Esc,
    Up,
    Down,
    Left,
    Right,
    Tab,
    BackTab,
    Backspace,
    PageUp,
    PageDown,
    Home,
    End,
    /// Any key that no screen reacts to.
    Other,
}

/// A key press: the key and whether Control was held.
#[derive(Clone, Copy, Debug, PartialEq, Eq, Structural)]
pub struct KeyEvent {
    pub code: KeyCode,
    pub ctrl: bool,
}

impl KeyEvent {
    /// A press of `code` without Control.
    pub fn new(code: KeyCode) -> (k: KeyEvent)
        ensures
            k.code == code,
            !k.ctrl,
    {
        KeyEvent { code, ctrl: false }
    }

    /// A press of `code` with Control held.
    pub fn with_ctrl(code: KeyCode) -> (k: KeyEvent)
        ensures
            k.code == code,
            k.ctrl,
    {
        KeyEvent { code, ctrl: true }
    }
}

/// The key moves a list selection up (`↑` or `k`).
pub open spec fn is_up(k: KeyCode) -> bool {
    k == KeyCode::Up || k == KeyCode::Char('k')
}

/// The key moves a list selection down (`↓` or `j`).
pub open spec fn is_down(k: KeyCode) -> bool {
    k == KeyCode::Down || k == KeyCode::Char('j')
}

/// The key refreshes the data of the screen (`r` or `R`).
pub open spec fn is_refresh(k: KeyCode) -> bool {
    k == KeyCode::Char('r') || k == KeyCode::Char('R')
}

pub fn key_is_refresh(k: KeyCode) -> (b: bool)
    ensures
        b == is_refresh(k),
{
    match k {
        KeyCode::Char(c) => c == 'r' || c == 'R',
        _ => false,
    }
}

pub fn key_is_up(k: KeyCode) -> (b: bool)
    ensures
        b == is_up(k),
{
    match k {
        KeyCode::Up => true,
        KeyCode::Char(c) => c == 'k',
        _ => false,
    }
}

pub fn key_is_down(k: KeyCode) -> (b: bool)
    ensures
        b == is_down(k),
{
    match k {
        KeyCode::Down => true,
        KeyCode::Char(c) => c == 'j',
        _ => false,
    }
}

} // verus!
