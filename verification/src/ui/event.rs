use vstd::prelude::*;

verus! {

/// The key of a key press, as far as the screens tell keys apart.
#[derive(Clone, Copy, Debug, PartialEq, Eq, Structural)]
pub enum KeyCode {
    Backspace,
    Enter,
    Left,
    Right,
    Up,
    Down,
    Home,
    End,
    PageUp,
    PageDown,
    Tab,
    BackTab,
    Delete,
    Esc,
    Char(char),
    /// Any other key.
    Other,
}

/// The modifier keys held during a key press.
#[derive(Clone, Copy, Debug, PartialEq, Eq, Structural)]
pub struct KeyModifiers {
    pub shift: bool,
    pub control: bool,
}

/// One key press.
#[derive(Clone, Copy, Debug, PartialEq, Eq, Structural)]
pub struct KeyEvent {
    pub code: KeyCode,
    pub modifiers: KeyModifiers,
}

impl KeyModifiers {
    /// No modifier key.
    pub fn none() -> (m: Self)
        ensures
            m == (KeyModifiers { shift: false, control: false }),
    {
        KeyModifiers { shift: false, control: false }
    }
}

impl KeyEvent {
    /// The press of `code` with the modifiers `modifiers`.
    pub fn new(code: KeyCode, modifiers: KeyModifiers) -> (key: Self)
        ensures
            key == (KeyEvent { code, modifiers }),
    {
        KeyEvent { code, modifiers }
    }

    /// The quit chord: the letter `c` with the control key.
    pub open spec fn is_quit_chord(self) -> bool {
        self.code == KeyCode::Char('c') && self.modifiers.control
    }

    /// The key that moves a selection down: the down arrow, or `j`.
    pub open spec fn is_down(self) -> bool {
        self.code == KeyCode::Down || self.code == KeyCode::Char('j')
    }

    /// The key that moves a selection up: the up arrow, or `k`.
    pub open spec fn is_up(self) -> bool {
        self.code == KeyCode::Up || self.code == KeyCode::Char('k')
    }
}

} // verus!
