//! Input events as plain values: what a front end reads from the terminal
//! and hands to the editor.

use vstd::prelude::*;

verus! {

/// The key that was pressed.
#[derive(Copy, Clone, Debug, PartialEq, Eq, Structural)]
pub enum KeyCode {
    Char(char),
    Backspace,
    Enter,
    Esc,
    Tab,
    Up,
    Down,
    Left,
    Right,
    /// Any other key.
    Other,
}

/// The modifier keys held down with a key.
#[derive(Copy, Clone, Debug, PartialEq, Eq, Structural)]
pub struct KeyModifiers {
    pub shift: bool,
    pub control: bool,
    pub alt: bool,
    /// Some other modifier (super, hyper, meta) is held.
    pub other: bool,
}

impl KeyModifiers {
    /// No modifier at all.
    pub open spec fn is_none(self) -> bool {
        !self.shift && !self.control && !self.alt && !self.other
    }

    /// Control, and nothing else.
    pub open spec fn is_control(self) -> bool {
        self.control && !self.shift && !self.alt && !self.other
    }

    /// Shift, and nothing else.
    pub open spec fn is_shift(self) -> bool {
        self.shift && !self.control && !self.alt && !self.other
    }

    /// No modifier held.
    pub fn none() -> (modifiers: KeyModifiers)
        ensures
            modifiers.is_none(),
    {
        KeyModifiers { shift: false, control: false, alt: false, other: false }
    }

    /// Control held alone.
    pub fn control() -> (modifiers: KeyModifiers)
        ensures
            modifiers.is_control(),
    {
        KeyModifiers { shift: false, control: true, alt: false, other: false }
    }

    /// Shift held alone.
    pub fn shift() -> (modifiers: KeyModifiers)
        ensures
            modifiers.is_shift(),
    {
        KeyModifiers { shift: true, control: false, alt: false, other: false }
    }

    /// Whether control is held alone.
    pub fn only_control(&self) -> (yes: bool)
        ensures
            yes == self.is_control(),
    {
        self.control && !self.shift && !self.alt && !self.other
    }

    /// Whether shift is held alone.
    pub fn only_shift(&self) -> (yes: bool)
        ensures
            yes == self.is_shift(),
    {
        self.shift && !self.control && !self.alt && !self.other
    }
}

/// Whether a key went down, is held, or came up.
#[derive(Copy, Clone, Debug, PartialEq, Eq, Structural)]
pub enum KeyEventKind {
    Press,
    Repeat,
    Release,
}

/// One key event.
#[derive(Copy, Clone, Debug, PartialEq, Eq, Structural)]
pub struct KeyEvent {
    pub code: KeyCode,
    pub modifiers: KeyModifiers,
    pub kind: KeyEventKind,
}

impl KeyEvent {
    /// A key press with the given modifiers.
    pub fn new(code: KeyCode, modifiers: KeyModifiers) -> (event: KeyEvent)
        ensures
            event == (KeyEvent { code, modifiers, kind: KeyEventKind::Press }),
    {
        KeyEvent { code, modifiers, kind: KeyEventKind::Press }
    }
}

/// Something that happened at the terminal.
#[derive(Copy, Clone, Debug, PartialEq, Eq, Structural)]
pub enum Event {
    Key(KeyEvent),
    /// The terminal now has this many columns and rows.
    Resize(u16, u16),
    /// Anything else: the mouse, focus, a bracketed paste.
    Other,
}

impl Event {
    /// Whether the editor acts on this event at all: key presses and
    /// resizes only.
    pub open spec fn is_actionable(self) -> bool {
        match self {
            Event::Key(key) => key.kind == KeyEventKind::Press,
            Event::Resize(_, _) => true,
            Event::Other => false,
        }
    }

    /// Whether the editor acts on this event at all.
    pub fn should_process(&self) -> (yes: bool)
        ensures
            yes == self.is_actionable(),
    {
        match self {
            Event::Key(key) => key.kind == KeyEventKind::Press,
            Event::Resize(_, _) => true,
            Event::Other => false,
        }
    }
}

} // verus!
