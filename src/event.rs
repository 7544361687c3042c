use vstd::prelude::*;

verus! {

/// The key that an input event names.
#[derive(Debug, Clone, Copy, PartialEq, Eq, Structural)]
pub enum KeyCode {
    Char(char),
    Enter,
    Esc,
    Left,
    Right,
    Up,
    Down,
    PageUp,
    PageDown,
    /// Any key that no panel binds.
    Other,
}

/// The modifier keys held during a key event.
#[derive(Debug, Clone, Copy, PartialEq, Eq, Structural)]
pub struct KeyModifiers {
    pub shift: bool,
    pub control: bool,
    pub alt: bool,
    /// Any other modifier (super, hyper, meta).
    pub other: bool,
}

impl KeyModifiers {
    pub open spec fn is_none(self) -> bool {
        !self.shift && !self.control && !self.alt && !self.other
    }

    /// Alt and nothing else.
    pub open spec fn is_alt(self) -> bool {
        !self.shift && !self.control && self.alt && !self.other
    }

    /// Control and nothing else.
    pub open spec fn is_control(self) -> bool {
        !self.shift && self.control && !self.alt && !self.other
    }

    pub fn none() -> (r: KeyModifiers)
        ensures
            r.is_none(),
    {
        KeyModifiers { shift: false, control: false, alt: false, other: false }
    }

    pub fn alt_only() -> (r: KeyModifiers)
        ensures
            r.is_alt(),
    {
        KeyModifiers { shift: false, control: false, alt: true, other: false }
    }

    pub fn control_only() -> (r: KeyModifiers)
        ensures
            r.is_control(),
    {
        KeyModifiers { shift: false, control: true, alt: false, other: false }
    }

    pub fn only_alt(&self) -> (r: bool)
        ensures
            r == self.is_alt(),
    {
        !self.shift && !self.control && self.alt && !self.other
    }

    pub fn only_control(&self) -> (r: bool)
        ensures
            r == self.is_control(),
    {
        !self.shift && self.control && !self.alt && !self.other
    }
}

#[derive(Debug, Clone, Copy, PartialEq, Eq, Structural)]
pub enum KeyEventKind {
    Press,
    Repeat,
    Release,
}

#[derive(Debug, Clone, Copy, PartialEq, Eq, Structural)]
pub struct KeyEvent {
    pub code: KeyCode,
    pub modifiers: KeyModifiers,
    pub kind: KeyEventKind,
}

impl KeyEvent {
    /// A key press without modifiers.
    pub fn press(code: KeyCode) -> (r: KeyEvent)
        ensures
            r.code == code,
            r.modifiers.is_none(),
            r.kind == KeyEventKind::Press,
    {
        KeyEvent { code, modifiers: KeyModifiers::none(), kind: KeyEventKind::Press }
    }

    /// A key press with Alt held.
    pub fn alt(code: KeyCode) -> (r: KeyEvent)
        ensures
            r.code == code,
            r.modifiers.is_alt(),
            r.kind == KeyEventKind::Press,
    {
        KeyEvent { code, modifiers: KeyModifiers::alt_only(), kind: KeyEventKind::Press }
    }

    /// A key press with Control held.
    pub fn control(code: KeyCode) -> (r: KeyEvent)
        ensures
            r.code == code,
            r.modifiers.is_control(),
            r.kind == KeyEventKind::Press,
    {
        KeyEvent { code, modifiers: KeyModifiers::control_only(), kind: KeyEventKind::Press }
    }
}

#[derive(Debug, Clone, Copy, PartialEq, Eq, Structural)]
pub enum MouseButton {
    Left,
    Right,
    Middle,
}

#[derive(Debug, Clone, Copy, PartialEq, Eq, Structural)]
pub enum MouseEventKind {
    Down(MouseButton),
    Up(MouseButton),
    Drag(MouseButton),
    Moved,
    ScrollDown,
    ScrollUp,
    ScrollLeft,
    ScrollRight,
}

/// A pointer event at a cell of the screen.
#[derive(Debug, Clone, Copy, PartialEq, Eq, Structural)]
pub struct MouseEvent {
    pub kind: MouseEventKind,
    pub column: u16,
    pub row: u16,
}

/// One input event from the terminal.
#[derive(Debug, Clone, Copy, PartialEq, Eq, Structural)]
pub enum Event {
    Key(KeyEvent),
    Mouse(MouseEvent),
    /// Resize, paste and focus events, which no panel handles.
    Other,
}

} // verus!
