use vstd::prelude::*;

verus! {

/// The redraw decision handed back for every routed input event. `NoRedraw`
/// means the event changed nothing visible, so the render layer may skip
/// repainting.
#[derive(Clone, Copy, Debug, PartialEq, Eq, Structural)]
pub enum EventResult {
    Redraw,
    NoRedraw,
}

/// The key symbols the engine distinguishes; every other key is `Other`.
#[derive(Clone, Copy, Debug, PartialEq, Eq, Structural)]
pub enum KeyCode {
    Up,
    Down,
    Char(char),
    Other,
}

/// The modifier states the engine distinguishes. Only `Unmodified` and
/// `Shift` are ever honored; any further combination is `Other`.
#[derive(Clone, Copy, Debug, PartialEq, Eq, Structural)]
pub enum Modifiers {
    Unmodified,
    Shift,
    Other,
}

/// A keyboard event: a key symbol with its modifier state.
#[derive(Clone, Copy, Debug, PartialEq, Eq, Structural)]
pub struct KeyEvent {
    pub code: KeyCode,
    pub modifiers: Modifiers,
}

/// A mouse button; only `Left` presses move the selection.
#[derive(Clone, Copy, Debug, PartialEq, Eq, Structural)]
pub enum MouseButton {
    Left,
    Right,
    Middle,
}

/// The mouse event kinds the engine reacts to; everything else (releases,
/// drags, moves) is `Other`.
#[derive(Clone, Copy, Debug, PartialEq, Eq, Structural)]
pub enum MouseEventKind {
    Press(MouseButton),
    ScrollUp,
    ScrollDown,
    Other,
}

/// A mouse event at an absolute screen position.
#[derive(Clone, Copy, Debug, PartialEq, Eq, Structural)]
pub struct MouseEvent {
    pub kind: MouseEventKind,
    pub column: u16,
    pub row: u16,
}

} // verus!
