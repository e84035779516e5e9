//! Keys and mouse buttons, as far as the orchestrator tells them apart.

use vstd::prelude::*;

verus! {

/// A key of the keyboard, as far as the orchestrator tells keys apart.
#[derive(Clone, Copy, Debug, PartialEq, Eq, Structural)]
pub enum KeyCode {
    Escape,
    Other,
}

/// A button of the mouse.
#[derive(Clone, Copy, Debug, PartialEq, Eq, Structural)]
pub enum MouseButton {
    Left,
    Right,
    Middle,
    Back,
    Forward,
    Other(u16),
}

} // verus!
