//! The pointer-event stream both widgets consume, as delivered by the host
//! shell: moves in absolute pixel-space coordinates, presses and releases
//! with button identity.

use vstd::prelude::*;

verus! {

#[derive(Clone, Copy, PartialEq, Eq, Structural, Debug)]
pub enum MouseButton {
    Left,
    Right,
    Other,
}

#[derive(Clone, Copy, PartialEq, Eq, Structural, Debug)]
pub enum WindowEvent {
    MouseMove { x: i64, y: i64 },
    MouseDown { button: MouseButton },
    MouseUp { button: MouseButton },
}

} // verus!
