//! The closed input vocabulary the simulation core understands. The
//! presentation host maps its toolkit's key codes onto these before
//! handing events to a world's step.

use vstd::prelude::*;

verus! {

/// Logical keys. `Up`/`Down`/`Left`/`Right` drive the right paddle or the
/// frog; `MoveUp`/`MoveDown` drive the left paddle of the paddle-ball
/// variant (classically the A and Z keys).
#[derive(Clone, Copy, PartialEq, Eq, Structural, Debug)]
pub enum Key {
    Up,
    Down,
    Left,
    Right,
    MoveUp,
    MoveDown,
}

#[derive(Clone, Copy, PartialEq, Eq, Structural, Debug)]
pub enum KeyAction {
    Pressed,
    Released,
}

/// One discrete input event, as the host queues them between frames.
#[derive(Clone, Copy, PartialEq, Eq, Structural, Debug)]
pub struct KeyEvent {
    pub key: Key,
    pub action: KeyAction,
}

} // verus!
