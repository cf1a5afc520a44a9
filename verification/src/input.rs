//! The input events the camera controller consumes.
use vstd::prelude::*;
use crate::scalar::Scalar;

verus! {

/// A keyboard key, as far as the controller tells keys apart.
#[derive(Clone, Copy, PartialEq, Eq, Structural, Debug)]
pub enum Key {
    W,
    A,
    S,
    D,
    Up,
    Down,
    Left,
    Right,
    Space,
    LShift,
    /// Any key the controller has no use for.
    Other,
}

/// Whether a key went down or came up.
#[derive(Clone, Copy, PartialEq, Eq, Structural, Debug)]
pub enum KeyState {
    Pressed,
    Released,
}

/// One of the six ways the camera can be pushed.
#[derive(Clone, Copy, PartialEq, Eq, Structural, Debug)]
pub enum Direction {
    Forward,
    Backward,
    Left,
    Right,
    Up,
    Down,
}

/// The vertical part of a scroll event, in one of the two units a device
/// may report.
#[derive(Clone, Copy, PartialEq, Eq, Structural, Debug)]
pub enum ScrollDelta {
    /// Scrolled by this many lines.
    Line(Scalar),
    /// Scrolled by this many pixels.
    Pixel(Scalar),
}

impl Key {
    pub open spec fn spec_direction(self) -> Option<Direction> {
        match self {
            Key::W | Key::Up => Some(Direction::Forward),
            Key::S | Key::Down => Some(Direction::Backward),
            Key::A | Key::Left => Some(Direction::Left),
            Key::D | Key::Right => Some(Direction::Right),
            Key::Space => Some(Direction::Up),
            Key::LShift => Some(Direction::Down),
            Key::Other => None,
        }
    }

    /// The direction this key is bound to, if it is bound.
    #[verifier::when_used_as_spec(spec_direction)]
    pub fn direction(self) -> (r: Option<Direction>)
        ensures
            r == self.spec_direction(),
    {
        match self {
            Key::W | Key::Up => Some(Direction::Forward),
            Key::S | Key::Down => Some(Direction::Backward),
            Key::A | Key::Left => Some(Direction::Left),
            Key::D | Key::Right => Some(Direction::Right),
            Key::Space => Some(Direction::Up),
            Key::LShift => Some(Direction::Down),
            Key::Other => None,
        }
    }
}

impl KeyState {
    pub open spec fn spec_is_pressed(self) -> bool {
        self is Pressed
    }

    /// Whether the key went down.
    #[verifier::when_used_as_spec(spec_is_pressed)]
    pub fn is_pressed(self) -> (r: bool)
        ensures
            r == self.spec_is_pressed(),
    {
        match self {
            KeyState::Pressed => true,
            KeyState::Released => false,
        }
    }
}

} // verus!
