//! What a compositor is told about input devices.

use vstd::prelude::*;

verus! {

/// State of a key on a keyboard.
#[derive(Debug, Clone, Copy, PartialEq, Eq, Hash, Structural)]
pub enum KeyState {
    /// The key is up.
    Released,
    /// The key is down.
    Pressed,
}

/// A button of a mouse.
#[derive(Debug, Clone, Copy, PartialEq, Eq, Hash, Structural)]
pub enum MouseButton {
    /// Left button.
    Left,
    /// Middle button.
    Middle,
    /// Right button.
    Right,
    /// Any other button, by its number.
    Other(u8),
}

/// State of a button of a mouse.
#[derive(Debug, Clone, Copy, PartialEq, Eq, Hash, Structural)]
pub enum MouseButtonState {
    /// The button is up.
    Released,
    /// The button is down.
    Pressed,
}

/// Direction of a scroll movement.
#[derive(Debug, Clone, Copy, PartialEq, Eq, Hash, Structural)]
pub enum Axis {
    /// Up and down.
    Vertical,
    /// Left and right.
    Horizontal,
}

/// Origin of a scroll movement.
#[derive(Debug, Clone, Copy, PartialEq, Eq, Hash, Structural)]
pub enum AxisSource {
    /// A device that scrolls continuously, in pixels.
    Continuous,
    /// A wheel that scrolls by lines.
    Wheel,
}

/// Tells the touch points of one device apart.
#[derive(Debug, Clone, Copy, PartialEq, Eq, Hash, Structural)]
pub struct TouchSlot {
    /// The number of the touch point.
    pub id: u64,
}

impl TouchSlot {
    /// The slot of the touch point with this number.
    pub fn new(id: u64) -> (r: TouchSlot)
        ensures
            r == (TouchSlot { id }),
    {
        TouchSlot { id }
    }
}

/// The kinds of input that a seat has.
#[derive(Debug, Clone, Copy, PartialEq, Eq, Hash, Structural)]
pub struct SeatCapabilities {
    /// The seat has a pointer.
    pub pointer: bool,
    /// The seat has a keyboard.
    pub keyboard: bool,
    /// The seat has a touch screen.
    pub touch: bool,
}

/// A group of input devices that one person uses.
#[derive(Debug, Clone, Copy, PartialEq, Eq, Hash, Structural)]
pub struct Seat {
    /// The number of the seat.
    pub id: u64,
    /// What the seat can do.
    pub capabilities: SeatCapabilities,
}

impl Seat {
    /// The seat with this number and these capabilities.
    pub fn new(id: u64, capabilities: SeatCapabilities) -> (r: Seat)
        ensures
            r == (Seat { id, capabilities }),
    {
        Seat { id, capabilities }
    }
}

} // verus!
