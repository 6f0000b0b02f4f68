//! What the host window system reports about the window.

use crate::input::{Axis, KeyState, MouseButton, MouseButtonState};
use crate::number::{Double, Single};
use vstd::prelude::*;
use vstd::std_specs::convert::FromSpecImpl;

verus! {

/// The window system that the window belongs to.
#[derive(Debug, Clone, Copy, PartialEq, Eq, Hash, Structural)]
pub enum WindowSystem {
    /// A Wayland compositor.
    Wayland,
    /// An X11 server.
    X11,
}

/// Whether a key or a button went down or up.
#[derive(Debug, Clone, Copy, PartialEq, Eq, Hash, Structural)]
pub enum ElementState {
    /// It went down.
    Pressed,
    /// It went up.
    Released,
}

/// A mouse button as the window system names it.
#[derive(Debug, Clone, Copy, PartialEq, Eq, Hash, Structural)]
pub enum WinitMouseButton {
    /// Left button.
    Left,
    /// Right button.
    Right,
    /// Middle button.
    Middle,
    /// Any other button, by its number.
    Other(u8),
}

/// How far the content is scrolled: a horizontal and a vertical amount.
#[derive(Debug, Clone, Copy)]
pub enum MouseScrollDelta {
    /// Amounts in lines.
    LineDelta(Single, Single),
    /// Amounts in pixels.
    PixelDelta(Double, Double),
}

impl MouseScrollDelta {
    /// Whether nothing is scrolled along an axis.
    pub open spec fn still(self, axis: Axis) -> bool {
        match (self, axis) {
            (MouseScrollDelta::LineDelta(x, _), Axis::Horizontal) => x.zero(),
            (MouseScrollDelta::LineDelta(_, y), Axis::Vertical) => y.zero(),
            (MouseScrollDelta::PixelDelta(x, _), Axis::Horizontal) => x.zero(),
            (MouseScrollDelta::PixelDelta(_, y), Axis::Vertical) => y.zero(),
        }
    }

    /// Whether `amount` is the amount along an axis, in double precision.
    pub open spec fn amounts_to(self, axis: Axis, amount: Double) -> bool {
        match (self, axis) {
            (MouseScrollDelta::LineDelta(x, _), Axis::Horizontal) => x.widens_to(amount),
            (MouseScrollDelta::LineDelta(_, y), Axis::Vertical) => y.widens_to(amount),
            (MouseScrollDelta::PixelDelta(x, _), Axis::Horizontal) => amount == x,
            (MouseScrollDelta::PixelDelta(_, y), Axis::Vertical) => amount == y,
        }
    }

    /// Whether two movements have the same unit and equal amounts.
    pub open spec fn same(self, other: MouseScrollDelta) -> bool {
        match (self, other) {
            (MouseScrollDelta::LineDelta(x, y), MouseScrollDelta::LineDelta(u, v)) => x.same(u) && y.same(v),
            (MouseScrollDelta::PixelDelta(x, y), MouseScrollDelta::PixelDelta(u, v)) => x.same(u) && y.same(v),
            _ => false,
        }
    }

    /// Whether nothing is scrolled along an axis.
    pub fn is_still(&self, axis: Axis) -> (r: bool)
        ensures
            r == self.still(axis),
    {
        match (*self, axis) {
            (MouseScrollDelta::LineDelta(x, _), Axis::Horizontal) => x.is_zero(),
            (MouseScrollDelta::LineDelta(_, y), Axis::Vertical) => y.is_zero(),
            (MouseScrollDelta::PixelDelta(x, _), Axis::Horizontal) => x.is_zero(),
            (MouseScrollDelta::PixelDelta(_, y), Axis::Vertical) => y.is_zero(),
        }
    }
}

impl PartialEq for MouseScrollDelta {
    fn eq(&self, other: &MouseScrollDelta) -> (r: bool) {
        match (self, other) {
            (MouseScrollDelta::LineDelta(x, y), MouseScrollDelta::LineDelta(u, v)) => *x == *u && *y == *v,
            (MouseScrollDelta::PixelDelta(x, y), MouseScrollDelta::PixelDelta(u, v)) => *x == *u && *y == *v,
            _ => false,
        }
    }
}

impl vstd::std_specs::cmp::PartialEqSpecImpl for MouseScrollDelta {
    open spec fn obeys_eq_spec() -> bool {
        true
    }

    open spec fn eq_spec(&self, other: &MouseScrollDelta) -> bool {
        self.same(*other)
    }
}

/// Where a touch is in its life.
#[derive(Debug, Clone, Copy, PartialEq, Eq, Hash, Structural)]
pub enum TouchPhase {
    /// The finger came down.
    Started,
    /// The finger moved.
    Moved,
    /// The finger was lifted.
    Ended,
    /// The touch was taken away by the window system.
    Cancelled,
}

/// A report on one touch point.
#[derive(Debug, Clone, Copy)]
pub struct Touch {
    /// What happened to the touch point.
    pub phase: TouchPhase,
    /// Where it is, in the window.
    pub location: (Double, Double),
    /// The number of the touch point.
    pub id: u64,
}

/// Something that happened to the window.
#[derive(Debug, Clone, Copy)]
pub enum WindowEvent {
    /// The window has a new width and height.
    Resized(u32, u32),
    /// A key went down or up.
    KeyboardInput {
        /// The number of the key.
        scancode: u32,
        /// Whether it went down or up.
        state: ElementState,
    },
    /// The pointer moved.
    CursorMoved {
        /// Where it is, in the window.
        position: (Double, Double),
    },
    /// The content was scrolled.
    MouseWheel {
        /// How far.
        delta: MouseScrollDelta,
    },
    /// A mouse button went down or up.
    MouseInput {
        /// Whether it went down or up.
        state: ElementState,
        /// Which button.
        button: WinitMouseButton,
    },
    /// A touch point changed.
    Touch(Touch),
    /// The window was closed.
    Closed,
    /// Anything else that a window reports.
    Other,
}

/// Something that the event loop reports.
#[derive(Debug, Clone, Copy)]
pub enum Event {
    /// An event of the window.
    WindowEvent(WindowEvent),
    /// An event that concerns no window.
    Other,
}

impl From<WinitMouseButton> for MouseButton {
    fn from(button: WinitMouseButton) -> (r: MouseButton) {
        match button {
            WinitMouseButton::Left => MouseButton::Left,
            WinitMouseButton::Right => MouseButton::Right,
            WinitMouseButton::Middle => MouseButton::Middle,
            WinitMouseButton::Other(number) => MouseButton::Other(number),
        }
    }
}

/// Each button is handed on as the button of the same name.
impl FromSpecImpl<WinitMouseButton> for MouseButton {
    open spec fn obeys_from_spec() -> bool {
        true
    }

    open spec fn from_spec(button: WinitMouseButton) -> MouseButton {
        match button {
            WinitMouseButton::Left => MouseButton::Left,
            WinitMouseButton::Right => MouseButton::Right,
            WinitMouseButton::Middle => MouseButton::Middle,
            WinitMouseButton::Other(number) => MouseButton::Other(number),
        }
    }
}

impl From<ElementState> for KeyState {
    fn from(state: ElementState) -> (r: KeyState) {
        match state {
            ElementState::Pressed => KeyState::Pressed,
            ElementState::Released => KeyState::Released,
        }
    }
}

/// A key that went down is pressed, one that went up is released.
impl FromSpecImpl<ElementState> for KeyState {
    open spec fn obeys_from_spec() -> bool {
        true
    }

    open spec fn from_spec(state: ElementState) -> KeyState {
        if state is Pressed {
            KeyState::Pressed
        } else {
            KeyState::Released
        }
    }
}

impl From<ElementState> for MouseButtonState {
    fn from(state: ElementState) -> (r: MouseButtonState) {
        match state {
            ElementState::Pressed => MouseButtonState::Pressed,
            ElementState::Released => MouseButtonState::Released,
        }
    }
}

/// A button that went down is pressed, one that went up is released.
impl FromSpecImpl<ElementState> for MouseButtonState {
    open spec fn obeys_from_spec() -> bool {
        true
    }

    open spec fn from_spec(state: ElementState) -> MouseButtonState {
        if state is Pressed {
            MouseButtonState::Pressed
        } else {
            MouseButtonState::Released
        }
    }
}

} // verus!
