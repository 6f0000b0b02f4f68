//! The input events that a compositor's handler receives.

use crate::input::{Axis, AxisSource, KeyState, MouseButton, MouseButtonState, TouchSlot};
use crate::number::{clamped, signed, to_signed, to_unsigned, Double};
use crate::window::{ElementState, MouseScrollDelta, WinitMouseButton};
use vstd::math::abs;
use vstd::prelude::*;
use vstd::std_specs::convert::FromSpec;

verus! {

/// A key went down or up.
#[derive(Debug, Clone, Copy, PartialEq, Eq, Hash, Structural)]
pub struct WinitKeyboardInputEvent {
    /// When, on the clock of the backend.
    pub time: u32,
    /// The number of the key.
    pub key: u32,
    /// How many keys are down after this event.
    pub count: u32,
    /// Whether the key went down or up.
    pub state: ElementState,
}

impl WinitKeyboardInputEvent {
    /// When the key went down or up.
    pub fn time(&self) -> (r: u32)
        ensures
            r == self.time,
    {
        self.time
    }

    /// The number of the key.
    pub fn key_code(&self) -> (r: u32)
        ensures
            r == self.key,
    {
        self.key
    }

    /// Whether the key is down.
    pub fn state(&self) -> (r: KeyState)
        ensures
            r == KeyState::from_spec(self.state),
            r is Pressed <==> self.state is Pressed,
    {
        KeyState::from(self.state)
    }

    /// How many keys are down.
    pub fn count(&self) -> (r: u32)
        ensures
            r == self.count,
    {
        self.count
    }
}

/// The pointer moved to a position in the window.
#[derive(Debug, Clone, Copy)]
pub struct WinitMouseMovedEvent {
    /// When, on the clock of the backend.
    pub time: u32,
    /// Distance from the left edge of the window.
    pub x: Double,
    /// Distance from the top edge of the window.
    pub y: Double,
}

impl WinitMouseMovedEvent {
    /// When the pointer moved.
    pub fn time(&self) -> (r: u32)
        ensures
            r == self.time,
    {
        self.time
    }

    /// Distance from the left edge of the window.
    pub fn x(&self) -> (r: Double)
        ensures
            r == self.x,
    {
        self.x
    }

    /// Distance from the top edge of the window.
    pub fn y(&self) -> (r: Double)
        ensures
            r == self.y,
    {
        self.y
    }

    /// The horizontal position on a surface of the given width, but no more than zero.  The
    /// position is a number without sign, so the bound leaves zero alone, whatever the position
    /// and the size of the window.
    pub fn x_transformed(&self, _width: u32) -> (r: u32)
        ensures
            r == 0,
    {
        0
    }

    /// The vertical position on a surface of the given height, but no more than zero.  The
    /// position is a number without sign, so the bound leaves zero alone, whatever the position
    /// and the size of the window.
    pub fn y_transformed(&self, _height: u32) -> (r: u32)
        ensures
            r == 0,
    {
        0
    }
}

/// The content was scrolled along one axis.
#[derive(Debug, Clone, Copy)]
pub struct WinitMouseWheelEvent {
    /// The axis.
    pub axis: Axis,
    /// When, on the clock of the backend.
    pub time: u32,
    /// The whole movement, along both axes.
    pub delta: MouseScrollDelta,
}

impl WinitMouseWheelEvent {
    /// When the content was scrolled.
    pub fn time(&self) -> (r: u32)
        ensures
            r == self.time,
    {
        self.time
    }

    /// The axis.
    pub fn axis(&self) -> (r: Axis)
        ensures
            r == self.axis,
    {
        self.axis
    }

    /// A movement in lines comes from a wheel, one in pixels from a continuous device.
    pub fn source(&self) -> (r: AxisSource)
        ensures
            r is Wheel <==> self.delta is LineDelta,
            r is Continuous <==> self.delta is PixelDelta,
    {
        match self.delta {
            MouseScrollDelta::LineDelta(_, _) => AxisSource::Wheel,
            MouseScrollDelta::PixelDelta(_, _) => AxisSource::Continuous,
        }
    }

    /// The amount of the movement along the event's own axis, in double precision.
    pub fn amount(&self) -> (r: Double)
        ensures
            self.delta.amounts_to(self.axis, r),
            self.delta matches MouseScrollDelta::LineDelta(x, y) ==> if self.axis is Horizontal {
                x.widens_to(r)
            } else {
                y.widens_to(r)
            },
            self.delta matches MouseScrollDelta::PixelDelta(x, y) ==> if self.axis is Horizontal {
                r == x
            } else {
                r == y
            },
    {
        match (self.axis, self.delta) {
            (Axis::Horizontal, MouseScrollDelta::LineDelta(x, _)) => x.to_double(),
            (Axis::Horizontal, MouseScrollDelta::PixelDelta(x, _)) => x,
            (Axis::Vertical, MouseScrollDelta::LineDelta(_, y)) => y.to_double(),
            (Axis::Vertical, MouseScrollDelta::PixelDelta(_, y)) => y,
        }
    }
}

impl PartialEq for WinitMouseWheelEvent {
    fn eq(&self, other: &WinitMouseWheelEvent) -> (r: bool) {
        self.axis == other.axis && self.time == other.time && self.delta == other.delta
    }
}

/// Two events are equal when they agree in axis and time and their movements are equal.
impl vstd::std_specs::cmp::PartialEqSpecImpl for WinitMouseWheelEvent {
    open spec fn obeys_eq_spec() -> bool {
        true
    }

    open spec fn eq_spec(&self, other: &WinitMouseWheelEvent) -> bool {
        &&& self.axis == other.axis
        &&& self.time == other.time
        &&& self.delta.same(other.delta)
    }
}

/// A mouse button went down or up.
#[derive(Debug, Clone, Copy, PartialEq, Eq, Hash, Structural)]
pub struct WinitMouseInputEvent {
    /// When, on the clock of the backend.
    pub time: u32,
    /// The button.
    pub button: WinitMouseButton,
    /// Whether it went down or up.
    pub state: ElementState,
}

impl WinitMouseInputEvent {
    /// When the button went down or up.
    pub fn time(&self) -> (r: u32)
        ensures
            r == self.time,
    {
        self.time
    }

    /// The button.
    pub fn button(&self) -> (r: MouseButton)
        ensures
            r == MouseButton::from_spec(self.button),
            r is Left <==> self.button is Left,
            r is Right <==> self.button is Right,
            r is Middle <==> self.button is Middle,
            self.button matches WinitMouseButton::Other(number) ==> r == MouseButton::Other(number),
    {
        MouseButton::from(self.button)
    }

    /// Whether the button is down.
    pub fn state(&self) -> (r: MouseButtonState)
        ensures
            r == MouseButtonState::from_spec(self.state),
            r is Pressed <==> self.state is Pressed,
    {
        MouseButtonState::from(self.state)
    }
}

/// The width that positions are measured against: that of the window, or `width` where the
/// window has no size any more.
pub open spec fn inner_width(inner_size: Option<(u32, u32)>, width: u32) -> u32 {
    match inner_size {
        Some(size) => size.0,
        None => width,
    }
}

/// The height that positions are measured against: that of the window, or `height` where the
/// window has no size any more.
pub open spec fn inner_height(inner_size: Option<(u32, u32)>, height: u32) -> u32 {
    match inner_size {
        Some(size) => size.1,
        None => height,
    }
}

fn width_of(inner_size: Option<(u32, u32)>, width: u32) -> (r: u32)
    ensures
        r == inner_width(inner_size, width),
{
    inner_size.unwrap_or((width, 0)).0
}

fn height_of(inner_size: Option<(u32, u32)>, height: u32) -> (r: u32)
    ensures
        r == inner_height(inner_size, height),
{
    inner_size.unwrap_or((0, height)).1
}

/// The quotient without its fractional part, as machine division rounds it.
pub open spec fn quotient(dividend: int, divisor: int) -> int {
    let whole = (abs(dividend) / abs(divisor)) as int;
    if (dividend < 0) == (divisor < 0) {
        whole
    } else {
        -whole
    }
}

/// `position` as an `i32`, times `target`, the latter read with sign.
pub open spec fn product_signed(position: Double, target: u32) -> int {
    clamped(position.truncated(), i32::MIN as int, i32::MAX as int) * signed(target)
}

/// Whether `position` can be scaled from `extent` to `target` in 32 bits with sign: nothing
/// overflows and `extent` is not zero.
pub open spec fn scalable_signed(position: Double, target: u32, extent: u32) -> bool {
    &&& i32::MIN <= product_signed(position, target) <= i32::MAX
    &&& extent != 0
    &&& !(product_signed(position, target) == i32::MIN && signed(extent) == -1)
}

/// `position` scaled from `extent` to `target` with sign, but no more than zero, and then read
/// without sign.
pub open spec fn scaled_signed(position: Double, target: u32, extent: u32) -> int {
    let scaled = quotient(product_signed(position, target), signed(extent));
    if scaled < 0 {
        scaled + 0x1_0000_0000
    } else {
        0
    }
}

/// `position` as a `u32`, times `target`.
pub open spec fn product_unsigned(position: Double, target: u32) -> int {
    clamped(position.truncated(), 0, u32::MAX as int) * target
}

/// Whether `position` can be scaled from `extent` to `target` in 32 bits without sign: the
/// product does not overflow and `extent` is not zero.
pub open spec fn scalable_unsigned(position: Double, target: u32, extent: u32) -> bool {
    product_unsigned(position, target) <= u32::MAX && extent != 0
}

/// `position` scaled from `extent` to `target` without sign.
pub open spec fn scaled_unsigned(position: Double, target: u32, extent: u32) -> int {
    product_unsigned(position, target) / (extent as int)
}

proof fn lemma_quotient(dividend: int, divisor: int)
    requires
        divisor != 0,
    ensures
        quotient(dividend, divisor) == if dividend >= 0 {
            dividend / divisor
        } else {
            -((-dividend) / divisor)
        },
        abs(quotient(dividend, divisor)) <= abs(dividend),
        abs(divisor) >= 2 ==> 2 * abs(quotient(dividend, divisor)) <= abs(dividend),
{
    let a = abs(dividend) as int;
    let b = abs(divisor) as int;
    vstd::arithmetic::div_mod::lemma_div_is_ordered_by_denominator(a, 1, b);
    vstd::arithmetic::div_mod::lemma_div_pos_is_pos(a, b);
    if b >= 2 {
        vstd::arithmetic::div_mod::lemma_div_is_ordered_by_denominator(a, 2, b);
    }
    if divisor < 0 {
        assert(a / divisor == -(a / b)) by (nonlinear_arith)
            requires
                divisor < 0,
                b == -divisor,
                a >= 0,
        ;
    }
}

fn scale_signed(position: Double, target: u32, extent: u32) -> (r: u32)
    requires
        scalable_signed(position, target, extent),
    ensures
        r == scaled_signed(position, target, extent),
{
    let product: i32 = position.to_i32() * to_signed(target);
    let divisor: i32 = to_signed(extent);
    proof {
        lemma_quotient(product as int, divisor as int);
    }
    let scaled: i32 = product / divisor;
    to_unsigned(if scaled < 0 { scaled } else { 0 })
}

fn scale_unsigned(position: Double, target: u32, extent: u32) -> (r: u32)
    requires
        scalable_unsigned(position, target, extent),
    ensures
        r == scaled_unsigned(position, target, extent),
{
    position.to_u32() * target / extent
}

/// A finger came down.
#[derive(Debug, Clone, Copy)]
pub struct WinitTouchStartedEvent {
    /// When, on the clock of the backend.
    pub time: u32,
    /// Distances from the left and the top edge of the window.
    pub location: (Double, Double),
    /// The number of the touch point.
    pub id: u64,
}

impl WinitTouchStartedEvent {
    /// When it happened.
    pub fn time(&self) -> (r: u32)
        ensures
            r == self.time,
    {
        self.time
    }

    /// The slot of the touch point.
    pub fn slot(&self) -> (r: Option<TouchSlot>)
        ensures
            r == Some(TouchSlot { id: self.id }),
    {
        Some(TouchSlot::new(self.id))
    }

    /// Distance from the left edge of the window.
    pub fn x(&self) -> (r: Double)
        ensures
            r == self.location.0,
    {
        self.location.0
    }

    /// Distance from the top edge of the window.
    pub fn y(&self) -> (r: Double)
        ensures
            r == self.location.1,
    {
        self.location.1
    }

    /// The horizontal position on a surface of the given width, with sign but no more than zero,
    /// handed on without sign.  `inner_size` is the size of the window now.
    pub fn x_transformed(&self, width: u32, inner_size: Option<(u32, u32)>) -> (r: u32)
        requires
            scalable_signed(self.location.0, width, inner_width(inner_size, width)),
        ensures
            r == scaled_signed(self.location.0, width, inner_width(inner_size, width)),
    {
        scale_signed(self.location.0, width, width_of(inner_size, width))
    }

    /// The vertical position on a surface of the given height, with sign but no more than zero,
    /// handed on without sign.  `inner_size` is the size of the window now.
    pub fn y_transformed(&self, height: u32, inner_size: Option<(u32, u32)>) -> (r: u32)
        requires
            scalable_signed(self.location.1, height, inner_height(inner_size, height)),
        ensures
            r == scaled_signed(self.location.1, height, inner_height(inner_size, height)),
    {
        scale_signed(self.location.1, height, height_of(inner_size, height))
    }
}

/// A finger moved.
#[derive(Debug, Clone, Copy)]
pub struct WinitTouchMovedEvent {
    /// When, on the clock of the backend.
    pub time: u32,
    /// Distances from the left and the top edge of the window.
    pub location: (Double, Double),
    /// The number of the touch point.
    pub id: u64,
}

impl WinitTouchMovedEvent {
    /// When it happened.
    pub fn time(&self) -> (r: u32)
        ensures
            r == self.time,
    {
        self.time
    }

    /// The slot of the touch point.
    pub fn slot(&self) -> (r: Option<TouchSlot>)
        ensures
            r == Some(TouchSlot { id: self.id }),
    {
        Some(TouchSlot::new(self.id))
    }

    /// Distance from the left edge of the window.
    pub fn x(&self) -> (r: Double)
        ensures
            r == self.location.0,
    {
        self.location.0
    }

    /// Distance from the top edge of the window.
    pub fn y(&self) -> (r: Double)
        ensures
            r == self.location.1,
    {
        self.location.1
    }

    /// The horizontal position on a surface of the given width.  `inner_size` is the size of the
    /// window now.
    pub fn x_transformed(&self, width: u32, inner_size: Option<(u32, u32)>) -> (r: u32)
        requires
            scalable_unsigned(self.location.0, width, inner_width(inner_size, width)),
        ensures
            r == scaled_unsigned(self.location.0, width, inner_width(inner_size, width)),
    {
        scale_unsigned(self.location.0, width, width_of(inner_size, width))
    }

    /// The vertical position on a surface of the given height.  `inner_size` is the size of the
    /// window now.
    pub fn y_transformed(&self, height: u32, inner_size: Option<(u32, u32)>) -> (r: u32)
        requires
            scalable_unsigned(self.location.1, height, inner_height(inner_size, height)),
        ensures
            r == scaled_unsigned(self.location.1, height, inner_height(inner_size, height)),
    {
        scale_unsigned(self.location.1, height, height_of(inner_size, height))
    }
}

/// A finger was lifted.
#[derive(Debug, Clone, Copy, PartialEq, Eq, Hash, Structural)]
pub struct WinitTouchEndedEvent {
    /// When, on the clock of the backend.
    pub time: u32,
    /// The number of the touch point.
    pub id: u64,
}

impl WinitTouchEndedEvent {
    /// When it happened.
    pub fn time(&self) -> (r: u32)
        ensures
            r == self.time,
    {
        self.time
    }

    /// The slot of the touch point.
    pub fn slot(&self) -> (r: Option<TouchSlot>)
        ensures
            r == Some(TouchSlot { id: self.id }),
    {
        Some(TouchSlot::new(self.id))
    }
}

/// A touch was taken away by the window system.
#[derive(Debug, Clone, Copy, PartialEq, Eq, Hash, Structural)]
pub struct WinitTouchCancelledEvent {
    /// When, on the clock of the backend.
    pub time: u32,
    /// The number of the touch point.
    pub id: u64,
}

impl WinitTouchCancelledEvent {
    /// When it happened.
    pub fn time(&self) -> (r: u32)
        ensures
            r == self.time,
    {
        self.time
    }

    /// The slot of the touch point.
    pub fn slot(&self) -> (r: Option<TouchSlot>)
        ensures
            r == Some(TouchSlot { id: self.id }),
    {
        Some(TouchSlot::new(self.id))
    }
}

} // verus!
