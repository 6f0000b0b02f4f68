//! The event loop of a window as an input backend.
//!
//! The backend keeps a clock, a count of pressed keys and the compositor's handler.  For every
//! event of the window it says which calls the handler is owed and what has to be done to the
//! window.

use crate::error::WinitInputError;
use crate::events::{
    WinitKeyboardInputEvent, WinitMouseInputEvent, WinitMouseMovedEvent, WinitMouseWheelEvent,
    WinitTouchCancelledEvent, WinitTouchEndedEvent, WinitTouchMovedEvent, WinitTouchStartedEvent,
};
use crate::input::{Axis, Seat, SeatCapabilities};
use crate::number::{signed, to_signed};
use crate::window::{ElementState, Event, MouseScrollDelta, TouchPhase, WindowEvent, WindowSystem};
use vstd::prelude::*;

verus! {

/// One call of the compositor's handler: the variant names the call, its content is the event
/// that is handed over.
#[derive(Debug, Clone, Copy)]
pub enum InputEvent {
    /// A key went down or up.
    KeyboardKey(WinitKeyboardInputEvent),
    /// The pointer moved.
    PointerMoveAbsolute(WinitMouseMovedEvent),
    /// The content was scrolled along one axis.
    PointerAxis(WinitMouseWheelEvent),
    /// A mouse button went down or up.
    PointerButton(WinitMouseInputEvent),
    /// A finger came down.
    TouchDown(WinitTouchStartedEvent),
    /// A finger moved.
    TouchMotion(WinitTouchMovedEvent),
    /// A finger was lifted.
    TouchUp(WinitTouchEndedEvent),
    /// A touch was taken away.
    TouchCancel(WinitTouchCancelledEvent),
}

impl InputEvent {
    /// The time stamp of the event.
    pub open spec fn time(self) -> u32 {
        match self {
            InputEvent::KeyboardKey(event) => event.time,
            InputEvent::PointerMoveAbsolute(event) => event.time,
            InputEvent::PointerAxis(event) => event.time,
            InputEvent::PointerButton(event) => event.time,
            InputEvent::TouchDown(event) => event.time,
            InputEvent::TouchMotion(event) => event.time,
            InputEvent::TouchUp(event) => event.time,
            InputEvent::TouchCancel(event) => event.time,
        }
    }
}

/// Something that an event of the window makes necessary.
#[derive(Debug, Clone, Copy)]
pub enum Action {
    /// Give the window this inner width and height.
    SetInnerSize(u32, u32),
    /// Give the surface that is drawn on this size, and move its upper left corner.
    ResizeSurface {
        /// The width.
        width: i32,
        /// The height.
        height: i32,
        /// How far the corner moves to the right.
        dx: i32,
        /// How far the corner moves down.
        dy: i32,
    },
    /// Call the handler.
    Notify {
        /// The seat that the call names.
        seat: Seat,
        /// The call.
        event: InputEvent,
    },
}

/// A call that a handler is owed because it comes into or goes out of use.
pub enum SeatCall<H> {
    /// Tell this handler, which is out of use, that the seat is gone.
    Destroyed {
        /// The handler.
        handler: H,
        /// The seat.
        seat: Seat,
    },
    /// Tell the handler in use that there is a seat.
    Created {
        /// The seat.
        seat: Seat,
    },
}

/// The number of keys that are down after a key went down or up, out of `keys` before.
pub open spec fn keys_after(keys: nat, state: ElementState) -> nat {
    match state {
        ElementState::Pressed => keys + 1,
        ElementState::Released => if keys == 0 {
            0
        } else {
            (keys - 1) as nat
        },
    }
}

/// The calls that a scroll movement leads to: one for each axis with an amount other than
/// zero, the horizontal one first.
pub open spec fn wheel_events(delta: MouseScrollDelta, time: u32) -> Seq<InputEvent> {
    let horizontal = InputEvent::PointerAxis(
        WinitMouseWheelEvent { axis: Axis::Horizontal, time, delta },
    );
    let vertical = InputEvent::PointerAxis(WinitMouseWheelEvent { axis: Axis::Vertical, time, delta });
    (if delta.still(Axis::Horizontal) {
        seq![]
    } else {
        seq![horizontal]
    }) + (if delta.still(Axis::Vertical) {
        seq![]
    } else {
        seq![vertical]
    })
}

/// The calls that an event of the window leads to at the given time, where `keys` keys were down
/// before it.  A lifted finger is reported at its last position first.
pub open spec fn input_events(event: WindowEvent, time: u32, keys: nat) -> Seq<InputEvent> {
    match event {
        WindowEvent::KeyboardInput { scancode, state } => {
            let count = keys_after(keys, state) as u32;
            seq![InputEvent::KeyboardKey(WinitKeyboardInputEvent { time, key: scancode, count, state })]
        },
        WindowEvent::CursorMoved { position } => seq![
            InputEvent::PointerMoveAbsolute(
                WinitMouseMovedEvent { time, x: position.0, y: position.1 },
            ),
        ],
        WindowEvent::MouseWheel { delta } => wheel_events(delta, time),
        WindowEvent::MouseInput { state, button } => seq![
            InputEvent::PointerButton(WinitMouseInputEvent { time, button, state }),
        ],
        WindowEvent::Touch(touch) => {
            let (location, id) = (touch.location, touch.id);
            let moved = InputEvent::TouchMotion(WinitTouchMovedEvent { time, location, id });
            match touch.phase {
                TouchPhase::Started => seq![
                    InputEvent::TouchDown(WinitTouchStartedEvent { time, location, id }),
                ],
                TouchPhase::Moved => seq![moved],
                TouchPhase::Ended => seq![
                    moved,
                    InputEvent::TouchUp(WinitTouchEndedEvent { time, id }),
                ],
                TouchPhase::Cancelled => seq![
                    InputEvent::TouchCancel(WinitTouchCancelledEvent { time, id }),
                ],
            }
        },
        WindowEvent::Resized(_, _) | WindowEvent::Closed | WindowEvent::Other => seq![],
    }
}

/// What has to be done to the window because of one of its events: a new size is confirmed, and
/// on Wayland handed on to the surface, whose sizes have a sign.
pub open spec fn window_requests(event: WindowEvent, system: WindowSystem) -> Seq<Action> {
    match event {
        WindowEvent::Resized(width, height) => {
            let surface = Action::ResizeSurface {
                width: signed(width) as i32,
                height: signed(height) as i32,
                dx: 0,
                dy: 0,
            };
            seq![Action::SetInnerSize(width, height)] + (match system {
                WindowSystem::Wayland => seq![surface],
                WindowSystem::X11 => seq![],
            })
        },
        _ => seq![],
    }
}

/// Whether an event says that the window was closed.
pub open spec fn closing(event: Event) -> bool {
    event == Event::WindowEvent(WindowEvent::Closed)
}

/// Whether one of the events says that the window was closed.
pub open spec fn any_closing(events: Seq<Event>) -> bool {
    exists|i: int| 0 <= i < events.len() && closing(#[trigger] events[i])
}

/// How many of the events are events of the window.
pub open spec fn window_event_count(events: Seq<Event>) -> nat
    decreases events.len(),
{
    if events.len() == 0 {
        0
    } else {
        window_event_count(events.drop_last()) + if events.last() is WindowEvent {
            1nat
        } else {
            0nat
        }
    }
}

/// What a backend knows.
pub ghost struct BackendState<H> {
    /// The window system.
    pub system: WindowSystem,
    /// The number of window events so far, which serves as the clock.
    pub time: nat,
    /// The number of keys that are down.
    pub keys: nat,
    /// The one seat.
    pub seat: Seat,
    /// The compositor's handler.
    pub handler: Option<H>,
}

impl<H> BackendState<H> {
    /// Every key that is down went down with an event of its own, and the clock fits its type.
    pub open spec fn wf(self) -> bool {
        self.keys <= self.time <= u32::MAX
    }

    /// The state after an event.  Only events of the window count, and only keys that a handler
    /// is told about.
    pub open spec fn after(self, event: Event) -> BackendState<H> {
        match event {
            Event::WindowEvent(event) => BackendState {
                time: self.time + 1,
                keys: match event {
                    WindowEvent::KeyboardInput { state, .. } if self.handler is Some => keys_after(
                        self.keys,
                        state,
                    ),
                    _ => self.keys,
                },
                ..self
            },
            Event::Other => self,
        }
    }

    /// The calls of the handler that an event leads to.
    pub open spec fn calls(self, event: Event) -> Seq<InputEvent> {
        match event {
            Event::WindowEvent(event) if self.handler is Some => input_events(
                event,
                self.time as u32,
                self.keys,
            ),
            _ => seq![],
        }
    }

    /// What an event of the event loop makes necessary.
    pub open spec fn actions(self, event: Event) -> Seq<Action> {
        let requests = match event {
            Event::WindowEvent(event) => window_requests(event, self.system),
            Event::Other => seq![],
        };
        requests + self.calls(event).map_values(
            |call: InputEvent| Action::Notify { seat: self.seat, event: call },
        )
    }

    /// The state after a number of events.
    pub open spec fn after_all(self, events: Seq<Event>) -> BackendState<H>
        decreases events.len(),
    {
        if events.len() == 0 {
            self
        } else {
            self.after_all(events.drop_last()).after(events.last())
        }
    }

    /// What a number of events make necessary, in order.
    pub open spec fn actions_all(self, events: Seq<Event>) -> Seq<Action>
        decreases events.len(),
    {
        if events.len() == 0 {
            seq![]
        } else {
            self.actions_all(events.drop_last()) + self.after_all(events.drop_last()).actions(
                events.last(),
            )
        }
    }

    /// The call that the handler is owed when it goes out of use.
    pub open spec fn farewell(self) -> Seq<SeatCall<H>> {
        match self.handler {
            Some(handler) => seq![SeatCall::Destroyed { handler, seat: self.seat }],
            None => seq![],
        }
    }

    /// The state after a handler was put into use.
    pub open spec fn installed(self, handler: H) -> BackendState<H> {
        BackendState { handler: Some(handler), ..self }
    }

    /// The state after the handler was taken out of use.
    pub open spec fn cleared(self) -> BackendState<H> {
        BackendState { handler: None, ..self }
    }

    /// The calls that are owed when a handler is put into use: the one before learns that its
    /// seat is gone, and then the new one that there is a seat.
    pub open spec fn handover(self) -> Seq<SeatCall<H>> {
        self.farewell().push(SeatCall::Created { seat: self.seat })
    }
}

/// The outcome so far of asking the event loop for new events.
#[derive(Debug, Clone, Copy, PartialEq, Eq, Hash, Structural)]
pub struct Poll {
    /// Whether the window was closed.
    pub closed: bool,
}

impl Poll {
    /// The outcome before any event.
    pub fn new() -> (r: Poll)
        ensures
            !r.closed,
    {
        Poll { closed: false }
    }

    /// The outcome in the end: an error if the window was closed.
    pub fn finish(self) -> (r: Result<(), WinitInputError>)
        ensures
            self.closed ==> r == Err::<(), _>(WinitInputError::WindowClosed),
            !self.closed ==> r == Ok::<_, WinitInputError>(()),
    {
        if self.closed {
            Err(WinitInputError::WindowClosed)
        } else {
            Ok(())
        }
    }
}

/// The event loop of a window, as a source of input for a handler of type `H`.
pub struct WinitInputBackend<H> {
    system: WindowSystem,
    time_counter: u32,
    key_counter: u32,
    seat: Seat,
    handler: Option<H>,
}

impl<H> View for WinitInputBackend<H> {
    type V = BackendState<H>;

    closed spec fn view(&self) -> BackendState<H> {
        BackendState {
            system: self.system,
            time: self.time_counter as nat,
            keys: self.key_counter as nat,
            seat: self.seat,
            handler: self.handler,
        }
    }
}

impl<H> WinitInputBackend<H> {
    /// The state of the backend of a new window: the clock stands at zero, no key is down, there
    /// is no handler, and the seat with number zero can do everything.
    pub open spec fn initial(system: WindowSystem) -> BackendState<H> {
        BackendState {
            system,
            time: 0,
            keys: 0,
            seat: Seat {
                id: 0,
                capabilities: SeatCapabilities { pointer: true, keyboard: true, touch: true },
            },
            handler: None,
        }
    }

    /// The backend of a new window.
    pub fn new(system: WindowSystem) -> (r: WinitInputBackend<H>)
        ensures
            r@ == Self::initial(system),
            r@.system == system,
            r@.time == 0 && r@.keys == 0,
            r@.seat.id == 0,
            r@.seat.capabilities.pointer && r@.seat.capabilities.keyboard && r@.seat.capabilities.touch,
            r@.handler is None,
            r@.wf(),
    {
        WinitInputBackend {
            system,
            time_counter: 0,
            key_counter: 0,
            seat: Seat::new(0, SeatCapabilities { pointer: true, keyboard: true, touch: true }),
            handler: None,
        }
    }

    /// The clock: the number of window events so far.
    pub fn time_counter(&self) -> (r: u32)
        ensures
            r == self@.time,
    {
        self.time_counter
    }

    /// The number of keys that are down.
    pub fn key_counter(&self) -> (r: u32)
        ensures
            r == self@.keys,
    {
        self.key_counter
    }

    /// The one seat.
    pub fn seat(&self) -> (r: Seat)
        ensures
            r == self@.seat,
    {
        self.seat
    }

    /// Puts a handler into use, in place of the one before.  Returns the calls that are owed:
    /// the handler before, if any, learns that its seat is gone, and then the new one that there
    /// is a seat.
    pub fn set_handler(&mut self, handler: H) -> (calls: Vec<SeatCall<H>>)
        ensures
            final(self)@ == old(self)@.installed(handler),
            calls@ == old(self)@.handover(),
    {
        let mut calls: Vec<SeatCall<H>> = self.clear_handler();
        self.handler = Some(handler);
        calls.push(SeatCall::Created { seat: self.seat });
        calls
    }

    /// The handler in use.
    pub fn get_handler(&mut self) -> (r: Option<&mut H>)
        ensures
            match r {
                Some(handler) => {
                    &&& old(self)@.handler == Some(*handler)
                    &&& final(self)@ == old(self)@.installed(*final(handler))
                },
                None => old(self)@.handler is None && *final(self) == *old(self),
            },
    {
        match &mut self.handler {
            Some(handler) => Some(handler),
            None => None,
        }
    }

    /// Takes the handler out of use, if there is one.  Returns the call that it is owed: its
    /// seat is gone.
    pub fn clear_handler(&mut self) -> (calls: Vec<SeatCall<H>>)
        ensures
            final(self)@ == old(self)@.cleared(),
            calls@ == old(self)@.farewell(),
    {
        let mut calls: Vec<SeatCall<H>> = Vec::new();
        if let Some(handler) = self.handler.take() {
            calls.push(SeatCall::Destroyed { handler, seat: self.seat });
        }
        calls
    }

    /// Takes in one event of the event loop.  Returns what it makes necessary, in order.
    pub fn dispatch_event(&mut self, poll: &mut Poll, event: Event) -> (actions: Vec<Action>)
        requires
            old(self)@.wf(),
            event is WindowEvent ==> old(self)@.time < u32::MAX,
        ensures
            final(self)@ == old(self)@.after(event),
            final(self)@.wf(),
            actions@ == old(self)@.actions(event),
            final(poll).closed == (old(poll).closed || closing(event)),
            final(poll).closed == (old(poll).closed || event == Event::WindowEvent(WindowEvent::Closed)),
    {
        let mut actions: Vec<Action> = Vec::new();
        if let Event::WindowEvent(event) = event {
            let time: u32 = self.time_counter;
            let handled: bool = self.handler.is_some();
            match event {
                WindowEvent::Resized(width, height) => {
                    actions.push(Action::SetInnerSize(width, height));
                    match self.system {
                        WindowSystem::Wayland => {
                            actions.push(
                                Action::ResizeSurface {
                                    width: to_signed(width),
                                    height: to_signed(height),
                                    dx: 0,
                                    dy: 0,
                                },
                            );
                        },
                        WindowSystem::X11 => {},
                    }
                },
                WindowEvent::KeyboardInput { scancode, state } if handled => {
                    match state {
                        ElementState::Pressed => {
                            self.key_counter = self.key_counter + 1;
                        },
                        ElementState::Released => {
                            self.key_counter = self.key_counter.checked_sub(1).unwrap_or(0);
                        },
                    }
                    let count: u32 = self.key_counter;
                    let event = WinitKeyboardInputEvent { time, key: scancode, count, state };
                    self.notify(&mut actions, InputEvent::KeyboardKey(event));
                },
                WindowEvent::CursorMoved { position } if handled => {
                    let event = WinitMouseMovedEvent { time, x: position.0, y: position.1 };
                    self.notify(&mut actions, InputEvent::PointerMoveAbsolute(event));
                },
                WindowEvent::MouseWheel { delta } if handled => {
                    if !delta.is_still(Axis::Horizontal) {
                        let event = WinitMouseWheelEvent { axis: Axis::Horizontal, time, delta };
                        self.notify(&mut actions, InputEvent::PointerAxis(event));
                    }
                    if !delta.is_still(Axis::Vertical) {
                        let event = WinitMouseWheelEvent { axis: Axis::Vertical, time, delta };
                        self.notify(&mut actions, InputEvent::PointerAxis(event));
                    }
                },
                WindowEvent::MouseInput { state, button } if handled => {
                    let event = WinitMouseInputEvent { time, button, state };
                    self.notify(&mut actions, InputEvent::PointerButton(event));
                },
                WindowEvent::Touch(touch) if handled => {
                    let location = touch.location;
                    let id: u64 = touch.id;
                    match touch.phase {
                        TouchPhase::Started => {
                            let event = WinitTouchStartedEvent { time, location, id };
                            self.notify(&mut actions, InputEvent::TouchDown(event));
                        },
                        TouchPhase::Moved => {
                            let event = WinitTouchMovedEvent { time, location, id };
                            self.notify(&mut actions, InputEvent::TouchMotion(event));
                        },
                        TouchPhase::Ended => {
                            let moved = WinitTouchMovedEvent { time, location, id };
                            self.notify(&mut actions, InputEvent::TouchMotion(moved));
                            let event = WinitTouchEndedEvent { time, id };
                            self.notify(&mut actions, InputEvent::TouchUp(event));
                        },
                        TouchPhase::Cancelled => {
                            let event = WinitTouchCancelledEvent { time, id };
                            self.notify(&mut actions, InputEvent::TouchCancel(event));
                        },
                    }
                },
                WindowEvent::Closed => {
                    poll.closed = true;
                },
                _ => {},
            }
            self.time_counter = time + 1;
        }
        assert(actions@ =~= old(self)@.actions(event));
        actions
    }

    /// Adds a call of the handler.
    fn notify(&self, actions: &mut Vec<Action>, event: InputEvent)
        ensures
            final(actions)@ == old(actions)@.push(Action::Notify { seat: self@.seat, event }),
    {
        actions.push(Action::Notify { seat: self.seat, event });
    }

    /// Takes in all new events of the event loop.  Returns what they make necessary, in order,
    /// and an error if the window was closed.  Events that follow the closing are taken in all
    /// the same.
    pub fn dispatch_new_events(&mut self, events: &Vec<Event>) -> (r: (
        Vec<Action>,
        Result<(), WinitInputError>,
    ))
        requires
            old(self)@.wf(),
            old(self)@.time + window_event_count(events@) <= u32::MAX,
        ensures
            final(self)@ == old(self)@.after_all(events@),
            final(self)@.wf(),
            r.0@ == old(self)@.actions_all(events@),
            r.1 is Err <==> any_closing(events@),
            r.1 is Err <==> events@.contains(Event::WindowEvent(WindowEvent::Closed)),
            r.1 matches Err(error) ==> error == WinitInputError::WindowClosed,
    {
        let mut poll = Poll::new();
        let mut actions: Vec<Action> = Vec::new();
        let mut next: usize = 0;
        while next < events.len()
            invariant
                next <= events.len(),
                self@ == old(self)@.after_all(events@.take(next as int)),
                self@.wf(),
                self@.time == old(self)@.time + window_event_count(events@.take(next as int)),
                old(self)@.time + window_event_count(events@) <= u32::MAX,
                actions@ == old(self)@.actions_all(events@.take(next as int)),
                poll.closed == any_closing(events@.take(next as int)),
            decreases events.len() - next,
        {
            let ghost before = events@.take(next as int);
            let ghost with = events@.take(next + 1);
            let event = events[next];
            proof {
                assert(with.drop_last() =~= before);
                assert(with.last() == event);
                lemma_window_event_count_grows(events@, next + 1);
            }
            let mut more: Vec<Action> = self.dispatch_event(&mut poll, event);
            actions.append(&mut more);
            next = next + 1;
            proof {
                assert forall|i: int| 0 <= i < before.len() implies before[i] == #[trigger] with[i] by {}
                if any_closing(with) {
                    let i = choose|i: int| 0 <= i < with.len() && closing(#[trigger] with[i]);
                    if i < before.len() {
                        assert(closing(before[i]));
                    }
                }
                if any_closing(before) {
                    let i = choose|i: int| 0 <= i < before.len() && closing(#[trigger] before[i]);
                    assert(closing(with[i]));
                }
                if closing(event) {
                    assert(closing(with[next - 1]));
                }
            }
        }
        assert(events@.take(next as int) =~= events@);
        (actions, poll.finish())
    }
}

proof fn lemma_window_event_count_grows(events: Seq<Event>, n: int)
    requires
        0 <= n <= events.len(),
    ensures
        window_event_count(events.take(n)) <= window_event_count(events),
    decreases events.len() - n,
{
    if n < events.len() {
        lemma_window_event_count_grows(events, n + 1);
        assert(events.take(n + 1).drop_last() =~= events.take(n));
    } else {
        assert(events.take(n) =~= events);
    }
}

} // verus!
