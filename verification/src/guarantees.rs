//! What each event leads to, and what each number stands for, written out.
//!
//! The statements here speak of the parts of events, actions and numbers themselves.  Where an
//! event stands among others, what comes before and after it is left open: the statements hold
//! for every place in every list of events.

use crate::backend::{
    any_closing, closing, window_event_count, Action, BackendState, InputEvent, SeatCall, WinitInputBackend,
};
use crate::error::{Error, ErrorKind};
use crate::events::{
    inner_height, inner_width, scalable_signed, scalable_unsigned, scaled_signed,
    scaled_unsigned, WinitKeyboardInputEvent, WinitMouseInputEvent, WinitMouseMovedEvent,
    WinitMouseWheelEvent, WinitTouchCancelledEvent, WinitTouchEndedEvent, WinitTouchMovedEvent,
    WinitTouchStartedEvent,
};
use crate::init::{GlAttributes, InitEvent, InitRequest, InitStage};
use crate::input::{Axis, KeyState, MouseButton, MouseButtonState};
use crate::laws::{
    batches_compose, clock_counts_window_events, events_keep_handler_and_seat,
    value_determines_double, widening_is_unique,
};
use crate::number::{clamped, lemma_scale, signed, unsigned, Double, Single};
use crate::window::{
    ElementState, Event, MouseScrollDelta, Touch, TouchPhase, WindowEvent, WindowSystem,
    WinitMouseButton,
};
use vstd::arithmetic::power2::pow2;
use vstd::prelude::*;
use vstd::std_specs::cmp::PartialEqSpec;
use vstd::std_specs::convert::FromSpec;

verus! {

proof fn lemma_window_events(events: Seq<Event>)
    ensures
        window_event_count(events) == events.filter(|e: Event| e is WindowEvent).len(),
    decreases events.len(),
{
    reveal(Seq::filter);
    if events.len() > 0 {
        lemma_window_events(events.drop_last());
    }
}

/// The clock moves on by one for each event of the window, and stands still for all others.
pub proof fn clock_moves_with_window_events<H>(state: BackendState<H>, events: Seq<Event>)
    ensures
        state.after_all(events).time == state.time + events.filter(|e: Event| e is WindowEvent).len(),
        window_event_count(events) == events.filter(|e: Event| e is WindowEvent).len(),
{
    lemma_window_events(events);
    clock_counts_window_events(state, events);
}

/// Where an event stands among others, what it leads to comes between what the others lead to.
proof fn lemma_place<H>(state: BackendState<H>, before: Seq<Event>, event: Event, after: Seq<Event>)
    ensures
        state.actions_all(before.push(event) + after) == state.actions_all(before) + state.after_all(
            before,
        ).actions(event) + state.after_all(before.push(event)).actions_all(after),
        state.after_all(before.push(event)) == state.after_all(before).after(event),
        state.after_all(before).time == state.time + before.filter(|e: Event| e is WindowEvent).len(),
        state.after_all(before).handler == state.handler,
        state.after_all(before).seat == state.seat,
        state.after_all(before).system == state.system,
{
    clock_moves_with_window_events(state, before);
    events_keep_handler_and_seat(state, before);
    assert(before.push(event).drop_last() =~= before);
    batches_compose(state, before.push(event), after);
}

/// With a handler in use, a key that goes down or up leads to exactly one call, with the number and
/// the state of that key, the time, and the number of keys that are then down: one more after a
/// key that went down, one less, but not less than none, after a key that went up.
pub proof fn keys_are_reported<H>(
    state: BackendState<H>,
    before: Seq<Event>,
    scancode: u32,
    state_of_key: ElementState,
    after: Seq<Event>,
)
    requires
        state.handler is Some,
        state.keys <= state.time,
        state.time + before.filter(|e: Event| e is WindowEvent).len() < u32::MAX,
    ensures
        ({
            let event = Event::WindowEvent(WindowEvent::KeyboardInput { scancode, state: state_of_key });
            let clock = state.time + before.filter(|e: Event| e is WindowEvent).len();
            let time = clock as u32;
            let seat = state.seat;
            let actions: Seq<Action> = seq![
                Action::Notify {
                    seat,
                    event: InputEvent::KeyboardKey(
                        WinitKeyboardInputEvent {
                            time,
                            key: scancode,
                            count: state.after_all(before.push(event)).keys as u32,
                            state: state_of_key,
                        },
                    ),
                },
            ];
            &&& state.actions_all(before.push(event) + after) == state.actions_all(before) + actions
                + state.after_all(before.push(event)).actions_all(after)
            &&& state_of_key is Pressed ==> state.after_all(before.push(event)).keys == state.after_all(
                before,
            ).keys + 1
            &&& state_of_key is Released && state.after_all(before).keys > 0 ==> state.after_all(
                before.push(event),
            ).keys == state.after_all(before).keys - 1
            &&& state_of_key is Released && state.after_all(before).keys == 0 ==> state.after_all(
                before.push(event),
            ).keys == 0
            &&& state.after_all(before.push(event)).keys <= u32::MAX
        }),
{
    let event = Event::WindowEvent(WindowEvent::KeyboardInput { scancode, state: state_of_key });
    lemma_place(state, before, event, after);
    crate::laws::keys_never_exceed_clock(state, before.push(event));
}

/// With a handler in use, a move of the pointer leads to exactly one call, with the horizontal and
/// the vertical position of that move and the time.
pub proof fn pointer_moves_are_reported<H>(
    state: BackendState<H>,
    before: Seq<Event>,
    x: Double,
    y: Double,
    after: Seq<Event>,
)
    requires
        state.handler is Some,
        state.time + before.filter(|e: Event| e is WindowEvent).len() <= u32::MAX,
    ensures
        ({
            let event = Event::WindowEvent(WindowEvent::CursorMoved { position: (x, y) });
            let clock = state.time + before.filter(|e: Event| e is WindowEvent).len();
            let time = clock as u32;
            let seat = state.seat;
            let actions: Seq<Action> = seq![
                Action::Notify {
                    seat,
                    event: InputEvent::PointerMoveAbsolute(
                        WinitMouseMovedEvent { time, x, y },
                    ),
                },
            ];
            &&& state.actions_all(before.push(event) + after) == state.actions_all(before) + actions
                + state.after_all(before.push(event)).actions_all(after)
        }),
{
    let event = Event::WindowEvent(WindowEvent::CursorMoved { position: (x, y) });
    lemma_place(state, before, event, after);
}

/// With a handler in use, a mouse button that goes down or up leads to exactly one call, with that
/// button, that state and the time.
pub proof fn buttons_are_reported<H>(
    state: BackendState<H>,
    before: Seq<Event>,
    state_of_button: ElementState,
    button: WinitMouseButton,
    after: Seq<Event>,
)
    requires
        state.handler is Some,
        state.time + before.filter(|e: Event| e is WindowEvent).len() <= u32::MAX,
    ensures
        ({
            let event = Event::WindowEvent(WindowEvent::MouseInput { state: state_of_button, button });
            let clock = state.time + before.filter(|e: Event| e is WindowEvent).len();
            let time = clock as u32;
            let seat = state.seat;
            let actions: Seq<Action> = seq![
                Action::Notify {
                    seat,
                    event: InputEvent::PointerButton(
                        WinitMouseInputEvent { time, button, state: state_of_button },
                    ),
                },
            ];
            &&& state.actions_all(before.push(event) + after) == state.actions_all(before) + actions
                + state.after_all(before.push(event)).actions_all(after)
        }),
{
    let event = Event::WindowEvent(WindowEvent::MouseInput { state: state_of_button, button });
    lemma_place(state, before, event, after);
}

/// With a handler in use, a finger that comes down leads to exactly one call, a touch down, with
/// its horizontal and vertical position, its number and the time.
pub proof fn started_touches_are_reported<H>(
    state: BackendState<H>,
    before: Seq<Event>,
    x: Double,
    y: Double,
    id: u64,
    after: Seq<Event>,
)
    requires
        state.handler is Some,
        state.time + before.filter(|e: Event| e is WindowEvent).len() <= u32::MAX,
    ensures
        ({
            let event = Event::WindowEvent(
                WindowEvent::Touch(Touch { phase: TouchPhase::Started, location: (x, y), id }),
            );
            let clock = state.time + before.filter(|e: Event| e is WindowEvent).len();
            let time = clock as u32;
            let seat = state.seat;
            let actions: Seq<Action> = seq![
                Action::Notify {
                    seat,
                    event: InputEvent::TouchDown(
                        WinitTouchStartedEvent { time, location: (x, y), id },
                    ),
                },
            ];
            &&& state.actions_all(before.push(event) + after) == state.actions_all(before) + actions
                + state.after_all(before.push(event)).actions_all(after)
        }),
{
    let event = Event::WindowEvent(
        WindowEvent::Touch(Touch { phase: TouchPhase::Started, location: (x, y), id }),
    );
    lemma_place(state, before, event, after);
}

/// With a handler in use, a finger that moves leads to exactly one call, a touch motion, with its
/// horizontal and vertical position, its number and the time.
pub proof fn moved_touches_are_reported<H>(
    state: BackendState<H>,
    before: Seq<Event>,
    x: Double,
    y: Double,
    id: u64,
    after: Seq<Event>,
)
    requires
        state.handler is Some,
        state.time + before.filter(|e: Event| e is WindowEvent).len() <= u32::MAX,
    ensures
        ({
            let event = Event::WindowEvent(
                WindowEvent::Touch(Touch { phase: TouchPhase::Moved, location: (x, y), id }),
            );
            let clock = state.time + before.filter(|e: Event| e is WindowEvent).len();
            let time = clock as u32;
            let seat = state.seat;
            let actions: Seq<Action> = seq![
                Action::Notify {
                    seat,
                    event: InputEvent::TouchMotion(
                        WinitTouchMovedEvent { time, location: (x, y), id },
                    ),
                },
            ];
            &&& state.actions_all(before.push(event) + after) == state.actions_all(before) + actions
                + state.after_all(before.push(event)).actions_all(after)
        }),
{
    let event = Event::WindowEvent(
        WindowEvent::Touch(Touch { phase: TouchPhase::Moved, location: (x, y), id }),
    );
    lemma_place(state, before, event, after);
}

/// With a handler in use, a finger that is lifted leads to exactly two calls, a touch motion with
/// its horizontal and vertical position, and then a touch up, both with its number and the time.
pub proof fn ended_touches_are_reported<H>(
    state: BackendState<H>,
    before: Seq<Event>,
    x: Double,
    y: Double,
    id: u64,
    after: Seq<Event>,
)
    requires
        state.handler is Some,
        state.time + before.filter(|e: Event| e is WindowEvent).len() <= u32::MAX,
    ensures
        ({
            let event = Event::WindowEvent(
                WindowEvent::Touch(Touch { phase: TouchPhase::Ended, location: (x, y), id }),
            );
            let clock = state.time + before.filter(|e: Event| e is WindowEvent).len();
            let time = clock as u32;
            let seat = state.seat;
            let actions: Seq<Action> = seq![
                Action::Notify {
                    seat,
                    event: InputEvent::TouchMotion(
                        WinitTouchMovedEvent { time, location: (x, y), id },
                    ),
                },
                Action::Notify {
                    seat,
                    event: InputEvent::TouchUp(
                        WinitTouchEndedEvent { time, id },
                    ),
                },
            ];
            &&& state.actions_all(before.push(event) + after) == state.actions_all(before) + actions
                + state.after_all(before.push(event)).actions_all(after)
        }),
{
    let event = Event::WindowEvent(
        WindowEvent::Touch(Touch { phase: TouchPhase::Ended, location: (x, y), id }),
    );
    lemma_place(state, before, event, after);
}

/// With a handler in use, a touch that is taken away leads to exactly one call, a touch cancel, with
/// its number and the time.
pub proof fn cancelled_touches_are_reported<H>(
    state: BackendState<H>,
    before: Seq<Event>,
    x: Double,
    y: Double,
    id: u64,
    after: Seq<Event>,
)
    requires
        state.handler is Some,
        state.time + before.filter(|e: Event| e is WindowEvent).len() <= u32::MAX,
    ensures
        ({
            let event = Event::WindowEvent(
                WindowEvent::Touch(Touch { phase: TouchPhase::Cancelled, location: (x, y), id }),
            );
            let clock = state.time + before.filter(|e: Event| e is WindowEvent).len();
            let time = clock as u32;
            let seat = state.seat;
            let actions: Seq<Action> = seq![
                Action::Notify {
                    seat,
                    event: InputEvent::TouchCancel(
                        WinitTouchCancelledEvent { time, id },
                    ),
                },
            ];
            &&& state.actions_all(before.push(event) + after) == state.actions_all(before) + actions
                + state.after_all(before.push(event)).actions_all(after)
        }),
{
    let event = Event::WindowEvent(
        WindowEvent::Touch(Touch { phase: TouchPhase::Cancelled, location: (x, y), id }),
    );
    lemma_place(state, before, event, after);
}

/// With a handler in use, a scroll movement in lines leads to a call along the horizontal axis if and
/// only if its horizontal amount is not zero (bits other than the sign bit are set), whatever the
/// vertical one is, and then to one along the vertical axis if and only if its vertical amount is
/// not zero, whatever the horizontal one is.  Each has the whole movement and the time.
pub proof fn scrolled_lines_are_reported<H>(
    state: BackendState<H>,
    before: Seq<Event>,
    x: Single,
    y: Single,
    after: Seq<Event>,
)
    requires
        state.handler is Some,
        state.time + before.filter(|e: Event| e is WindowEvent).len() <= u32::MAX,
    ensures
        ({
            let event = Event::WindowEvent(
                WindowEvent::MouseWheel { delta: MouseScrollDelta::LineDelta(x, y) },
            );
            let clock = state.time + before.filter(|e: Event| e is WindowEvent).len();
            let time = clock as u32;
            let seat = state.seat;
            let actions: Seq<Action> = (if x.bits % 0x8000_0000 != 0 {
                seq![
                    Action::Notify {
                        seat,
                        event: InputEvent::PointerAxis(
                            WinitMouseWheelEvent {
                                axis: Axis::Horizontal,
                                time,
                                delta: MouseScrollDelta::LineDelta(x, y),
                            },
                        ),
                    },
                ]
            } else {
                seq![]
            }) + (if y.bits % 0x8000_0000 != 0 {
                seq![
                    Action::Notify {
                        seat,
                        event: InputEvent::PointerAxis(
                            WinitMouseWheelEvent {
                                axis: Axis::Vertical,
                                time,
                                delta: MouseScrollDelta::LineDelta(x, y),
                            },
                        ),
                    },
                ]
            } else {
                seq![]
            });
            &&& state.actions_all(before.push(event) + after) == state.actions_all(before) + actions
                + state.after_all(before.push(event)).actions_all(after)
        }),
{
    let event = Event::WindowEvent(
        WindowEvent::MouseWheel { delta: MouseScrollDelta::LineDelta(x, y) },
    );
    lemma_place(state, before, event, after);
}

/// With a handler in use, a scroll movement in pixels leads to a call along the horizontal axis if and
/// only if its horizontal amount is not zero (bits other than the sign bit are set), whatever the
/// vertical one is, and then to one along the vertical axis if and only if its vertical amount is
/// not zero, whatever the horizontal one is.  Each has the whole movement and the time.
pub proof fn scrolled_pixels_are_reported<H>(
    state: BackendState<H>,
    before: Seq<Event>,
    x: Double,
    y: Double,
    after: Seq<Event>,
)
    requires
        state.handler is Some,
        state.time + before.filter(|e: Event| e is WindowEvent).len() <= u32::MAX,
    ensures
        ({
            let event = Event::WindowEvent(
                WindowEvent::MouseWheel { delta: MouseScrollDelta::PixelDelta(x, y) },
            );
            let clock = state.time + before.filter(|e: Event| e is WindowEvent).len();
            let time = clock as u32;
            let seat = state.seat;
            let actions: Seq<Action> = (if x.bits % 0x8000_0000_0000_0000 != 0 {
                seq![
                    Action::Notify {
                        seat,
                        event: InputEvent::PointerAxis(
                            WinitMouseWheelEvent {
                                axis: Axis::Horizontal,
                                time,
                                delta: MouseScrollDelta::PixelDelta(x, y),
                            },
                        ),
                    },
                ]
            } else {
                seq![]
            }) + (if y.bits % 0x8000_0000_0000_0000 != 0 {
                seq![
                    Action::Notify {
                        seat,
                        event: InputEvent::PointerAxis(
                            WinitMouseWheelEvent {
                                axis: Axis::Vertical,
                                time,
                                delta: MouseScrollDelta::PixelDelta(x, y),
                            },
                        ),
                    },
                ]
            } else {
                seq![]
            });
            &&& state.actions_all(before.push(event) + after) == state.actions_all(before) + actions
                + state.after_all(before.push(event)).actions_all(after)
        }),
{
    let event = Event::WindowEvent(
        WindowEvent::MouseWheel { delta: MouseScrollDelta::PixelDelta(x, y) },
    );
    lemma_place(state, before, event, after);
}

/// On X11 a new size of the window leads, with or without a handler, to that inner size being set, and
/// nothing else.
pub proof fn new_sizes_are_confirmed_on_x11<H>(
    state: BackendState<H>,
    before: Seq<Event>,
    width: u32,
    height: u32,
    after: Seq<Event>,
)
    requires
        state.system is X11,
    ensures
        ({
            let event = Event::WindowEvent(WindowEvent::Resized(width, height));
            let clock = state.time + before.filter(|e: Event| e is WindowEvent).len();
            let time = clock as u32;
            let seat = state.seat;
            let actions: Seq<Action> = seq![
                Action::SetInnerSize(width, height),
            ];
            &&& state.actions_all(before.push(event) + after) == state.actions_all(before) + actions
                + state.after_all(before.push(event)).actions_all(after)
        }),
{
    let event = Event::WindowEvent(WindowEvent::Resized(width, height));
    lemma_place(state, before, event, after);
}

/// On Wayland a new size of the window leads, with or without a handler, to that inner size being
/// set, then to the surface getting the same width and height, read with sign, without being moved,
/// and nothing else.
pub proof fn new_sizes_are_confirmed_on_wayland<H>(
    state: BackendState<H>,
    before: Seq<Event>,
    width: u32,
    height: u32,
    after: Seq<Event>,
    surface_width: i32,
    surface_height: i32,
)
    requires
        state.system is Wayland,
        surface_width == if width < 0x8000_0000 {
            width as int
        } else {
            width - 0x1_0000_0000
        },
        surface_height == if height < 0x8000_0000 {
            height as int
        } else {
            height - 0x1_0000_0000
        },
    ensures
        ({
            let event = Event::WindowEvent(WindowEvent::Resized(width, height));
            state.actions_all(before.push(event) + after) == state.actions_all(before) + seq![
                Action::SetInnerSize(width, height),
                Action::ResizeSurface { width: surface_width, height: surface_height, dx: 0, dy: 0 },
            ] + state.after_all(before.push(event)).actions_all(after)
        }),
{
    let event = Event::WindowEvent(WindowEvent::Resized(width, height));
    lemma_place(state, before, event, after);
    assert(state.after_all(before).actions(event) =~= seq![
        Action::SetInnerSize(width, height),
        Action::ResizeSurface { width: surface_width, height: surface_height, dx: 0, dy: 0 },
    ]);
}

/// An event that concerns no window, the closing of the window, and an event of no other kind lead to
/// nothing at all, with or without a handler.
pub proof fn other_events_lead_to_nothing<H>(
    state: BackendState<H>,
    before: Seq<Event>,
    event: Event,
    after: Seq<Event>,
)
    requires
        event is Other || event == Event::WindowEvent(WindowEvent::Closed) || event
            == Event::WindowEvent(WindowEvent::Other),
    ensures
        ({
            let clock = state.time + before.filter(|e: Event| e is WindowEvent).len();
            let time = clock as u32;
            let seat = state.seat;
            let actions: Seq<Action> = Seq::empty();
            &&& state.actions_all(before.push(event) + after) == state.actions_all(before) + actions
                + state.after_all(before.push(event)).actions_all(after)
        }),
{
    lemma_place(state, before, event, after);
}

/// Without a handler no event but a new size of the window leads to anything.
pub proof fn events_without_handler_lead_to_nothing<H>(
    state: BackendState<H>,
    before: Seq<Event>,
    event: Event,
    after: Seq<Event>,
)
    requires
        state.handler is None,
        !(event matches Event::WindowEvent(WindowEvent::Resized(_, _))),
    ensures
        ({
            let clock = state.time + before.filter(|e: Event| e is WindowEvent).len();
            let time = clock as u32;
            let seat = state.seat;
            let actions: Seq<Action> = Seq::empty();
            &&& state.actions_all(before.push(event) + after) == state.actions_all(before) + actions
                + state.after_all(before.push(event)).actions_all(after)
        }),
{
    lemma_place(state, before, event, after);
}

/// The window counts as closed if and only if the event that says so is among the events.
pub proof fn only_closing_closes(events: Seq<Event>, event: Event)
    ensures
        closing(event) <==> event == Event::WindowEvent(WindowEvent::Closed),
        any_closing(events) <==> events.contains(Event::WindowEvent(WindowEvent::Closed)),
{
    let closed = Event::WindowEvent(WindowEvent::Closed);
    if events.contains(closed) {
        let i = choose|i: int| 0 <= i < events.len() && events[i] == closed;
        assert(closing(events[i]));
    }
    if any_closing(events) {
        let i = choose|i: int| 0 <= i < events.len() && closing(#[trigger] events[i]);
        assert(events[i] == closed);
    }
}

/// An event that concerns no window leaves the state as it is.  Any event of the window moves the
/// clock on by one and leaves system, seat and handler as they are.  The number of keys that are
/// down changes only by a key that goes down or up while a handler is in use.
pub proof fn only_keys_change_the_count<H>(state: BackendState<H>, before: Seq<Event>, event: Event)
    ensures
        event is Other ==> state.after_all(before.push(event)) == state.after_all(before),
        event is WindowEvent ==> {
            &&& state.after_all(before.push(event)).time == state.after_all(before).time + 1
            &&& state.after_all(before.push(event)).system == state.system
            &&& state.after_all(before.push(event)).seat == state.seat
            &&& state.after_all(before.push(event)).handler == state.handler
        },
        state.handler is None || !(event matches Event::WindowEvent(
            WindowEvent::KeyboardInput { .. },
        )) ==> state.after_all(before.push(event)).keys == state.after_all(before).keys,
        state.after_all(Seq::empty()) == state,
        state.actions_all(Seq::empty()) == Seq::<Action>::empty(),
{
    lemma_place(state, before, event, Seq::empty());
}

/// A new backend has seen no event, has no key down and no handler, and its one seat, number zero,
/// has a pointer, a keyboard and a touch screen.
pub proof fn new_backends_are_at_rest<H>(system: WindowSystem)
    ensures
        WinitInputBackend::<H>::initial(system).system == system,
        WinitInputBackend::<H>::initial(system).time == 0,
        WinitInputBackend::<H>::initial(system).keys == 0,
        WinitInputBackend::<H>::initial(system).handler is None,
        WinitInputBackend::<H>::initial(system).seat.id == 0,
        WinitInputBackend::<H>::initial(system).seat.capabilities.pointer,
        WinitInputBackend::<H>::initial(system).seat.capabilities.keyboard,
        WinitInputBackend::<H>::initial(system).seat.capabilities.touch,
{
}

/// A change of the handler changes nothing but the handler, and owes these calls and no others:
/// the handler before, if any, learns first that the seat is gone, and a new one, if any, learns
/// then that there is a seat.
pub proof fn handler_changes_are_exact<H>(state: BackendState<H>, handler: H)
    ensures
        state.installed(handler).handler == Some(handler),
        state.installed(handler).system == state.system,
        state.installed(handler).time == state.time,
        state.installed(handler).keys == state.keys,
        state.installed(handler).seat == state.seat,
        state.cleared().handler is None,
        state.cleared().system == state.system,
        state.cleared().time == state.time,
        state.cleared().keys == state.keys,
        state.cleared().seat == state.seat,
        state.handler is None ==> state.farewell().len() == 0 && state.handover() == seq![
            SeatCall::<H>::Created { seat: state.seat },
        ],
        state.handler matches Some(previous) ==> {
            &&& state.farewell() == seq![SeatCall::Destroyed { handler: previous, seat: state.seat }]
            &&& state.handover() == seq![
                SeatCall::Destroyed { handler: previous, seat: state.seat },
                SeatCall::Created { seat: state.seat },
            ]
        },
{
    assert(state.handler is None ==> state.handover() =~= seq![SeatCall::<H>::Created { seat: state.seat }]);
    if let Some(previous) = state.handler {
        assert(state.handover() =~= seq![
            SeatCall::Destroyed { handler: previous, seat: state.seat },
            SeatCall::Created { seat: state.seat },
        ]);
    }
}

/// Keys, buttons and their states are handed on under the same names.
pub proof fn names_are_kept(state: ElementState, button: WinitMouseButton)
    ensures
        KeyState::from_spec(state) is Pressed <==> state is Pressed,
        KeyState::from_spec(state) is Released <==> state is Released,
        MouseButtonState::from_spec(state) is Pressed <==> state is Pressed,
        MouseButtonState::from_spec(state) is Released <==> state is Released,
        MouseButton::from_spec(button) is Left <==> button is Left,
        MouseButton::from_spec(button) is Right <==> button is Right,
        MouseButton::from_spec(button) is Middle <==> button is Middle,
        button matches WinitMouseButton::Other(number) ==> MouseButton::from_spec(button)
            == MouseButton::Other(number),
{
}

/// A value in the range is kept, one below it becomes the lower end, one above it the upper end.
pub proof fn clamping_is_exact(value: int, low: int, high: int)
    requires
        low <= high,
    ensures
        low <= value <= high ==> clamped(value, low, high) == value,
        value < low ==> clamped(value, low, high) == low,
        value > high ==> clamped(value, low, high) == high,
{
}

/// Reading 32 bits with or without sign changes a value by a multiple of two to the power of 32, and
/// one reading undoes the other.
pub proof fn signs_are_exact(bits: u32, value: i32)
    ensures
        -0x8000_0000 <= signed(bits) < 0x8000_0000,
        (bits - signed(bits)) % 0x1_0000_0000 == 0,
        0 <= unsigned(value) < 0x1_0000_0000,
        (unsigned(value) - value) % 0x1_0000_0000 == 0,
        value == signed(bits) ==> unsigned(value) == bits,
{
}

/// A number is zero if no bit but the sign bit is set.  Two numbers are the same if both are
/// numbers, and have the same bits or are both zero.
pub proof fn comparisons_go_by_bits(a: Double, b: Double, c: Single, d: Single)
    ensures
        a.zero() <==> a.bits % 0x8000_0000_0000_0000 == 0,
        c.zero() <==> c.bits % 0x8000_0000 == 0,
        a.is_nan() <==> a.bits % 0x8000_0000_0000_0000 > 0x7ff0_0000_0000_0000,
        c.is_nan() <==> c.bits % 0x8000_0000 > 0x7f80_0000,
        a.same(b) <==> {
            &&& a.bits % 0x8000_0000_0000_0000 <= 0x7ff0_0000_0000_0000
            &&& b.bits % 0x8000_0000_0000_0000 <= 0x7ff0_0000_0000_0000
            &&& a.bits == b.bits || (a.bits % 0x8000_0000_0000_0000 == 0 && b.bits
                % 0x8000_0000_0000_0000 == 0)
        },
        c.same(d) <==> {
            &&& c.bits % 0x8000_0000 <= 0x7f80_0000
            &&& d.bits % 0x8000_0000 <= 0x7f80_0000
            &&& c.bits == d.bits || (c.bits % 0x8000_0000 == 0 && d.bits % 0x8000_0000 == 0)
        },
{
}

/// A number without its fractional part is the whole number next to it towards zero: its absolute
/// value is not above that of the number, and one more would be.  Where there is no number it is
/// zero.
pub proof fn truncation_is_exact(number: Double)
    ensures
        ({
            let bits = number.bits;
            let exponent = (bits as int / 0x10_0000_0000_0000) % 2048;
            let significand = 0x10_0000_0000_0000 + bits as int % 0x10_0000_0000_0000;
            let value = number.truncated();
            let whole = if bits >= 0x8000_0000_0000_0000 {
                -value
            } else {
                value
            };
            if bits % 0x8000_0000_0000_0000 > 0x7ff0_0000_0000_0000 {
                value == 0
            } else if exponent < 1023 {
                value == 0
            } else if exponent < 1075 {
                &&& whole >= 1
                &&& whole * pow2((1075 - exponent) as nat) <= significand
                &&& significand < (whole + 1) * pow2((1075 - exponent) as nat)
            } else {
                whole == significand * pow2((exponent - 1075) as nat)
            }
        }),
{
    let exponent = (number.bits as int / 0x10_0000_0000_0000) % 2048;
    let significand = 0x10_0000_0000_0000 + number.bits as int % 0x10_0000_0000_0000;
    vstd::arithmetic::power2::lemma2_to64();
    vstd::arithmetic::power2::lemma2_to64_rest();
    assert(number.is_nan() <==> number.bits % 0x8000_0000_0000_0000 > 0x7ff0_0000_0000_0000);
    if exponent < 1075 {
        let shift = (1075 - exponent) as nat;
        let unit = pow2(shift) as int;
        vstd::arithmetic::power2::lemma_pow2_pos(shift);
        lemma_quotient_brackets(significand, unit);
        if exponent < 1023 {
            if shift > 53 {
                vstd::arithmetic::power2::lemma_pow2_strictly_increases(53, shift);
            }
            vstd::arithmetic::div_mod::lemma_basic_div(significand, unit);
        } else {
            if shift < 52 {
                vstd::arithmetic::power2::lemma_pow2_strictly_increases(shift, 52);
            }
            vstd::arithmetic::div_mod::lemma_div_non_zero(significand, unit);
        }
    }
}

proof fn lemma_quotient_brackets(dividend: int, divisor: int)
    requires
        dividend >= 0,
        divisor > 0,
    ensures
        dividend / divisor >= 0,
        (dividend / divisor) * divisor <= dividend < (dividend / divisor + 1) * divisor,
{
    vstd::arithmetic::div_mod::lemma_fundamental_div_mod(dividend, divisor);
    vstd::arithmetic::div_mod::lemma_mod_bound(dividend, divisor);
    vstd::arithmetic::div_mod::lemma_div_pos_is_pos(dividend, divisor);
    let q = dividend / divisor;
    assert(q * divisor == divisor * q && (q + 1) * divisor == divisor * q + divisor) by (nonlinear_arith);
}

/// The double-precision number with the given parts.
spec fn with_parts(negative: bool, exponent: int, fraction: int) -> Double {
    Double {
        bits: ((if negative {
            0x8000_0000_0000_0000int
        } else {
            0
        }) + exponent * 0x10_0000_0000_0000 + fraction) as u64,
    }
}

proof fn lemma_with_parts(negative: bool, exponent: int, fraction: int)
    requires
        0 <= exponent < 2048,
        0 <= fraction < 0x10_0000_0000_0000,
    ensures
        with_parts(negative, exponent, fraction).negative() == negative,
        with_parts(negative, exponent, fraction).exponent() == exponent,
        with_parts(negative, exponent, fraction).fraction() == fraction,
        with_parts(negative, exponent, fraction).bits as int % 0x8000_0000_0000_0000 == exponent
            * 0x10_0000_0000_0000 + fraction,
{
}

proof fn lemma_parts_are_bits(number: Double)
    ensures
        number == with_parts(number.negative(), number.exponent() as int, number.fraction() as int),
        number.bits as int % 0x8000_0000_0000_0000 == number.exponent() * 0x10_0000_0000_0000
            + number.fraction(),
{
}

proof fn lemma_widened_normal(number: Single, wide: Double)
    requires
        number.widens_to(wide),
        0 < number.exponent() < 255,
    ensures
        wide.exponent() == number.exponent() + 896,
        wide.fraction() == number.fraction() * 0x2000_0000,
{
    let exponent = number.exponent();
    let significand = 0x80_0000 + number.fraction();
    let narrow = pow2((exponent - 1) as nat);
    let broad = pow2((exponent + 895) as nat);
    vstd::arithmetic::power2::lemma2_to64();
    lemma_scale(0, (exponent + 895) as nat);
    vstd::arithmetic::power2::lemma_pow2_adds((exponent - 1) as nat, 925);
    assert((significand * 0x2000_0000) * broad == (significand * narrow) * pow2(925)) by (nonlinear_arith)
        requires
            0x2000_0000 * broad == narrow * pow2(925),
    ;
    let fraction = number.fraction() * 0x2000_0000;
    let expected = with_parts(number.negative(), exponent + 896int, fraction as int);
    lemma_with_parts(number.negative(), exponent + 896int, fraction as int);
    assert(0x10_0000_0000_0000 + fraction == significand * 0x2000_0000);
    assert(expected.magnitude() == (significand * 0x2000_0000) * broad);
    value_determines_double(expected, wide);
}

proof fn lemma_widened_small(number: Single, wide: Double, shift: nat)
    requires
        number.widens_to(wide),
        number.exponent() == 0,
        0x80_0000 <= number.fraction() * pow2(shift) < 0x100_0000,
    ensures
        shift <= 24,
        wide.exponent() == 897 - shift,
        wide.fraction() == (number.fraction() * pow2(shift) - 0x80_0000) * 0x2000_0000,
{
    let fraction = number.fraction();
    let place = pow2(shift);
    vstd::arithmetic::power2::lemma2_to64();
    assert(fraction >= 1 && place <= fraction * place) by (nonlinear_arith)
        requires
            fraction * place >= 0x80_0000,
            fraction >= 0,
            place >= 0,
    ;
    if shift > 24 {
        vstd::arithmetic::power2::lemma_pow2_strictly_increases(24, shift);
    }
    let rest = (896 - shift) as nat;
    let broad = pow2(rest);
    lemma_scale(shift, rest);
    assert(((fraction * place) * 0x2000_0000) * broad == fraction * pow2(925)) by (nonlinear_arith)
        requires
            (place * 0x2000_0000) * broad == pow2(925),
    ;
    let moved = (fraction * place - 0x80_0000) * 0x2000_0000;
    let expected = with_parts(number.negative(), 897 - shift, moved);
    lemma_with_parts(number.negative(), 897 - shift, moved);
    assert(0x10_0000_0000_0000 + moved == (fraction * place) * 0x2000_0000);
    assert(expected.magnitude() == ((fraction * place) * 0x2000_0000) * broad);
    value_determines_double(expected, wide);
}

proof fn lemma_widened_zero(number: Single, wide: Double)
    requires
        number.widens_to(wide),
        number.exponent() == 0,
        number.fraction() == 0,
    ensures
        wide.exponent() == 0,
        wide.fraction() == 0,
{
    assert(0nat * pow2(925) == 0);
    let expected = with_parts(number.negative(), 0, 0);
    lemma_with_parts(number.negative(), 0, 0);
    value_determines_double(expected, wide);
}

/// A number in double precision has the sign of the number in single precision, and the bits that
/// stand for the same value: those of the exponent, counted from a new base, and those of the
/// fraction, with 29 zeros behind them.  A number without a leading one gets one, in the place
/// `shift` where it has to be moved to.  An infinity stays one, and where there is no number the
/// payload is kept and marked quiet.
pub proof fn widening_is_exact(number: Single, wide: Double, shift: nat)
    requires
        number.widens_to(wide),
    ensures
        wide.bits >= 0x8000_0000_0000_0000 <==> number.bits >= 0x8000_0000,
        ({
            let exponent = (number.bits as int / 0x80_0000) % 256;
            let fraction = number.bits as int % 0x80_0000;
            let rest = wide.bits as int % 0x8000_0000_0000_0000;
            &&& 0 < exponent < 255 ==> rest == (exponent + 896) * 0x10_0000_0000_0000 + fraction
                * 0x2000_0000
            &&& exponent == 255 && fraction == 0 ==> rest == 0x7ff0_0000_0000_0000
            &&& exponent == 255 && fraction != 0 ==> rest == 0x7ff8_0000_0000_0000 + (fraction
                % 0x40_0000) * 0x2000_0000
            &&& exponent == 0 && fraction == 0 ==> rest == 0
            &&& exponent == 0 && 0x80_0000 <= fraction * pow2(shift) < 0x100_0000 ==> rest == (897
                - shift) * 0x10_0000_0000_0000 + (fraction * pow2(shift) - 0x80_0000) * 0x2000_0000
        }),
{
    lemma_parts_are_bits(wide);
    if 0 < number.exponent() < 255 {
        lemma_widened_normal(number, wide);
    } else if number.exponent() == 0 {
        if number.fraction() == 0 {
            lemma_widened_zero(number, wide);
        }
        if 0x80_0000 <= number.fraction() * pow2(shift) < 0x100_0000 {
            lemma_widened_small(number, wide, shift);
        }
    }
    assert(number.negative() <==> number.bits >= 0x8000_0000);
}

/// What a scroll movement says of an axis rests on the amount along that axis alone: whether it
/// is still, and how far it goes.  Two movements are the same if they have the same unit and the
/// same amounts.
pub proof fn scroll_amounts_are_exact(
    a: Single,
    b: Single,
    c: Single,
    d: Single,
    x: Double,
    y: Double,
    u: Double,
    v: Double,
)
    ensures
        MouseScrollDelta::LineDelta(a, b).still(Axis::Horizontal) <==> a.bits % 0x8000_0000 == 0,
        MouseScrollDelta::LineDelta(a, b).still(Axis::Vertical) <==> b.bits % 0x8000_0000 == 0,
        MouseScrollDelta::PixelDelta(x, y).still(Axis::Horizontal) <==> x.bits % 0x8000_0000_0000_0000 == 0,
        MouseScrollDelta::PixelDelta(x, y).still(Axis::Vertical) <==> y.bits % 0x8000_0000_0000_0000 == 0,
        MouseScrollDelta::LineDelta(a, b).amounts_to(Axis::Horizontal, x) <==> a.widens_to(x),
        MouseScrollDelta::LineDelta(a, b).amounts_to(Axis::Vertical, x) <==> b.widens_to(x),
        MouseScrollDelta::PixelDelta(x, y).amounts_to(Axis::Horizontal, u) <==> u == x,
        MouseScrollDelta::PixelDelta(x, y).amounts_to(Axis::Vertical, u) <==> u == y,
        MouseScrollDelta::LineDelta(a, b).same(MouseScrollDelta::LineDelta(c, d)) <==> a.same(c) && b.same(d),
        MouseScrollDelta::PixelDelta(x, y).same(MouseScrollDelta::PixelDelta(u, v)) <==> x.same(u) && y.same(
            v,
        ),
        !MouseScrollDelta::LineDelta(a, b).same(MouseScrollDelta::PixelDelta(u, v)),
        !MouseScrollDelta::PixelDelta(x, y).same(MouseScrollDelta::LineDelta(c, d)),
{
}

/// Numbers, movements and scroll events are equal if they have equal content: numbers by their
/// value, movements by unit and amounts, events by axis, time and movement.
pub proof fn equality_is_by_content(
    a: Double,
    b: Double,
    c: Single,
    d: Single,
    first: WinitMouseWheelEvent,
    second: WinitMouseWheelEvent,
)
    ensures
        a.eq_spec(&b) <==> a.same(b),
        c.eq_spec(&d) <==> c.same(d),
        first.delta.eq_spec(&second.delta) <==> first.delta.same(second.delta),
        first.eq_spec(&second) <==> {
            &&& first.axis is Horizontal <==> second.axis is Horizontal
            &&& first.time == second.time
            &&& first.delta.same(second.delta)
        },
{
}

/// An axis that is still has an amount of zero, and one with an amount of zero is still.
pub proof fn still_axes_have_no_amount(delta: MouseScrollDelta, axis: Axis, amount: Double)
    requires
        delta.amounts_to(axis, amount),
    ensures
        delta.still(axis) <==> amount.bits % 0x8000_0000_0000_0000 == 0,
{
    match (delta, axis) {
        (MouseScrollDelta::LineDelta(x, _), Axis::Horizontal) => {
            widening_is_unique(x, amount, amount);
        },
        (MouseScrollDelta::LineDelta(_, y), Axis::Vertical) => {
            widening_is_unique(y, amount, amount);
        },
        _ => {},
    }
}

/// Positions are measured against the window's own width and height, or, where it has no size any
/// more, against those of the surface.
pub proof fn window_sizes_are_exact(width: u32, height: u32, wanted: u32)
    ensures
        inner_width(Some((width, height)), wanted) == width,
        inner_height(Some((width, height)), wanted) == height,
        inner_width(None, wanted) == wanted,
        inner_height(None, wanted) == wanted,
{
}

/// The position of a moving finger on a surface is in proportion: as large a part of the surface as
/// the position, a whole number that is not negative, is of the window, without the rest.  It can
/// be scaled if the product fits 32 bits and the window has an extent.
pub proof fn moved_positions_are_in_proportion(position: Double, target: u32, extent: u32)
    ensures
        ({
            let place = if position.truncated() < 0 {
                0
            } else if position.truncated() > 0xffff_ffff {
                0xffff_ffff
            } else {
                position.truncated()
            };
            let scaled = scaled_unsigned(position, target, extent);
            &&& scalable_unsigned(position, target, extent) <==> extent != 0 && place * target <= 0xffff_ffff
            &&& extent != 0 ==> {
                &&& scaled >= 0
                &&& scaled * extent <= place * target
                &&& place * target < (scaled + 1) * extent
            }
        }),
{
    let place = clamped(position.truncated(), 0, u32::MAX as int);
    let t = target as int;
    assert(place * t >= 0) by (nonlinear_arith)
        requires
            place >= 0,
            t >= 0,
    ;
    if extent != 0 {
        lemma_quotient_brackets(place * t, extent as int);
    }
}

/// The position of a finger that comes down is in proportion as well, with sign: both sizes are read
/// with sign.  Where the scaled position is not negative, zero is reported; otherwise how far it is
/// below zero, without the rest, counted down from two to the power of 32.  It can be scaled if
/// product and quotient fit 32 bits with sign and the window has an extent.
pub proof fn started_positions_are_in_proportion(position: Double, target: u32, extent: u32)
    ensures
        ({
            let place = if position.truncated() < -0x8000_0000 {
                -0x8000_0000
            } else if position.truncated() > 0x7fff_ffff {
                0x7fff_ffff
            } else {
                position.truncated()
            };
            let wanted = if target < 0x8000_0000 {
                target as int
            } else {
                target - 0x1_0000_0000
            };
            let given = if extent < 0x8000_0000 {
                extent as int
            } else {
                extent - 0x1_0000_0000
            };
            let product = place * wanted;
            let scaled = scaled_signed(position, target, extent);
            &&& scalable_signed(position, target, extent) <==> {
                &&& -0x8000_0000 <= product <= 0x7fff_ffff
                &&& extent != 0
                &&& product != -0x8000_0000 || given != -1
            }
            &&& extent != 0 && (product == 0 || (product < 0) == (given < 0)) ==> scaled == 0
            &&& extent != 0 && (product < 0) != (given < 0) ==> {
                let below = if scaled == 0 {
                    0
                } else {
                    0x1_0000_0000 - scaled
                };
                let size = if product < 0 {
                    -product
                } else {
                    product
                };
                let part = if given < 0 {
                    -given
                } else {
                    given
                };
                scalable_signed(position, target, extent) ==> {
                    &&& 0 <= scaled < 0x1_0000_0000
                    &&& 0 <= below <= 0x8000_0000
                    &&& below * part <= size
                    &&& size < (below + 1) * part
                }
            }
        }),
{
    let place = clamped(position.truncated(), i32::MIN as int, i32::MAX as int);
    let product = place * signed(target);
    let given = signed(extent);
    if extent != 0 {
        let size = vstd::math::abs(product) as int;
        let part = vstd::math::abs(given) as int;
        lemma_quotient_brackets(size, part);
        vstd::arithmetic::div_mod::lemma_div_is_ordered_by_denominator(size, 1, part);
        if product == 0 {
            vstd::arithmetic::div_mod::lemma_basic_div(0, part);
        }
    }
}

/// A setup asks for a context with the attributes that it was started with, whatever has happened.
pub proof fn contexts_are_asked_for_as_wanted<C, E>(stage: InitStage<C, E>, attributes: GlAttributes)
    ensures
        stage.request(attributes) matches Some(InitRequest::CreateContext(_, wanted)) ==> {
            &&& wanted.version == attributes.version
            &&& wanted.profile == attributes.profile
            &&& wanted.debug == attributes.debug
            &&& wanted.vsync == attributes.vsync
        },
{
}

proof fn lemma_setup_push<C, E>(stage: InitStage<C, E>, events: Seq<InitEvent<C, E>>, event: InitEvent<C, E>)
    ensures
        stage.after_all(events.push(event)) == stage.after_all(events).after(event),
{
    assert(events.push(event).drop_last() =~= events);
}

/// What a setup asks for after each course that it can have taken: first for the window, then whether
/// it belongs to Wayland, then, if not, whether it belongs to X11, then for a context of the system
/// that it belongs to, with the attributes that the setup was started with, and then for a surface
/// of that system.
pub proof fn requests_follow_the_course<C, E>(attributes: GlAttributes)
    ensures
        ({
            let start = InitStage::<C, E>::Building;
            let built = InitEvent::<C, E>::Built(Ok(()));
            let yes = InitEvent::<C, E>::Probed(true);
            let no = InitEvent::<C, E>::Probed(false);
            let created = InitEvent::<C, E>::Created(Ok(()));
            let none = Seq::<InitEvent<C, E>>::empty();
            &&& start.after_all(none).request(attributes) == Some(InitRequest::BuildWindow)
            &&& start.after_all(none.push(built)).request(attributes) == Some(
                InitRequest::Probe(WindowSystem::Wayland),
            )
            &&& start.after_all(none.push(built).push(no)).request(attributes) == Some(
                InitRequest::Probe(WindowSystem::X11),
            )
            &&& start.after_all(none.push(built).push(yes)).request(attributes) == Some(
                InitRequest::CreateContext(WindowSystem::Wayland, attributes),
            )
            &&& start.after_all(none.push(built).push(no).push(yes)).request(attributes) == Some(
                InitRequest::CreateContext(WindowSystem::X11, attributes),
            )
            &&& start.after_all(none.push(built).push(yes).push(created)).request(attributes) == Some(
                InitRequest::CreateSurface(WindowSystem::Wayland),
            )
            &&& start.after_all(none.push(built).push(no).push(yes).push(created)).request(attributes)
                == Some(InitRequest::CreateSurface(WindowSystem::X11))
        }),
{
    let start = InitStage::<C, E>::Building;
    let built = InitEvent::<C, E>::Built(Ok(()));
    let yes = InitEvent::<C, E>::Probed(true);
    let no = InitEvent::<C, E>::Probed(false);
    let created = InitEvent::<C, E>::Created(Ok(()));
    let none = Seq::<InitEvent<C, E>>::empty();
    lemma_setup_push(start, none, built);
    lemma_setup_push(start, none.push(built), no);
    lemma_setup_push(start, none.push(built), yes);
    lemma_setup_push(start, none.push(built).push(no), yes);
    lemma_setup_push(start, none.push(built).push(yes), created);
    lemma_setup_push(start, none.push(built).push(no).push(yes), created);
}

/// A setup takes every answer to what it asked for, and no other: whether the window was built,
/// whether it belongs to the system asked about, whether the context or the surface was created.
/// Once it has succeeded or failed it asks for nothing and takes nothing.
pub proof fn answers_fit_requests<C, E>(
    stage: InitStage<C, E>,
    attributes: GlAttributes,
    event: InitEvent<C, E>,
)
    ensures
        stage.expects(event) <==> match stage.request(attributes) {
            Some(InitRequest::BuildWindow) => event is Built,
            Some(InitRequest::Probe(_)) => event is Probed,
            Some(InitRequest::CreateContext(_, _)) => event is Created,
            Some(InitRequest::CreateSurface(_)) => event is Created,
            None => false,
        },
        stage.request(attributes) is None <==> stage is Ready || stage is Failed,
        stage.ended() <==> stage is Ready || stage is Failed,
{
}

/// A failure ends the setup at once, with the reason and the cause that belong to it.
pub proof fn failures_end_the_setup<C, E>(stage: InitStage<C, E>, cause: C, failure: E)
    ensures
        stage.expects(InitEvent::Built(Err(cause))) ==> stage.after(InitEvent::Built(Err(cause)))
            == InitStage::<C, E>::Failed(Error { kind: ErrorKind::InitFailed, cause: Some(cause) }),
        stage.expects(InitEvent::Created(Err(failure))) ==> stage.after(InitEvent::Created(Err(failure)))
            == InitStage::<C, E>::Failed(Error { kind: ErrorKind::EGL(failure), cause: None }),
{
}

} // verus!
