//! What holds of the backend as a whole.

use crate::backend::{
    any_closing, closing, window_event_count, Action, BackendState, InputEvent, SeatCall,
};
use crate::error::{Error, ErrorKind};
use crate::events::{
    inner_height, inner_width, quotient, scalable_signed, scalable_unsigned, scaled_signed,
    scaled_unsigned, WinitMouseWheelEvent,
};
use crate::init::{InitEvent, InitStage};
use crate::input::{Axis, KeyState, MouseButton, MouseButtonState};
use crate::number::{clamped, signed, Double, Single, DOUBLE_UNIT};
use crate::window::{
    ElementState, Event, MouseScrollDelta, WindowEvent, WindowSystem, WinitMouseButton,
};
use vstd::arithmetic::power2::{
    lemma_pow2_adds, lemma_pow2_pos, lemma_pow2_strictly_increases, lemma_pow2_unfold, pow2,
};
use vstd::math::abs;
use vstd::prelude::*;
use vstd::std_specs::convert::FromSpec;

verus! {

/// How many of the events report a key in the given state.
pub open spec fn key_events(events: Seq<Event>, wanted: ElementState) -> nat
    decreases events.len(),
{
    if events.len() == 0 {
        0
    } else {
        key_events(events.drop_last(), wanted) + match events.last() {
            Event::WindowEvent(WindowEvent::KeyboardInput { state, .. }) if state == wanted => 1nat,
            _ => 0nat,
        }
    }
}

/// The clock counts the events of the window, and no others.
pub proof fn clock_counts_window_events<H>(state: BackendState<H>, events: Seq<Event>)
    ensures
        state.after_all(events).time == state.time + window_event_count(events),
    decreases events.len(),
{
    if events.len() > 0 {
        clock_counts_window_events(state, events.drop_last());
    }
}

/// Events change neither the handler nor the seat nor the window system.
pub proof fn events_keep_handler_and_seat<H>(state: BackendState<H>, events: Seq<Event>)
    ensures
        state.after_all(events).handler == state.handler,
        state.after_all(events).seat == state.seat,
        state.after_all(events).system == state.system,
    decreases events.len(),
{
    if events.len() > 0 {
        events_keep_handler_and_seat(state, events.drop_last());
    }
}

/// There are never more keys down than there were events of the window.
pub proof fn keys_never_exceed_clock<H>(state: BackendState<H>, events: Seq<Event>)
    requires
        state.keys <= state.time,
    ensures
        state.after_all(events).keys <= state.after_all(events).time,
    decreases events.len(),
{
    if events.len() > 0 {
        keys_never_exceed_clock(state, events.drop_last());
    }
}

/// It makes no difference whether events come at once or one part after the other: the state is
/// the same, the actions follow one another, and the window is closed if one part closes it.
pub proof fn batches_compose<H>(state: BackendState<H>, first: Seq<Event>, second: Seq<Event>)
    ensures
        state.after_all(first + second) == state.after_all(first).after_all(second),
        state.actions_all(first + second) == state.actions_all(first) + state.after_all(
            first,
        ).actions_all(second),
        any_closing(first + second) <==> any_closing(first) || any_closing(second),
        window_event_count(first + second) == window_event_count(first) + window_event_count(second),
    decreases second.len(),
{
    let both = first + second;
    if second.len() == 0 {
        assert(both =~= first);
    } else {
        assert(both.drop_last() =~= first + second.drop_last());
        batches_compose(state, first, second.drop_last());
    }
    if any_closing(first) {
        let i = choose|i: int| 0 <= i < first.len() && closing(#[trigger] first[i]);
        assert(closing(both[i]));
    }
    if any_closing(second) {
        let i = choose|i: int| 0 <= i < second.len() && closing(#[trigger] second[i]);
        assert(closing(both[first.len() + i]));
    }
    if any_closing(both) {
        let i = choose|i: int| 0 <= i < both.len() && closing(#[trigger] both[i]);
        if i < first.len() {
            assert(closing(first[i]));
        } else {
            assert(closing(second[i - first.len()]));
        }
    }
}

/// A key that goes down and one that goes up leave as many keys down as before, and where no
/// key is down none can go up.
pub proof fn release_undoes_press<H>(state: BackendState<H>, press: Event, release: Event)
    requires
        press matches Event::WindowEvent(WindowEvent::KeyboardInput { state: key, .. }) && key is Pressed,
        release matches Event::WindowEvent(WindowEvent::KeyboardInput { state: key, .. })
            && key is Released,
    ensures
        state.after(press).after(release).keys == state.keys,
        state.keys == 0 ==> state.after(release).keys == 0,
{
}

/// With a handler in use, and as long as no key goes up that did not go down, the count is that
/// of the keys that went down without the keys that went up.
pub proof fn keys_are_those_held<H>(state: BackendState<H>, events: Seq<Event>)
    requires
        state.handler is Some,
        forall|n: int|
            0 <= n <= events.len() ==> key_events(#[trigger] events.take(n), ElementState::Released)
                <= state.keys + key_events(events.take(n), ElementState::Pressed),
    ensures
        state.after_all(events).keys == state.keys + key_events(events, ElementState::Pressed)
            - key_events(events, ElementState::Released),
    decreases events.len(),
{
    if events.len() > 0 {
        let before = events.drop_last();
        assert forall|n: int| 0 <= n <= before.len() implies key_events(
            #[trigger] before.take(n),
            ElementState::Released,
        ) <= state.keys + key_events(before.take(n), ElementState::Pressed) by {
            assert(before.take(n) =~= events.take(n));
        }
        keys_are_those_held(state, before);
        events_keep_handler_and_seat(state, before);
        assert(events.take(events.len() as int) =~= events);
    }
}

/// Without a handler nothing is called and no key is counted.
pub proof fn no_calls_without_handler<H>(state: BackendState<H>, events: Seq<Event>)
    requires
        state.handler is None,
    ensures
        state.after_all(events).keys == state.keys,
        forall|i: int|
            0 <= i < state.actions_all(events).len() ==> !(#[trigger] state.actions_all(events)[i] is Notify),
    decreases events.len(),
{
    if events.len() > 0 {
        no_calls_without_handler(state, events.drop_last());
        events_keep_handler_and_seat(state, events.drop_last());
    }
}

/// Every call names the seat of the backend.
pub proof fn calls_name_the_seat<H>(state: BackendState<H>, events: Seq<Event>)
    ensures
        forall|i: int|
            0 <= i < state.actions_all(events).len() ==> (#[trigger] state.actions_all(events)[i] matches
                Action::Notify { seat, .. } ==> seat == state.seat),
    decreases events.len(),
{
    if events.len() > 0 {
        calls_name_the_seat(state, events.drop_last());
        events_keep_handler_and_seat(state, events.drop_last());
    }
}

/// The calls that one event leads to all carry the time at which it came.
pub proof fn calls_carry_the_time<H>(state: BackendState<H>, event: Event)
    ensures
        forall|i: int|
            0 <= i < state.calls(event).len() ==> (#[trigger] state.calls(event)[i]).time() == state.time as u32,
{
}

/// The time stamps of the calls never go back, and lie between the time before the events and
/// the time after them.
pub proof fn time_stamps_are_in_order<H>(state: BackendState<H>, events: Seq<Event>)
    requires
        state.time + window_event_count(events) <= u32::MAX,
    ensures
        forall|i: int|
            0 <= i < state.actions_all(events).len() ==> (#[trigger] state.actions_all(events)[i] matches
                Action::Notify { event, .. } ==> state.time <= event.time() < state.after_all(events).time),
        forall|i: int, j: int|
            0 <= i < j < state.actions_all(events).len() ==> (#[trigger] state.actions_all(events)[i] matches
                Action::Notify { event: earlier, .. } ==> (#[trigger] state.actions_all(events)[j] matches
                Action::Notify { event: later, .. } ==> earlier.time() <= later.time())),
    decreases events.len(),
{
    if events.len() > 0 {
        let before = events.drop_last();
        let middle = state.after_all(before);
        time_stamps_are_in_order(state, before);
        clock_counts_window_events(state, before);
        clock_counts_window_events(state, events);
        calls_carry_the_time(middle, events.last());
        let new = middle.actions(events.last());
        assert forall|i: int| 0 <= i < new.len() implies (#[trigger] new[i] matches Action::Notify {
            event,
            ..
        } ==> event.time() == middle.time && middle.time < state.after_all(events).time) by {
            let calls = middle.calls(events.last());
            let requests = new.len() - calls.len();
            if i >= requests {
                assert(calls[i - requests].time() == middle.time as u32);
            }
        }
    }
}

/// Whether an action, if it is a call about scrolling, is one along an axis that was scrolled,
/// and so has an amount other than zero.
pub open spec fn scrolls(action: Action) -> bool {
    action matches Action::Notify { event: InputEvent::PointerAxis(scroll), .. } ==> {
        &&& !scroll.delta.still(scroll.axis)
        &&& forall|amount: Double| #[trigger]
            scroll.delta.amounts_to(scroll.axis, amount) ==> !amount.zero()
    }
}

/// A call about scrolling is only made along an axis that was scrolled, and never with an amount
/// of zero.
pub proof fn scroll_calls_move<H>(state: BackendState<H>, events: Seq<Event>)
    ensures
        forall|i: int|
            0 <= i < state.actions_all(events).len() ==> scrolls(#[trigger] state.actions_all(events)[i]),
    decreases events.len(),
{
    if events.len() > 0 {
        let before = events.drop_last();
        let middle = state.after_all(before);
        scroll_calls_move(state, before);
        let calls = middle.calls(events.last());
        let new = middle.actions(events.last());
        let requests = new.len() - calls.len();
        assert forall|i: int| 0 <= i < new.len() implies scrolls(#[trigger] new[i]) by {
            if let Action::Notify { event: InputEvent::PointerAxis(scroll), .. } = new[i] {
                assert(calls[i - requests] == InputEvent::PointerAxis(scroll));
                assert forall|amount: Double| #[trigger]
                    scroll.delta.amounts_to(scroll.axis, amount) implies !amount.zero() by {
                    lemma_amount_not_zero(scroll.delta, scroll.axis, amount);
                }
            }
        }
        let earlier = state.actions_all(before);
        assert forall|i: int| 0 <= i < state.actions_all(events).len() implies scrolls(
            #[trigger] state.actions_all(events)[i],
        ) by {
            if i < earlier.len() {
                assert(scrolls(earlier[i]));
            } else {
                assert(scrolls(new[i - earlier.len()]));
            }
        }
    }
}

proof fn lemma_amount_not_zero(delta: MouseScrollDelta, axis: Axis, amount: Double)
    requires
        delta.amounts_to(axis, amount),
        !delta.still(axis),
    ensures
        !amount.zero(),
{
    match (delta, axis) {
        (MouseScrollDelta::LineDelta(x, _), Axis::Horizontal) => {
            widening_is_unique(x, amount, amount);
        },
        (MouseScrollDelta::LineDelta(_, y), Axis::Vertical) => {
            widening_is_unique(y, amount, amount);
        },
        _ => {},
    }
}

/// With a handler in use, a scroll movement leads to exactly these calls, wherever it stands
/// among the events: one along the horizontal axis if and only if its horizontal amount is not
/// zero, then one along the vertical axis if and only if its vertical amount is not zero.  Each
/// carries the whole movement and, as its time, the clock that the window events before have
/// moved on.  All that the events before lead to comes first, and all that the events after lead
/// to comes last.
pub proof fn scroll_calls_are_exact<H>(
    state: BackendState<H>,
    before: Seq<Event>,
    delta: MouseScrollDelta,
    after: Seq<Event>,
)
    requires
        state.handler is Some,
    ensures
        ({
            let wheel = Event::WindowEvent(WindowEvent::MouseWheel { delta });
            let events = before.push(wheel) + after;
            let time = (state.time + window_event_count(before)) as u32;
            let call = |axis: Axis|
                Action::Notify {
                    seat: state.seat,
                    event: InputEvent::PointerAxis(WinitMouseWheelEvent { axis, time, delta }),
                };
            let calls = match (delta.still(Axis::Horizontal), delta.still(Axis::Vertical)) {
                (false, false) => seq![call(Axis::Horizontal), call(Axis::Vertical)],
                (false, true) => seq![call(Axis::Horizontal)],
                (true, false) => seq![call(Axis::Vertical)],
                (true, true) => seq![],
            };
            state.actions_all(events) == state.actions_all(before) + calls + state.after_all(
                before.push(wheel),
            ).actions_all(after)
        }),
{
    let wheel = Event::WindowEvent(WindowEvent::MouseWheel { delta });
    let middle = state.after_all(before);
    let time = (state.time + window_event_count(before)) as u32;
    let call = |axis: Axis|
        Action::Notify {
            seat: state.seat,
            event: InputEvent::PointerAxis(WinitMouseWheelEvent { axis, time, delta }),
        };
    let calls = match (delta.still(Axis::Horizontal), delta.still(Axis::Vertical)) {
        (false, false) => seq![call(Axis::Horizontal), call(Axis::Vertical)],
        (false, true) => seq![call(Axis::Horizontal)],
        (true, false) => seq![call(Axis::Vertical)],
        (true, true) => seq![],
    };
    clock_counts_window_events(state, before);
    events_keep_handler_and_seat(state, before);
    assert(before.push(wheel).drop_last() =~= before);
    assert(middle.actions(wheel) =~= calls);
    batches_compose(state, before.push(wheel), after);
}

/// A change of the handler.
pub ghost enum HandlerChange<H> {
    /// A handler is put into use.
    Install(H),
    /// The handler is taken out of use.
    Clear,
}

/// The state after a number of changes of the handler.
pub open spec fn changed_all<H>(state: BackendState<H>, changes: Seq<HandlerChange<H>>) -> BackendState<H>
    decreases changes.len(),
{
    if changes.len() == 0 {
        state
    } else {
        let before = changed_all(state, changes.drop_last());
        match changes.last() {
            HandlerChange::Install(handler) => before.installed(handler),
            HandlerChange::Clear => before.cleared(),
        }
    }
}

/// The calls that a number of changes of the handler lead to.
pub open spec fn change_calls_all<H>(
    state: BackendState<H>,
    changes: Seq<HandlerChange<H>>,
) -> Seq<SeatCall<H>>
    decreases changes.len(),
{
    if changes.len() == 0 {
        seq![]
    } else {
        let before = changed_all(state, changes.drop_last());
        change_calls_all(state, changes.drop_last()) + match changes.last() {
            HandlerChange::Install(_) => before.handover(),
            HandlerChange::Clear => before.farewell(),
        }
    }
}

/// The handlers that are put into use, in order.
pub open spec fn installs<H>(changes: Seq<HandlerChange<H>>) -> Seq<H>
    decreases changes.len(),
{
    if changes.len() == 0 {
        seq![]
    } else {
        match changes.last() {
            HandlerChange::Install(handler) => installs(changes.drop_last()).push(handler),
            HandlerChange::Clear => installs(changes.drop_last()),
        }
    }
}

/// However often the handler of a backend changes that starts without one, the calls alternate:
/// a creation of the seat for each handler that is put into use, and after it, before the next
/// creation, the destruction of the same seat for the same handler.  The handler in use is the one
/// that was put into use last, and it is in use exactly until the destruction is owed.
pub proof fn seat_calls_alternate<H>(state: BackendState<H>, changes: Seq<HandlerChange<H>>)
    requires
        state.handler is None,
    ensures
        forall|i: int|
            0 <= i < change_calls_all(state, changes).len() ==> #[trigger] change_calls_all(
                state,
                changes,
            )[i] == if i % 2 == 0 {
                SeatCall::<H>::Created { seat: state.seat }
            } else {
                SeatCall::Destroyed { handler: installs(changes)[i / 2], seat: state.seat }
            },
        installs(changes).len() == (change_calls_all(state, changes).len() + 1) / 2,
        changed_all(state, changes).handler == if change_calls_all(state, changes).len() % 2 == 1 {
            Some(installs(changes).last())
        } else {
            None
        },
        changed_all(state, changes).seat == state.seat,
    decreases changes.len(),
{
    if changes.len() > 0 {
        let before = changes.drop_last();
        seat_calls_alternate(state, before);
        let calls = change_calls_all(state, changes);
        let calls_before = change_calls_all(state, before);
        assert forall|i: int| 0 <= i < calls.len() implies #[trigger] calls[i] == if i % 2 == 0 {
            SeatCall::<H>::Created { seat: state.seat }
        } else {
            SeatCall::Destroyed { handler: installs(changes)[i / 2], seat: state.seat }
        } by {
            if i < calls_before.len() {
                assert(calls[i] == calls_before[i]);
                assert(i % 2 == 1 ==> i / 2 < installs(before).len());
            }
        }
    }
}

/// What is put into use comes back when it is taken out of use, with the seat that it was told
/// of, and nothing is left to take out.
pub proof fn clear_undoes_set<H>(state: BackendState<H>, handler: H)
    ensures
        state.installed(handler).farewell() == seq![
            SeatCall::Destroyed { handler, seat: state.seat },
        ],
        state.handler is None ==> state.installed(handler).cleared() == state,
        state.cleared().farewell() == Seq::<SeatCall<H>>::empty(),
{
}

/// The two readings of a state agree, and no two states or buttons are mixed up.
pub proof fn conversions_are_faithful(
    state: ElementState,
    other_state: ElementState,
    button: WinitMouseButton,
    other_button: WinitMouseButton,
)
    ensures
        KeyState::from_spec(state) is Pressed <==> MouseButtonState::from_spec(state) is Pressed,
        KeyState::from_spec(state) == KeyState::from_spec(other_state) ==> state == other_state,
        MouseButtonState::from_spec(state) == MouseButtonState::from_spec(other_state) ==> state
            == other_state,
        MouseButton::from_spec(button) == MouseButton::from_spec(other_button) ==> button == other_button,
{
}

proof fn lemma_setup_step<C, E>(events: Seq<InitEvent<C, E>>, n: int)
    requires
        InitStage::<C, E>::Building.expects_all(events),
        0 <= n < events.len(),
    ensures
        ({
            let stage = InitStage::<C, E>::Building.after_all(events.take(n));
            &&& stage.expects(events[n])
            &&& InitStage::<C, E>::Building.after_all(events.take(n + 1)) == stage.after(events[n])
        }),
        events[n] matches InitEvent::Built(Ok(_)) ==> events[n] == InitEvent::<C, E>::Built(Ok(())),
        events[n] matches InitEvent::Created(Ok(_)) ==> events[n] == InitEvent::<C, E>::Created(Ok(())),
{
    assert(events.take(n + 1).drop_last() =~= events.take(n));
    if let InitEvent::Built(Ok(unit)) = events[n] {
        assert(unit == ());
    }
    if let InitEvent::Created(Ok(unit)) = events[n] {
        assert(unit == ());
    }
}

/// How the setup goes on once the window's system is known.
proof fn lemma_setup_end<C, E>(events: Seq<InitEvent<C, E>>, system: WindowSystem, n: int)
    requires
        InitStage::<C, E>::Building.expects_all(events),
        0 <= n <= events.len(),
        InitStage::<C, E>::Building.after_all(events.take(n)) == InitStage::<C, E>::Connecting(system),
    ensures
        events.len() <= n + 2,
        ({
            let end = InitStage::<C, E>::Building.after_all(events);
            let created = InitEvent::<C, E>::Created(Ok(()));
            &&& events.len() == n ==> end == InitStage::<C, E>::Connecting(system)
            &&& events.len() == n + 2 ==> events[n] == created
            &&& events.len() > n ==> match events.last() {
                InitEvent::Created(Ok(_)) => events.last() == created && end == if events.len() == n + 1 {
                    InitStage::<C, E>::Drawing(system)
                } else {
                    InitStage::<C, E>::Ready(system)
                },
                InitEvent::Created(Err(failure)) => end == InitStage::<C, E>::Failed(
                    Error { kind: ErrorKind::EGL(failure), cause: None },
                ),
                _ => false,
            }
        }),
{
    assert(events.take(events.len() as int) =~= events);
    if events.len() > n {
        lemma_setup_step(events, n);
        if events.len() > n + 1 {
            lemma_setup_step(events, n + 1);
            if events.len() > n + 2 {
                lemma_setup_step(events, n + 2);
            }
        }
    }
}

/// The setup comes to an end after at most five steps.  It succeeds if and only if the window is
/// built, belongs to Wayland or else to X11, and gets its context and its surface.  It fails for
/// want of a window if and only if none is built; that is then the only step, and what kept the
/// window from being built is kept as the cause.  It fails for want of support if and only if
/// the window belongs to neither, and with an error of the rendering layer if and only if that is
/// what came last; neither has a cause of its own.
#[verifier::rlimit(40)]
#[verifier::spinoff_prover]
pub proof fn setup_outcomes<C, E>(events: Seq<InitEvent<C, E>>)
    requires
        InitStage::<C, E>::Building.expects_all(events),
    ensures
        events.len() <= 5,
        ({
            let end = InitStage::<C, E>::Building.after_all(events);
            let yes = InitEvent::<C, E>::Probed(true);
            let no = InitEvent::<C, E>::Probed(false);
            let created = InitEvent::<C, E>::Created(Ok(()));
            let built = InitEvent::<C, E>::Built(Ok(()));
            &&& end == InitStage::<C, E>::Ready(WindowSystem::Wayland) <==> events =~= seq![
                built,
                yes,
                created,
                created,
            ]
            &&& end == InitStage::<C, E>::Ready(WindowSystem::X11) <==> events =~= seq![
                built,
                no,
                yes,
                created,
                created,
            ]
            &&& end matches InitStage::Failed(error) ==> {
                match error.kind {
                    ErrorKind::InitFailed => error.cause matches Some(cause) && events =~= seq![
                        InitEvent::<C, E>::Built(Err(cause)),
                    ],
                    ErrorKind::NotSupported => error.cause is None && events =~= seq![built, no, no],
                    ErrorKind::EGL(failure) => {
                        &&& error.cause is None
                        &&& events.len() > 0
                        &&& events.last() == InitEvent::<C, E>::Created(Err(failure))
                    },
                }
            }
            &&& events.len() > 0 ==> (events[0] matches InitEvent::Built(Err(cause)) ==> end
                == InitStage::<C, E>::Failed(
                Error { kind: ErrorKind::InitFailed, cause: Some(cause) },
            ))
            &&& events =~= seq![built, no, no] ==> end == InitStage::<C, E>::Failed(
                Error { kind: ErrorKind::NotSupported, cause: None },
            )
            &&& events.len() > 0 ==> (events.last() matches InitEvent::Created(Err(failure)) ==> end
                == InitStage::<C, E>::Failed(Error { kind: ErrorKind::EGL(failure), cause: None }))
        }),
{
    assert(InitStage::<C, E>::Building.after_all(events.take(0)) == InitStage::<C, E>::Building);
    assert(events.take(events.len() as int) =~= events);
    if events.len() > 0 {
        lemma_setup_step(events, 0);
        if events.len() > 1 {
            lemma_setup_step(events, 1);
            if events[1] == InitEvent::<C, E>::Probed(true) {
                lemma_setup_end(events, WindowSystem::Wayland, 2);
            } else if events.len() > 2 {
                lemma_setup_step(events, 2);
                if events[2] == InitEvent::<C, E>::Probed(true) {
                    lemma_setup_end(events, WindowSystem::X11, 3);
                } else if events.len() > 3 {
                    lemma_setup_step(events, 3);
                }
            }
        }
    }
}

proof fn lemma_larger_exponent(a: Double, b: Double)
    requires
        a.exponent() < b.exponent(),
    ensures
        a.magnitude() < b.magnitude(),
{
    let unit = DOUBLE_UNIT as nat;
    let (e, f) = (a.exponent(), b.exponent());
    let high = pow2((f - 1) as nat);
    lemma_pow2_pos((f - 1) as nat);
    assert(unit * high >= unit && (unit + b.fraction()) * high >= unit * high) by (nonlinear_arith)
        requires
            high >= 1,
    ;
    if e > 0 {
        let low = pow2((e - 1) as nat);
        lemma_pow2_pos((e - 1) as nat);
        lemma_pow2_unfold(e);
        if e < f - 1 {
            lemma_pow2_strictly_increases(e, (f - 1) as nat);
        }
        assert((unit + a.fraction()) * low < unit * high) by (nonlinear_arith)
            requires
                low >= 1,
                2 * low <= high,
                a.fraction() < unit,
        ;
    }
}

/// A finite number is determined by its sign and its absolute value.
pub proof fn value_determines_double(a: Double, b: Double)
    requires
        a.is_finite(),
        b.is_finite(),
        a.negative() == b.negative(),
        a.magnitude() == b.magnitude(),
    ensures
        a == b,
{
    if a.exponent() < b.exponent() {
        lemma_larger_exponent(a, b);
    } else if b.exponent() < a.exponent() {
        lemma_larger_exponent(b, a);
    }
    let e = a.exponent();
    if e > 0 {
        let scale = pow2((e - 1) as nat);
        lemma_pow2_pos((e - 1) as nat);
        let (m, n) = (DOUBLE_UNIT as nat + a.fraction(), DOUBLE_UNIT as nat + b.fraction());
        assert(m == n) by (nonlinear_arith)
            requires
                m * scale == n * scale,
                scale >= 1,
        ;
    }
    lemma_parts_determine_double(a, b);
}

proof fn lemma_parts_determine_double(a: Double, b: Double)
    requires
        a.negative() == b.negative(),
        a.exponent() == b.exponent(),
        a.fraction() == b.fraction(),
    ensures
        a == b,
{
}

/// The absolute value without its fractional part is the absolute value, divided by the number
/// of units that make up one, without the rest.
pub proof fn whole_is_magnitude_in_ones(number: Double)
    ensures
        number.whole() == number.magnitude() / pow2(1074),
{
    let e = number.exponent();
    let m = DOUBLE_UNIT as nat + number.fraction();
    let ones = pow2(1074);
    lemma_pow2_pos(1074);
    if e == 0 {
        vstd::arithmetic::power2::lemma2_to64_rest();
        lemma_pow2_strictly_increases(52, 1074);
        vstd::arithmetic::div_mod::lemma_basic_div(number.fraction() as int, ones as int);
    } else if e < 1075 {
        let scale = pow2((e - 1) as nat);
        let rest = pow2((1075 - e) as nat);
        lemma_pow2_pos((e - 1) as nat);
        lemma_pow2_pos((1075 - e) as nat);
        lemma_pow2_adds((e - 1) as nat, (1075 - e) as nat);
        vstd::arithmetic::div_mod::lemma_div_denominator((m * scale) as int, scale as int, rest as int);
        vstd::arithmetic::div_mod::lemma_div_by_multiple(m as int, scale as int);
    } else {
        let scale = pow2((e - 1075) as nat);
        lemma_pow2_adds((e - 1075) as nat, 1074);
        assert(m * (scale * ones) == (m * scale) * ones) by (nonlinear_arith);
        vstd::arithmetic::div_mod::lemma_div_by_multiple((m * scale) as int, ones as int);
    }
}

/// Scaling keeps the order of the positions of moving fingers: the smaller of two numbers is
/// never scaled to the larger position.
pub proof fn moved_positions_keep_their_order(a: Double, b: Double, target: u32, extent: u32)
    requires
        !a.is_nan(),
        !b.is_nan(),
        a.value() <= b.value(),
        extent != 0,
    ensures
        scaled_unsigned(a, target, extent) <= scaled_unsigned(b, target, extent),
{
    let low = clamped(a.truncated(), 0, u32::MAX as int);
    let high = clamped(b.truncated(), 0, u32::MAX as int);
    if a.negative() {
        assert(low == 0);
    } else {
        whole_is_magnitude_in_ones(a);
        whole_is_magnitude_in_ones(b);
        lemma_pow2_pos(1074);
        vstd::arithmetic::div_mod::lemma_div_is_ordered(
            a.magnitude() as int,
            b.magnitude() as int,
            pow2(1074) as int,
        );
    }
    let t = target as int;
    assert(low * t <= high * t) by (nonlinear_arith)
        requires
            low <= high,
            t >= 0,
    ;
    vstd::arithmetic::div_mod::lemma_div_is_ordered(low * t, high * t, extent as int);
}

/// A number has one reading in double precision, and it is zero only if the number is.
pub proof fn widening_is_unique(number: Single, a: Double, b: Double)
    requires
        number.widens_to(a),
        number.widens_to(b),
    ensures
        a == b,
        number.zero() <==> a.zero(),
{
    if number.is_finite() {
        value_determines_double(a, b);
        lemma_pow2_pos(925);
        let scale = pow2(925);
        let m = number.magnitude();
        assert(m * scale == 0 <==> m == 0) by (nonlinear_arith)
            requires
                scale >= 1,
        ;
        if a.exponent() > 0 {
            let unit = pow2((a.exponent() - 1) as nat);
            lemma_pow2_pos((a.exponent() - 1) as nat);
            assert((DOUBLE_UNIT as nat + a.fraction()) * unit > 0) by (nonlinear_arith)
                requires
                    unit >= 1,
            ;
        }
        if number.exponent() > 0 {
            let unit = pow2((number.exponent() - 1) as nat);
            lemma_pow2_pos((number.exponent() - 1) as nat);
            assert((0x80_0000 + number.fraction()) * unit > 0) by (nonlinear_arith)
                requires
                    unit >= 1,
            ;
        }
    } else {
        lemma_parts_determine_double(a, b);
    }
}

/// A moving finger inside the window is inside the surface that it is scaled to.
pub proof fn moved_positions_stay_inside(position: Double, target: u32, extent: u32)
    requires
        scalable_unsigned(position, target, extent),
        position.truncated() < extent,
        target > 0,
    ensures
        0 <= scaled_unsigned(position, target, extent) < target,
{
    let p = clamped(position.truncated(), 0, u32::MAX as int);
    let (t, e) = (target as int, extent as int);
    assert(p * t < e * t && p * t >= 0) by (nonlinear_arith)
        requires
            0 <= p < e,
            t > 0,
    ;
    vstd::arithmetic::div_mod::lemma_multiply_divide_lt(p * t, e, t);
    vstd::arithmetic::div_mod::lemma_div_pos_is_pos(p * t, e);
}

/// A finger that comes down at a position that is not negative is reported at zero, unless the
/// surface or the window is so large that its size reads as negative.
pub proof fn started_positions_are_capped(position: Double, target: u32, extent: u32)
    requires
        scalable_signed(position, target, extent),
        position.truncated() >= 0,
        target <= i32::MAX,
        extent <= i32::MAX,
    ensures
        scaled_signed(position, target, extent) == 0,
{
    let p = clamped(position.truncated(), i32::MIN as int, i32::MAX as int);
    let t = target as int;
    assert(p * t >= 0) by (nonlinear_arith)
        requires
            p >= 0,
            t >= 0,
    ;
    vstd::arithmetic::div_mod::lemma_div_pos_is_pos(p * t, extent as int);
}

/// Where the window has no size any more, or has the size of the surface, positions are not
/// scaled: only their fractional part goes, and, of a finger that came down, what lies above
/// zero.
pub proof fn unscaled_positions_are_kept(position: Double, size: u32)
    requires
        size != 0,
    ensures
        inner_width(None, size) == size,
        inner_height(None, size) == size,
        scaled_unsigned(position, size, size) == clamped(position.truncated(), 0, u32::MAX as int),
        scaled_signed(position, size, size) == {
            let kept = clamped(position.truncated(), i32::MIN as int, i32::MAX as int);
            if kept < 0 {
                kept + 0x1_0000_0000
            } else {
                0
            }
        },
{
    vstd::arithmetic::div_mod::lemma_div_by_multiple(
        clamped(position.truncated(), 0, u32::MAX as int),
        size as int,
    );
    lemma_quotient_of_multiple(
        clamped(position.truncated(), i32::MIN as int, i32::MAX as int),
        signed(size),
    );
}

proof fn lemma_quotient_of_multiple(factor: int, divisor: int)
    requires
        divisor != 0,
    ensures
        quotient(factor * divisor, divisor) == factor,
{
    let a = abs(factor) as int;
    let b = abs(divisor) as int;
    assert(abs(factor * divisor) == a * b) by (nonlinear_arith)
        requires
            a == abs(factor),
            b == abs(divisor),
    ;
    vstd::arithmetic::div_mod::lemma_div_by_multiple(a, b);
    assert(factor != 0 ==> ((factor * divisor < 0) == ((factor < 0) != (divisor < 0)))) by (nonlinear_arith)
        requires
            divisor != 0,
    ;
}

} // verus!
