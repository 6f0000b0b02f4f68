use smithay_winit::backend::{Action, InputEvent, Poll, SeatCall, WinitInputBackend};
use smithay_winit::error::WinitInputError;
use smithay_winit::input::{Axis, KeyState, MouseButton, MouseButtonState, Seat, SeatCapabilities, TouchSlot};
use smithay_winit::number::{Double, Single};
use smithay_winit::window::{
    ElementState, Event, MouseScrollDelta, Touch, TouchPhase, WindowEvent, WindowSystem, WinitMouseButton,
};

fn double(value: f64) -> Double {
    Double::from_bits(value.to_bits())
}

fn single(value: f32) -> Single {
    Single::from_bits(value.to_bits())
}

fn key(scancode: u32, state: ElementState) -> Event {
    Event::WindowEvent(WindowEvent::KeyboardInput { scancode, state })
}

fn touch(phase: TouchPhase, id: u64) -> Event {
    Event::WindowEvent(WindowEvent::Touch(Touch { phase, location: (double(4.0), double(5.0)), id }))
}

fn wheel(delta: MouseScrollDelta) -> Event {
    Event::WindowEvent(WindowEvent::MouseWheel { delta })
}

fn closed() -> Event {
    Event::WindowEvent(WindowEvent::Closed)
}

fn backend(system: WindowSystem) -> WinitInputBackend<&'static str> {
    WinitInputBackend::new(system)
}

fn handled() -> WinitInputBackend<&'static str> {
    let mut backend = backend(WindowSystem::X11);
    backend.set_handler("handler");
    backend
}

fn seat() -> Seat {
    Seat::new(0, SeatCapabilities { pointer: true, keyboard: true, touch: true })
}

fn calls(actions: &[Action]) -> Vec<InputEvent> {
    let mut calls = Vec::new();
    for action in actions {
        match action {
            Action::Notify { seat: named, event } => {
                assert_eq!(*named, seat());
                calls.push(*event);
            }
            _ => panic!("not a call: {:?}", action),
        }
    }
    calls
}

fn time(event: &InputEvent) -> u32 {
    match event {
        InputEvent::KeyboardKey(event) => event.time(),
        InputEvent::PointerMoveAbsolute(event) => event.time(),
        InputEvent::PointerAxis(event) => event.time(),
        InputEvent::PointerButton(event) => event.time(),
        InputEvent::TouchDown(event) => event.time(),
        InputEvent::TouchMotion(event) => event.time(),
        InputEvent::TouchUp(event) => event.time(),
        InputEvent::TouchCancel(event) => event.time(),
    }
}

#[test]
fn new_backend_is_at_rest() {
    let mut backend = backend(WindowSystem::Wayland);
    assert_eq!(backend.time_counter(), 0);
    assert_eq!(backend.key_counter(), 0);
    assert_eq!(backend.seat(), seat());
    assert!(backend.get_handler().is_none());
}

#[test]
fn keys_are_counted_and_reported() {
    let mut backend = handled();
    let events = vec![
        key(30, ElementState::Pressed),
        key(31, ElementState::Pressed),
        key(30, ElementState::Released),
        key(31, ElementState::Released),
        key(32, ElementState::Released),
    ];
    let (actions, result) = backend.dispatch_new_events(&events);
    assert_eq!(result, Ok(()));
    let seen: Vec<(u32, u32, u32, KeyState)> = calls(&actions)
        .iter()
        .map(|call| match call {
            InputEvent::KeyboardKey(event) => (event.time(), event.key_code(), event.count(), event.state()),
            _ => panic!("not a key: {:?}", call),
        })
        .collect();
    assert_eq!(
        seen,
        vec![
            (0, 30, 1, KeyState::Pressed),
            (1, 31, 2, KeyState::Pressed),
            (2, 30, 1, KeyState::Released),
            (3, 31, 0, KeyState::Released),
            (4, 32, 0, KeyState::Released),
        ]
    );
    assert_eq!(backend.key_counter(), 0);
    assert_eq!(backend.time_counter(), 5);
}

#[test]
fn pointer_motion_is_reported() {
    let mut backend = handled();
    let event = Event::WindowEvent(WindowEvent::CursorMoved { position: (double(1.5), double(2.5)) });
    let (actions, _) = backend.dispatch_new_events(&vec![event]);
    let calls = calls(&actions);
    assert_eq!(calls.len(), 1);
    match calls[0] {
        InputEvent::PointerMoveAbsolute(event) => {
            assert_eq!(event.time(), 0);
            assert_eq!(event.x().bits, 1.5f64.to_bits());
            assert_eq!(event.y().bits, 2.5f64.to_bits());
        }
        _ => panic!("not a motion"),
    }
}

#[test]
fn pointer_buttons_are_reported() {
    let mut backend = handled();
    let event = Event::WindowEvent(WindowEvent::MouseInput {
        state: ElementState::Pressed,
        button: WinitMouseButton::Middle,
    });
    let (actions, _) = backend.dispatch_new_events(&vec![Event::WindowEvent(WindowEvent::Other), event]);
    let calls = calls(&actions);
    assert_eq!(calls.len(), 1);
    match calls[0] {
        InputEvent::PointerButton(event) => {
            assert_eq!(event.time(), 1);
            assert_eq!(event.button(), MouseButton::Middle);
            assert_eq!(event.state(), MouseButtonState::Pressed);
        }
        _ => panic!("not a button"),
    }
}

fn scrolled(delta: MouseScrollDelta) -> Vec<(Axis, f64)> {
    let mut backend = handled();
    let (actions, _) = backend.dispatch_new_events(&vec![wheel(delta)]);
    assert_eq!(backend.time_counter(), 1);
    calls(&actions)
        .iter()
        .map(|call| match call {
            InputEvent::PointerAxis(event) => {
                assert_eq!(event.time(), 0);
                assert!(event.delta == delta || f64::from_bits(event.amount().bits).is_nan());
                (event.axis(), f64::from_bits(event.amount().bits))
            }
            _ => panic!("not a scroll: {:?}", call),
        })
        .collect()
}

#[test]
fn scrolling_is_reported_for_each_axis_that_moves() {
    assert_eq!(
        scrolled(MouseScrollDelta::LineDelta(single(1.0), single(-2.0))),
        vec![(Axis::Horizontal, 1.0), (Axis::Vertical, -2.0)]
    );
    assert_eq!(
        scrolled(MouseScrollDelta::PixelDelta(double(0.0), double(0.5))),
        vec![(Axis::Vertical, 0.5)]
    );
    assert_eq!(
        scrolled(MouseScrollDelta::PixelDelta(double(-0.5), double(-0.0))),
        vec![(Axis::Horizontal, -0.5)]
    );
    assert_eq!(scrolled(MouseScrollDelta::LineDelta(single(0.0), single(-0.0))), vec![]);
    // A movement that is too small for single precision is still a movement.
    assert_eq!(
        scrolled(MouseScrollDelta::PixelDelta(double(1e-300), double(-1e-300))),
        vec![(Axis::Horizontal, 1e-300), (Axis::Vertical, -1e-300)]
    );
    let odd = scrolled(MouseScrollDelta::LineDelta(single(f32::NAN), single(0.0)));
    assert_eq!(odd.len(), 1);
    assert!(odd[0].1.is_nan());
}

#[test]
fn scrolling_comes_in_its_place_among_other_events() {
    let mut backend = handled();
    let events = vec![
        key(1, ElementState::Pressed),
        Event::Other,
        wheel(MouseScrollDelta::LineDelta(single(2.0), single(3.0))),
        key(1, ElementState::Released),
    ];
    let (actions, _) = backend.dispatch_new_events(&events);
    let calls = calls(&actions);
    assert_eq!(calls.len(), 4);
    assert!(matches!(calls[0], InputEvent::KeyboardKey(_)));
    assert!(matches!(calls[1], InputEvent::PointerAxis(event) if event.axis() == Axis::Horizontal && event.time() == 1));
    assert!(matches!(calls[2], InputEvent::PointerAxis(event) if event.axis() == Axis::Vertical && event.time() == 1));
    assert!(matches!(calls[3], InputEvent::KeyboardKey(event) if event.time() == 2));
}

#[test]
fn touches_are_reported_by_phase() {
    let mut backend = handled();
    let events = vec![
        touch(TouchPhase::Started, 7),
        touch(TouchPhase::Moved, 7),
        touch(TouchPhase::Ended, 7),
        touch(TouchPhase::Cancelled, 8),
    ];
    let (actions, _) = backend.dispatch_new_events(&events);
    let calls = calls(&actions);
    assert_eq!(calls.len(), 5);
    match calls[0] {
        InputEvent::TouchDown(event) => {
            assert_eq!((event.time(), event.slot()), (0, Some(TouchSlot::new(7))));
            assert_eq!(event.x().bits, 4.0f64.to_bits());
            assert_eq!(event.y().bits, 5.0f64.to_bits());
        }
        _ => panic!("not a start"),
    }
    match calls[1] {
        InputEvent::TouchMotion(event) => {
            assert_eq!((event.time(), event.slot()), (1, Some(TouchSlot::new(7))));
            assert_eq!(event.x().bits, 4.0f64.to_bits());
        }
        _ => panic!("not a motion"),
    }
    // A lifted finger moves to its last position first, at the same time.
    match calls[2] {
        InputEvent::TouchMotion(event) => {
            assert_eq!((event.time(), event.slot()), (2, Some(TouchSlot::new(7))));
            assert_eq!(event.y().bits, 5.0f64.to_bits());
        }
        _ => panic!("not a motion"),
    }
    match calls[3] {
        InputEvent::TouchUp(event) => {
            assert_eq!((event.time(), event.slot()), (2, Some(TouchSlot::new(7))))
        }
        _ => panic!("not an end"),
    }
    match calls[4] {
        InputEvent::TouchCancel(event) => {
            assert_eq!((event.time(), event.slot()), (3, Some(TouchSlot::new(8))))
        }
        _ => panic!("not a cancellation"),
    }
}

#[test]
fn resizing_is_confirmed_on_x11() {
    let mut backend = backend(WindowSystem::X11);
    let events = vec![Event::WindowEvent(WindowEvent::Resized(640, 480))];
    let (actions, _) = backend.dispatch_new_events(&events);
    assert_eq!(actions.len(), 1);
    assert!(matches!(actions[0], Action::SetInnerSize(640, 480)));
}

#[test]
fn resizing_reaches_the_surface_on_wayland() {
    let mut backend = backend(WindowSystem::Wayland);
    let events = vec![Event::WindowEvent(WindowEvent::Resized(640, 0xffff_fffe))];
    let (actions, _) = backend.dispatch_new_events(&events);
    assert_eq!(actions.len(), 2);
    assert!(matches!(actions[0], Action::SetInnerSize(640, 0xffff_fffe)));
    assert!(matches!(actions[1], Action::ResizeSurface { width: 640, height: -2, dx: 0, dy: 0 }));
}

#[test]
fn without_handler_time_passes_and_nothing_is_called() {
    let mut backend = backend(WindowSystem::X11);
    let events = vec![
        key(30, ElementState::Pressed),
        wheel(MouseScrollDelta::LineDelta(single(1.0), single(1.0))),
        touch(TouchPhase::Ended, 1),
        Event::Other,
        Event::WindowEvent(WindowEvent::Other),
    ];
    let (actions, result) = backend.dispatch_new_events(&events);
    assert!(actions.is_empty());
    assert_eq!(result, Ok(()));
    assert_eq!(backend.key_counter(), 0);
    assert_eq!(backend.time_counter(), 4);
}

#[test]
fn closing_is_an_error_and_stops_nothing() {
    let mut backend = handled();
    let events = vec![closed(), key(1, ElementState::Pressed)];
    let (actions, result) = backend.dispatch_new_events(&events);
    assert_eq!(result, Err(WinitInputError::WindowClosed));
    assert_eq!(calls(&actions).len(), 1);
    assert_eq!(backend.time_counter(), 2);
    // The next round starts afresh.
    let (_, result) = backend.dispatch_new_events(&vec![]);
    assert_eq!(result, Ok(()));

    let mut idle = WinitInputBackend::<u8>::new(WindowSystem::Wayland);
    assert_eq!(idle.dispatch_new_events(&vec![closed()]).1, Err(WinitInputError::WindowClosed));
}

#[test]
fn events_one_by_one_add_up_to_a_batch() {
    let events = vec![
        key(30, ElementState::Pressed),
        Event::Other,
        wheel(MouseScrollDelta::LineDelta(single(1.0), single(1.0))),
        touch(TouchPhase::Ended, 1),
        closed(),
        Event::WindowEvent(WindowEvent::Resized(1, 2)),
    ];
    let mut whole = handled();
    let (expected, result) = whole.dispatch_new_events(&events);

    let mut single_steps = handled();
    let mut poll = Poll::new();
    let mut actions = Vec::new();
    for event in &events {
        actions.extend(single_steps.dispatch_event(&mut poll, *event));
    }
    assert_eq!(format!("{:?}", actions), format!("{:?}", expected));
    assert_eq!(poll.finish(), result);
    assert_eq!(single_steps.time_counter(), whole.time_counter());
    assert_eq!(single_steps.key_counter(), whole.key_counter());

    let mut parts = handled();
    let (mut first, _) = parts.dispatch_new_events(&events[..3].to_vec());
    let (second, _) = parts.dispatch_new_events(&events[3..].to_vec());
    first.extend(second);
    assert_eq!(format!("{:?}", first), format!("{:?}", expected));
}

#[test]
fn time_stamps_never_go_back() {
    let mut backend = handled();
    let events = vec![
        touch(TouchPhase::Ended, 1),
        Event::Other,
        wheel(MouseScrollDelta::LineDelta(single(1.0), single(1.0))),
        key(2, ElementState::Pressed),
    ];
    let (actions, _) = backend.dispatch_new_events(&events);
    let times: Vec<u32> = calls(&actions).iter().map(time).collect();
    assert_eq!(times, vec![0, 0, 1, 1, 2]);
}

#[test]
fn handlers_learn_of_the_seat_and_of_its_end() {
    let mut backend = backend(WindowSystem::X11);
    let first = backend.set_handler("first");
    assert_eq!(first.len(), 1);
    assert!(matches!(&first[0], SeatCall::Created { seat: named } if *named == seat()));

    let second = backend.set_handler("second");
    assert_eq!(second.len(), 2);
    assert!(matches!(&second[0], SeatCall::Destroyed { handler: "first", seat: named } if *named == seat()));
    assert!(matches!(&second[1], SeatCall::Created { seat: named } if *named == seat()));
    assert_eq!(backend.get_handler().map(|handler| *handler), Some("second"));

    let cleared = backend.clear_handler();
    assert_eq!(cleared.len(), 1);
    assert!(matches!(&cleared[0], SeatCall::Destroyed { handler: "second", seat: named } if *named == seat()));
    assert!(backend.get_handler().is_none());
    assert!(backend.clear_handler().is_empty());
}

#[test]
fn handler_can_be_changed_in_place() {
    let mut backend = handled();
    if let Some(handler) = backend.get_handler() {
        *handler = "changed";
    }
    assert_eq!(backend.get_handler().map(|handler| *handler), Some("changed"));
}

#[test]
fn keys_are_not_counted_while_there_is_no_handler() {
    let mut backend = handled();
    backend.dispatch_new_events(&vec![key(1, ElementState::Pressed)]);
    assert_eq!(backend.key_counter(), 1);
    backend.clear_handler();
    backend.dispatch_new_events(&vec![key(1, ElementState::Released)]);
    assert_eq!(backend.key_counter(), 1);
}
