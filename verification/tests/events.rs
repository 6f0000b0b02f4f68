use smithay_winit::error::{ErrorKind, WinitInputError};
use smithay_winit::events::{
    WinitKeyboardInputEvent, WinitMouseInputEvent, WinitMouseMovedEvent, WinitMouseWheelEvent,
    WinitTouchCancelledEvent, WinitTouchEndedEvent, WinitTouchMovedEvent, WinitTouchStartedEvent,
};
use smithay_winit::graphics::WinitGraphicsBackend;
use smithay_winit::input::{Axis, AxisSource, KeyState, MouseButton, MouseButtonState, TouchSlot};
use smithay_winit::number::{Double, Single};
use smithay_winit::window::{ElementState, MouseScrollDelta, WindowSystem, WinitMouseButton};

fn double(value: f64) -> Double {
    Double::from_bits(value.to_bits())
}

fn single(value: f32) -> Single {
    Single::from_bits(value.to_bits())
}

fn started(x: f64, y: f64) -> WinitTouchStartedEvent {
    WinitTouchStartedEvent { time: 3, location: (double(x), double(y)), id: 17 }
}

fn moved(x: f64, y: f64) -> WinitTouchMovedEvent {
    WinitTouchMovedEvent { time: 4, location: (double(x), double(y)), id: 18 }
}

#[test]
fn keyboard_event_reports_its_parts() {
    let event = WinitKeyboardInputEvent { time: 1, key: 30, count: 2, state: ElementState::Pressed };
    assert_eq!(event.time(), 1);
    assert_eq!(event.key_code(), 30);
    assert_eq!(event.count(), 2);
    assert_eq!(event.state(), KeyState::Pressed);
    let event = WinitKeyboardInputEvent { state: ElementState::Released, ..event };
    assert_eq!(event.state(), KeyState::Released);
}

#[test]
fn button_event_reports_its_parts() {
    let event = WinitMouseInputEvent {
        time: 9,
        button: WinitMouseButton::Other(8),
        state: ElementState::Released,
    };
    assert_eq!(event.time(), 9);
    assert_eq!(event.button(), MouseButton::Other(8));
    assert_eq!(event.state(), MouseButtonState::Released);
}

#[test]
fn buttons_and_states_keep_their_names() {
    assert_eq!(MouseButton::from(WinitMouseButton::Left), MouseButton::Left);
    assert_eq!(MouseButton::from(WinitMouseButton::Right), MouseButton::Right);
    assert_eq!(MouseButton::from(WinitMouseButton::Middle), MouseButton::Middle);
    assert_eq!(MouseButton::from(WinitMouseButton::Other(5)), MouseButton::Other(5));
    assert_eq!(KeyState::from(ElementState::Pressed), KeyState::Pressed);
    assert_eq!(KeyState::from(ElementState::Released), KeyState::Released);
    assert_eq!(MouseButtonState::from(ElementState::Pressed), MouseButtonState::Pressed);
    assert_eq!(MouseButtonState::from(ElementState::Released), MouseButtonState::Released);
}

#[test]
fn pointer_positions_are_capped_at_zero() {
    for x in [0.0, 12.5, 1279.0, -4.0, f64::NAN, f64::INFINITY] {
        let event = WinitMouseMovedEvent { time: 2, x: double(x), y: double(-x) };
        assert_eq!(event.time(), 2);
        assert_eq!(event.x().bits, x.to_bits());
        assert_eq!(event.y().bits, (-x).to_bits());
        let capped = |value: f64, size: u32, inner: u32| {
            std::cmp::min((value * size as f64 / inner as f64) as u32, 0)
        };
        assert_eq!(event.x_transformed(1920), capped(x, 1920, 1280));
        assert_eq!(event.y_transformed(1080), capped(-x, 1080, 800));
        assert_eq!(event.x_transformed(1920), 0);
    }
}

#[test]
fn scroll_event_reports_the_amount_along_its_axis() {
    let delta = MouseScrollDelta::LineDelta(single(1.25), single(-3.0));
    let event = WinitMouseWheelEvent { axis: Axis::Horizontal, time: 6, delta };
    assert_eq!(event.time(), 6);
    assert_eq!(event.axis(), Axis::Horizontal);
    assert_eq!(event.source(), AxisSource::Wheel);
    assert_eq!(f64::from_bits(event.amount().bits), 1.25);
    let event = WinitMouseWheelEvent { axis: Axis::Vertical, ..event };
    assert_eq!(f64::from_bits(event.amount().bits), -3.0);
    let delta = MouseScrollDelta::LineDelta(single(1.25), single(0.1));
    let event = WinitMouseWheelEvent { delta, ..event };
    assert_eq!(f64::from_bits(event.amount().bits), 0.1f32 as f64);

    let delta = MouseScrollDelta::PixelDelta(double(0.1), double(64.5));
    let event = WinitMouseWheelEvent { axis: Axis::Vertical, time: 7, delta };
    assert_eq!(event.source(), AxisSource::Continuous);
    assert_eq!(f64::from_bits(event.amount().bits), 64.5);
    let event = WinitMouseWheelEvent { axis: Axis::Horizontal, ..event };
    assert_eq!(f64::from_bits(event.amount().bits), 0.1);
}

#[test]
fn scroll_events_compare_by_value() {
    let with = |delta: MouseScrollDelta| WinitMouseWheelEvent { axis: Axis::Vertical, time: 1, delta };
    let zero = with(MouseScrollDelta::LineDelta(single(0.0), single(1.0)));
    let other_zero = with(MouseScrollDelta::LineDelta(single(-0.0), single(1.0)));
    let pixels = with(MouseScrollDelta::PixelDelta(double(0.0), double(1.0)));
    let nan = with(MouseScrollDelta::LineDelta(single(f32::NAN), single(1.0)));
    assert!(zero == other_zero);
    assert!(zero != pixels);
    assert!(nan != nan);
    assert!(pixels == with(MouseScrollDelta::PixelDelta(double(-0.0), double(1.0))));
    assert!(pixels != with(MouseScrollDelta::PixelDelta(double(0.0), double(1.5))));
    assert!(zero != WinitMouseWheelEvent { time: 2, ..zero });
    assert!(zero != WinitMouseWheelEvent { axis: Axis::Horizontal, ..zero });
}

#[test]
fn touch_events_report_their_parts() {
    let event = started(1.5, -2.5);
    assert_eq!(event.time(), 3);
    assert_eq!(event.slot(), Some(TouchSlot::new(17)));
    assert_eq!(event.x().bits, 1.5f64.to_bits());
    assert_eq!(event.y().bits, (-2.5f64).to_bits());
    let event = moved(3.5, 4.5);
    assert_eq!(event.time(), 4);
    assert_eq!(event.slot(), Some(TouchSlot::new(18)));
    assert_eq!(event.x().bits, 3.5f64.to_bits());
    assert_eq!(event.y().bits, 4.5f64.to_bits());
    let event = WinitTouchEndedEvent { time: 5, id: 19 };
    assert_eq!((event.time(), event.slot()), (5, Some(TouchSlot::new(19))));
    let event = WinitTouchCancelledEvent { time: 6, id: 20 };
    assert_eq!((event.time(), event.slot()), (6, Some(TouchSlot::new(20))));
}

#[test]
fn started_touches_are_scaled_with_sign_and_capped() {
    let size = Some((1280, 800));
    // To the right of and below the corner: capped.
    assert_eq!(started(640.0, 400.0).x_transformed(1920, size), 0);
    assert_eq!(started(640.0, 400.0).y_transformed(1080, size), 0);
    // To the left of and above it: the sign is handed on in the bits.
    assert_eq!(started(-640.9, -100.0).x_transformed(1920, size), (-960i32) as u32);
    assert_eq!(started(-640.9, -100.0).y_transformed(1080, size), (-135i32) as u32);
    // Division rounds towards zero.
    assert_eq!(started(-1.0, 0.0).x_transformed(1, Some((2, 0))), 0);
    assert_eq!(started(-3.0, 0.0).x_transformed(1, Some((2, 0))), (-1i32) as u32);
    // A size is read with sign as well.
    assert_eq!(started(5.0, 0.0).x_transformed(0xffff_ffff, Some((2, 0))), (-2i32) as u32);
    assert_eq!(started(-5.0, 0.0).x_transformed(0xffff_ffff, Some((0xffff_fffe, 0))), (-2i32) as u32);
}

#[test]
fn moved_touches_are_scaled() {
    let size = Some((1280, 800));
    assert_eq!(moved(640.9, 400.0).x_transformed(1920, size), 960);
    assert_eq!(moved(640.9, 400.0).y_transformed(1080, size), 540);
    assert_eq!(moved(-640.9, -1.0).x_transformed(1920, size), 0);
    assert_eq!(moved(1279.0, 799.0).x_transformed(1920, size), 1918);
    assert_eq!(moved(1279.0, 799.0).y_transformed(1080, size), 1078);
}

#[test]
fn moved_touches_keep_their_order() {
    let positions = [f64::NEG_INFINITY, -3.0, -0.5, 0.0, 0.9, 1.0, 7.25, 7.5, 1279.9, 5000.0];
    let scaled = positions.map(|x| moved(x, 0.0).x_transformed(1000, Some((1280, 800))));
    assert_eq!(scaled, [0, 0, 0, 0, 0, 0, 5, 5, 999, 3906]);
}

#[test]
fn touches_without_a_window_size_are_not_scaled() {
    assert_eq!(started(-7.5, -8.5).x_transformed(1920, None), (-7i32) as u32);
    assert_eq!(started(-7.5, -8.5).y_transformed(1080, None), (-8i32) as u32);
    assert_eq!(moved(7.5, 8.5).x_transformed(1920, None), 7);
    assert_eq!(moved(7.5, 8.5).y_transformed(1080, None), 8);
    assert_eq!(moved(7.5, 8.5).x_transformed(1920, Some((1920, 1))), 7);
}

#[test]
fn errors_are_described() {
    assert_eq!(WinitInputError::WindowClosed.description(), "Glutin Window was closed");
    assert_eq!(WinitInputError::WindowClosed.to_string(), "Glutin Window was closed");
    let failed: ErrorKind<u8> = ErrorKind::InitFailed;
    assert_eq!(failed.description(), Some("Failed to initialize a window"));
    let unsupported: ErrorKind<u8> = ErrorKind::NotSupported;
    assert_eq!(
        unsupported.description(),
        Some("Context creation is not supported on the current window system.")
    );
    assert_eq!(ErrorKind::EGL(3u8).description(), None);
}

#[test]
fn graphics_backend_answers_for_the_window() {
    let graphics = WinitGraphicsBackend::new(WindowSystem::X11);
    assert_eq!(graphics.system, WindowSystem::X11);
    assert_eq!(graphics.set_cursor_position(3, 0xffff_ffff), (3, -1));
    assert_eq!(graphics.get_framebuffer_dimensions(Some((640, 480))), (640, 480));
    assert!(graphics.is_current(true, true));
    assert!(!graphics.is_current(true, false));
    assert!(!graphics.is_current(false, true));
    assert!(!graphics.is_current(false, false));
}
