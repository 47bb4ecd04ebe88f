use libwinit::HandleKind;
use libwinit::LoopDirective;
use libwinit::NativeEvent;
use libwinit::ScrollDelta;
use libwinit::Window;
use libwinit::WindowEvent;

#[test]
fn fresh_window_is_stopped_and_empty() {
    let mut w = Window::new(String::from("Test"), 800, 600);
    assert!(!w.is_running());
    assert_eq!(w.poll_event(), None);
    assert_eq!(w.get_window_handle(), 0);
    assert_eq!(w.title().as_str(), "Test");
    assert_eq!(w.width(), 800);
    assert_eq!(w.height(), 600);
}

#[test]
fn fifo_order_over_a_mixed_sequence() {
    let mut w = Window::new(String::from("Test"), 800, 600);
    w.start();
    let evs = vec![
        NativeEvent::Resized { width: 1, height: 2 },
        NativeEvent::Moved { x: -3, y: 4 },
        NativeEvent::KeyboardInput,
        NativeEvent::Focused { focused: true },
        NativeEvent::Occluded { occluded: false },
    ];
    for ev in evs {
        assert_eq!(w.handle_native_event(ev), LoopDirective::Continue);
    }
    assert_eq!(w.poll_event(), Some(WindowEvent::Resized { width: 1, height: 2 }));
    assert_eq!(w.poll_event(), Some(WindowEvent::Moved { x: -3, y: 4 }));
    assert_eq!(w.poll_event(), Some(WindowEvent::KeyboardInput));
    assert_eq!(w.poll_event(), Some(WindowEvent::Focused { focused: true }));
    assert_eq!(w.poll_event(), Some(WindowEvent::Occluded { occluded: false }));
    assert_eq!(w.poll_event(), None);
}

#[test]
fn drain_is_idempotent_until_a_new_event_arrives() {
    let mut w = Window::new(String::from("Test"), 800, 600);
    w.start();
    for _ in 0..5 {
        assert_eq!(w.poll_event(), None);
    }
    w.handle_native_event(NativeEvent::CursorEntered);
    assert_eq!(w.poll_event(), Some(WindowEvent::CursorEntered));
    for _ in 0..5 {
        assert_eq!(w.poll_event(), None);
    }
}

#[test]
fn start_then_stop_scenario() {
    let mut w = Window::new(String::from("Test"), 800, 600);
    w.start();
    assert!(w.is_running());
    w.stop();
    // The cooperative check only runs when the next native event arrives;
    // that event is discarded and the loop is directed to exit.
    let d = w.handle_native_event(NativeEvent::CursorLeft);
    assert_eq!(d, LoopDirective::Exit);
    assert!(!w.is_running());
    assert_eq!(w.poll_event(), None);
}

#[test]
fn resize_event_is_delivered_exactly_once() {
    let mut w = Window::new(String::from("Test"), 800, 600);
    w.start();
    let d = w.handle_native_event(NativeEvent::Resized { width: 1024, height: 768 });
    assert_eq!(d, LoopDirective::Continue);
    assert_eq!(w.poll_event(), Some(WindowEvent::Resized { width: 1024, height: 768 }));
    assert_eq!(w.poll_event(), None);
}

#[test]
fn mouse_wheel_line_delta_is_normalized() {
    let mut w = Window::new(String::from("Test"), 800, 600);
    w.start();
    // A line delta of (0, 1), widened to double precision at the boundary.
    let ev = NativeEvent::MouseWheel {
        delta: ScrollDelta::Lines { x_bits: f64::to_bits(0.0), y_bits: f64::to_bits(1.0) },
    };
    w.handle_native_event(ev);
    match w.poll_event() {
        Some(WindowEvent::MouseWheel { delta_x_bits, delta_y_bits }) => {
            assert_eq!(f64::from_bits(delta_x_bits), 0.0);
            assert_eq!(f64::from_bits(delta_y_bits), 1.0);
        }
        other => panic!("expected a mouse-wheel event, got {:?}", other),
    }
    assert_eq!(w.poll_event(), None);
}

#[test]
fn close_request_is_delivered_once_and_stops_the_bridge() {
    let mut w = Window::new(String::from("Test"), 800, 600);
    w.start();
    let d = w.handle_native_event(NativeEvent::CloseRequested);
    assert_eq!(d, LoopDirective::Exit);
    assert!(!w.is_running());
    // Nothing is ever enqueued after the close request.
    let d2 = w.handle_native_event(NativeEvent::Resized { width: 5, height: 5 });
    assert_eq!(d2, LoopDirective::Exit);
    assert_eq!(w.poll_event(), Some(WindowEvent::CloseRequested));
    assert_eq!(w.poll_event(), None);
}

#[test]
fn redraw_request_rearms_and_is_delivered() {
    let mut w = Window::new(String::from("Test"), 800, 600);
    w.start();
    let d = w.handle_native_event(NativeEvent::RedrawRequested);
    assert_eq!(d, LoopDirective::RequestRedraw);
    assert!(w.is_running());
    assert_eq!(w.poll_event(), Some(WindowEvent::RedrawRequested));
}

#[test]
fn events_before_start_are_discarded() {
    let mut w = Window::new(String::from("Test"), 800, 600);
    let d = w.handle_native_event(NativeEvent::Resized { width: 9, height: 9 });
    assert_eq!(d, LoopDirective::Exit);
    assert_eq!(w.poll_event(), None);
}

#[test]
fn creation_failure_stops_the_bridge() {
    let mut w = Window::new(String::from("Test"), 800, 600);
    w.start();
    assert!(w.needs_window());
    let d = w.on_window_creation_failed();
    assert_eq!(d, LoopDirective::Exit);
    assert!(!w.is_running());
    assert_eq!(w.poll_event(), None);
    assert_eq!(w.get_window_handle(), 0);
}

#[test]
fn handle_is_zero_before_creation_and_nonzero_after() {
    let mut w = Window::new(String::from("Test"), 800, 600);
    w.start();
    assert_eq!(w.get_window_handle(), 0);
    assert!(w.needs_window());
    w.on_window_created(HandleKind::Xlib { window_id: 0x0320_0004 });
    assert!(!w.needs_window());
    assert_eq!(w.get_window_handle(), 0x0320_0004);
    // Event traffic does not disturb the stored handle.
    w.handle_native_event(NativeEvent::Moved { x: 1, y: 2 });
    assert_eq!(w.get_window_handle(), 0x0320_0004);
}

#[test]
fn wayland_handle_is_the_surface_address() {
    let mut w = Window::new(String::from("Test"), 800, 600);
    w.on_window_created(HandleKind::Wayland { surface_addr: 0xdead_beef });
    assert_eq!(w.get_window_handle(), 0xdead_beef);
}

#[test]
fn unsupported_handle_kind_yields_the_zero_sentinel() {
    let mut w = Window::new(String::from("Test"), 800, 600);
    w.on_window_created(HandleKind::Unsupported);
    assert!(!w.needs_window());
    assert_eq!(w.get_window_handle(), 0);
}
