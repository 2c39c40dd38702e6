use libwinit::platform::NativeWindow;
use libwinit::{
    ApplicationAction, ApplicationBuilder, ApplicationHandle, Float64, HostCall, LogicalPosition,
    PhysicalPosition, PhysicalSize, Position, RequestWindowSurfaceSizeAction, RunningApplication,
    Size, SurfaceRescale, WakeUpStep, WindowError, WindowHandle, WindowRedrawRequestedListener,
    WindowResizedListener,
};

fn native(id: usize) -> NativeWindow {
    NativeWindow {
        id,
        outer_position: Some(PhysicalPosition::new(40, 50)),
        surface_size: PhysicalSize::new(640, 480),
        scale_factor: Float64::from_bits(1.5f64.to_bits()),
    }
}

fn started() -> (RunningApplication, ApplicationHandle) {
    let (application, handle) = ApplicationBuilder::new().build(Ok(())).unwrap();
    (application.run(), handle)
}

#[test]
fn new_handle_holds_what_the_platform_told() {
    let window = WindowHandle::for_window(native(7));
    assert_eq!(window.id(), 7);
    assert!(window.is_open());
    assert_eq!(window.outer_position(), PhysicalPosition::new(40, 50));
    assert_eq!(window.surface_size(), PhysicalSize::new(640, 480));
    assert_eq!(f64::from_bits(window.scale_factor().to_bits()), 1.5);
    assert!(window.on_window_redraw().is_empty());
}

#[test]
fn unknown_position_starts_at_the_origin() {
    let window = WindowHandle::for_window(NativeWindow { outer_position: None, ..native(7) });
    assert_eq!(window.outer_position(), PhysicalPosition::new(0, 0));
}

#[test]
fn resize_is_noted_and_listeners_are_told_in_order() {
    let mut window = WindowHandle::for_window(native(1));
    window.add_resized_listener(WindowResizedListener::new(100, 1));
    window.add_resized_listener(WindowResizedListener::new(200, 2));
    window.add_resized_listener(WindowResizedListener::new(100, 3));
    let calls = window.on_window_resized(&PhysicalSize::new(800, 600));
    assert_eq!(
        calls,
        vec![
            HostCall::NotifyResized { callback: 100, thunk: 1, width: 800, height: 600 },
            HostCall::NotifyResized { callback: 200, thunk: 2, width: 800, height: 600 },
            HostCall::NotifyResized { callback: 100, thunk: 3, width: 800, height: 600 },
        ]
    );
    assert_eq!(window.surface_size(), PhysicalSize::new(800, 600));
}

#[test]
fn resize_to_zero_is_ignored() {
    let mut window = WindowHandle::for_window(native(1));
    window.add_resized_listener(WindowResizedListener::new(100, 1));
    let calls = window.on_window_resized(&PhysicalSize::new(0, 0));
    assert!(calls.is_empty());
    assert_eq!(window.surface_size(), PhysicalSize::new(640, 480));
}

#[test]
fn resize_with_one_zero_side_is_noted() {
    let mut window = WindowHandle::for_window(native(1));
    window.add_resized_listener(WindowResizedListener::new(100, 1));
    let calls = window.on_window_resized(&PhysicalSize::new(0, 480));
    assert_eq!(
        calls,
        vec![HostCall::NotifyResized { callback: 100, thunk: 1, width: 0, height: 480 }]
    );
    assert_eq!(window.surface_size(), PhysicalSize::new(0, 480));
}

#[test]
fn every_redraw_reaches_every_listener() {
    let mut window = WindowHandle::for_window(native(1));
    window.add_redraw_listener(WindowRedrawRequestedListener::new(11, 12));
    window.add_redraw_listener(WindowRedrawRequestedListener::new(21, 22));
    let expected = vec![
        HostCall::NotifyRedraw { callback: 11, thunk: 12 },
        HostCall::NotifyRedraw { callback: 21, thunk: 22 },
    ];
    assert_eq!(window.on_window_redraw(), expected);
    assert_eq!(window.on_window_redraw(), expected);
}

#[test]
fn listeners_give_their_own_call() {
    assert_eq!(
        WindowRedrawRequestedListener::new(5, 6).on_redraw_requested(),
        HostCall::NotifyRedraw { callback: 5, thunk: 6 }
    );
    assert_eq!(
        WindowResizedListener::new(5, 6).on_window_resized(&PhysicalSize::new(3, 4)),
        HostCall::NotifyResized { callback: 5, thunk: 6, width: 3, height: 4 }
    );
}

#[test]
fn move_is_noted() {
    let mut window = WindowHandle::for_window(native(1));
    window.on_window_moved(&PhysicalPosition::new(-5, 9));
    assert_eq!(window.outer_position(), PhysicalPosition::new(-5, 9));
    assert_eq!(window.surface_size(), PhysicalSize::new(640, 480));
}

#[test]
fn open_window_passes_wishes_on() {
    let window = WindowHandle::for_window(native(3));
    let position = Position::Physical(PhysicalPosition::new(1, 2));
    assert_eq!(
        window.set_outer_position(position),
        Some(HostCall::SetOuterPosition { window_id: 3, position })
    );
    assert_eq!(window.set_cursor(4), Some(HostCall::SetCursor { window_id: 3, cursor: 4 }));
    assert_eq!(window.focus_window(), Some(HostCall::FocusWindow { window_id: 3 }));
    assert_eq!(window.current_monitor(), Ok(HostCall::QueryCurrentMonitor { window_id: 3 }));
    assert_eq!(window.request_redraw(), Ok(HostCall::RequestRedraw { window_id: 3 }));
    assert_eq!(window.raw_window_handle(), Ok(HostCall::QueryRawWindowHandle { window_id: 3 }));
    assert_eq!(window.raw_display_handle(), Ok(HostCall::QueryRawDisplayHandle { window_id: 3 }));
}

#[test]
fn closed_window_drops_wishes_and_refuses_questions() {
    let mut window = WindowHandle::for_window(native(3));
    assert!(window.close_window());
    assert!(!window.is_open());
    let zero = Float64::from_bits(0);
    let position = Position::Logical(LogicalPosition::new(zero, zero));
    assert_eq!(window.set_outer_position(position), None);
    assert_eq!(window.set_cursor(4), None);
    assert_eq!(window.focus_window(), None);
    assert_eq!(window.current_monitor(), Err(WindowError::Closed));
    assert_eq!(window.request_redraw(), Err(WindowError::Closed));
    assert_eq!(window.raw_window_handle(), Err(WindowError::Closed));
    assert_eq!(window.raw_display_handle(), Err(WindowError::Closed));
}

#[test]
fn closed_error_in_words() {
    assert_eq!(WindowError::Closed.message(), "Window is closed");
}

#[test]
fn getters_after_close_return_what_was_known() {
    let mut window = WindowHandle::for_window(native(9));
    window.on_window_resized(&PhysicalSize::new(1024, 768));
    window.on_window_moved(&PhysicalPosition::new(-1, -2));
    window.close_window();
    assert_eq!(window.id(), 9);
    assert_eq!(window.surface_size(), PhysicalSize::new(1024, 768));
    assert_eq!(window.outer_position(), PhysicalPosition::new(-1, -2));
    assert_eq!(f64::from_bits(window.scale_factor().to_bits()), 1.5);
}

#[test]
fn second_close_does_nothing() {
    let mut window = WindowHandle::for_window(native(9));
    window.add_redraw_listener(WindowRedrawRequestedListener::new(1, 2));
    assert!(window.close_window());
    let after_first = format!("{:?}", window);
    assert!(!window.close_window());
    assert!(!window.close_window());
    assert_eq!(format!("{:?}", window), after_first);
    assert!(!window.is_open());
}

#[test]
fn closed_window_still_tells_its_listeners() {
    let mut window = WindowHandle::for_window(native(9));
    window.add_redraw_listener(WindowRedrawRequestedListener::new(1, 2));
    window.add_resized_listener(WindowResizedListener::new(3, 4));
    window.close_window();
    assert_eq!(window.on_window_redraw(), vec![HostCall::NotifyRedraw { callback: 1, thunk: 2 }]);
    assert_eq!(
        window.on_window_resized(&PhysicalSize::new(5, 6)),
        vec![HostCall::NotifyResized { callback: 3, thunk: 4, width: 5, height: 6 }]
    );
    assert_eq!(window.surface_size(), PhysicalSize::new(5, 6));
}

#[test]
fn resize_request_is_queued_for_the_loop_thread() {
    let (mut running, mut handle) = started();
    running.finish_create_window(0, Some(native(4)));
    let size = Size::Physical(PhysicalSize::new(300, 200));
    let call = running.window(4).unwrap().request_surface_size(&mut handle, size);
    assert_eq!(call, HostCall::WakeUpEventLoop);
    match running.proxy_wake_up(&mut handle) {
        WakeUpStep::Handled(call) => assert_eq!(
            call,
            Some(HostCall::RequestSurfaceSize { window_id: 4, surface_size: size })
        ),
        other => panic!("no action was handled: {:?}", other),
    }
}

#[test]
fn resize_request_names_its_window() {
    let (_, mut handle) = started();
    let window = WindowHandle::for_window(native(12));
    let size = Size::Physical(PhysicalSize::new(1, 2));
    window.request_surface_size(&mut handle, size);
    let (application, mut other) = ApplicationBuilder::new().build(Ok(())).unwrap();
    other.enqueue_action(ApplicationAction::RequestWindowSurfaceSize(
        RequestWindowSurfaceSizeAction { surface_size: size, window_id: 12 },
    ));
    let mut running = application.run();
    let mut first = running.proxy_wake_up(&mut handle);
    let mut second = running.proxy_wake_up(&mut other);
    assert_eq!(format!("{:?}", first), format!("{:?}", second));
    first = running.proxy_wake_up(&mut handle);
    second = running.proxy_wake_up(&mut other);
    assert!(matches!(first, WakeUpStep::Drained(_)));
    assert!(matches!(second, WakeUpStep::Drained(_)));
}

#[test]
fn rescale_starts_from_what_the_handle_holds() {
    let mut window = WindowHandle::for_window(native(1));
    window.on_window_resized(&PhysicalSize::new(100, 50));
    let two = Float64::from_bits(2.0f64.to_bits());
    assert_eq!(
        window.surface_rescale(two),
        Some(SurfaceRescale {
            surface_size: PhysicalSize::new(100, 50),
            scale_factor: Float64::from_bits(1.5f64.to_bits()),
            new_scale_factor: two,
        })
    );
}

#[test]
fn nothing_is_rescaled_by_what_is_no_scale_factor() {
    let window = WindowHandle::for_window(native(1));
    for factor in [0.0f64, -1.0, f64::NAN, f64::INFINITY, 5e-324] {
        assert_eq!(window.surface_rescale(Float64::from_bits(factor.to_bits())), None);
    }
    let broken = WindowHandle::for_window(NativeWindow {
        scale_factor: Float64::from_bits(0),
        ..native(1)
    });
    assert_eq!(broken.surface_rescale(Float64::from_bits(2.0f64.to_bits())), None);
}
