use libwinit::{
    Float64, LogicalSize, PhysicalPosition, PhysicalSize, VirtualKeyCode, WindowAttributes,
    WindowLevel, WinitCursorMovedEvent, WinitEventInputElementState, WinitEventKeyboardInput,
    WinitEventModifiersChanged, WinitEventMouseButton, WinitEventMouseButtonType,
    WinitEventMouseScrollDeltaType, WinitEventTouchPhase, WinitEventType, WinitKeyLocation,
    WinitKeyType, WinitModifierKeyState, WinitMouseInputEvent, WinitMouseScrollDelta,
    WinitMouseWheelEvent, WinitTouchEvent, WinitWindowCloseRequestedEvent,
    WinitWindowFocusedEvent, WinitWindowMovedEvent, WinitWindowResizedEvent,
    WinitWindowScaleFactorChangedEvent,
};

#[test]
fn enumerations_default_to_unknown() {
    assert_eq!(WinitEventType::default(), WinitEventType::Unknown);
    assert_eq!(WinitEventTouchPhase::default(), WinitEventTouchPhase::Unknown);
    assert_eq!(WinitEventMouseScrollDeltaType::default(), WinitEventMouseScrollDeltaType::Unknown);
    assert_eq!(WinitEventInputElementState::default(), WinitEventInputElementState::Unknown);
    assert_eq!(WinitKeyType::default(), WinitKeyType::Unknown);
    assert_eq!(WinitModifierKeyState::default(), WinitModifierKeyState::Unknown);
    assert_eq!(WinitEventMouseButtonType::default(), WinitEventMouseButtonType::Unknown);
}

#[test]
fn records_default_to_nothing_known() {
    assert_eq!(
        WinitEventKeyboardInput::default(),
        WinitEventKeyboardInput {
            device_id: 0,
            scan_code: 0,
            state: WinitEventInputElementState::Unknown,
            key_type: WinitKeyType::Unknown,
            key_location: WinitKeyLocation::Standard,
            named_key: VirtualKeyCode::Unknown,
            character_key: None,
            is_synthetic: false,
        }
    );
    assert_eq!(
        WinitMouseScrollDelta::default(),
        WinitMouseScrollDelta {
            delta_type: WinitEventMouseScrollDeltaType::Unknown,
            x: Float64::from_bits(0),
            y: Float64::from_bits(0),
        }
    );
    assert_eq!(
        WinitEventMouseButton::default(),
        WinitEventMouseButton { button_type: WinitEventMouseButtonType::Unknown, button_code: 0 }
    );
    assert_eq!(WinitWindowCloseRequestedEvent::default(), WinitWindowCloseRequestedEvent);
    assert_eq!(PhysicalPosition::default(), PhysicalPosition { x: 0, y: 0 });
}

#[test]
fn event_records_default_to_zero() {
    let zero = Float64::from_bits(0);
    assert_eq!(
        WinitTouchEvent::default(),
        WinitTouchEvent {
            device_id: 0,
            phase: WinitEventTouchPhase::Unknown,
            x: zero,
            y: zero,
            id: 0,
        }
    );
    assert_eq!(
        WinitMouseWheelEvent::default(),
        WinitMouseWheelEvent {
            device_id: 0,
            phase: WinitEventTouchPhase::Unknown,
            delta: WinitMouseScrollDelta::default(),
        }
    );
    assert_eq!(
        WinitMouseInputEvent::default(),
        WinitMouseInputEvent {
            device_id: 0,
            state: WinitEventInputElementState::Unknown,
            button: WinitEventMouseButton::default(),
        }
    );
    assert_eq!(
        WinitCursorMovedEvent::default(),
        WinitCursorMovedEvent { device_id: 0, x: zero, y: zero }
    );
    assert_eq!(WinitWindowResizedEvent::default(), WinitWindowResizedEvent { width: 0, height: 0 });
    assert_eq!(
        WinitWindowScaleFactorChangedEvent::default(),
        WinitWindowScaleFactorChangedEvent { scale_factor: zero, width: 0, height: 0 }
    );
    assert_eq!(WinitWindowMovedEvent::default(), WinitWindowMovedEvent { x: 0, y: 0 });
    assert_eq!(WinitWindowFocusedEvent::default(), WinitWindowFocusedEvent { is_focused: false });
    let unknown = WinitModifierKeyState::Unknown;
    assert_eq!(
        WinitEventModifiersChanged::default(),
        WinitEventModifiersChanged {
            shift: false,
            ctrl: false,
            alt: false,
            logo: false,
            num_lock: false,
            left_shift: unknown,
            right_shift: unknown,
            left_ctrl: unknown,
            right_ctrl: unknown,
            left_alt: unknown,
            right_alt: unknown,
            left_logo: unknown,
            right_logo: unknown,
        }
    );
}

#[test]
fn number_keeps_its_bits() {
    for value in [0.0f64, -0.0, 1.0, -2.5, 1e300, f64::INFINITY, f64::MIN_POSITIVE] {
        let number = Float64::from_bits(value.to_bits());
        assert_eq!(number.to_bits(), value.to_bits());
        assert_eq!(f64::from_bits(number.to_bits()), value);
    }
    assert_eq!(Float64::zero().to_bits(), 0);
}

#[test]
fn negation_flips_the_sign_and_nothing_else() {
    for value in [0.0f64, -0.0, 1.0, -2.5, 1e300, f64::INFINITY, f64::NEG_INFINITY, 5e-324] {
        let number = Float64::from_bits(value.to_bits());
        let negated = number.negated();
        assert_eq!(negated.to_bits(), (-value).to_bits());
        assert_eq!(negated.negated(), number);
        assert_ne!(negated.is_sign_negative(), number.is_sign_negative());
    }
    let nan = Float64::from_bits(f64::NAN.to_bits());
    assert_eq!(nan.negated().to_bits(), (-f64::NAN).to_bits());
    assert!(f64::from_bits(nan.negated().to_bits()).is_nan());
}

#[test]
fn sign_is_read_from_the_top_bit() {
    assert!(!Float64::from_bits(1.0f64.to_bits()).is_sign_negative());
    assert!(Float64::from_bits((-1.0f64).to_bits()).is_sign_negative());
    assert!(Float64::from_bits((-0.0f64).to_bits()).is_sign_negative());
    assert!(!Float64::from_bits(0).is_sign_negative());
}

#[test]
fn zero_size_is_both_sides_zero() {
    assert!(PhysicalSize::new(0, 0).is_zero());
    assert!(!PhysicalSize::new(0, 1).is_zero());
    assert!(!PhysicalSize::new(1, 0).is_zero());
    assert!(!PhysicalSize::new(800, 600).is_zero());
}

#[test]
fn new_attributes_hold_no_wish() {
    assert_eq!(
        WindowAttributes::new(),
        WindowAttributes {
            title: None,
            decorations: None,
            transparent: None,
            resizable: None,
            surface_size: None,
            maximized: None,
            visible: None,
            window_level: None,
            full_size: None,
        }
    );
}

#[test]
fn attributes_keep_each_wish() {
    let size = LogicalSize::new(
        Float64::from_bits(640.0f64.to_bits()),
        Float64::from_bits(480.0f64.to_bits()),
    );
    let attributes = WindowAttributes::new()
        .with_title("Playground".to_string())
        .with_decorations(false)
        .with_transparent(true)
        .with_resizable(false)
        .with_surface_size(size)
        .with_maximized(true)
        .with_visible(false)
        .with_window_level(WindowLevel::AlwaysOnBottom)
        .with_full_size(true);
    assert_eq!(
        attributes,
        WindowAttributes {
            title: Some("Playground".to_string()),
            decorations: Some(false),
            transparent: Some(true),
            resizable: Some(false),
            surface_size: Some(size),
            maximized: Some(true),
            visible: Some(false),
            window_level: Some(WindowLevel::AlwaysOnBottom),
            full_size: Some(true),
        }
    );
}

#[test]
fn a_later_wish_replaces_an_earlier_one() {
    let attributes = WindowAttributes::new()
        .with_title("first".to_string())
        .with_title("second".to_string());
    assert_eq!(attributes.title, Some("second".to_string()));
    assert_eq!(attributes.decorations, None);
}

#[test]
fn always_on_top_chooses_the_level() {
    assert_eq!(
        WindowAttributes::new().with_always_on_top(true).window_level,
        Some(WindowLevel::AlwaysOnTop)
    );
    assert_eq!(
        WindowAttributes::new().with_always_on_top(false).window_level,
        Some(WindowLevel::Normal)
    );
    assert_eq!(
        WindowAttributes::new()
            .with_window_level(WindowLevel::AlwaysOnBottom)
            .with_always_on_top(false)
            .window_level,
        Some(WindowLevel::Normal)
    );
}

#[test]
fn scale_factors_are_the_positive_normal_numbers() {
    let values = [
        0.0f64,
        -0.0,
        1.0,
        -1.0,
        1.25,
        2.0,
        1e-300,
        1e300,
        f64::MIN_POSITIVE,
        f64::MAX,
        5e-324,
        2.2250738585072009e-308,
        f64::INFINITY,
        f64::NEG_INFINITY,
        f64::NAN,
        -f64::NAN,
    ];
    for value in values {
        let number = Float64::from_bits(value.to_bits());
        assert_eq!(number.is_normal(), value.is_normal(), "{}", value);
        assert_eq!(
            number.is_scale_factor(),
            value.is_sign_positive() && value.is_normal(),
            "{}",
            value
        );
    }
}
