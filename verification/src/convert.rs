//! From the platform's reports to the normalized vocabulary.
//!
//! The mapping is total: every report has a defined list of normalized
//! events, and for many of them that list is empty.

use vstd::prelude::*;
use crate::events::{
    NormalizedEvent, VirtualKeyCode, WinitCursorMovedEvent, WinitEventInputElementState,
    WinitEventKeyboardInput, WinitEventModifiersChanged, WinitEventMouseButton,
    WinitEventMouseButtonType, WinitEventMouseScrollDeltaType, WinitEventReceivedText,
    WinitEventTouchPhase, WinitKeyLocation, WinitKeyType, WinitModifierKeyState,
    WinitMouseInputEvent, WinitMouseScrollDelta, WinitMouseWheelEvent,
    WinitWindowCloseRequestedEvent, WinitWindowFocusedEvent, WinitWindowMovedEvent,
    WinitWindowResizedEvent, WinitWindowScaleFactorChangedEvent,
};
use crate::geometry::PhysicalSize;
use crate::platform::{
    ButtonSource, ElementState, Ime, Key, KeyEvent, KeyLocation, Modifiers, MouseButton,
    MouseScrollDelta, TouchPhase, WindowEvent,
};

verus! {

/// The key that a keyboard event is about: on the numeric keypad the key
/// with every modifier applied, so that a keypad key keeps the character it
/// produces; anywhere else the key as if no modifier were held.
pub open spec fn relevant_key(event: KeyEvent) -> Key {
    if event.location == KeyLocation::Numpad {
        event.logical_key
    } else {
        event.key_without_modifiers
    }
}

pub open spec fn element_state_of(state: ElementState) -> WinitEventInputElementState {
    match state {
        ElementState::Pressed => WinitEventInputElementState::Pressed,
        ElementState::Released => WinitEventInputElementState::Released,
    }
}

pub open spec fn touch_phase_of(phase: TouchPhase) -> WinitEventTouchPhase {
    match phase {
        TouchPhase::Started => WinitEventTouchPhase::Started,
        TouchPhase::Moved => WinitEventTouchPhase::Moved,
        TouchPhase::Ended => WinitEventTouchPhase::Ended,
        TouchPhase::Cancelled => WinitEventTouchPhase::Cancelled,
    }
}

/// The keyboard record of a key event if `key` is the key that the event is
/// about: the state and the place on the keyboard are the event's, the
/// identity is that of `key`.
pub open spec fn keyboard_input_about(
    key: Key,
    event: KeyEvent,
    is_synthetic: bool,
) -> WinitEventKeyboardInput {
    WinitEventKeyboardInput {
        device_id: 0,
        scan_code: 0,
        state: element_state_of(event.state),
        key_type: match key {
            Key::Named(_) => WinitKeyType::Named,
            Key::Character(_) => WinitKeyType::Character,
            _ => WinitKeyType::Unknown,
        },
        key_location: WinitKeyLocation::of(event.location),
        named_key: match key {
            Key::Named(code) => VirtualKeyCode::Named(code),
            _ => VirtualKeyCode::Unknown,
        },
        character_key: match key {
            Key::Character(text) => Some(text),
            _ => None,
        },
        is_synthetic,
    }
}

/// The keyboard record of a key event: the record about its relevant key.
pub open spec fn keyboard_input_of(event: KeyEvent, is_synthetic: bool) -> WinitEventKeyboardInput {
    keyboard_input_about(relevant_key(event), event, is_synthetic)
}

/// The text that a key event delivers: the fully modified text of a key
/// that went down, and nothing for a release or a key without text.
pub open spec fn received_text_of(event: KeyEvent) -> Option<WinitEventReceivedText> {
    if event.state == ElementState::Pressed {
        match event.text_with_all_modifiers {
            Some(text) => Some(WinitEventReceivedText { text }),
            None => None,
        }
    } else {
        None
    }
}

pub open spec fn modifiers_changed_of(modifiers: Modifiers) -> WinitEventModifiersChanged {
    WinitEventModifiersChanged {
        shift: modifiers.shift_key,
        ctrl: modifiers.control_key,
        alt: modifiers.alt_key,
        logo: modifiers.meta_key,
        num_lock: false,
        left_shift: WinitModifierKeyState::of(modifiers.lshift_state),
        right_shift: WinitModifierKeyState::of(modifiers.rshift_state),
        left_ctrl: WinitModifierKeyState::of(modifiers.lcontrol_state),
        right_ctrl: WinitModifierKeyState::of(modifiers.rcontrol_state),
        left_alt: WinitModifierKeyState::of(modifiers.lalt_state),
        right_alt: WinitModifierKeyState::of(modifiers.ralt_state),
        left_logo: WinitModifierKeyState::of(modifiers.lsuper_state),
        right_logo: WinitModifierKeyState::of(modifiers.rsuper_state),
    }
}

/// The scroll distance as consumers get it: the unit is kept, the vertical
/// part is kept, the horizontal part changes its sign.
pub open spec fn scroll_delta_of(delta: MouseScrollDelta) -> WinitMouseScrollDelta {
    match delta {
        MouseScrollDelta::LineDelta(x, y) => WinitMouseScrollDelta {
            delta_type: WinitEventMouseScrollDeltaType::LineDelta,
            x: x.spec_negated(),
            y,
        },
        MouseScrollDelta::PixelDelta(x, y) => WinitMouseScrollDelta {
            delta_type: WinitEventMouseScrollDeltaType::PixelDelta,
            x: x.spec_negated(),
            y,
        },
    }
}

/// The button of a press or release. The five usual mouse buttons have the
/// codes 0 to 4; a finger counts as the left button; anything else is
/// `Other` under the code that the platform gave.
pub open spec fn mouse_button_of(button: ButtonSource) -> WinitEventMouseButton {
    match button {
        ButtonSource::Mouse(MouseButton::Left) => WinitEventMouseButton {
            button_type: WinitEventMouseButtonType::Left,
            button_code: 0,
        },
        ButtonSource::Mouse(MouseButton::Right) => WinitEventMouseButton {
            button_type: WinitEventMouseButtonType::Right,
            button_code: 1,
        },
        ButtonSource::Mouse(MouseButton::Middle) => WinitEventMouseButton {
            button_type: WinitEventMouseButtonType::Middle,
            button_code: 2,
        },
        ButtonSource::Mouse(MouseButton::Back) => WinitEventMouseButton {
            button_type: WinitEventMouseButtonType::Back,
            button_code: 3,
        },
        ButtonSource::Mouse(MouseButton::Forward) => WinitEventMouseButton {
            button_type: WinitEventMouseButtonType::Forward,
            button_code: 4,
        },
        ButtonSource::Mouse(MouseButton::Other(code)) => WinitEventMouseButton {
            button_type: WinitEventMouseButtonType::Other,
            button_code: code,
        },
        ButtonSource::Touch => WinitEventMouseButton {
            button_type: WinitEventMouseButtonType::Left,
            button_code: 0,
        },
        ButtonSource::Unknown(code) => WinitEventMouseButton {
            button_type: WinitEventMouseButtonType::Other,
            button_code: code,
        },
    }
}

/// The normalized events of one report of the platform, in the order in
/// which consumers receive them.
pub open spec fn converted(event: WindowEvent) -> Seq<NormalizedEvent> {
    match event {
        WindowEvent::SurfaceResized(size) => if size.spec_is_zero() {
            seq![]
        } else {
            seq![
                NormalizedEvent::Resized(
                    WinitWindowResizedEvent { width: size.width, height: size.height },
                ),
            ]
        },
        WindowEvent::Moved(position) => seq![
            NormalizedEvent::Moved(WinitWindowMovedEvent { x: position.x, y: position.y }),
        ],
        WindowEvent::CloseRequested => seq![
            NormalizedEvent::CloseRequested(WinitWindowCloseRequestedEvent),
        ],
        WindowEvent::Focused(is_focused) => seq![
            NormalizedEvent::Focused(WinitWindowFocusedEvent { is_focused }),
        ],
        WindowEvent::KeyboardInput { event, is_synthetic } => {
            let keyboard_input = NormalizedEvent::KeyboardInput(
                keyboard_input_of(event, is_synthetic),
            );
            match received_text_of(event) {
                Some(text) => seq![keyboard_input, NormalizedEvent::ReceivedText(text)],
                None => seq![keyboard_input],
            }
        },
        WindowEvent::Ime(Ime::Commit(text)) => seq![
            NormalizedEvent::ReceivedText(WinitEventReceivedText { text }),
        ],
        WindowEvent::ModifiersChanged(modifiers) => seq![
            NormalizedEvent::ModifiersChanged(modifiers_changed_of(modifiers)),
        ],
        WindowEvent::PointerMoved { x, y } => seq![
            NormalizedEvent::CursorMoved(WinitCursorMovedEvent { device_id: 0, x, y }),
        ],
        WindowEvent::MouseWheel { delta, phase } => seq![
            NormalizedEvent::MouseWheel(
                WinitMouseWheelEvent {
                    device_id: 0,
                    phase: touch_phase_of(phase),
                    delta: scroll_delta_of(delta),
                },
            ),
        ],
        WindowEvent::PointerButton { state, button } => seq![
            NormalizedEvent::MouseInput(
                WinitMouseInputEvent {
                    device_id: 0,
                    state: element_state_of(state),
                    button: mouse_button_of(button),
                },
            ),
        ],
        WindowEvent::ScaleFactorChanged { scale_factor, surface_size } => seq![
            NormalizedEvent::ScaleFactorChanged(
                WinitWindowScaleFactorChangedEvent {
                    scale_factor,
                    width: surface_size.width,
                    height: surface_size.height,
                },
            ),
        ],
        _ => seq![],
    }
}

/// The surface size that a report asks the platform to adopt: the new size
/// that comes with a change of scale factor, and nothing for any other report.
pub open spec fn requested_surface_size(event: WindowEvent) -> Option<PhysicalSize> {
    match event {
        WindowEvent::ScaleFactorChanged { scale_factor, surface_size } => Some(surface_size),
        _ => None,
    }
}

/// A key on the numeric keypad is reported with every modifier applied; a
/// key anywhere else is reported as if no modifier were held.
pub proof fn lemma_keypad_keeps_modified_key(event: KeyEvent, is_synthetic: bool)
    ensures
        event.location == KeyLocation::Numpad ==> keyboard_input_of(event, is_synthetic)
            == keyboard_input_about(event.logical_key, event, is_synthetic),
        event.location != KeyLocation::Numpad ==> keyboard_input_of(event, is_synthetic)
            == keyboard_input_about(event.key_without_modifiers, event, is_synthetic),
{
}

/// Every key event gives a keyboard record first. A text record follows it
/// if and only if the key went down and has text with all modifiers applied.
pub proof fn lemma_key_event_gives_keyboard_input_then_text(event: KeyEvent, is_synthetic: bool)
    ensures
        converted(WindowEvent::KeyboardInput { event, is_synthetic })[0]
            == NormalizedEvent::KeyboardInput(keyboard_input_of(event, is_synthetic)),
        converted(WindowEvent::KeyboardInput { event, is_synthetic }).len() == if event.state
            == ElementState::Pressed && event.text_with_all_modifiers.is_some() {
            2nat
        } else {
            1nat
        },
        event.state == ElementState::Pressed && event.text_with_all_modifiers.is_some()
            ==> converted(WindowEvent::KeyboardInput { event, is_synthetic })[1]
            == NormalizedEvent::ReceivedText(
            WinitEventReceivedText { text: event.text_with_all_modifiers.unwrap() },
        ),
{
}

/// A keyboard record is consistent in itself: it names a key if and only if
/// its key is a named one, and it carries a character if and only if its key
/// is a character.
pub proof fn lemma_keyboard_input_is_consistent(event: KeyEvent, is_synthetic: bool)
    ensures
        keyboard_input_of(event, is_synthetic).key_type == WinitKeyType::Named
            <==> keyboard_input_of(event, is_synthetic).named_key != VirtualKeyCode::Unknown,
        keyboard_input_of(event, is_synthetic).key_type == WinitKeyType::Character
            <==> keyboard_input_of(event, is_synthetic).character_key.is_some(),
{
}

/// No report gives more than two events, and only a key that goes down with
/// text gives two.
pub proof fn lemma_at_most_two_events(event: WindowEvent)
    ensures
        converted(event).len() <= 2,
        converted(event).len() == 2 ==> event is KeyboardInput,
{
}

/// Scrolling keeps its unit and its vertical part. Its horizontal part
/// keeps its magnitude and changes its sign.
pub proof fn lemma_scroll_inverts_horizontal(delta: MouseScrollDelta)
    ensures
        match delta {
            MouseScrollDelta::LineDelta(x, y) => {
                &&& scroll_delta_of(delta).delta_type == WinitEventMouseScrollDeltaType::LineDelta
                &&& scroll_delta_of(delta).y == y
                &&& scroll_delta_of(delta).x.spec_magnitude() == x.spec_magnitude()
                &&& scroll_delta_of(delta).x.spec_is_sign_negative() == !x.spec_is_sign_negative()
            },
            MouseScrollDelta::PixelDelta(x, y) => {
                &&& scroll_delta_of(delta).delta_type == WinitEventMouseScrollDeltaType::PixelDelta
                &&& scroll_delta_of(delta).y == y
                &&& scroll_delta_of(delta).x.spec_magnitude() == x.spec_magnitude()
                &&& scroll_delta_of(delta).x.spec_is_sign_negative() == !x.spec_is_sign_negative()
            },
        },
{
    match delta {
        MouseScrollDelta::LineDelta(x, y) => {
            x.lemma_negated_flips_sign_only();
        },
        MouseScrollDelta::PixelDelta(x, y) => {
            x.lemma_negated_flips_sign_only();
        },
    }
}

/// A resize to zero by zero gives no event. A resize to any other size
/// gives one event, which carries that size.
pub proof fn lemma_resize_gives_one_event_unless_zero(size: PhysicalSize)
    ensures
        size.spec_is_zero() ==> converted(WindowEvent::SurfaceResized(size)).len() == 0,
        !size.spec_is_zero() ==> converted(WindowEvent::SurfaceResized(size)) == seq![
            NormalizedEvent::Resized(
                WinitWindowResizedEvent { width: size.width, height: size.height },
            ),
        ],
{
}

fn convert_keyboard_input(event: KeyEvent, is_synthetic: bool) -> (events: Vec<NormalizedEvent>)
    ensures
        events@ == converted(WindowEvent::KeyboardInput { event, is_synthetic }),
{
    let mut keyboard_input = WinitEventKeyboardInput::default();
    match event.state {
        ElementState::Pressed => {
            keyboard_input.state = WinitEventInputElementState::Pressed;
        },
        ElementState::Released => {
            keyboard_input.state = WinitEventInputElementState::Released;
        },
    }
    let pressed = matches!(event.state, ElementState::Pressed);
    let numpad = matches!(event.location, KeyLocation::Numpad);
    keyboard_input.key_location = WinitKeyLocation::from(event.location);
    keyboard_input.is_synthetic = is_synthetic;

    let relevant = if numpad {
        event.logical_key
    } else {
        event.key_without_modifiers
    };
    match relevant {
        Key::Named(code) => {
            keyboard_input.key_type = WinitKeyType::Named;
            keyboard_input.named_key = VirtualKeyCode::Named(code);
        },
        Key::Character(text) => {
            keyboard_input.key_type = WinitKeyType::Character;
            keyboard_input.character_key = Some(text);
        },
        _ => {
            keyboard_input.key_type = WinitKeyType::Unknown;
        },
    }

    let mut events = vec![NormalizedEvent::KeyboardInput(keyboard_input)];
    if pressed {
        if let Some(text) = event.text_with_all_modifiers {
            events.push(NormalizedEvent::ReceivedText(WinitEventReceivedText { text }));
        }
    }
    events
}

fn convert_modifiers(modifiers: Modifiers) -> (r: WinitEventModifiersChanged)
    ensures
        r == modifiers_changed_of(modifiers),
{
    WinitEventModifiersChanged {
        shift: modifiers.shift_key,
        ctrl: modifiers.control_key,
        alt: modifiers.alt_key,
        logo: modifiers.meta_key,
        num_lock: false,
        left_shift: WinitModifierKeyState::from(modifiers.lshift_state),
        right_shift: WinitModifierKeyState::from(modifiers.rshift_state),
        left_ctrl: WinitModifierKeyState::from(modifiers.lcontrol_state),
        right_ctrl: WinitModifierKeyState::from(modifiers.rcontrol_state),
        left_alt: WinitModifierKeyState::from(modifiers.lalt_state),
        right_alt: WinitModifierKeyState::from(modifiers.ralt_state),
        left_logo: WinitModifierKeyState::from(modifiers.lsuper_state),
        right_logo: WinitModifierKeyState::from(modifiers.rsuper_state),
    }
}

fn convert_mouse_wheel(delta: MouseScrollDelta, phase: TouchPhase) -> (r: WinitMouseWheelEvent)
    ensures
        r == (WinitMouseWheelEvent {
            device_id: 0,
            phase: touch_phase_of(phase),
            delta: scroll_delta_of(delta),
        }),
{
    let mut mouse_wheel_event = WinitMouseWheelEvent::default();
    match delta {
        MouseScrollDelta::LineDelta(x, y) => {
            mouse_wheel_event.delta.delta_type = WinitEventMouseScrollDeltaType::LineDelta;
            mouse_wheel_event.delta.x = x.negated();
            mouse_wheel_event.delta.y = y;
        },
        MouseScrollDelta::PixelDelta(x, y) => {
            mouse_wheel_event.delta.delta_type = WinitEventMouseScrollDeltaType::PixelDelta;
            mouse_wheel_event.delta.x = x.negated();
            mouse_wheel_event.delta.y = y;
        },
    }
    match phase {
        TouchPhase::Started => {
            mouse_wheel_event.phase = WinitEventTouchPhase::Started;
        },
        TouchPhase::Moved => {
            mouse_wheel_event.phase = WinitEventTouchPhase::Moved;
        },
        TouchPhase::Ended => {
            mouse_wheel_event.phase = WinitEventTouchPhase::Ended;
        },
        TouchPhase::Cancelled => {
            mouse_wheel_event.phase = WinitEventTouchPhase::Cancelled;
        },
    }
    mouse_wheel_event
}

fn convert_pointer_button(state: ElementState, button: ButtonSource) -> (r: WinitMouseInputEvent)
    ensures
        r == (WinitMouseInputEvent {
            device_id: 0,
            state: element_state_of(state),
            button: mouse_button_of(button),
        }),
{
    let mut mouse_input_event = WinitMouseInputEvent::default();
    match state {
        ElementState::Released => {
            mouse_input_event.state = WinitEventInputElementState::Released;
        },
        ElementState::Pressed => {
            mouse_input_event.state = WinitEventInputElementState::Pressed;
        },
    }
    match button {
        ButtonSource::Mouse(mouse_button) => match mouse_button {
            MouseButton::Left => {
                mouse_input_event.button.button_type = WinitEventMouseButtonType::Left;
                mouse_input_event.button.button_code = 0;
            },
            MouseButton::Right => {
                mouse_input_event.button.button_type = WinitEventMouseButtonType::Right;
                mouse_input_event.button.button_code = 1;
            },
            MouseButton::Middle => {
                mouse_input_event.button.button_type = WinitEventMouseButtonType::Middle;
                mouse_input_event.button.button_code = 2;
            },
            MouseButton::Other(code) => {
                mouse_input_event.button.button_type = WinitEventMouseButtonType::Other;
                mouse_input_event.button.button_code = code;
            },
            MouseButton::Back => {
                mouse_input_event.button.button_type = WinitEventMouseButtonType::Back;
                mouse_input_event.button.button_code = 3;
            },
            MouseButton::Forward => {
                mouse_input_event.button.button_type = WinitEventMouseButtonType::Forward;
                mouse_input_event.button.button_code = 4;
            },
        },
        ButtonSource::Touch => {
            mouse_input_event.button.button_type = WinitEventMouseButtonType::Left;
            mouse_input_event.button.button_code = 0;
        },
        ButtonSource::Unknown(code) => {
            mouse_input_event.button.button_type = WinitEventMouseButtonType::Other;
            mouse_input_event.button.button_code = code;
        },
    }
    mouse_input_event
}

/// Turns one report of the platform into the normalized events that
/// consumers get for it.
///
/// A resize to zero by zero gives nothing, because a minimized window has
/// not really changed its size. Pointer crossings, destruction and redraw
/// requests give nothing either: they are dropped on purpose.
pub fn convert_event(event: WindowEvent) -> (events: Vec<NormalizedEvent>)
    ensures
        events@ == converted(event),
{
    match event {
        WindowEvent::SurfaceResized(size) => {
            let width = size.width;
            let height = size.height;
            if width == 0 && height == 0 {
                vec![]
            } else {
                vec![NormalizedEvent::Resized(WinitWindowResizedEvent { width, height })]
            }
        },
        WindowEvent::Moved(position) => vec![
            NormalizedEvent::Moved(WinitWindowMovedEvent { x: position.x, y: position.y }),
        ],
        WindowEvent::CloseRequested => vec![
            NormalizedEvent::CloseRequested(WinitWindowCloseRequestedEvent),
        ],
        WindowEvent::Destroyed => vec![],
        WindowEvent::Focused(focused) => vec![
            NormalizedEvent::Focused(WinitWindowFocusedEvent { is_focused: focused }),
        ],
        WindowEvent::KeyboardInput { event, is_synthetic } => convert_keyboard_input(
            event,
            is_synthetic,
        ),
        WindowEvent::Ime(Ime::Commit(text)) => vec![
            NormalizedEvent::ReceivedText(WinitEventReceivedText { text }),
        ],
        WindowEvent::ModifiersChanged(modifiers) => vec![
            NormalizedEvent::ModifiersChanged(convert_modifiers(modifiers)),
        ],
        WindowEvent::PointerMoved { x, y } => vec![
            NormalizedEvent::CursorMoved(WinitCursorMovedEvent { device_id: 0, x, y }),
        ],
        WindowEvent::PointerEntered => vec![],
        WindowEvent::PointerLeft => vec![],
        WindowEvent::MouseWheel { delta, phase } => vec![
            NormalizedEvent::MouseWheel(convert_mouse_wheel(delta, phase)),
        ],
        WindowEvent::PointerButton { state, button } => vec![
            NormalizedEvent::MouseInput(convert_pointer_button(state, button)),
        ],
        WindowEvent::ScaleFactorChanged { scale_factor, surface_size } => vec![
            NormalizedEvent::ScaleFactorChanged(
                WinitWindowScaleFactorChangedEvent {
                    scale_factor,
                    width: surface_size.width,
                    height: surface_size.height,
                },
            ),
        ],
        WindowEvent::RedrawRequested => vec![],
        _ => vec![],
    }
}

/// The surface size that the platform is to adopt in answer to a report.
pub fn surface_size_request(event: &WindowEvent) -> (r: Option<PhysicalSize>)
    ensures
        r == requested_surface_size(*event),
{
    match event {
        WindowEvent::ScaleFactorChanged { scale_factor, surface_size } => Some(*surface_size),
        _ => None,
    }
}

} // verus!
