//! The normalized event vocabulary: a small, closed set of plain records
//! that stands between the platform's reports and the consumers.

use vstd::prelude::*;
use std::collections::VecDeque;
use crate::number::Float64;
use crate::platform::{KeyLocation, ModifiersKeyState};

verus! {

/// The tag under which the foreign side knows each kind of event. The order
/// of the variants is the numbering, and part of the interface.
#[derive(Debug, Clone, Copy, PartialEq, Eq, Structural)]
pub enum WinitEventType {
    Unknown,
    WindowEventResized,
    WindowEventMoved,
    WindowEventCloseRequested,
    WindowEventDestroyed,
    WindowEventDroppedFile,
    WindowEventHoveredFile,
    WindowEventHoveredFileCancelled,
    WindowEventReceivedCharacter,
    WindowEventFocused,
    WindowEventKeyboardInput,
    WindowEventCursorMoved,
    WindowEventCursorEntered,
    WindowEventCursorLeft,
    WindowEventMouseWheel,
    WindowEventMouseInput,
    WindowEventTouchpadPressure,
    WindowEventAxisMotion,
    WindowEventTouch,
    WindowEventScaleFactorChanged,
    NewEvents,
    MainEventsCleared,
    LoopDestroyed,
    Suspended,
    Resumed,
    RedrawRequested,
    RedrawEventsCleared,
    ModifiersChanged,
    UserEvent,
    Winit30WindowEventModifiersChanged,
    Winit30WindowEventKeyboardInput,
    Winit30WindowEventReceivedText,
}

impl Default for WinitEventType {
    fn default() -> (r: Self)
        ensures
            r == WinitEventType::Unknown,
    {
        WinitEventType::Unknown
    }
}

#[derive(Debug, Clone, Copy, PartialEq, Eq, Structural)]
pub enum WinitEventTouchPhase {
    Unknown,
    Started,
    Moved,
    Ended,
    Cancelled,
}

impl Default for WinitEventTouchPhase {
    fn default() -> (r: Self)
        ensures
            r == WinitEventTouchPhase::Unknown,
    {
        WinitEventTouchPhase::Unknown
    }
}

#[derive(Debug, Clone, Copy, PartialEq, Eq, Structural)]
pub enum WinitEventMouseScrollDeltaType {
    Unknown,
    LineDelta,
    PixelDelta,
}

impl Default for WinitEventMouseScrollDeltaType {
    fn default() -> (r: Self)
        ensures
            r == WinitEventMouseScrollDeltaType::Unknown,
    {
        WinitEventMouseScrollDeltaType::Unknown
    }
}

#[derive(Debug, Clone, Copy, PartialEq, Eq, Structural)]
pub enum WinitEventInputElementState {
    Unknown,
    Pressed,
    Released,
}

impl Default for WinitEventInputElementState {
    fn default() -> (r: Self)
        ensures
            r == WinitEventInputElementState::Unknown,
    {
        WinitEventInputElementState::Unknown
    }
}

#[derive(Debug, Clone, Copy, PartialEq, Eq, Structural)]
pub enum WinitKeyType {
    Unknown,
    Named,
    Character,
}

impl Default for WinitKeyType {
    fn default() -> (r: Self)
        ensures
            r == WinitKeyType::Unknown,
    {
        WinitKeyType::Unknown
    }
}

#[derive(Debug, Clone, Copy, PartialEq, Eq, Structural)]
pub enum WinitModifierKeyState {
    Unknown,
    Pressed,
}

impl Default for WinitModifierKeyState {
    fn default() -> (r: Self)
        ensures
            r == WinitModifierKeyState::Unknown,
    {
        WinitModifierKeyState::Unknown
    }
}

impl From<ModifiersKeyState> for WinitModifierKeyState {
    fn from(value: ModifiersKeyState) -> (r: Self) {
        match value {
            ModifiersKeyState::Unknown => WinitModifierKeyState::Unknown,
            ModifiersKeyState::Pressed => WinitModifierKeyState::Pressed,
        }
    }
}

impl vstd::std_specs::convert::FromSpecImpl<ModifiersKeyState> for WinitModifierKeyState {
    open spec fn obeys_from_spec() -> bool {
        true
    }

    open spec fn from_spec(value: ModifiersKeyState) -> Self {
        WinitModifierKeyState::of(value)
    }
}

impl WinitModifierKeyState {
    /// The state of one side's modifier key, as consumers see it.
    pub open spec fn of(value: ModifiersKeyState) -> WinitModifierKeyState {
        match value {
            ModifiersKeyState::Unknown => WinitModifierKeyState::Unknown,
            ModifiersKeyState::Pressed => WinitModifierKeyState::Pressed,
        }
    }
}

#[derive(Debug, Clone, Copy, PartialEq, Eq, Structural)]
pub enum WinitEventMouseButtonType {
    Unknown,
    Left,
    Right,
    Middle,
    Other,
    Back,
    Forward,
}

impl Default for WinitEventMouseButtonType {
    fn default() -> (r: Self)
        ensures
            r == WinitEventMouseButtonType::Unknown,
    {
        WinitEventMouseButtonType::Unknown
    }
}

/// Where on the keyboard a key sits, as consumers see it.
#[derive(Debug, Clone, Copy, PartialEq, Eq, Structural)]
pub enum WinitKeyLocation {
    Standard,
    Left,
    Right,
    Numpad,
}

impl From<KeyLocation> for WinitKeyLocation {
    fn from(value: KeyLocation) -> (r: Self) {
        match value {
            KeyLocation::Standard => WinitKeyLocation::Standard,
            KeyLocation::Left => WinitKeyLocation::Left,
            KeyLocation::Right => WinitKeyLocation::Right,
            KeyLocation::Numpad => WinitKeyLocation::Numpad,
        }
    }
}

impl vstd::std_specs::convert::FromSpecImpl<KeyLocation> for WinitKeyLocation {
    open spec fn obeys_from_spec() -> bool {
        true
    }

    open spec fn from_spec(value: KeyLocation) -> Self {
        WinitKeyLocation::of(value)
    }
}

impl WinitKeyLocation {
    /// The place of a key, as consumers see it.
    pub open spec fn of(value: KeyLocation) -> WinitKeyLocation {
        match value {
            KeyLocation::Standard => WinitKeyLocation::Standard,
            KeyLocation::Left => WinitKeyLocation::Left,
            KeyLocation::Right => WinitKeyLocation::Right,
            KeyLocation::Numpad => WinitKeyLocation::Numpad,
        }
    }
}

/// The name of a key, by its number in the key table, or the lack of one.
#[derive(Debug, Clone, Copy, PartialEq, Eq, Structural)]
pub enum VirtualKeyCode {
    Unknown,
    Named(u32),
}

#[derive(Debug, Clone, Copy, PartialEq, Eq, Structural)]
pub struct WinitWindowCloseRequestedEvent;

impl Default for WinitWindowCloseRequestedEvent {
    fn default() -> (r: Self)
        ensures
            r == WinitWindowCloseRequestedEvent,
    {
        WinitWindowCloseRequestedEvent
    }
}

#[derive(Debug, Clone, Copy, PartialEq, Eq, Structural)]
pub struct WinitTouchEvent {
    pub device_id: i64,
    pub phase: WinitEventTouchPhase,
    pub x: Float64,
    pub y: Float64,
    /// The finger that touches.
    pub id: u64,
}

impl Default for WinitTouchEvent {
    fn default() -> (r: Self)
        ensures
            r == (WinitTouchEvent {
                device_id: 0,
                phase: WinitEventTouchPhase::Unknown,
                x: Float64::spec_zero(),
                y: Float64::spec_zero(),
                id: 0,
            }),
    {
        WinitTouchEvent {
            device_id: 0,
            phase: WinitEventTouchPhase::Unknown,
            x: Float64::zero(),
            y: Float64::zero(),
            id: 0,
        }
    }
}

#[derive(Debug, Clone, Copy, PartialEq, Eq, Structural)]
pub struct WinitMouseScrollDelta {
    pub delta_type: WinitEventMouseScrollDeltaType,
    pub x: Float64,
    pub y: Float64,
}

impl Default for WinitMouseScrollDelta {
    fn default() -> (r: Self)
        ensures
            r == (WinitMouseScrollDelta {
                delta_type: WinitEventMouseScrollDeltaType::Unknown,
                x: Float64::spec_zero(),
                y: Float64::spec_zero(),
            }),
    {
        WinitMouseScrollDelta {
            delta_type: WinitEventMouseScrollDeltaType::Unknown,
            x: Float64::zero(),
            y: Float64::zero(),
        }
    }
}

#[derive(Debug, Clone, Copy, PartialEq, Eq, Structural)]
pub struct WinitMouseWheelEvent {
    pub device_id: i64,
    pub phase: WinitEventTouchPhase,
    pub delta: WinitMouseScrollDelta,
}

impl Default for WinitMouseWheelEvent {
    fn default() -> (r: Self)
        ensures
            r == (WinitMouseWheelEvent {
                device_id: 0,
                phase: WinitEventTouchPhase::Unknown,
                delta: WinitMouseScrollDelta {
                    delta_type: WinitEventMouseScrollDeltaType::Unknown,
                    x: Float64::spec_zero(),
                    y: Float64::spec_zero(),
                },
            }),
    {
        WinitMouseWheelEvent {
            device_id: 0,
            phase: WinitEventTouchPhase::default(),
            delta: WinitMouseScrollDelta::default(),
        }
    }
}

#[derive(Debug, Clone, Copy, PartialEq, Eq, Structural)]
pub struct WinitEventMouseButton {
    pub button_type: WinitEventMouseButtonType,
    pub button_code: u16,
}

impl Default for WinitEventMouseButton {
    fn default() -> (r: Self)
        ensures
            r == (WinitEventMouseButton {
                button_type: WinitEventMouseButtonType::Unknown,
                button_code: 0,
            }),
    {
        WinitEventMouseButton { button_type: WinitEventMouseButtonType::Unknown, button_code: 0 }
    }
}

#[derive(Debug, Clone, Copy, PartialEq, Eq, Structural)]
pub struct WinitMouseInputEvent {
    pub device_id: i64,
    pub state: WinitEventInputElementState,
    pub button: WinitEventMouseButton,
}

impl Default for WinitMouseInputEvent {
    fn default() -> (r: Self)
        ensures
            r == (WinitMouseInputEvent {
                device_id: 0,
                state: WinitEventInputElementState::Unknown,
                button: WinitEventMouseButton {
                    button_type: WinitEventMouseButtonType::Unknown,
                    button_code: 0,
                },
            }),
    {
        WinitMouseInputEvent {
            device_id: 0,
            state: WinitEventInputElementState::default(),
            button: WinitEventMouseButton::default(),
        }
    }
}

#[derive(Debug, Clone, Copy, PartialEq, Eq, Structural)]
pub struct WinitCursorMovedEvent {
    pub device_id: i64,
    pub x: Float64,
    pub y: Float64,
}

impl Default for WinitCursorMovedEvent {
    fn default() -> (r: Self)
        ensures
            r == (WinitCursorMovedEvent {
                device_id: 0,
                x: Float64::spec_zero(),
                y: Float64::spec_zero(),
            }),
    {
        WinitCursorMovedEvent {
            device_id: 0,
            x: Float64::zero(),
            y: Float64::zero(),
        }
    }
}

#[derive(Debug, Clone, Copy, PartialEq, Eq, Structural)]
pub struct WinitWindowResizedEvent {
    pub width: u32,
    pub height: u32,
}

impl Default for WinitWindowResizedEvent {
    fn default() -> (r: Self)
        ensures
            r == (WinitWindowResizedEvent {
                width: 0,
                height: 0,
            }),
    {
        WinitWindowResizedEvent {
            width: 0,
            height: 0,
        }
    }
}

#[derive(Debug, Clone, Copy, PartialEq, Eq, Structural)]
pub struct WinitWindowScaleFactorChangedEvent {
    pub scale_factor: Float64,
    pub width: u32,
    pub height: u32,
}

impl Default for WinitWindowScaleFactorChangedEvent {
    fn default() -> (r: Self)
        ensures
            r == (WinitWindowScaleFactorChangedEvent {
                scale_factor: Float64::spec_zero(),
                width: 0,
                height: 0,
            }),
    {
        WinitWindowScaleFactorChangedEvent {
            scale_factor: Float64::zero(),
            width: 0,
            height: 0,
        }
    }
}

#[derive(Debug, Clone, Copy, PartialEq, Eq, Structural)]
pub struct WinitWindowMovedEvent {
    pub x: i32,
    pub y: i32,
}

impl Default for WinitWindowMovedEvent {
    fn default() -> (r: Self)
        ensures
            r == (WinitWindowMovedEvent {
                x: 0,
                y: 0,
            }),
    {
        WinitWindowMovedEvent {
            x: 0,
            y: 0,
        }
    }
}

#[derive(Debug, Clone, Copy, PartialEq, Eq, Structural)]
pub struct WinitWindowFocusedEvent {
    pub is_focused: bool,
}

impl Default for WinitWindowFocusedEvent {
    fn default() -> (r: Self)
        ensures
            r == (WinitWindowFocusedEvent {
                is_focused: false,
            }),
    {
        WinitWindowFocusedEvent {
            is_focused: false,
        }
    }
}

#[derive(Debug, Clone, PartialEq, Eq)]
pub struct WinitEventKeyboardInput {
    pub device_id: i64,
    pub scan_code: u32,
    pub state: WinitEventInputElementState,
    pub key_type: WinitKeyType,
    pub key_location: WinitKeyLocation,
    pub named_key: VirtualKeyCode,
    pub character_key: Option<String>,
    pub is_synthetic: bool,
}

impl WinitEventKeyboardInput {
    /// A keyboard event of which nothing is known yet.
    pub open spec fn spec_default() -> WinitEventKeyboardInput {
        WinitEventKeyboardInput {
            device_id: 0,
            scan_code: 0,
            state: WinitEventInputElementState::Unknown,
            key_type: WinitKeyType::Unknown,
            key_location: WinitKeyLocation::Standard,
            named_key: VirtualKeyCode::Unknown,
            character_key: None,
            is_synthetic: false,
        }
    }
}

impl Default for WinitEventKeyboardInput {
    fn default() -> (r: Self)
        ensures
            r == WinitEventKeyboardInput::spec_default(),
    {
        WinitEventKeyboardInput {
            device_id: 0,
            scan_code: 0,
            state: WinitEventInputElementState::default(),
            key_type: WinitKeyType::default(),
            key_location: WinitKeyLocation::Standard,
            named_key: VirtualKeyCode::Unknown,
            character_key: None,
            is_synthetic: false,
        }
    }
}

#[derive(Debug, Clone, PartialEq, Eq)]
pub struct WinitEventReceivedText {
    pub text: String,
}

#[derive(Debug, Clone, Copy, PartialEq, Eq, Structural)]
pub struct WinitEventModifiersChanged {
    /// The "shift" key
    pub shift: bool,
    /// The "control" key
    pub ctrl: bool,
    /// The "alt" key
    pub alt: bool,
    /// The "logo" key: "windows" on a PC, "command" on a Mac.
    pub logo: bool,
    pub num_lock: bool,
    pub left_shift: WinitModifierKeyState,
    pub right_shift: WinitModifierKeyState,
    pub left_ctrl: WinitModifierKeyState,
    pub right_ctrl: WinitModifierKeyState,
    pub left_alt: WinitModifierKeyState,
    pub right_alt: WinitModifierKeyState,
    pub left_logo: WinitModifierKeyState,
    pub right_logo: WinitModifierKeyState,
}

impl Default for WinitEventModifiersChanged {
    fn default() -> (r: Self)
        ensures
            r == (WinitEventModifiersChanged {
                shift: false,
                ctrl: false,
                alt: false,
                logo: false,
                num_lock: false,
                left_shift: WinitModifierKeyState::Unknown,
                right_shift: WinitModifierKeyState::Unknown,
                left_ctrl: WinitModifierKeyState::Unknown,
                right_ctrl: WinitModifierKeyState::Unknown,
                left_alt: WinitModifierKeyState::Unknown,
                right_alt: WinitModifierKeyState::Unknown,
                left_logo: WinitModifierKeyState::Unknown,
                right_logo: WinitModifierKeyState::Unknown,
            }),
    {
        WinitEventModifiersChanged {
            shift: false,
            ctrl: false,
            alt: false,
            logo: false,
            num_lock: false,
            left_shift: WinitModifierKeyState::Unknown,
            right_shift: WinitModifierKeyState::Unknown,
            left_ctrl: WinitModifierKeyState::Unknown,
            right_ctrl: WinitModifierKeyState::Unknown,
            left_alt: WinitModifierKeyState::Unknown,
            right_alt: WinitModifierKeyState::Unknown,
            left_logo: WinitModifierKeyState::Unknown,
            right_logo: WinitModifierKeyState::Unknown,
        }
    }
}

/// Something that has a place in the event vocabulary.
pub trait WinitEvent {
    /// The tag of this kind of event.
    spec fn spec_event_type(&self) -> WinitEventType;

    fn event_type(&self) -> (r: WinitEventType)
        ensures
            r == self.spec_event_type(),
    ;
}

impl WinitEvent for WinitWindowCloseRequestedEvent {
    open spec fn spec_event_type(&self) -> WinitEventType {
        WinitEventType::WindowEventCloseRequested
    }

    fn event_type(&self) -> (r: WinitEventType) {
        WinitEventType::WindowEventCloseRequested
    }
}

impl WinitEvent for WinitMouseWheelEvent {
    open spec fn spec_event_type(&self) -> WinitEventType {
        WinitEventType::WindowEventMouseWheel
    }

    fn event_type(&self) -> (r: WinitEventType) {
        WinitEventType::WindowEventMouseWheel
    }
}

impl WinitEvent for WinitMouseInputEvent {
    open spec fn spec_event_type(&self) -> WinitEventType {
        WinitEventType::WindowEventMouseInput
    }

    fn event_type(&self) -> (r: WinitEventType) {
        WinitEventType::WindowEventMouseInput
    }
}

impl WinitEvent for WinitCursorMovedEvent {
    open spec fn spec_event_type(&self) -> WinitEventType {
        WinitEventType::WindowEventCursorMoved
    }

    fn event_type(&self) -> (r: WinitEventType) {
        WinitEventType::WindowEventCursorMoved
    }
}

impl WinitEvent for WinitWindowResizedEvent {
    open spec fn spec_event_type(&self) -> WinitEventType {
        WinitEventType::WindowEventResized
    }

    fn event_type(&self) -> (r: WinitEventType) {
        WinitEventType::WindowEventResized
    }
}

impl WinitEvent for WinitWindowScaleFactorChangedEvent {
    open spec fn spec_event_type(&self) -> WinitEventType {
        WinitEventType::WindowEventScaleFactorChanged
    }

    fn event_type(&self) -> (r: WinitEventType) {
        WinitEventType::WindowEventScaleFactorChanged
    }
}

impl WinitEvent for WinitWindowMovedEvent {
    open spec fn spec_event_type(&self) -> WinitEventType {
        WinitEventType::WindowEventMoved
    }

    fn event_type(&self) -> (r: WinitEventType) {
        WinitEventType::WindowEventMoved
    }
}

impl WinitEvent for WinitWindowFocusedEvent {
    open spec fn spec_event_type(&self) -> WinitEventType {
        WinitEventType::WindowEventFocused
    }

    fn event_type(&self) -> (r: WinitEventType) {
        WinitEventType::WindowEventFocused
    }
}

impl WinitEvent for WinitEventKeyboardInput {
    open spec fn spec_event_type(&self) -> WinitEventType {
        WinitEventType::Winit30WindowEventKeyboardInput
    }

    fn event_type(&self) -> (r: WinitEventType) {
        WinitEventType::Winit30WindowEventKeyboardInput
    }
}

impl WinitEvent for WinitEventReceivedText {
    open spec fn spec_event_type(&self) -> WinitEventType {
        WinitEventType::Winit30WindowEventReceivedText
    }

    fn event_type(&self) -> (r: WinitEventType) {
        WinitEventType::Winit30WindowEventReceivedText
    }
}

impl WinitEvent for WinitEventModifiersChanged {
    open spec fn spec_event_type(&self) -> WinitEventType {
        WinitEventType::Winit30WindowEventModifiersChanged
    }

    fn event_type(&self) -> (r: WinitEventType) {
        WinitEventType::Winit30WindowEventModifiersChanged
    }
}

/// One normalized event, of any kind.
#[derive(Debug, Clone, PartialEq, Eq)]
pub enum NormalizedEvent {
    Resized(WinitWindowResizedEvent),
    Moved(WinitWindowMovedEvent),
    CloseRequested(WinitWindowCloseRequestedEvent),
    Focused(WinitWindowFocusedEvent),
    KeyboardInput(WinitEventKeyboardInput),
    ModifiersChanged(WinitEventModifiersChanged),
    ReceivedText(WinitEventReceivedText),
    CursorMoved(WinitCursorMovedEvent),
    MouseWheel(WinitMouseWheelEvent),
    MouseInput(WinitMouseInputEvent),
    ScaleFactorChanged(WinitWindowScaleFactorChangedEvent),
}

impl WinitEvent for NormalizedEvent {
    open spec fn spec_event_type(&self) -> WinitEventType {
        match self {
            NormalizedEvent::Resized(e) => e.spec_event_type(),
            NormalizedEvent::Moved(e) => e.spec_event_type(),
            NormalizedEvent::CloseRequested(e) => e.spec_event_type(),
            NormalizedEvent::Focused(e) => e.spec_event_type(),
            NormalizedEvent::KeyboardInput(e) => e.spec_event_type(),
            NormalizedEvent::ModifiersChanged(e) => e.spec_event_type(),
            NormalizedEvent::ReceivedText(e) => e.spec_event_type(),
            NormalizedEvent::CursorMoved(e) => e.spec_event_type(),
            NormalizedEvent::MouseWheel(e) => e.spec_event_type(),
            NormalizedEvent::MouseInput(e) => e.spec_event_type(),
            NormalizedEvent::ScaleFactorChanged(e) => e.spec_event_type(),
        }
    }

    fn event_type(&self) -> (r: WinitEventType) {
        match self {
            NormalizedEvent::Resized(e) => e.event_type(),
            NormalizedEvent::Moved(e) => e.event_type(),
            NormalizedEvent::CloseRequested(e) => e.event_type(),
            NormalizedEvent::Focused(e) => e.event_type(),
            NormalizedEvent::KeyboardInput(e) => e.event_type(),
            NormalizedEvent::ModifiersChanged(e) => e.event_type(),
            NormalizedEvent::ReceivedText(e) => e.event_type(),
            NormalizedEvent::CursorMoved(e) => e.event_type(),
            NormalizedEvent::MouseWheel(e) => e.event_type(),
            NormalizedEvent::MouseInput(e) => e.event_type(),
            NormalizedEvent::ScaleFactorChanged(e) => e.event_type(),
        }
    }
}

/// A normalized event together with the window that it happened to.
#[derive(Debug, Clone, PartialEq, Eq)]
pub struct WinitWindowEvent {
    pub window_id: usize,
    pub event: NormalizedEvent,
}

impl WinitWindowEvent {
    pub fn window_id(&self) -> (id: usize)
        ensures
            id == self.window_id,
    {
        self.window_id
    }

    pub fn event_type(&self) -> (r: WinitEventType)
        ensures
            r == self.event.spec_event_type(),
    {
        self.event.event_type()
    }
}

/// The queue of events on their way to the consumers: first in, first out,
/// without a bound.
#[derive(Debug, Clone, PartialEq, Eq)]
pub struct ApplicationEvents {
    queue: VecDeque<WinitWindowEvent>,
}

impl View for ApplicationEvents {
    type V = Seq<WinitWindowEvent>;

    /// The waiting events, oldest first.
    closed spec fn view(&self) -> Seq<WinitWindowEvent> {
        self.queue@
    }
}

impl ApplicationEvents {
    pub fn new() -> (events: Self)
        ensures
            events@ == Seq::<WinitWindowEvent>::empty(),
    {
        Self { queue: VecDeque::new() }
    }

    /// Takes the oldest event off the queue. An empty queue gives `None`,
    /// which is an answer, not a failure.
    pub fn pop_event(&mut self) -> (event: Option<WinitWindowEvent>)
        ensures
            old(self)@.len() == 0 ==> {
                &&& event.is_none()
                &&& final(self)@ == old(self)@
            },
            old(self)@.len() > 0 ==> {
                &&& event == Some(old(self)@.first())
                &&& final(self)@ == old(self)@.drop_first()
            },
    {
        self.queue.pop_front()
    }

    /// Puts an event behind all that are waiting.
    pub fn push_event(&mut self, event: WinitWindowEvent)
        ensures
            final(self)@ == old(self)@.push(event),
    {
        self.queue.push_back(event);
    }
}

} // verus!
