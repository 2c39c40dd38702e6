//! A bridge between a windowing event loop that owns one thread and the
//! threads that drive it: commands go in through an ordered action queue,
//! normalized window events come out through an ordered event queue.
//!
//! The library holds the rules of that bridge as a sequential state machine.
//! It never touches the platform itself: whatever has to happen outside is
//! returned as a [`HostCall`] for the embedding to carry out.

pub mod actions;
pub mod application;
pub mod convert;
pub mod events;
pub mod geometry;
pub mod host;
pub mod number;
pub mod platform;
pub mod running;
pub mod signallers;
pub mod window;
pub mod window_attributes;

pub use actions::{
    ApplicationAction, CreateWindowAction, FunctionCallAction, RequestWindowSurfaceSizeAction,
};
pub use application::{Application, ApplicationBuilder, ApplicationHandle, EventLoopError};
pub use convert::{convert_event, surface_size_request};
pub use events::{
    ApplicationEvents, NormalizedEvent, VirtualKeyCode, WinitCursorMovedEvent, WinitEvent,
    WinitEventInputElementState, WinitEventKeyboardInput, WinitEventModifiersChanged,
    WinitEventMouseButton, WinitEventMouseButtonType, WinitEventMouseScrollDeltaType,
    WinitEventReceivedText, WinitEventTouchPhase, WinitEventType, WinitKeyLocation, WinitKeyType,
    WinitModifierKeyState, WinitMouseInputEvent, WinitMouseScrollDelta, WinitMouseWheelEvent,
    WinitTouchEvent, WinitWindowCloseRequestedEvent, WinitWindowEvent, WinitWindowFocusedEvent,
    WinitWindowMovedEvent, WinitWindowResizedEvent, WinitWindowScaleFactorChangedEvent,
};
pub use geometry::{LogicalPosition, LogicalSize, PhysicalPosition, PhysicalSize, Position, Size};
pub use host::HostCall;
pub use number::Float64;
pub use platform::NativeWindow;
pub use running::{RunningApplication, WakeUpStep};
pub use signallers::{SemaphoreSignaller, WakeUpSignaller};
pub use window::{
    SurfaceRescale, WindowError, WindowHandle, WindowRedrawRequestedListener,
    WindowResizedListener,
};
pub use window_attributes::{WindowAttributes, WindowLevel};
