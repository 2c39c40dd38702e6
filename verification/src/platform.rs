//! What the platform reports about a window, as plain values.
//!
//! The embedding fills these in from whatever its windowing layer delivers.
//! Fractions arrive as bit patterns, key names as the numbers of the key
//! table that the foreign side shares with the embedding.

use vstd::prelude::*;
use crate::geometry::{PhysicalPosition, PhysicalSize};
use crate::number::Float64;

verus! {

/// Whether a key or button went down or came up.
#[derive(Debug, Clone, Copy, PartialEq, Eq, Structural)]
pub enum ElementState {
    Pressed,
    Released,
}

/// Where on the keyboard a key sits.
#[derive(Debug, Clone, Copy, PartialEq, Eq, Structural)]
pub enum KeyLocation {
    Standard,
    Left,
    Right,
    Numpad,
}

/// The meaning of a key.
#[derive(Debug, Clone, PartialEq, Eq)]
pub enum Key {
    /// A key with a name, such as Enter or F1, by its number in the key table.
    Named(u32),
    /// A key that produces text.
    Character(String),
    /// A key that the platform could not name.
    Unidentified,
    /// A key that only modifies the next one.
    Dead,
}

/// One press or release of a key.
#[derive(Debug, Clone, PartialEq, Eq)]
pub struct KeyEvent {
    /// The key's meaning with every held modifier applied.
    pub logical_key: Key,
    /// The key's meaning as if no modifier were held.
    pub key_without_modifiers: Key,
    pub location: KeyLocation,
    pub state: ElementState,
    /// The text that the key produces with every held modifier applied.
    pub text_with_all_modifiers: Option<String>,
}

/// Whether one side's modifier key is known to be down.
#[derive(Debug, Clone, Copy, PartialEq, Eq, Structural)]
pub enum ModifiersKeyState {
    Unknown,
    Pressed,
}

/// The modifier keys that are held.
#[derive(Debug, Clone, Copy, PartialEq, Eq, Structural)]
pub struct Modifiers {
    pub shift_key: bool,
    pub control_key: bool,
    pub alt_key: bool,
    pub meta_key: bool,
    pub lshift_state: ModifiersKeyState,
    pub rshift_state: ModifiersKeyState,
    pub lcontrol_state: ModifiersKeyState,
    pub rcontrol_state: ModifiersKeyState,
    pub lalt_state: ModifiersKeyState,
    pub ralt_state: ModifiersKeyState,
    pub lsuper_state: ModifiersKeyState,
    pub rsuper_state: ModifiersKeyState,
}

/// What an input method reports.
#[derive(Debug, Clone, PartialEq, Eq)]
pub enum Ime {
    /// Composition began, ended or is under way.
    Composing,
    /// Composed text, ready to be inserted.
    Commit(String),
}

/// How far a wheel or touchpad scrolled.
#[derive(Debug, Clone, Copy, PartialEq, Eq, Structural)]
pub enum MouseScrollDelta {
    /// In lines or rows.
    LineDelta(Float64, Float64),
    /// In physical pixels.
    PixelDelta(Float64, Float64),
}

/// The stage of a touch or scroll gesture.
#[derive(Debug, Clone, Copy, PartialEq, Eq, Structural)]
pub enum TouchPhase {
    Started,
    Moved,
    Ended,
    Cancelled,
}

/// A button of a mouse.
#[derive(Debug, Clone, Copy, PartialEq, Eq, Structural)]
pub enum MouseButton {
    Left,
    Right,
    Middle,
    Back,
    Forward,
    Other(u16),
}

/// What pressed: a mouse button, a finger, or something unnamed.
#[derive(Debug, Clone, Copy, PartialEq, Eq, Structural)]
pub enum ButtonSource {
    Mouse(MouseButton),
    Touch,
    Unknown(u16),
}

/// One report of the platform about one window.
#[derive(Debug, Clone, PartialEq, Eq)]
pub enum WindowEvent {
    SurfaceResized(PhysicalSize),
    Moved(PhysicalPosition),
    CloseRequested,
    Destroyed,
    Focused(bool),
    KeyboardInput { event: KeyEvent, is_synthetic: bool },
    Ime(Ime),
    ModifiersChanged(Modifiers),
    PointerMoved { x: Float64, y: Float64 },
    PointerEntered,
    PointerLeft,
    MouseWheel { delta: MouseScrollDelta, phase: TouchPhase },
    PointerButton { state: ElementState, button: ButtonSource },
    /// The scale factor changed. `surface_size` is the size that the surface
    /// takes at the new factor when its logical size stays what it was; the
    /// embedding works it out from the window handle's `surface_rescale`.
    ScaleFactorChanged { scale_factor: Float64, surface_size: PhysicalSize },
    RedrawRequested,
    /// Anything else.
    Other,
}

/// What the platform tells about a window that it has just created.
#[derive(Debug, Clone, Copy, PartialEq, Eq, Structural)]
pub struct NativeWindow {
    pub id: usize,
    /// The position of the window's outer frame, where the platform knows it.
    pub outer_position: Option<PhysicalPosition>,
    pub surface_size: PhysicalSize,
    pub scale_factor: Float64,
}

} // verus!
