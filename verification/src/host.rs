//! The work that the library hands to its embedding.
//!
//! The library decides; it does not act. Whenever a decision calls for a
//! foreign callback to run or for the platform to do something, the function
//! that decided returns a [`HostCall`], and the embedding carries it out.

use vstd::prelude::*;
use crate::geometry::{PhysicalSize, Position, Size};
use crate::window_attributes::WindowAttributes;

verus! {

/// One thing for the embedding to do. Callbacks and their contexts are named
/// by the addresses under which the foreign side registered them.
#[derive(Debug, Clone, PartialEq, Eq)]
pub enum HostCall {
    /// Interrupt the event loop's wait, from whichever thread this is.
    WakeUpEventLoop,
    /// Run a queued function with its context, on the loop thread.
    InvokeFunction { callback: usize, thunk: usize },
    /// Tell a wake-up listener that a batch of actions has been handled.
    SignalWakeUp { callback: usize, thunk: usize },
    /// Raise the semaphore with the given index.
    SignalSemaphore { callback: usize, index: usize, thunk: usize },
    /// Tell a listener that its window wants to be drawn again.
    NotifyRedraw { callback: usize, thunk: usize },
    /// Tell a listener the new surface size of its window.
    NotifyResized { callback: usize, thunk: usize, width: u32, height: u32 },
    /// Ask the platform for a window, then report how that went.
    CreateWindow { window_attributes: WindowAttributes, callback: usize },
    /// Run the completion callback of a window request with the new handle.
    WindowCreated { callback: usize, window_id: usize },
    /// Ask the platform to give a window's surface this size.
    RequestSurfaceSize { window_id: usize, surface_size: Size },
    /// Answer a change of scale factor with the surface size to use from now on.
    WriteSurfaceSize { new_surface_size: PhysicalSize },
    /// Move a window.
    SetOuterPosition { window_id: usize, position: Position },
    /// Show another cursor over a window.
    SetCursor { window_id: usize, cursor: u32 },
    /// Bring a window to the front.
    FocusWindow { window_id: usize },
    /// Ask the platform to schedule a redraw of a window.
    RequestRedraw { window_id: usize },
    /// Look up the monitor that a window is on.
    QueryCurrentMonitor { window_id: usize },
    /// Fetch the platform's own handle of a window.
    QueryRawWindowHandle { window_id: usize },
    /// Fetch the platform's own handle of a window's display.
    QueryRawDisplayHandle { window_id: usize },
}

} // verus!
