//! The commands that any thread may queue for the loop thread.

use vstd::prelude::*;
use crate::geometry::Size;
use crate::window_attributes::WindowAttributes;

verus! {

/// A command for the loop thread. Once queued it does not change, and it is
/// handled once, in its turn.
#[derive(Debug, Clone, PartialEq, Eq)]
pub enum ApplicationAction {
    FunctionCall(FunctionCallAction),
    CreateWindow(CreateWindowAction),
    RequestWindowSurfaceSize(RequestWindowSurfaceSizeAction),
}

/// Run a foreign function with its context.
#[derive(Debug, Clone, PartialEq, Eq)]
pub struct FunctionCallAction {
    pub callback: usize,
    pub thunk: usize,
}

/// Create a window, and hand its handle to the callback once it exists.
#[derive(Debug, Clone, PartialEq, Eq)]
pub struct CreateWindowAction {
    pub window_attributes: WindowAttributes,
    pub callback: usize,
}

/// Give the surface of a window another size.
#[derive(Debug, Clone, PartialEq, Eq)]
pub struct RequestWindowSurfaceSizeAction {
    pub surface_size: Size,
    pub window_id: usize,
}

} // verus!
