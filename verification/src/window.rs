//! The handle of one window: what is known of it, who listens to it, and
//! whether the platform's window behind it is still there.
//!
//! Closing a window detaches the platform's object and nothing else. The
//! handle stays, with the geometry it last knew; whatever would have needed
//! the platform's object from then on is not asked for.

use vstd::prelude::*;
use crate::actions::{ApplicationAction, RequestWindowSurfaceSizeAction};
use crate::application::ApplicationHandle;
use crate::geometry::{PhysicalPosition, PhysicalSize, Position, Size};
use crate::host::HostCall;
use crate::number::Float64;
use crate::platform::NativeWindow;

verus! {

/// Hears of every request to draw a window again.
#[derive(Debug, Clone, PartialEq, Eq)]
pub struct WindowRedrawRequestedListener {
    thunk: usize,
    callback: usize,
}

impl WindowRedrawRequestedListener {
    pub closed spec fn callback(&self) -> usize {
        self.callback
    }

    pub closed spec fn thunk(&self) -> usize {
        self.thunk
    }

    /// The call that notifies this listener.
    pub open spec fn call(&self) -> HostCall {
        HostCall::NotifyRedraw { callback: self.callback(), thunk: self.thunk() }
    }

    pub fn new(callback: usize, thunk: usize) -> (r: Self)
        ensures
            r.callback() == callback,
            r.thunk() == thunk,
    {
        Self { callback, thunk }
    }

    pub fn on_redraw_requested(&self) -> (call: HostCall)
        ensures
            call == self.call(),
    {
        HostCall::NotifyRedraw { callback: self.callback, thunk: self.thunk }
    }
}

/// Hears of every new surface size of a window.
#[derive(Debug, Clone, PartialEq, Eq)]
pub struct WindowResizedListener {
    thunk: usize,
    callback: usize,
}

impl WindowResizedListener {
    pub closed spec fn callback(&self) -> usize {
        self.callback
    }

    pub closed spec fn thunk(&self) -> usize {
        self.thunk
    }

    /// The call that tells this listener of a size.
    pub open spec fn call(&self, size: PhysicalSize) -> HostCall {
        HostCall::NotifyResized {
            callback: self.callback(),
            thunk: self.thunk(),
            width: size.width,
            height: size.height,
        }
    }

    pub fn new(callback: usize, thunk: usize) -> (r: Self)
        ensures
            r.callback() == callback,
            r.thunk() == thunk,
    {
        Self { callback, thunk }
    }

    pub fn on_window_resized(&self, size: &PhysicalSize) -> (call: HostCall)
        ensures
            call == self.call(*size),
    {
        HostCall::NotifyResized {
            callback: self.callback,
            thunk: self.thunk,
            width: size.width,
            height: size.height,
        }
    }
}

/// What it takes to work out the surface size of a window at another scale
/// factor: the size and the factor that the handle holds, and the new factor.
/// The arithmetic is in fractions, and so it is the embedding's to do.
#[derive(Debug, Clone, Copy, PartialEq, Eq, Structural)]
pub struct SurfaceRescale {
    pub surface_size: PhysicalSize,
    pub scale_factor: Float64,
    pub new_scale_factor: Float64,
}

/// Why a window could not do what was asked of it.
#[derive(Debug, Clone, Copy, PartialEq, Eq, Structural)]
pub enum WindowError {
    /// The platform's window is gone.
    Closed,
}

impl WindowError {
    /// The error in words.
    pub fn message(&self) -> (text: String)
        ensures
            text@ == "Window is closed"@,
    {
        "Window is closed".to_string()
    }
}

#[derive(Debug, PartialEq, Eq)]
struct WindowData {
    outer_position: PhysicalPosition,
    surface_size: PhysicalSize,
    scale_factor: Float64,
    window_redraw_listeners: Vec<WindowRedrawRequestedListener>,
    window_resize_listeners: Vec<WindowResizedListener>,
}

/// A window as the library knows it.
#[derive(Debug, PartialEq, Eq)]
pub struct WindowHandle {
    id: usize,
    data: WindowData,
    open: bool,
}

/// Everything that a window handle holds.
pub struct WindowHandleView {
    pub id: usize,
    /// Whether the platform's window is still attached.
    pub is_open: bool,
    pub outer_position: PhysicalPosition,
    pub surface_size: PhysicalSize,
    pub scale_factor: Float64,
    /// The redraw listeners, in the order in which they were added.
    pub redraw_listeners: Seq<WindowRedrawRequestedListener>,
    /// The resize listeners, in the order in which they were added.
    pub resize_listeners: Seq<WindowResizedListener>,
}

impl WindowHandleView {
    /// The handle of a window that the platform has just created.
    pub open spec fn for_window(window: NativeWindow) -> WindowHandleView {
        WindowHandleView {
            id: window.id,
            is_open: true,
            outer_position: match window.outer_position {
                Some(position) => position,
                None => PhysicalPosition::spec_origin(),
            },
            surface_size: window.surface_size,
            scale_factor: window.scale_factor,
            redraw_listeners: Seq::empty(),
            resize_listeners: Seq::empty(),
        }
    }

    /// The handle after its window was closed.
    pub open spec fn closed(self) -> WindowHandleView {
        WindowHandleView { is_open: false, ..self }
    }

    /// The handle after the platform reported a position.
    pub open spec fn moved(self, position: PhysicalPosition) -> WindowHandleView {
        WindowHandleView { outer_position: position, ..self }
    }

    /// The handle after a redraw listener was added behind those it had.
    pub open spec fn with_redraw_listener(
        self,
        listener: WindowRedrawRequestedListener,
    ) -> WindowHandleView {
        WindowHandleView { redraw_listeners: self.redraw_listeners.push(listener), ..self }
    }

    /// The handle after a resize listener was added behind those it had.
    pub open spec fn with_resize_listener(
        self,
        listener: WindowResizedListener,
    ) -> WindowHandleView {
        WindowHandleView { resize_listeners: self.resize_listeners.push(listener), ..self }
    }

    /// The handle after the platform reported a surface size. Zero by zero
    /// is what a minimized window reports, and changes nothing.
    pub open spec fn resized(self, size: PhysicalSize) -> WindowHandleView {
        if size.spec_is_zero() {
            self
        } else {
            WindowHandleView { surface_size: size, ..self }
        }
    }

    /// The calls that tell the resize listeners of a size: one for each, in
    /// the order in which they were added; none at all for zero by zero.
    pub open spec fn resized_calls(self, size: PhysicalSize) -> Seq<HostCall> {
        if size.spec_is_zero() {
            Seq::empty()
        } else {
            Seq::new(
                self.resize_listeners.len(),
                |i: int| self.resize_listeners[i].call(size),
            )
        }
    }

    /// The calls that tell the redraw listeners to draw: one for each, in
    /// the order in which they were added.
    pub open spec fn redraw_calls(self) -> Seq<HostCall> {
        Seq::new(self.redraw_listeners.len(), |i: int| self.redraw_listeners[i].call())
    }

    /// What there is to rescale for a new scale factor, if both the factor
    /// that the handle holds and the new one are scale factors.
    pub open spec fn surface_rescale(self, new_scale_factor: Float64) -> Option<SurfaceRescale> {
        if self.scale_factor.spec_is_scale_factor() && new_scale_factor.spec_is_scale_factor() {
            Some(
                SurfaceRescale {
                    surface_size: self.surface_size,
                    scale_factor: self.scale_factor,
                    new_scale_factor,
                },
            )
        } else {
            None
        }
    }

    /// What becomes of a wish that needs the platform's window: it is passed
    /// on while the window is open and dropped once it is closed.
    pub open spec fn if_open(self, call: HostCall) -> Option<HostCall> {
        if self.is_open {
            Some(call)
        } else {
            None
        }
    }

    /// What becomes of a question that needs the platform's window: it is
    /// passed on while the window is open and refused once it is closed.
    pub open spec fn unless_closed(self, call: HostCall) -> Result<HostCall, WindowError> {
        if self.is_open {
            Ok(call)
        } else {
            Err(WindowError::Closed)
        }
    }
}

impl WindowHandleView {
    /// Closing a window changes nothing that a getter returns: identifier,
    /// position, surface size and scale factor are what they were, and so
    /// are the listeners.
    pub proof fn lemma_closed_window_keeps_what_it_knew(self)
        ensures
            !self.closed().is_open,
            self.closed().id == self.id,
            self.closed().outer_position == self.outer_position,
            self.closed().surface_size == self.surface_size,
            self.closed().scale_factor == self.scale_factor,
            self.closed().redraw_listeners == self.redraw_listeners,
            self.closed().resize_listeners == self.resize_listeners,
    {
    }

    /// Closing a window that is closed changes nothing.
    pub proof fn lemma_close_is_idempotent(self)
        ensures
            self.closed().closed() == self.closed(),
    {
    }

    /// A closed window passes no wish on and refuses every question.
    pub proof fn lemma_closed_window_asks_for_nothing(self, call: HostCall)
        ensures
            self.closed().if_open(call).is_none(),
            self.closed().unless_closed(call) == Err::<HostCall, WindowError>(WindowError::Closed),
    {
    }

    /// A report of zero by zero leaves the handle as it was and reaches no
    /// listener; any other size is noted and reaches every resize listener.
    pub proof fn lemma_zero_size_is_ignored(self, size: PhysicalSize)
        ensures
            size.spec_is_zero() ==> self.resized(size) == self && self.resized_calls(size).len()
                == 0,
            !size.spec_is_zero() ==> self.resized(size).surface_size == size
                && self.resized_calls(size).len() == self.resize_listeners.len(),
    {
    }
}

impl View for WindowHandle {
    type V = WindowHandleView;

    closed spec fn view(&self) -> WindowHandleView {
        WindowHandleView {
            id: self.id,
            is_open: self.open,
            outer_position: self.data.outer_position,
            surface_size: self.data.surface_size,
            scale_factor: self.data.scale_factor,
            redraw_listeners: self.data.window_redraw_listeners@,
            resize_listeners: self.data.window_resize_listeners@,
        }
    }
}

impl WindowHandle {
    /// The handle of a window that the platform has just created. Where the
    /// platform cannot tell the window's position, the handle starts at the
    /// origin.
    pub fn for_window(window: NativeWindow) -> (handle: Self)
        ensures
            handle@ == WindowHandleView::for_window(window),
    {
        let outer_position = match window.outer_position {
            Some(position) => position,
            None => PhysicalPosition::default(),
        };
        Self {
            id: window.id,
            data: WindowData {
                outer_position,
                surface_size: window.surface_size,
                scale_factor: window.scale_factor,
                window_redraw_listeners: Vec::new(),
                window_resize_listeners: Vec::new(),
            },
            open: true,
        }
    }

    pub fn id(&self) -> (id: usize)
        ensures
            id == self@.id,
    {
        self.id
    }

    /// Whether the platform's window is still attached.
    pub fn is_open(&self) -> (open: bool)
        ensures
            open == self@.is_open,
    {
        self.open
    }

    /// Queues a request to give the window's surface another size. The loop
    /// thread decides about it when its turn comes.
    pub fn request_surface_size(
        &self,
        application_handle: &mut ApplicationHandle,
        surface_size: Size,
    ) -> (call: HostCall)
        requires
            old(application_handle)@.connected,
        ensures
            final(application_handle)@ == old(application_handle)@.with_action(
                ApplicationAction::RequestWindowSurfaceSize(
                    RequestWindowSurfaceSizeAction { surface_size, window_id: self@.id },
                ),
            ),
            call == HostCall::WakeUpEventLoop,
    {
        application_handle.enqueue_action(
            ApplicationAction::RequestWindowSurfaceSize(
                RequestWindowSurfaceSizeAction { surface_size, window_id: self.id },
            ),
        )
    }

    /// Takes note of a surface size that the platform reported and tells the
    /// resize listeners, who find the new size already in place.
    pub fn on_window_resized(&mut self, size: &PhysicalSize) -> (calls: Vec<HostCall>)
        ensures
            final(self)@ == old(self)@.resized(*size),
            calls@ == old(self)@.resized_calls(*size),
    {
        let mut calls: Vec<HostCall> = Vec::new();
        // A minimized window reports no size at all; what it had stays.
        if size.width == 0 && size.height == 0 {
            return calls;
        }
        self.data.surface_size = *size;
        let mut i: usize = 0;
        while i < self.data.window_resize_listeners.len()
            invariant
                i <= self.data.window_resize_listeners.len(),
                self@ == old(self)@.resized(*size),
                !size.spec_is_zero(),
                calls@.len() == i,
                forall|k: int|
                    0 <= k < i ==> calls@[k] == old(self)@.resize_listeners[k].call(*size),
            decreases self.data.window_resize_listeners.len() - i,
        {
            let call = self.data.window_resize_listeners[i].on_window_resized(size);
            calls.push(call);
            i += 1;
        }
        calls
    }

    /// Takes note of a position that the platform reported.
    pub fn on_window_moved(&mut self, position: &PhysicalPosition)
        ensures
            final(self)@ == old(self)@.moved(*position),
    {
        self.data.outer_position = *position;
    }

    /// Tells the redraw listeners that the window wants to be drawn.
    pub fn on_window_redraw(&self) -> (calls: Vec<HostCall>)
        ensures
            calls@ == self@.redraw_calls(),
    {
        let mut calls: Vec<HostCall> = Vec::new();
        let mut i: usize = 0;
        while i < self.data.window_redraw_listeners.len()
            invariant
                i <= self.data.window_redraw_listeners.len(),
                calls@.len() == i,
                forall|k: int| 0 <= k < i ==> calls@[k] == self@.redraw_listeners[k].call(),
            decreases self.data.window_redraw_listeners.len() - i,
        {
            let call = self.data.window_redraw_listeners[i].on_redraw_requested();
            calls.push(call);
            i += 1;
        }
        calls
    }

    /// The surface size that was last reported.
    pub fn surface_size(&self) -> (size: PhysicalSize)
        ensures
            size == self@.surface_size,
    {
        self.data.surface_size
    }

    /// The scale factor that the window was created with.
    pub fn scale_factor(&self) -> (factor: Float64)
        ensures
            factor == self@.scale_factor,
    {
        self.data.scale_factor
    }

    /// What the embedding has to rescale when the platform reports another
    /// scale factor: the surface size and the scale factor as the handle holds
    /// them, whatever the platform's window says by now. Where one of the two
    /// factors is no scale factor there is nothing to rescale by.
    pub fn surface_rescale(&self, new_scale_factor: Float64) -> (rescale: Option<SurfaceRescale>)
        ensures
            rescale == self@.surface_rescale(new_scale_factor),
    {
        if self.data.scale_factor.is_scale_factor() && new_scale_factor.is_scale_factor() {
            Some(
                SurfaceRescale {
                    surface_size: self.data.surface_size,
                    scale_factor: self.data.scale_factor,
                    new_scale_factor,
                },
            )
        } else {
            None
        }
    }

    /// The position that was last noted.
    pub fn outer_position(&self) -> (position: PhysicalPosition)
        ensures
            position == self@.outer_position,
    {
        self.data.outer_position
    }

    /// Moves the window, if it is still open.
    pub fn set_outer_position(&self, position: Position) -> (call: Option<HostCall>)
        ensures
            call == self@.if_open(HostCall::SetOuterPosition { window_id: self@.id, position }),
    {
        if self.open {
            Some(HostCall::SetOuterPosition { window_id: self.id, position })
        } else {
            None
        }
    }

    /// Shows another cursor over the window, if it is still open.
    pub fn set_cursor(&self, cursor: u32) -> (call: Option<HostCall>)
        ensures
            call == self@.if_open(HostCall::SetCursor { window_id: self@.id, cursor }),
    {
        if self.open {
            Some(HostCall::SetCursor { window_id: self.id, cursor })
        } else {
            None
        }
    }

    /// Adds a redraw listener behind those that are there. Listeners stay
    /// for as long as the handle does.
    pub fn add_redraw_listener(&mut self, listener: WindowRedrawRequestedListener)
        ensures
            final(self)@ == old(self)@.with_redraw_listener(listener),
    {
        self.data.window_redraw_listeners.push(listener);
    }

    /// Adds a resize listener behind those that are there. Listeners stay
    /// for as long as the handle does.
    pub fn add_resized_listener(&mut self, listener: WindowResizedListener)
        ensures
            final(self)@ == old(self)@.with_resize_listener(listener),
    {
        self.data.window_resize_listeners.push(listener);
    }

    /// Brings the window to the front, if it is still open.
    pub fn focus_window(&self) -> (call: Option<HostCall>)
        ensures
            call == self@.if_open(HostCall::FocusWindow { window_id: self@.id }),
    {
        if self.open {
            Some(HostCall::FocusWindow { window_id: self.id })
        } else {
            None
        }
    }

    /// Asks for the monitor that the window is on; fails once the window is
    /// closed, which is not the same as a window that is on no monitor.
    pub fn current_monitor(&self) -> (call: Result<HostCall, WindowError>)
        ensures
            call == self@.unless_closed(HostCall::QueryCurrentMonitor { window_id: self@.id }),
    {
        if self.open {
            Ok(HostCall::QueryCurrentMonitor { window_id: self.id })
        } else {
            Err(WindowError::Closed)
        }
    }

    /// Detaches the platform's window. Says whether there was one to detach:
    /// the first close of a window does, every later one does not.
    pub fn close_window(&mut self) -> (detached: bool)
        ensures
            detached == old(self)@.is_open,
            final(self)@ == old(self)@.closed(),
    {
        let detached = self.open;
        self.open = false;
        detached
    }

    /// Asks for a redraw; fails once the window is closed.
    pub fn request_redraw(&self) -> (call: Result<HostCall, WindowError>)
        ensures
            call == self@.unless_closed(HostCall::RequestRedraw { window_id: self@.id }),
    {
        if self.open {
            Ok(HostCall::RequestRedraw { window_id: self.id })
        } else {
            Err(WindowError::Closed)
        }
    }

    /// Asks for the platform's own handle of the window; fails once the
    /// window is closed.
    pub fn raw_window_handle(&self) -> (call: Result<HostCall, WindowError>)
        ensures
            call == self@.unless_closed(HostCall::QueryRawWindowHandle { window_id: self@.id }),
    {
        if self.open {
            Ok(HostCall::QueryRawWindowHandle { window_id: self.id })
        } else {
            Err(WindowError::Closed)
        }
    }

    /// Asks for the platform's own handle of the window's display; fails
    /// once the window is closed.
    pub fn raw_display_handle(&self) -> (call: Result<HostCall, WindowError>)
        ensures
            call == self@.unless_closed(HostCall::QueryRawDisplayHandle { window_id: self@.id }),
    {
        if self.open {
            Ok(HostCall::QueryRawDisplayHandle { window_id: self.id })
        } else {
            Err(WindowError::Closed)
        }
    }
}

} // verus!
