//! The application while it runs: the state machine of the loop thread.
//!
//! Two sources drive the state machine. A wake-up makes it take the queued
//! actions, one after the other, in the order in which they were queued. A
//! report of the platform about a window is taken up in two steps: first
//! the window's handle is updated and the calls to its listeners are handed
//! out, then the normalized events are published. The listeners are told in
//! between, so none of them hears of a size later than a consumer does.
//!
//! A running application is always well formed: it holds finitely many
//! handles, each under the identifier that the handle carries.

use vstd::prelude::*;
use std::collections::hash_map::Entry;
use std::collections::HashMap;
use crate::actions::{ApplicationAction, RequestWindowSurfaceSizeAction};
use crate::application::{ApplicationHandle, ApplicationView};
use crate::convert::{convert_event, converted, requested_surface_size, surface_size_request};
use crate::events::{NormalizedEvent, WinitWindowEvent, WinitWindowResizedEvent};
use crate::geometry::{PhysicalPosition, PhysicalSize};
use crate::host::HostCall;
use crate::platform::{NativeWindow, WindowEvent};
use crate::signallers::{SemaphoreSignaller, WakeUpSignaller};
use crate::window::{
    WindowHandle, WindowHandleView, WindowRedrawRequestedListener, WindowResizedListener,
};

verus! {

/// What the loop thread is to do next while it answers a wake-up.
#[derive(Debug)]
pub enum WakeUpStep {
    /// The oldest action was taken and handled. This is the call that it
    /// asks for, if it asks for one; then the next step is due.
    Handled(Option<HostCall>),
    /// No action is left. These are the signals to the wake-up listeners,
    /// and the answer to this wake-up is complete.
    Drained(Vec<HostCall>),
}

/// What a running application holds.
pub struct RunningApplicationView {
    /// The windows that were created, by their identifiers.
    pub windows: Map<usize, WindowHandleView>,
    pub semaphore_signaller: Option<SemaphoreSignaller>,
    pub wakeup_signallers: Seq<WakeUpSignaller>,
}

impl RunningApplicationView {
    /// The state in which an application starts to run: its signallers, and
    /// no window.
    pub open spec fn started(application: ApplicationView) -> RunningApplicationView {
        RunningApplicationView {
            windows: Map::empty(),
            semaphore_signaller: application.semaphore_signaller,
            wakeup_signallers: application.wakeup_signallers,
        }
    }

    /// Whether the registry is as every running application has it: there
    /// are finitely many handles, and every handle is registered under the
    /// identifier that it carries.
    pub open spec fn well_formed(self) -> bool {
        &&& self.windows.dom().finite()
        &&& forall|window_id: usize|
            self.windows.contains_key(window_id) ==> (#[trigger] self.windows[window_id]).id
                == window_id
    }

    /// The state in which a registered window has this handle. Nothing
    /// changes for a window that is not registered.
    pub open spec fn with_handle(
        self,
        window_id: usize,
        handle: WindowHandleView,
    ) -> RunningApplicationView {
        if self.windows.contains_key(window_id) {
            RunningApplicationView { windows: self.windows.insert(window_id, handle), ..self }
        } else {
            self
        }
    }

    /// The state after something was done to the handle of a window.
    /// Nothing changes for a window that is not registered.
    pub open spec fn with_handle_changed(
        self,
        window_id: usize,
        change: spec_fn(WindowHandleView) -> WindowHandleView,
    ) -> RunningApplicationView {
        if self.windows.contains_key(window_id) {
            self.with_handle(window_id, change(self.windows[window_id]))
        } else {
            self
        }
    }

    /// The state after a window was closed.
    pub open spec fn with_window_closed(self, window_id: usize) -> RunningApplicationView {
        self.with_handle_changed(window_id, |handle: WindowHandleView| handle.closed())
    }

    /// The state after the platform reported a surface size for a window.
    pub open spec fn with_window_resized(
        self,
        window_id: usize,
        size: PhysicalSize,
    ) -> RunningApplicationView {
        self.with_handle_changed(window_id, |handle: WindowHandleView| handle.resized(size))
    }

    /// The state after the platform reported a position for a window.
    pub open spec fn with_window_moved(
        self,
        window_id: usize,
        position: PhysicalPosition,
    ) -> RunningApplicationView {
        self.with_handle_changed(window_id, |handle: WindowHandleView| handle.moved(position))
    }

    /// The state after a redraw listener was added to a window.
    pub open spec fn with_redraw_listener(
        self,
        window_id: usize,
        listener: WindowRedrawRequestedListener,
    ) -> RunningApplicationView {
        self.with_handle_changed(
            window_id,
            |handle: WindowHandleView| handle.with_redraw_listener(listener),
        )
    }

    /// The state after a resize listener was added to a window.
    pub open spec fn with_resize_listener(
        self,
        window_id: usize,
        listener: WindowResizedListener,
    ) -> RunningApplicationView {
        self.with_handle_changed(
            window_id,
            |handle: WindowHandleView| handle.with_resize_listener(listener),
        )
    }

    /// Whether a window is registered and its platform window still there.
    pub open spec fn is_open(self, window_id: usize) -> bool {
        self.windows.contains_key(window_id) && self.windows[window_id].is_open
    }

    /// The call that an action asks for. A function call and a window
    /// request always ask for one. A resize asks for one if its window is
    /// registered and open, and is dropped otherwise.
    pub open spec fn action_call(self, action: ApplicationAction) -> Option<HostCall> {
        match action {
            ApplicationAction::FunctionCall(action) => Some(
                HostCall::InvokeFunction { callback: action.callback, thunk: action.thunk },
            ),
            ApplicationAction::CreateWindow(action) => Some(
                HostCall::CreateWindow {
                    window_attributes: action.window_attributes,
                    callback: action.callback,
                },
            ),
            ApplicationAction::RequestWindowSurfaceSize(action) => if self.is_open(
                action.window_id,
            ) {
                Some(
                    HostCall::RequestSurfaceSize {
                        window_id: action.window_id,
                        surface_size: action.surface_size,
                    },
                )
            } else {
                None
            },
        }
    }

    /// The signals after a batch of actions: one to each wake-up listener,
    /// in the order in which they were added.
    pub open spec fn wakeup_calls(self) -> Seq<HostCall> {
        Seq::new(self.wakeup_signallers.len(), |i: int| self.wakeup_signallers[i].call())
    }

    /// The state after the platform answered a window request. A window
    /// that came into being is registered under its identifier; a failed
    /// request leaves no trace.
    pub open spec fn with_window(self, window: Option<NativeWindow>) -> RunningApplicationView {
        match window {
            Some(window) => RunningApplicationView {
                windows: self.windows.insert(window.id, WindowHandleView::for_window(window)),
                ..self
            },
            None => self,
        }
    }

    /// The call that completes a window request: the callback gets the
    /// handle of the window that came into being, and a failed request is
    /// never completed.
    pub open spec fn completion(callback: usize, window: Option<NativeWindow>) -> Option<HostCall> {
        match window {
            Some(window) => Some(HostCall::WindowCreated { callback, window_id: window.id }),
            None => None,
        }
    }

    /// The state after a report of the platform: a new surface size is
    /// noted in the handle of a registered window, and nothing else changes.
    pub open spec fn after_window_event(
        self,
        window_id: usize,
        event: WindowEvent,
    ) -> RunningApplicationView {
        match event {
            WindowEvent::SurfaceResized(size) => self.with_window_resized(window_id, size),
            _ => self,
        }
    }

    /// The calls to the listeners of a window for a report of the platform.
    pub open spec fn listener_calls(self, window_id: usize, event: WindowEvent) -> Seq<HostCall> {
        if self.windows.contains_key(window_id) {
            match event {
                WindowEvent::SurfaceResized(size) => self.windows[window_id].resized_calls(size),
                WindowEvent::RedrawRequested => self.windows[window_id].redraw_calls(),
                _ => Seq::empty(),
            }
        } else {
            Seq::empty()
        }
    }

    /// The events that a report of the platform adds to the event queue:
    /// its normalized events under the window's identifier, if the window
    /// is registered, and nothing if it is not.
    pub open spec fn published(self, window_id: usize, event: WindowEvent) -> Seq<
        WinitWindowEvent,
    > {
        if self.windows.contains_key(window_id) {
            tagged(window_id, converted(event))
        } else {
            Seq::empty()
        }
    }

    /// The semaphore signal for a report that produced `produced` events:
    /// one signal if there is a semaphore and at least one event, however
    /// many events there are.
    pub open spec fn semaphore_calls(self, produced: nat) -> Seq<HostCall> {
        match self.semaphore_signaller {
            Some(semaphore) => if produced > 0 {
                seq![semaphore.call()]
            } else {
                Seq::empty()
            },
            None => Seq::empty(),
        }
    }

    /// The calls that go with publishing a report of the platform: the
    /// surface size that the report asks for, then the semaphore signal.
    pub open spec fn publish_calls(self, window_id: usize, event: WindowEvent) -> Seq<HostCall> {
        if self.windows.contains_key(window_id) {
            surface_size_calls(event) + self.semaphore_calls(converted(event).len())
        } else {
            Seq::empty()
        }
    }
}

impl RunningApplicationView {
    /// The state after the platform created these windows, the first of
    /// them first.
    pub open spec fn with_windows(self, windows: Seq<NativeWindow>) -> RunningApplicationView
        decreases windows.len(),
    {
        if windows.len() == 0 {
            self
        } else {
            self.with_window(Some(windows.first())).with_windows(windows.drop_first())
        }
    }

    /// A window that the platform created is registered under the
    /// identifier that the platform gave it, with that identifier in its
    /// handle, and its request is completed with that identifier.
    pub proof fn lemma_created_window_is_registered_under_its_id(
        self,
        callback: usize,
        window: NativeWindow,
    )
        ensures
            self.with_window(Some(window)).windows.contains_key(window.id),
            self.with_window(Some(window)).windows[window.id].id == window.id,
            self.with_window(Some(window)).windows[window.id].is_open,
            Self::completion(callback, Some(window)) == Some(
                HostCall::WindowCreated { callback, window_id: window.id },
            ),
    {
    }

    proof fn lemma_with_windows(self, windows: Seq<NativeWindow>)
        requires
            self.windows.dom().finite(),
            forall|i: int, j: int|
                0 <= i < j < windows.len() ==> windows[i].id != windows[j].id,
            forall|i: int| 0 <= i < windows.len() ==> !self.windows.contains_key(windows[i].id),
        ensures
            self.with_windows(windows).windows.dom().finite(),
            self.with_windows(windows).windows.dom().len() == self.windows.dom().len()
                + windows.len(),
            forall|i: int|
                0 <= i < windows.len() ==> {
                    &&& #[trigger] self.with_windows(windows).windows.contains_key(windows[i].id)
                    &&& self.with_windows(windows).windows[windows[i].id]
                        == WindowHandleView::for_window(windows[i])
                },
            forall|window_id: usize|
                self.windows.contains_key(window_id) ==> {
                    &&& #[trigger] self.with_windows(windows).windows.contains_key(window_id)
                    &&& self.with_windows(windows).windows[window_id] == self.windows[window_id]
                },
            forall|window_id: usize| #[trigger]
                self.with_windows(windows).windows.contains_key(window_id)
                    ==> self.windows.contains_key(window_id) || exists|i: int|
                    0 <= i < windows.len() && windows[i].id == window_id,
        decreases windows.len(),
    {
        if windows.len() > 0 {
            let first = windows.first();
            let rest = windows.drop_first();
            let next = self.with_window(Some(first));
            // The rest are the windows from the second on: still distinct
            // from one another, and none of them is the first.
            assert(forall|i: int| 0 <= i < rest.len() ==> rest[i] == windows[i + 1]);
            next.lemma_with_windows(rest);
            assert(forall|i: int| 0 < i < windows.len() ==> windows[i] == rest[i - 1]);
        }
    }

    /// A report of a surface size of zero by zero changes nothing: no handle
    /// is touched, no listener is told, nothing is published and no semaphore
    /// is raised.
    pub proof fn lemma_zero_size_report_changes_nothing(self, window_id: usize)
        ensures
            self.after_window_event(
                window_id,
                WindowEvent::SurfaceResized(PhysicalSize { width: 0, height: 0 }),
            ) == self,
            self.listener_calls(
                window_id,
                WindowEvent::SurfaceResized(PhysicalSize { width: 0, height: 0 }),
            ) == Seq::<HostCall>::empty(),
            self.published(
                window_id,
                WindowEvent::SurfaceResized(PhysicalSize { width: 0, height: 0 }),
            ) == Seq::<WinitWindowEvent>::empty(),
            self.publish_calls(
                window_id,
                WindowEvent::SurfaceResized(PhysicalSize { width: 0, height: 0 }),
            ) == Seq::<HostCall>::empty(),
    {
        // Putting a handle back where it was leaves the registry as it was.
        assert(self.windows.contains_key(window_id) ==> self.windows.insert(
            window_id,
            self.windows[window_id],
        ) =~= self.windows);
    }

    /// A report of any other surface size about a registered window is noted
    /// in the window's handle and published as one resize event with that size.
    pub proof fn lemma_size_report_is_noted_and_published(
        self,
        window_id: usize,
        size: PhysicalSize,
    )
        requires
            self.windows.contains_key(window_id),
            !size.spec_is_zero(),
        ensures
            self.after_window_event(
                window_id,
                WindowEvent::SurfaceResized(size),
            ).windows[window_id].surface_size == size,
            self.published(window_id, WindowEvent::SurfaceResized(size)) == seq![
                WinitWindowEvent {
                    window_id,
                    event: NormalizedEvent::Resized(
                        WinitWindowResizedEvent { width: size.width, height: size.height },
                    ),
                },
            ],
    {
    }

    /// However many events a report produces, the semaphore is raised at
    /// most once for it: once if there is a semaphore and there was at least
    /// one event, and not at all otherwise.
    pub proof fn lemma_semaphore_is_raised_once_for_a_batch(self, produced: nat)
        ensures
            self.semaphore_calls(produced).len() == if produced > 0
                && self.semaphore_signaller.is_some() {
                1nat
            } else {
                0nat
            },
    {
    }

    /// An application starts well formed.
    pub proof fn lemma_started_is_well_formed(application: ApplicationView)
        ensures
            Self::started(application).well_formed(),
    {
    }

    /// Registering a window keeps the state well formed: the new handle
    /// carries the identifier that it is registered under.
    pub proof fn lemma_with_window_keeps_well_formed(self, window: Option<NativeWindow>)
        requires
            self.well_formed(),
        ensures
            self.with_window(window).well_formed(),
    {
    }

    /// A change to a handle keeps the state well formed if it leaves the
    /// handle's identifier alone.
    pub proof fn lemma_with_handle_changed_keeps_well_formed(
        self,
        window_id: usize,
        change: spec_fn(WindowHandleView) -> WindowHandleView,
    )
        requires
            self.well_formed(),
            forall|handle: WindowHandleView| #[trigger] change(handle).id == handle.id,
        ensures
            self.with_handle_changed(window_id, change).well_formed(),
    {
    }

    /// Closing, resizing, moving and adding a listener keep the state well
    /// formed.
    pub proof fn lemma_window_changes_keep_well_formed(
        self,
        window_id: usize,
        size: PhysicalSize,
        position: PhysicalPosition,
        redraw_listener: WindowRedrawRequestedListener,
        resize_listener: WindowResizedListener,
    )
        requires
            self.well_formed(),
        ensures
            self.with_window_closed(window_id).well_formed(),
            self.with_window_resized(window_id, size).well_formed(),
            self.with_window_moved(window_id, position).well_formed(),
            self.with_redraw_listener(window_id, redraw_listener).well_formed(),
            self.with_resize_listener(window_id, resize_listener).well_formed(),
    {
    }

    /// A report of the platform keeps the state well formed.
    pub proof fn lemma_after_window_event_keeps_well_formed(
        self,
        window_id: usize,
        event: WindowEvent,
    )
        requires
            self.well_formed(),
        ensures
            self.after_window_event(window_id, event).well_formed(),
    {
    }

    /// Closing a window a second time changes nothing, and finds nothing to
    /// detach.
    pub proof fn lemma_second_close_changes_nothing(self, window_id: usize)
        ensures
            !self.with_window_closed(window_id).is_open(window_id),
            self.with_window_closed(window_id).with_window_closed(window_id)
                == self.with_window_closed(window_id),
    {
        let closed = self.with_window_closed(window_id);
        assert(closed.with_window_closed(window_id).windows =~= closed.windows);
    }

    /// Closing a window leaves its handle registered, with the identifier,
    /// the position, the surface size and the scale factor that it had.
    pub proof fn lemma_closed_window_keeps_what_it_knew(self, window_id: usize)
        requires
            self.windows.contains_key(window_id),
        ensures
            self.with_window_closed(window_id).windows.contains_key(window_id),
            self.with_window_closed(window_id).windows[window_id].id
                == self.windows[window_id].id,
            self.with_window_closed(window_id).windows[window_id].outer_position
                == self.windows[window_id].outer_position,
            self.with_window_closed(window_id).windows[window_id].surface_size
                == self.windows[window_id].surface_size,
            self.with_window_closed(window_id).windows[window_id].scale_factor
                == self.windows[window_id].scale_factor,
    {
    }

    /// A resize that was queued for a window is dropped once the window is
    /// closed, and so is one for a window that was never registered: it asks
    /// for no call, and it is no failure either.
    pub proof fn lemma_resize_of_a_closed_window_is_dropped(
        self,
        action: RequestWindowSurfaceSizeAction,
    )
        requires
            !self.is_open(action.window_id),
        ensures
            self.action_call(ApplicationAction::RequestWindowSurfaceSize(action)).is_none(),
    {
    }

    /// No handle is ever removed: whatever window is registered stays
    /// registered when the platform answers a window request and when it
    /// reports about a window.
    pub proof fn lemma_handles_are_never_removed(
        self,
        window: Option<NativeWindow>,
        window_id: usize,
        event: WindowEvent,
        registered: usize,
    )
        requires
            self.windows.contains_key(registered),
        ensures
            self.with_window(window).windows.contains_key(registered),
            self.after_window_event(window_id, event).windows.contains_key(registered),
    {
    }

    /// Windows that the platform created under identifiers that differ from
    /// one another are all registered after an application's start: there
    /// are as many handles as windows, each window has the handle that was
    /// made for it, and there is no handle besides.
    pub proof fn lemma_distinct_windows_are_all_registered(
        application: ApplicationView,
        windows: Seq<NativeWindow>,
    )
        requires
            forall|i: int, j: int|
                0 <= i < j < windows.len() ==> windows[i].id != windows[j].id,
        ensures
            Self::started(application).with_windows(windows).windows.dom().finite(),
            Self::started(application).with_windows(windows).windows.dom().len() == windows.len(),
            forall|i: int|
                0 <= i < windows.len() ==> {
                    &&& #[trigger] Self::started(application).with_windows(
                        windows,
                    ).windows.contains_key(windows[i].id)
                    &&& Self::started(application).with_windows(windows).windows[windows[i].id]
                        == WindowHandleView::for_window(windows[i])
                },
            forall|window_id: usize| #[trigger]
                Self::started(application).with_windows(windows).windows.contains_key(window_id)
                    ==> exists|i: int| 0 <= i < windows.len() && windows[i].id == window_id,
    {
        Self::started(application).lemma_with_windows(windows);
    }
}

/// Normalized events under the identifier of their window.
pub open spec fn tagged(window_id: usize, events: Seq<NormalizedEvent>) -> Seq<WinitWindowEvent> {
    Seq::new(events.len(), |i: int| WinitWindowEvent { window_id, event: events[i] })
}

/// The call that hands the platform the surface size that a report asks for.
pub open spec fn surface_size_calls(event: WindowEvent) -> Seq<HostCall> {
    match requested_surface_size(event) {
        Some(surface_size) => seq![HostCall::WriteSurfaceSize { new_surface_size: surface_size }],
        None => Seq::empty(),
    }
}

/// The registered handles by what they hold.
spec fn window_views(windows: Map<usize, WindowHandle>) -> Map<usize, WindowHandleView> {
    windows.map_values(|window: WindowHandle| window@)
}

/// Whether every handle is registered under the identifier that it carries.
spec fn keyed_by_identifier(windows: Map<usize, WindowHandle>) -> bool {
    forall|window_id: usize|
        windows.contains_key(window_id) ==> (#[trigger] windows[window_id])@.id == window_id
}

/// Putting a handle into the registry puts what it holds under its
/// identifier, and taking out a handle that is not there changes nothing.
proof fn lemma_window_views_replace(windows: Map<usize, WindowHandle>, window_id: usize)
    ensures
        forall|window: WindowHandle| #[trigger]
            window_views(windows.insert(window_id, window)) == window_views(windows).insert(
                window_id,
                window@,
            ),
        !windows.contains_key(window_id) ==> windows.remove(window_id) == windows,
{
    assert forall|window: WindowHandle| #[trigger]
        window_views(windows.insert(window_id, window)) == window_views(windows).insert(
            window_id,
            window@,
        ) by {
        assert(window_views(windows.insert(window_id, window)) =~= window_views(windows).insert(
            window_id,
            window@,
        ));
    }
    assert(!windows.contains_key(window_id) ==> windows.remove(window_id) =~= windows);
}

/// A registry that is finite and keyed by identifier is well formed in what
/// it holds.
proof fn lemma_window_views_well_formed(
    windows: Map<usize, WindowHandle>,
    application: RunningApplicationView,
)
    requires
        windows.dom().finite(),
        keyed_by_identifier(windows),
        application.windows == window_views(windows),
    ensures
        application.well_formed(),
{
    assert(window_views(windows).dom() =~= windows.dom());
}

/// The state of the application on the loop thread.
#[derive(Debug)]
pub struct RunningApplication {
    windows: HashMap<usize, WindowHandle>,
    semaphore_signaller: Option<SemaphoreSignaller>,
    wakeup_signallers: Vec<WakeUpSignaller>,
}

impl View for RunningApplication {
    type V = RunningApplicationView;

    closed spec fn view(&self) -> RunningApplicationView {
        RunningApplicationView {
            windows: window_views(self.windows@),
            semaphore_signaller: self.semaphore_signaller,
            wakeup_signallers: self.wakeup_signallers@,
        }
    }
}

impl RunningApplication {
    /// Every handle is registered under the identifier that it carries.
    #[verifier::type_invariant]
    spec fn handles_carry_their_identifiers(self) -> bool {
        keyed_by_identifier(self.windows@)
    }

    /// The state in which an application starts to run.
    pub(crate) fn start(
        semaphore_signaller: Option<SemaphoreSignaller>,
        wakeup_signallers: Vec<WakeUpSignaller>,
    ) -> (running: Self)
        ensures
            running@ == (RunningApplicationView {
                windows: Map::empty(),
                semaphore_signaller,
                wakeup_signallers: wakeup_signallers@,
            }),
            running@.well_formed(),
    {
        let running = RunningApplication {
            windows: HashMap::new(),
            semaphore_signaller,
            wakeup_signallers,
        };
        assert(running@.windows =~= Map::empty());
        running
    }

    /// Takes the registry out to work on it, and leaves an empty one, which
    /// is as well formed as any: whatever happens to the registry while it
    /// is out, the application itself never holds a handle under a wrong
    /// identifier.
    fn take_windows(&mut self) -> (windows: HashMap<usize, WindowHandle>)
        ensures
            windows@ == old(self).windows@,
            keyed_by_identifier(windows@),
            final(self).windows@ == Map::<usize, WindowHandle>::empty(),
            final(self).semaphore_signaller == old(self).semaphore_signaller,
            final(self).wakeup_signallers == old(self).wakeup_signallers,
    {
        proof {
            use_type_invariant(&*self);
        }
        let mut windows: HashMap<usize, WindowHandle> = HashMap::new();
        core::mem::swap(&mut self.windows, &mut windows);
        windows
    }

    /// Puts the registry back after the work on it.
    fn put_windows(&mut self, windows: HashMap<usize, WindowHandle>)
        requires
            keyed_by_identifier(windows@),
        ensures
            final(self).windows@ == windows@,
            final(self).semaphore_signaller == old(self).semaphore_signaller,
            final(self).wakeup_signallers == old(self).wakeup_signallers,
            final(self)@.well_formed(),
    {
        let mut windows = windows;
        core::mem::swap(&mut self.windows, &mut windows);
        proof {
            lemma_window_views_well_formed(self.windows@, self@);
        }
    }

    /// The handle of a window, if the window was ever registered: the one
    /// that carries this identifier. Closing a window does not remove its
    /// handle.
    pub fn window(&self, window_id: usize) -> (window: Option<&WindowHandle>)
        ensures
            self@.well_formed(),
            match window {
                Some(window) => {
                    &&& self@.windows.contains_key(window_id)
                    &&& window@ == self@.windows[window_id]
                    &&& window@.id == window_id
                },
                None => !self@.windows.contains_key(window_id),
            },
    {
        proof {
            use_type_invariant(self);
            lemma_window_views_well_formed(self.windows@, self@);
        }
        self.windows.get(&window_id)
    }

    /// Closes a window: detaches the platform's window from its handle.
    /// Says whether there was one to detach, which is so for the first close
    /// of a registered window and for nothing else.
    pub fn close_window(&mut self, window_id: usize) -> (detached: bool)
        ensures
            detached == old(self)@.is_open(window_id),
            final(self)@ == old(self)@.with_window_closed(window_id),
            final(self)@.well_formed(),
    {
        let mut windows = self.take_windows();
        proof {
            lemma_window_views_replace(windows@, window_id);
        }
        let detached = match windows.entry(window_id) {
            Entry::Occupied(entry) => entry.into_mut().close_window(),
            Entry::Vacant(_) => false,
        };
        self.put_windows(windows);
        detached
    }

    /// Takes note of a surface size that the platform reported for a window
    /// and hands out the calls to the window's resize listeners. Nothing
    /// happens for a window that is not registered, and nothing for a size
    /// of zero by zero.
    pub fn on_window_resized(&mut self, window_id: usize, size: &PhysicalSize) -> (calls: Vec<
        HostCall,
    >)
        ensures
            final(self)@ == old(self)@.with_window_resized(window_id, *size),
            calls@ == old(self)@.listener_calls(window_id, WindowEvent::SurfaceResized(*size)),
            final(self)@.well_formed(),
    {
        let mut windows = self.take_windows();
        proof {
            lemma_window_views_replace(windows@, window_id);
        }
        let calls = match windows.entry(window_id) {
            Entry::Occupied(entry) => entry.into_mut().on_window_resized(size),
            Entry::Vacant(_) => Vec::new(),
        };
        self.put_windows(windows);
        calls
    }

    /// Takes note of a position that the platform reported for a window.
    /// Says whether the window is registered.
    pub fn on_window_moved(&mut self, window_id: usize, position: &PhysicalPosition) -> (noted:
        bool)
        ensures
            noted == old(self)@.windows.contains_key(window_id),
            final(self)@ == old(self)@.with_window_moved(window_id, *position),
            final(self)@.well_formed(),
    {
        let mut windows = self.take_windows();
        proof {
            lemma_window_views_replace(windows@, window_id);
        }
        let noted = match windows.entry(window_id) {
            Entry::Occupied(entry) => {
                entry.into_mut().on_window_moved(position);
                true
            },
            Entry::Vacant(_) => false,
        };
        self.put_windows(windows);
        noted
    }

    /// Adds a redraw listener to a window, behind those that it has. Says
    /// whether the window is registered.
    pub fn add_redraw_listener(
        &mut self,
        window_id: usize,
        listener: WindowRedrawRequestedListener,
    ) -> (added: bool)
        ensures
            added == old(self)@.windows.contains_key(window_id),
            final(self)@ == old(self)@.with_redraw_listener(window_id, listener),
            final(self)@.well_formed(),
    {
        let mut windows = self.take_windows();
        proof {
            lemma_window_views_replace(windows@, window_id);
        }
        let added = match windows.entry(window_id) {
            Entry::Occupied(entry) => {
                entry.into_mut().add_redraw_listener(listener);
                true
            },
            Entry::Vacant(_) => false,
        };
        self.put_windows(windows);
        added
    }

    /// Adds a resize listener to a window, behind those that it has. Says
    /// whether the window is registered.
    pub fn add_resized_listener(
        &mut self,
        window_id: usize,
        listener: WindowResizedListener,
    ) -> (added: bool)
        ensures
            added == old(self)@.windows.contains_key(window_id),
            final(self)@ == old(self)@.with_resize_listener(window_id, listener),
            final(self)@.well_formed(),
    {
        let mut windows = self.take_windows();
        proof {
            lemma_window_views_replace(windows@, window_id);
        }
        let added = match windows.entry(window_id) {
            Entry::Occupied(entry) => {
                entry.into_mut().add_resized_listener(listener);
                true
            },
            Entry::Vacant(_) => false,
        };
        self.put_windows(windows);
        added
    }

    /// Takes up a report of the platform about a window, as far as the
    /// window's handle and its listeners go. A new surface size is noted in
    /// the handle, and the calls to the resize listeners are handed out; a
    /// redraw request gives the calls to the redraw listeners. Nothing is
    /// published here: once these calls are made, `enqueue_event` publishes
    /// the report, so that every listener has found the new size in place
    /// before any consumer can hear of it.
    pub fn window_event(&mut self, window_id: usize, event: &WindowEvent) -> (calls: Vec<HostCall>)
        ensures
            final(self)@ == old(self)@.after_window_event(window_id, *event),
            calls@ == old(self)@.listener_calls(window_id, *event),
            final(self)@.well_formed(),
    {
        proof {
            use_type_invariant(&*self);
            lemma_window_views_well_formed(self.windows@, self@);
        }
        match event {
            WindowEvent::SurfaceResized(size) => self.on_window_resized(window_id, size),
            WindowEvent::RedrawRequested => {
                match self.windows.get(&window_id) {
                    Some(window_handle) => window_handle.on_window_redraw(),
                    None => Vec::new(),
                }
            },
            _ => Vec::new(),
        }
    }

    /// Publishes a report of the platform about a window: its normalized
    /// events go to the event queue under the window's identifier, and the
    /// semaphore is raised once if there was at least one. A report about a
    /// window that is not registered is dropped. Whatever listens to the
    /// window is to be told before, by the calls of `window_event`.
    pub fn enqueue_event(
        &mut self,
        application_handle: &mut ApplicationHandle,
        event: WindowEvent,
        window_id: usize,
    ) -> (calls: Vec<HostCall>)
        ensures
            final(self)@ == old(self)@,
            final(application_handle)@ == old(application_handle)@.with_events(
                old(self)@.published(window_id, event),
            ),
            calls@ == old(self)@.publish_calls(window_id, event),
            final(self)@.well_formed(),
    {
        proof {
            use_type_invariant(&*self);
            lemma_window_views_well_formed(self.windows@, self@);
        }
        let mut calls: Vec<HostCall> = Vec::new();
        if self.windows.get(&window_id).is_some() {
            if let Some(surface_size) = surface_size_request(&event) {
                calls.push(HostCall::WriteSurfaceSize { new_surface_size: surface_size });
            }
            let events = convert_event(event);
            let has_events = !events.is_empty();
            let ghost produced = events@;

            for event in iter: events
                invariant
                    iter.seq() == produced,
                    application_handle@ == old(application_handle)@.with_events(
                        tagged(window_id, produced.take(iter.index() as int)),
                    ),
            {
                application_handle.push_event(WinitWindowEvent { window_id, event });
                assert(old(application_handle)@.events + tagged(
                    window_id,
                    produced.take(iter.index() as int),
                ) + seq![WinitWindowEvent { window_id, event }] =~= old(application_handle)@.events
                    + tagged(window_id, produced.take(iter.index() + 1)));
            }
            assert(produced.take(produced.len() as int) =~= produced);

            if has_events {
                if let Some(semaphore) = &self.semaphore_signaller {
                    calls.push(semaphore.signal());
                }
            }
        }
        calls
    }

    /// Handles one action, and says which call it asks for.
    pub fn handle_action(&mut self, action: ApplicationAction) -> (call: Option<HostCall>)
        ensures
            final(self)@ == old(self)@,
            call == old(self)@.action_call(action),
            final(self)@.well_formed(),
    {
        proof {
            use_type_invariant(&*self);
            lemma_window_views_well_formed(self.windows@, self@);
        }
        match action {
            ApplicationAction::FunctionCall(action) => Some(
                HostCall::InvokeFunction { callback: action.callback, thunk: action.thunk },
            ),
            ApplicationAction::CreateWindow(action) => Some(
                HostCall::CreateWindow {
                    window_attributes: action.window_attributes,
                    callback: action.callback,
                },
            ),
            ApplicationAction::RequestWindowSurfaceSize(action) => {
                match self.windows.get(&action.window_id) {
                    Some(handle) => {
                        if handle.is_open() {
                            Some(
                                HostCall::RequestSurfaceSize {
                                    window_id: action.window_id,
                                    surface_size: action.surface_size,
                                },
                            )
                        } else {
                            None
                        }
                    },
                    None => None,
                }
            },
        }
    }

    /// Takes up the platform's answer to a window request. A window that
    /// came into being gets a handle, which is registered under the
    /// window's identifier before the completion callback is due. A failed
    /// request is dropped: nothing is registered and nobody is called.
    pub fn finish_create_window(&mut self, callback: usize, window: Option<NativeWindow>) -> (call:
        Option<HostCall>)
        ensures
            final(self)@ == old(self)@.with_window(window),
            call == RunningApplicationView::completion(callback, window),
            final(self)@.well_formed(),
    {
        match window {
            Some(window) => {
                let window_handle = WindowHandle::for_window(window);
                let window_id = window_handle.id();
                let mut windows = self.take_windows();
                proof {
                    lemma_window_views_replace(windows@, window_id);
                }
                windows.insert(window_id, window_handle);
                self.put_windows(windows);
                Some(HostCall::WindowCreated { callback, window_id })
            },
            None => {
                proof {
                    use_type_invariant(&*self);
                    lemma_window_views_well_formed(self.windows@, self@);
                }
                None
            },
        }
    }

    /// The signals to the wake-up listeners.
    pub fn signal_wakeup(&self) -> (calls: Vec<HostCall>)
        ensures
            calls@ == self@.wakeup_calls(),
            self@.well_formed(),
    {
        proof {
            use_type_invariant(self);
            lemma_window_views_well_formed(self.windows@, self@);
        }
        let mut calls: Vec<HostCall> = Vec::new();
        let mut i: usize = 0;
        while i < self.wakeup_signallers.len()
            invariant
                i <= self.wakeup_signallers.len(),
                calls@.len() == i,
                forall|k: int| 0 <= k < i ==> calls@[k] == self@.wakeup_signallers[k].call(),
            decreases self.wakeup_signallers.len() - i,
        {
            calls.push(self.wakeup_signallers[i].signal());
            i += 1;
        }
        calls
    }

    /// One step of the answer to a wake-up. While actions are queued, the
    /// oldest is taken and handled. Once the queue is empty, every wake-up
    /// listener is signalled, once for the whole batch.
    pub fn proxy_wake_up(&mut self, application_handle: &mut ApplicationHandle) -> (step:
        WakeUpStep)
        ensures
            final(self)@ == old(self)@,
            final(self)@.well_formed(),
            old(application_handle)@.pending_actions.len() > 0 ==> {
                &&& step matches WakeUpStep::Handled(call)
                &&& call == old(self)@.action_call(old(application_handle)@.pending_actions.first())
                &&& final(application_handle)@ == old(application_handle)@.without_action()
            },
            old(application_handle)@.pending_actions.len() == 0 ==> {
                &&& step matches WakeUpStep::Drained(calls)
                &&& calls@ == old(self)@.wakeup_calls()
                &&& final(application_handle)@ == old(application_handle)@
            },
    {
        proof {
            use_type_invariant(&*self);
            lemma_window_views_well_formed(self.windows@, self@);
        }
        match application_handle.take_action() {
            Some(action) => WakeUpStep::Handled(self.handle_action(action)),
            None => WakeUpStep::Drained(self.signal_wakeup()),
        }
    }

    /// Takes note that the loop has ended. Nobody will take actions from the
    /// handle's queue any more. The window handles stay, for those who still
    /// hold the identifiers of their windows.
    pub fn terminate(&mut self, application_handle: &mut ApplicationHandle)
        ensures
            final(self)@ == old(self)@,
            final(self)@.well_formed(),
            final(application_handle)@ == old(application_handle)@.disconnected(),
    {
        proof {
            use_type_invariant(&*self);
            lemma_window_views_well_formed(self.windows@, self@);
        }
        application_handle.disconnect();
    }
}

} // verus!
