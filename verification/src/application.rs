//! The application before it runs, and the handle through which any
//! thread reaches it: actions go in at one end of the handle, events come
//! out at the other, both in the order in which they arrived.

use vstd::prelude::*;
use std::collections::VecDeque;
use crate::actions::{ApplicationAction, CreateWindowAction};
use crate::events::{ApplicationEvents, WinitWindowEvent};
use crate::host::HostCall;
use crate::running::{RunningApplication, RunningApplicationView};
use crate::signallers::{SemaphoreSignaller, WakeUpSignaller};
use crate::window_attributes::WindowAttributes;

verus! {

/// Why the platform could not give an event loop.
#[derive(Debug, Clone, PartialEq, Eq)]
pub enum EventLoopError {
    /// There has been an event loop in this process before.
    RecreationAttempt,
    /// The application ended with this status.
    ExitFailure(i32),
    /// The operating system refused, in its own words.
    Os(String),
    /// The platform does not offer what was asked for.
    NotSupported(String),
}

/// The signallers that an application is set up with.
pub struct ApplicationView {
    /// Raised once for every report that produced events.
    pub semaphore_signaller: Option<SemaphoreSignaller>,
    /// Signalled once after every batch of actions, in this order.
    pub wakeup_signallers: Seq<WakeUpSignaller>,
}

/// Collects the signallers of an application before it is built.
#[derive(Debug)]
pub struct ApplicationBuilder {
    semaphore_signaller: Option<SemaphoreSignaller>,
    wakeup_signallers: Vec<WakeUpSignaller>,
}

impl View for ApplicationBuilder {
    type V = ApplicationView;

    closed spec fn view(&self) -> ApplicationView {
        ApplicationView {
            semaphore_signaller: self.semaphore_signaller,
            wakeup_signallers: self.wakeup_signallers@,
        }
    }
}

impl ApplicationBuilder {
    pub fn new() -> (builder: Self)
        ensures
            builder@.semaphore_signaller.is_none(),
            builder@.wakeup_signallers == Seq::<WakeUpSignaller>::empty(),
    {
        Self { semaphore_signaller: None, wakeup_signallers: Vec::new() }
    }

    /// Adds a wake-up signaller behind those that are there.
    pub fn add_wakeup_signaller(&mut self, wake_up_signaller: WakeUpSignaller)
        ensures
            final(self)@ == (ApplicationView {
                wakeup_signallers: old(self)@.wakeup_signallers.push(wake_up_signaller),
                ..old(self)@
            }),
    {
        self.wakeup_signallers.push(wake_up_signaller);
    }

    /// Sets the semaphore signaller, in place of the one that was set before.
    pub fn set_semaphore_signaller(&mut self, semaphore: SemaphoreSignaller)
        ensures
            final(self)@ == (ApplicationView {
                semaphore_signaller: Some(semaphore),
                ..old(self)@
            }),
    {
        self.semaphore_signaller = Some(semaphore);
    }

    /// Builds the application and its handle, given how the platform's
    /// attempt to set up an event loop went. Where that attempt failed the
    /// failure is handed on and there is no application.
    pub fn build(self, event_loop: Result<(), EventLoopError>) -> (built: Result<
        (Application, ApplicationHandle),
        EventLoopError,
    >)
        ensures
            match event_loop {
                Ok(_) => built matches Ok(pair) && pair.0@ == self@ && pair.1@
                    == ApplicationHandleView::fresh(),
                Err(error) => built == Err::<(Application, ApplicationHandle), EventLoopError>(
                    error,
                ),
            },
    {
        match event_loop {
            Ok(_) => {
                let application_handle = ApplicationHandle {
                    actions: VecDeque::new(),
                    connected: true,
                    events: ApplicationEvents::new(),
                };
                let application = Application {
                    semaphore_signaller: self.semaphore_signaller,
                    wakeup_signallers: self.wakeup_signallers,
                };
                Ok((application, application_handle))
            },
            Err(error) => Err(error),
        }
    }
}

/// An application that is set up and has not started yet.
#[derive(Debug)]
pub struct Application {
    semaphore_signaller: Option<SemaphoreSignaller>,
    wakeup_signallers: Vec<WakeUpSignaller>,
}

impl View for Application {
    type V = ApplicationView;

    closed spec fn view(&self) -> ApplicationView {
        ApplicationView {
            semaphore_signaller: self.semaphore_signaller,
            wakeup_signallers: self.wakeup_signallers@,
        }
    }
}

impl Application {
    /// Starts the application. This can be done once: the application is
    /// used up, and what comes back is its running state, with no window yet.
    pub fn run(self) -> (running: RunningApplication)
        ensures
            running@ == RunningApplicationView::started(self@),
            running@.well_formed(),
    {
        RunningApplication::start(self.semaphore_signaller, self.wakeup_signallers)
    }

    /// Gives the application up without ever starting it. Nobody will take
    /// actions from the handle's queue any more.
    pub fn release(self, application_handle: &mut ApplicationHandle)
        ensures
            final(application_handle)@ == old(application_handle)@.disconnected(),
    {
        application_handle.disconnect();
    }
}

/// What an application handle holds.
pub struct ApplicationHandleView {
    /// The actions that wait for the loop thread, oldest first.
    pub pending_actions: Seq<ApplicationAction>,
    /// Whether anybody is left to take actions from the queue.
    pub connected: bool,
    /// The events that wait for a consumer, oldest first.
    pub events: Seq<WinitWindowEvent>,
}

impl ApplicationHandleView {
    /// A handle as it comes out of the builder.
    pub open spec fn fresh() -> ApplicationHandleView {
        ApplicationHandleView {
            pending_actions: Seq::empty(),
            connected: true,
            events: Seq::empty(),
        }
    }

    /// The handle after one more action was queued.
    pub open spec fn with_action(self, action: ApplicationAction) -> ApplicationHandleView {
        ApplicationHandleView { pending_actions: self.pending_actions.push(action), ..self }
    }

    /// The handle after these actions were queued, the first of them first.
    pub open spec fn with_actions(self, actions: Seq<ApplicationAction>) -> ApplicationHandleView
        decreases actions.len(),
    {
        if actions.len() == 0 {
            self
        } else {
            self.with_action(actions.first()).with_actions(actions.drop_first())
        }
    }

    /// The handle after the loop thread took the oldest action.
    pub open spec fn without_action(self) -> ApplicationHandleView {
        ApplicationHandleView { pending_actions: self.pending_actions.drop_first(), ..self }
    }

    /// The handle after the loop thread took the `count` oldest actions.
    pub open spec fn without_actions(self, count: nat) -> ApplicationHandleView
        decreases count,
    {
        if count == 0 {
            self
        } else {
            self.without_action().without_actions((count - 1) as nat)
        }
    }

    /// The handle after these events were published, the first of them first.
    pub open spec fn with_events(self, events: Seq<WinitWindowEvent>) -> ApplicationHandleView {
        ApplicationHandleView { events: self.events + events, ..self }
    }

    /// The handle after a consumer took the oldest event.
    pub open spec fn without_event(self) -> ApplicationHandleView {
        ApplicationHandleView { events: self.events.drop_first(), ..self }
    }

    /// The handle after the loop thread went away. The actions that nobody
    /// took are lost; the events that were published stay.
    pub open spec fn disconnected(self) -> ApplicationHandleView {
        ApplicationHandleView { pending_actions: Seq::empty(), connected: false, ..self }
    }
}

/// The way into a running application, from any thread, and the way out of
/// it for events.
#[derive(Debug)]
pub struct ApplicationHandle {
    actions: VecDeque<ApplicationAction>,
    connected: bool,
    events: ApplicationEvents,
}

impl View for ApplicationHandle {
    type V = ApplicationHandleView;

    closed spec fn view(&self) -> ApplicationHandleView {
        ApplicationHandleView {
            pending_actions: self.actions@,
            connected: self.connected,
            events: self.events@,
        }
    }
}

impl ApplicationHandle {
    /// Whether anybody is left to take actions from the queue.
    pub fn is_connected(&self) -> (connected: bool)
        ensures
            connected == self@.connected,
    {
        self.connected
    }

    /// Queues the creation of a window. The callback runs on the loop
    /// thread, once the window exists and its handle is registered.
    pub fn create_window(&mut self, window_attributes: WindowAttributes, callback: usize) -> (call:
        HostCall)
        requires
            old(self)@.connected,
        ensures
            final(self)@ == old(self)@.with_action(
                ApplicationAction::CreateWindow(CreateWindowAction { window_attributes, callback }),
            ),
            call == HostCall::WakeUpEventLoop,
    {
        self.enqueue_action(
            ApplicationAction::CreateWindow(CreateWindowAction { window_attributes, callback }),
        )
    }

    /// Puts an action behind all that are queued, and asks for the loop
    /// thread to be woken, whether or not it is asleep.
    pub fn enqueue_action(&mut self, action: ApplicationAction) -> (call: HostCall)
        requires
            old(self)@.connected,
        ensures
            final(self)@ == old(self)@.with_action(action),
            call == HostCall::WakeUpEventLoop,
    {
        self.actions.push_back(action);
        self.wake_up()
    }

    /// Asks for the loop thread to be woken. Nothing is queued; a wake-up
    /// that finds no action is harmless.
    pub fn wake_up(&self) -> (call: HostCall)
        ensures
            call == HostCall::WakeUpEventLoop,
    {
        HostCall::WakeUpEventLoop
    }

    /// Puts an event behind all that wait for a consumer.
    pub fn push_event(&mut self, event: WinitWindowEvent)
        ensures
            final(self)@ == old(self)@.with_events(seq![event]),
    {
        self.events.push_event(event);
        assert(old(self)@.events.push(event) =~= old(self)@.events + seq![event]);
    }

    /// Takes the oldest event. `None` says that none waits.
    pub fn pop_event(&mut self) -> (event: Option<WinitWindowEvent>)
        ensures
            old(self)@.events.len() == 0 ==> {
                &&& event.is_none()
                &&& final(self)@ == old(self)@
            },
            old(self)@.events.len() > 0 ==> {
                &&& event == Some(old(self)@.events.first())
                &&& final(self)@ == old(self)@.without_event()
            },
    {
        self.events.pop_event()
    }

    /// Takes the oldest action off the queue, for the loop thread.
    pub(crate) fn take_action(&mut self) -> (action: Option<ApplicationAction>)
        ensures
            old(self)@.pending_actions.len() == 0 ==> {
                &&& action.is_none()
                &&& final(self)@ == old(self)@
            },
            old(self)@.pending_actions.len() > 0 ==> {
                &&& action == Some(old(self)@.pending_actions.first())
                &&& final(self)@ == old(self)@.without_action()
            },
    {
        self.actions.pop_front()
    }

    pub(crate) fn disconnect(&mut self)
        ensures
            final(self)@ == old(self)@.disconnected(),
    {
        self.actions.clear();
        self.connected = false;
    }
}

impl ApplicationHandleView {
    proof fn lemma_with_actions(self, actions: Seq<ApplicationAction>)
        ensures
            self.with_actions(actions) == (ApplicationHandleView {
                pending_actions: self.pending_actions + actions,
                ..self
            }),
        decreases actions.len(),
    {
        if actions.len() > 0 {
            let next = self.with_action(actions.first());
            next.lemma_with_actions(actions.drop_first());
            assert(next.pending_actions + actions.drop_first() =~= self.pending_actions
                + actions);
        }
    }

    proof fn lemma_without_actions(self, count: nat)
        requires
            count <= self.pending_actions.len(),
        ensures
            self.without_actions(count) == (ApplicationHandleView {
                pending_actions: self.pending_actions.skip(count as int),
                ..self
            }),
        decreases count,
    {
        if count == 0 {
            assert(self.pending_actions.skip(0) =~= self.pending_actions);
        } else {
            let next = self.without_action();
            next.lemma_without_actions((count - 1) as nat);
            assert(next.pending_actions.skip(count - 1) =~= self.pending_actions.skip(
                count as int,
            ));
        }
    }

    /// Actions leave the queue in the order in which they arrived: after
    /// these actions were queued behind those that waited, and the loop
    /// thread has taken all that waited and the first `position` of these,
    /// the next action that it takes is the one at `position`.
    pub proof fn lemma_actions_leave_in_arrival_order(
        self,
        actions: Seq<ApplicationAction>,
        position: int,
    )
        requires
            0 <= position < actions.len(),
        ensures
            self.with_actions(actions).without_actions(
                (self.pending_actions.len() + position) as nat,
            ).pending_actions.first() == actions[position],
            self.with_actions(actions).without_actions(
                (self.pending_actions.len() + actions.len()) as nat,
            ).pending_actions.len() == 0,
    {
        self.lemma_with_actions(actions);
        let queued = self.with_actions(actions);
        queued.lemma_without_actions((self.pending_actions.len() + position) as nat);
        queued.lemma_without_actions((self.pending_actions.len() + actions.len()) as nat);
    }

    /// Events reach the consumers in the order in which they were
    /// published: after these events were put behind those that waited, and
    /// all that waited were taken, the oldest event is the first of these.
    pub proof fn lemma_events_leave_in_arrival_order(self, events: Seq<WinitWindowEvent>)
        requires
            events.len() > 0,
            self.events.len() == 0,
        ensures
            self.with_events(events).events.first() == events.first(),
            self.with_events(events).without_event().events == events.drop_first(),
    {
    }
}

} // verus!
