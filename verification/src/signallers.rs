//! Fire-and-forget notifications to the foreign side.
//!
//! A signaller holds a callback and its context and nothing else, so it can
//! be used from any thread, any number of times.

use vstd::prelude::*;
use crate::host::HostCall;

verus! {

/// Tells a listener that the event loop has handled a batch of actions.
#[derive(Debug, Clone, PartialEq, Eq)]
pub struct WakeUpSignaller {
    callback: usize,
    thunk: usize,
}

impl WakeUpSignaller {
    pub closed spec fn callback(&self) -> usize {
        self.callback
    }

    pub closed spec fn thunk(&self) -> usize {
        self.thunk
    }

    /// The call that delivers this signal.
    pub open spec fn call(&self) -> HostCall {
        HostCall::SignalWakeUp { callback: self.callback(), thunk: self.thunk() }
    }

    pub fn new(callback: usize, thunk: usize) -> (r: Self)
        ensures
            r.callback() == callback,
            r.thunk() == thunk,
    {
        Self { callback, thunk }
    }

    pub fn signal(&self) -> (call: HostCall)
        ensures
            call == self.call(),
    {
        HostCall::SignalWakeUp { callback: self.callback, thunk: self.thunk }
    }
}

/// Raises one of the semaphores that a consumer waits on. The index tells
/// the consumer's event sources apart.
#[derive(Debug, Clone, PartialEq, Eq)]
pub struct SemaphoreSignaller {
    semaphore_callback: usize,
    semaphore_index: usize,
    semaphore_thunk: usize,
}

impl SemaphoreSignaller {
    pub closed spec fn semaphore_callback(&self) -> usize {
        self.semaphore_callback
    }

    pub closed spec fn semaphore_index(&self) -> usize {
        self.semaphore_index
    }

    pub closed spec fn semaphore_thunk(&self) -> usize {
        self.semaphore_thunk
    }

    /// The call that delivers this signal.
    pub open spec fn call(&self) -> HostCall {
        HostCall::SignalSemaphore {
            callback: self.semaphore_callback(),
            index: self.semaphore_index(),
            thunk: self.semaphore_thunk(),
        }
    }

    pub fn new(semaphore_callback: usize, semaphore_index: usize, semaphore_thunk: usize) -> (r:
        Self)
        ensures
            r.semaphore_callback() == semaphore_callback,
            r.semaphore_index() == semaphore_index,
            r.semaphore_thunk() == semaphore_thunk,
    {
        Self { semaphore_callback, semaphore_index, semaphore_thunk }
    }

    pub fn signal(&self) -> (call: HostCall)
        ensures
            call == self.call(),
    {
        HostCall::SignalSemaphore {
            callback: self.semaphore_callback,
            index: self.semaphore_index,
            thunk: self.semaphore_thunk,
        }
    }
}

} // verus!
