//! The caller's handle for one request.

use crate::model::{next, Event};
use crate::service::{Misuse, ProtoService};
use vstd::prelude::*;

verus! {

/// The handle for one request. It names the task; whether the task is still
/// pending is for the manager to say, so the handle's methods take the manager
/// that handed it out.
///
/// A handle cannot reach the manager when it goes out of scope. Its owner
/// gives it up with [`ProtoTask::drop`]; a handle that is merely let go leaves
/// its task in the slot until the task is completed.
#[must_use]
#[derive(Debug)]
pub struct ProtoTask(Option<u64>);

impl ProtoTask {
    /// The handle that names `task`.
    pub(crate) fn new(task: u64) -> (handle: Self)
        ensures
            handle.id() == Some(task as nat),
    {
        ProtoTask(Some(task))
    }

    /// The task that the handle names, until the handle is cancelled.
    pub closed spec fn id(&self) -> Option<nat> {
        match self.0 {
            Some(task) => Some(task as nat),
            None => None,
        }
    }

    /// The handle names a task that occupies the slot of `service`.
    pub open spec fn active_in(&self, service: &ProtoService) -> bool {
        self.id() matches Some(task) && service@.is_active(task)
    }

    /// The number of the task, until the handle is cancelled.
    pub fn task(&self) -> (task: Option<u64>)
        ensures
            match task {
                Some(task) => self.id() == Some(task as nat),
                None => self.id() is None,
            },
    {
        self.0
    }

    /// Whether the task is neither completed nor cancelled.
    pub fn is_active(&self, service: &ProtoService) -> (active: bool)
        ensures
            active == self.active_in(service),
    {
        match self.0 {
            Some(task) => service.is_active(task),
            None => false,
        }
    }

    /// Cancels the task: the slot is emptied and the callback is never
    /// invoked, whatever the transport delivers later. The handle names no
    /// task afterwards.
    ///
    /// Cancelling a task that is not active is a mistake of the caller: the
    /// precondition leaves it out.
    pub fn cancel(&mut self, service: &mut ProtoService)
        requires
            old(self).active_in(old(service)),
        ensures
            final(self).id() is None,
            final(service)@ == next(old(service)@, Event::Cancel { task: old(self).id()->0 }),
            final(service).history() == old(service).history().push(
                Event::Cancel { task: old(self).id()->0 },
            ),
            old(service).wf() ==> final(service).wf(),
    {
        match self.0.take() {
            Some(task) => service.release(task),
            None => {},
        }
    }

    /// Cancels the task if it is active, as [`ProtoTask::cancel`] does, and
    /// reports the misuse `NotActive` if it is not. A misuse changes nothing.
    pub fn try_cancel(&mut self, service: &mut ProtoService) -> (done: Result<(), Misuse>)
        ensures
            old(service).wf() ==> final(service).wf(),
            done is Ok <==> old(self).active_in(old(service)),
            done is Ok ==> {
                &&& final(self).id() is None
                &&& final(service)@ == next(
                    old(service)@,
                    Event::Cancel { task: old(self).id()->0 },
                )
                &&& final(service).history() == old(service).history().push(
                    Event::Cancel { task: old(self).id()->0 },
                )
            },
            done is Err ==> {
                &&& done == Err::<(), Misuse>(Misuse::NotActive)
                &&& *final(self) == *old(self)
                &&& final(service)@ == old(service)@
                &&& final(service).history() == old(service).history()
            },
    {
        if self.is_active(service) {
            self.cancel(service);
            Ok(())
        } else {
            Err(Misuse::NotActive)
        }
    }

    /// Gives the handle up: a task that is still active is cancelled first.
    pub fn drop(self, service: &mut ProtoService)
        ensures
            final(service)@ == (match self.id() {
                Some(task) => next(old(service)@, Event::Cancel { task }),
                None => old(service)@,
            }),
            final(service).history() == (if self.active_in(old(service)) {
                old(service).history().push(Event::Cancel { task: self.id()->0 })
            } else {
                old(service).history()
            }),
            old(service).wf() ==> final(service).wf(),
    {
        let mut handle = self;
        if handle.is_active(service) {
            handle.cancel(service);
        }
    }
}

} // verus!
