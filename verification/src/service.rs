//! The connection manager: the owner of the single-flight slot.
//!
//! The manager performs no I/O. Its owner opens the socket, defers what is
//! to be deferred and invokes the callbacks; it tells the manager what
//! happened, and gets back what to announce, to send and to complete.
//!
//! Every method that changes the manager stands for one [`Event`]: it takes
//! the state to [`next`] of that event, hands out what [`notice`], [`fired`]
//! and [`dispatch`] give for it, and appends the event to the manager's
//! history.

use crate::envelope::{result_view, settle, Input, ProtoResult};
use crate::lifecycle::{lemma_history, lemma_one_more_event, phase, phase_at, run};
use crate::model::{
    dispatch, fired, next, notice, DispatchView, Event, Firing, Link, Pending, ProtoStatus, Stage,
    State,
};
use crate::task::ProtoTask;
use vstd::prelude::*;
use vstd::string::StringExecFns;

verus! {

/// One completion: the owner invokes the callback of `task` once, with
/// [`Completion::result`], and releases it.
#[derive(Debug, PartialEq, Eq)]
pub struct Completion {
    pub task: u64,
    /// Whether `data` is a message of the transport, to be decoded, or the
    /// reason of a failure.
    pub success: bool,
    pub data: String,
}

impl View for Completion {
    type V = Firing;

    open spec fn view(&self) -> Firing {
        Firing { task: self.task as nat, success: self.success, data: self.data@ }
    }
}

impl Completion {
    /// The result that the caller of the request is told: what a message
    /// decodes to, or the failure with its reason.
    pub fn result(self) -> (result: ProtoResult<serde_json::Value>)
        ensures
            result_view(result) == self@.result(),
    {
        settle(self.success, self.data)
    }
}

/// The completion that was handed out, if one was.
pub open spec fn firing(completion: Option<Completion>) -> Option<Firing> {
    match completion {
        Some(completion) => Some(completion@),
        None => None,
    }
}

/// What a deferred transmission comes to.
#[derive(Debug, PartialEq, Eq)]
pub enum Dispatch {
    /// The task is still pending: the owner hands this text to the transport.
    Transmit(String),
    /// The task is no longer pending. It would fail with this reason, but its
    /// callback is gone, so no callback is invoked.
    Stale(String),
}

impl View for Dispatch {
    type V = DispatchView;

    open spec fn view(&self) -> DispatchView {
        match self {
            Dispatch::Transmit(text) => DispatchView::Transmit(text@),
            Dispatch::Stale(reason) => DispatchView::Stale(reason@),
        }
    }
}

/// A call that the caller should not have made. The methods with a
/// precondition leave such calls out; their `try_` forms report them.
#[derive(Clone, Copy, Debug, PartialEq, Eq)]
pub enum Misuse {
    /// A request before any adapter was set up.
    NotConnected,
    /// A request when every task number is used up.
    OutOfTasks,
    /// A cancellation through a handle whose task is not active.
    NotActive,
}

/// The task in the slot.
struct Task {
    id: u64,
    stage: Stage,
    request: String,
}

/// The connection manager.
pub struct ProtoService {
    link: Link,
    url: String,
    task: Option<Task>,
    issued: u64,
    /// What has happened to the manager since it was made.
    past: Ghost<Seq<Event>>,
}

impl View for ProtoService {
    type V = State;

    closed spec fn view(&self) -> State {
        State {
            link: self.link,
            url: self.url@,
            slot: match self.task {
                Some(task) => Some(
                    Pending { id: task.id as nat, stage: task.stage, request: task.request@ },
                ),
                None => None,
            },
            issued: self.issued as nat,
        }
    }
}

impl ProtoService {
    /// The events that the manager has seen since it was made, oldest first.
    /// Every method that changes the manager appends the event it stands for.
    pub closed spec fn history(&self) -> Seq<Event> {
        self.past@
    }

    /// The manager is in the state that its history leads to. This holds of
    /// a new manager, and every method keeps it
    /// ([`lemma_step_keeps_history`]).
    pub open spec fn wf(&self) -> bool {
        self@ == run(self.history())
    }

    /// A manager without an adapter and with an empty slot.
    pub fn new() -> (service: Self)
        ensures
            service@ == State::init(),
            service.history() == Seq::<Event>::empty(),
            service.wf(),
    {
        ProtoService {
            link: Link::Absent,
            url: String::new(),
            task: None,
            issued: 0,
            past: Ghost(Seq::empty()),
        }
    }

    /// Sets up an adapter for `url`. The socket counts as not open until the
    /// transport reports otherwise. The slot is left as it is.
    pub fn connect(&mut self, url: &str)
        ensures
            final(self)@ == next(old(self)@, Event::Connect { url: url@ }),
            final(self).history() == old(self).history().push(Event::Connect { url: url@ }),
            old(self).wf() ==> final(self).wf(),
    {
        self.link = Link::Opening;
        self.url = url.to_owned();
        self.past = Ghost(self.past@.push(Event::Connect { url: url@ }));
        proof {
            lemma_step_keeps_history(*old(self), *self, Event::Connect { url: url@ });
        }
    }

    /// The URL of the adapter that was set up last.
    pub fn url(&self) -> (url: &str)
        ensures
            url@ == self@.url,
    {
        self.url.as_str()
    }

    /// Whether an adapter was ever set up.
    pub fn has_adapter(&self) -> (present: bool)
        ensures
            present == self@.has_adapter(),
    {
        match self.link {
            Link::Absent => false,
            _ => true,
        }
    }

    /// Where the adapter stands.
    pub fn link(&self) -> (link: Link)
        ensures
            link == self@.link,
    {
        self.link
    }

    /// The status that the caller was last told, or `Disconnected` if none.
    pub fn status(&self) -> (status: ProtoStatus)
        ensures
            status == self@.status(),
    {
        match self.link {
            Link::Open => ProtoStatus::Connected,
            _ => ProtoStatus::Disconnected,
        }
    }

    /// How many tasks were handed out so far.
    pub fn issued(&self) -> (count: u64)
        ensures
            count == self@.issued,
    {
        self.issued
    }

    /// The task in the slot, if any.
    pub fn active_task(&self) -> (task: Option<u64>)
        ensures
            match task {
                Some(id) => self@.slot matches Some(pending) && pending.id == id,
                None => self@.slot is None,
            },
    {
        match &self.task {
            Some(task) => Some(task.id),
            None => None,
        }
    }

    /// How far the task in the slot has come, if there is one.
    pub fn stage(&self) -> (stage: Option<Stage>)
        ensures
            match stage {
                Some(stage) => self@.slot matches Some(pending) && pending.stage == stage,
                None => self@.slot is None,
            },
    {
        match &self.task {
            Some(task) => Some(task.stage),
            None => None,
        }
    }

    /// Whether `task` occupies the slot.
    pub fn is_active(&self, task: u64) -> (active: bool)
        ensures
            active == self@.is_active(task as nat),
    {
        match &self.task {
            Some(pending) => pending.id == task,
            None => false,
        }
    }

    /// Puts a new task with the text `request` into the slot if the slot is
    /// empty, and hands out the task's number either way.
    fn reserve_task(&mut self, request: String) -> (reserved: (u64, bool))
        requires
            old(self).issued < u64::MAX,
        ensures
            reserved.0 == old(self).issued,
            reserved.1 == (old(self).task is None),
            final(self).issued == old(self).issued + 1,
            final(self).link == old(self).link,
            final(self).url == old(self).url,
            final(self).past == old(self).past,
            reserved.1 ==> final(self).task == Some(
                Task { id: old(self).issued, stage: Stage::Scheduled, request },
            ),
            !reserved.1 ==> final(self).task == old(self).task,
    {
        let id = self.issued;
        self.issued = id + 1;
        if self.task.is_none() {
            self.task = Some(Task { id, stage: Stage::Scheduled, request });
            (id, true)
        } else {
            (id, false)
        }
    }

    /// Asks for `service.action` with `payload`.
    ///
    /// With the slot empty, the new task takes it and the completion is
    /// `None`: the owner defers [`ProtoService::execute_task`] for the task to
    /// the next turn of its event loop. With the slot occupied, the task in it
    /// is left alone, and the completion of the new task is handed out with the
    /// failure `Has active task!`; its handle is inactive from the start. The
    /// owner delivers that completion on the next turn too, as it delivers
    /// every result.
    ///
    /// Asking before [`ProtoService::connect`] is a mistake of the caller and
    /// not a result: the precondition leaves it out.
    pub fn request(
        &mut self,
        service: &str,
        action: &str,
        payload: serde_json::Value,
    ) -> (issue: (ProtoTask, Option<Completion>))
        requires
            old(self)@.has_adapter(),
            old(self)@.issued < u64::MAX,
        ensures
            final(self)@ == next(
                old(self)@,
                Event::Request { service: service@, action: action@, payload },
            ),
            final(self).history() == old(self).history().push(
                Event::Request { service: service@, action: action@, payload },
            ),
            old(self).wf() ==> final(self).wf(),
            issue.0.id() == Some(old(self)@.issued),
            firing(issue.1) == fired(
                old(self)@,
                Event::Request { service: service@, action: action@, payload },
            ),
            old(self).wf() ==> (issue.0.active_in(final(self)) <==> issue.1 is None),
    {
        let ghost event = Event::Request { service: service@, action: action@, payload };
        let input = Input { service: service.to_owned(), action: action.to_owned(), payload };
        let (id, admitted) = self.reserve_task(input.encode());
        self.past = Ghost(self.past@.push(event));
        proof {
            lemma_step_keeps_history(*old(self), *self, event);
            if old(self).wf() {
                lemma_slot_holds_the_pending_task(*old(self), id as nat);
            }
        }
        if admitted {
            (ProtoTask::new(id), None)
        } else {
            let data = String::from_str("Has active task!");
            (ProtoTask::new(id), Some(Completion { task: id, success: false, data }))
        }
    }

    /// Asks for `service.action` with `payload` if that is in order, as
    /// [`ProtoService::request`] does, and reports the misuse if it is not:
    /// `NotConnected` before any [`ProtoService::connect`], else `OutOfTasks`
    /// when the counter of tasks stands at its limit. A misuse changes nothing.
    pub fn try_request(
        &mut self,
        service: &str,
        action: &str,
        payload: serde_json::Value,
    ) -> (issue: Result<(ProtoTask, Option<Completion>), Misuse>)
        ensures
            old(self).wf() ==> final(self).wf(),
            match issue {
                Ok(issue) => {
                    &&& old(self)@.has_adapter()
                    &&& old(self)@.issued < u64::MAX
                    &&& final(self)@ == next(
                        old(self)@,
                        Event::Request { service: service@, action: action@, payload },
                    )
                    &&& final(self).history() == old(self).history().push(
                        Event::Request { service: service@, action: action@, payload },
                    )
                    &&& issue.0.id() == Some(old(self)@.issued)
                    &&& firing(issue.1) == fired(
                        old(self)@,
                        Event::Request { service: service@, action: action@, payload },
                    )
                    &&& old(self).wf() ==> (issue.0.active_in(final(self)) <==> issue.1 is None)
                },
                Err(misuse) => {
                    &&& final(self)@ == old(self)@
                    &&& final(self).history() == old(self).history()
                    &&& misuse == if !old(self)@.has_adapter() {
                        Misuse::NotConnected
                    } else {
                        Misuse::OutOfTasks
                    }
                    &&& !old(self)@.has_adapter() || old(self)@.issued == u64::MAX
                },
            },
    {
        if !self.has_adapter() {
            Err(Misuse::NotConnected)
        } else if self.issued == u64::MAX {
            Err(Misuse::OutOfTasks)
        } else {
            Ok(self.request(service, action, payload))
        }
    }

    /// Completes the task in the slot, if there is one, with the transport's
    /// report, and empties the slot.
    fn send_and_drop(&mut self, success: bool, data: String) -> (done: Option<Completion>)
        ensures
            final(self)@ == old(self)@.vacate(),
            final(self).past == old(self).past,
            firing(done) == (match old(self)@.slot {
                Some(pending) => Some(Firing { task: pending.id, success, data: data@ }),
                None => None,
            }),
    {
        match self.task.take() {
            Some(task) => Some(Completion { task: task.id, success, data }),
            None => None,
        }
    }

    /// The deferred transmission of `task` comes up.
    ///
    /// If the task still occupies the slot, its text is handed out for the
    /// transport and the task counts as sent. If it was cancelled or completed
    /// in the meantime, nothing changes and no callback is invoked.
    pub fn execute_task(&mut self, task: u64) -> (outcome: Dispatch)
        ensures
            final(self)@ == next(old(self)@, Event::Execute { task: task as nat }),
            final(self).history() == old(self).history().push(
                Event::Execute { task: task as nat },
            ),
            old(self).wf() ==> final(self).wf(),
            outcome@ == dispatch(old(self)@, task as nat),
    {
        self.past = Ghost(self.past@.push(Event::Execute { task: task as nat }));
        let outcome = match self.task.take() {
            Some(pending) => {
                if pending.id == task {
                    let text = pending.request.clone();
                    self.task = Some(
                        Task { id: pending.id, stage: Stage::Sent, request: pending.request },
                    );
                    Dispatch::Transmit(text)
                } else {
                    self.task = Some(pending);
                    Dispatch::Stale(String::from_str("Task already canceled!"))
                }
            },
            None => Dispatch::Stale(String::from_str("Task already canceled!")),
        };
        proof {
            lemma_step_keeps_history(*old(self), *self, Event::Execute { task: task as nat });
        }
        outcome
    }

    /// The transport refused the text of `task` with `reason`. If the task
    /// is the one that was sent, it is completed with that failure and the slot
    /// is emptied.
    pub fn send_failed(&mut self, task: u64, reason: String) -> (done: Option<Completion>)
        ensures
            final(self)@ == next(
                old(self)@,
                Event::SendFailed { task: task as nat, reason: reason@ },
            ),
            final(self).history() == old(self).history().push(
                Event::SendFailed { task: task as nat, reason: reason@ },
            ),
            old(self).wf() ==> final(self).wf(),
            firing(done) == fired(
                old(self)@,
                Event::SendFailed { task: task as nat, reason: reason@ },
            ),
    {
        let ghost event = Event::SendFailed { task: task as nat, reason: reason@ };
        self.past = Ghost(self.past@.push(event));
        let sent = match &self.task {
            Some(pending) => pending.id == task && match pending.stage {
                Stage::Sent => true,
                Stage::Scheduled => false,
            },
            None => false,
        };
        let done = if sent {
            self.send_and_drop(false, reason)
        } else {
            None
        };
        proof {
            lemma_step_keeps_history(*old(self), *self, event);
        }
        done
    }

    /// The transport reports that the socket is open. The first such report
    /// of an adapter announces `Connected`.
    pub fn opened(&mut self) -> (status: Option<ProtoStatus>)
        ensures
            final(self)@ == next(old(self)@, Event::Opened),
            final(self).history() == old(self).history().push(Event::Opened),
            old(self).wf() ==> final(self).wf(),
            status == notice(old(self)@, Event::Opened),
    {
        self.past = Ghost(self.past@.push(Event::Opened));
        let status = match self.link {
            Link::Opening => {
                self.link = Link::Open;
                Some(ProtoStatus::Connected)
            },
            _ => None,
        };
        proof {
            lemma_step_keeps_history(*old(self), *self, Event::Opened);
        }
        status
    }

    /// The transport reports that the socket is closed. The first such
    /// report of an adapter announces `Disconnected`; a pending task is
    /// completed with the failure `connection closed` and the slot is emptied.
    pub fn closed(&mut self) -> (report: (Option<ProtoStatus>, Option<Completion>))
        ensures
            final(self)@ == next(old(self)@, Event::Closed),
            final(self).history() == old(self).history().push(Event::Closed),
            old(self).wf() ==> final(self).wf(),
            report.0 == notice(old(self)@, Event::Closed),
            firing(report.1) == fired(old(self)@, Event::Closed),
    {
        self.past = Ghost(self.past@.push(Event::Closed));
        let status = match self.link {
            Link::Opening | Link::Open => {
                self.link = Link::Closed;
                Some(ProtoStatus::Disconnected)
            },
            _ => None,
        };
        let done = self.send_and_drop(false, String::from_str("connection closed"));
        proof {
            lemma_step_keeps_history(*old(self), *self, Event::Closed);
        }
        (status, done)
    }

    /// The transport delivers `text`. A pending task is completed with what
    /// the text decodes to and the slot is emptied; without a pending task the
    /// text is dropped unread.
    pub fn message(&mut self, text: String) -> (done: Option<Completion>)
        ensures
            final(self)@ == next(old(self)@, Event::Message { text: text@ }),
            final(self).history() == old(self).history().push(Event::Message { text: text@ }),
            old(self).wf() ==> final(self).wf(),
            firing(done) == fired(old(self)@, Event::Message { text: text@ }),
    {
        let ghost event = Event::Message { text: text@ };
        self.past = Ghost(self.past@.push(event));
        let done = self.send_and_drop(true, text);
        proof {
            lemma_step_keeps_history(*old(self), *self, event);
        }
        done
    }

    /// The transport reports an error. A pending task is completed with the
    /// failure `reason` and the slot is emptied.
    pub fn error(&mut self, reason: String) -> (done: Option<Completion>)
        ensures
            final(self)@ == next(old(self)@, Event::Error { reason: reason@ }),
            final(self).history() == old(self).history().push(Event::Error { reason: reason@ }),
            old(self).wf() ==> final(self).wf(),
            firing(done) == fired(old(self)@, Event::Error { reason: reason@ }),
    {
        let ghost event = Event::Error { reason: reason@ };
        self.past = Ghost(self.past@.push(event));
        let done = self.send_and_drop(false, reason);
        proof {
            lemma_step_keeps_history(*old(self), *self, event);
        }
        done
    }

    /// Takes `task` out of the slot without completing it.
    pub(crate) fn release(&mut self, task: u64)
        requires
            old(self)@.is_active(task as nat),
        ensures
            final(self)@ == next(old(self)@, Event::Cancel { task: task as nat }),
            final(self).history() == old(self).history().push(
                Event::Cancel { task: task as nat },
            ),
            old(self).wf() ==> final(self).wf(),
    {
        self.task = None;
        self.past = Ghost(self.past@.push(Event::Cancel { task: task as nat }));
        proof {
            lemma_step_keeps_history(*old(self), *self, Event::Cancel { task: task as nat });
        }
    }
}

/// A method that takes a manager one event further keeps it where its history
/// leads. So every manager that was made by [`ProtoService::new`] and changed
/// by its methods alone is well-formed, and what holds of all histories holds
/// of it.
pub proof fn lemma_step_keeps_history(before: ProtoService, after: ProtoService, event: Event)
    requires
        after@ == next(before@, event),
        after.history() == before.history().push(event),
    ensures
        before.wf() ==> after.wf(),
{
    lemma_one_more_event(before.history(), event, 0);
}

/// In a well-formed manager the slot holds exactly the task that is
/// outstanding in its history, at the stage that the history gives it. With
/// this, what [`crate::lifecycle`] proves of all histories is true of the
/// tasks of the manager.
pub proof fn lemma_slot_holds_the_pending_task(service: ProtoService, task: nat)
    requires
        service.wf(),
    ensures
        service@.wf(),
        service@.is_active(task) <==> phase(service.history(), task).is_pending(),
        service@.is_active(task) ==> phase(service.history(), task) == phase_at(
            service@.slot->0.stage,
        ),
{
    lemma_history(service.history(), task);
}

} // verus!
