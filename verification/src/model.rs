//! The protocol as a state machine over mathematical values.
//!
//! A [`State`] is what the connection manager remembers; an [`Event`] is one
//! thing that happens to it, whether the caller asks for it or the transport
//! reports it. Each event has a next state, and may have a status to announce
//! ([`notice`]), a request to complete ([`fired`]) and a text to send
//! ([`sent`]). The executable manager is specified step by step against these
//! functions.

use crate::envelope::{outcome, request_text};
use vstd::prelude::*;

verus! {

/// The connection status that the caller is told about.
#[derive(Clone, Copy, Debug, PartialEq, Eq)]
pub enum ProtoStatus {
    Connected,
    Disconnected,
}

/// Where the transport adapter stands.
#[derive(Clone, Copy, Debug, PartialEq, Eq)]
pub enum Link {
    /// No adapter was ever set up.
    Absent,
    /// An adapter was set up and has not reported yet.
    Opening,
    /// The adapter reported that the socket is open.
    Open,
    /// The adapter reported that the socket is closed.
    Closed,
}

/// How far the pending task has come.
#[derive(Clone, Copy, Debug, PartialEq, Eq)]
pub enum Stage {
    /// The slot is reserved and the transmission is deferred.
    Scheduled,
    /// The request text was handed to the transport.
    Sent,
}

/// The task that occupies the slot.
pub struct Pending {
    pub id: nat,
    pub stage: Stage,
    pub request: Seq<char>,
}

/// What the connection manager remembers.
pub struct State {
    pub link: Link,
    pub url: Seq<char>,
    /// The single-flight register: the one task that is outstanding, if any.
    pub slot: Option<Pending>,
    /// How many tasks were handed out so far; the next task gets this number.
    pub issued: nat,
}

/// One thing that happens to the connection manager.
pub enum Event {
    /// The caller sets up an adapter for `url`.
    Connect { url: Seq<char> },
    /// The caller asks for `service.action` with `payload`.
    Request { service: Seq<char>, action: Seq<char>, payload: serde_json::Value },
    /// The caller cancels `task` through its handle.
    Cancel { task: nat },
    /// The deferred transmission of `task` comes up.
    Execute { task: nat },
    /// The transport refused the text of `task`.
    SendFailed { task: nat, reason: Seq<char> },
    /// The transport reports that the socket is open.
    Opened,
    /// The transport reports that the socket is closed.
    Closed,
    /// The transport delivers a text.
    Message { text: Seq<char> },
    /// The transport reports an error.
    Error { reason: Seq<char> },
}

/// One completion: the callback of `task` is invoked with the transport's
/// report, which is a message to decode (`success`) or the reason of a failure.
pub struct Firing {
    pub task: nat,
    pub success: bool,
    pub data: Seq<char>,
}

impl Firing {
    /// The failure of `task` with `reason`.
    pub open spec fn failure(task: nat, reason: Seq<char>) -> Firing {
        Firing { task, success: false, data: reason }
    }

    /// The result that the caller of the request is told.
    pub open spec fn result(self) -> Result<serde_json::Value, Seq<char>> {
        outcome(self.success, self.data)
    }
}

/// What a deferred transmission comes to.
pub enum DispatchView {
    /// The task is still pending: this text goes to the transport.
    Transmit(Seq<char>),
    /// The task is no longer pending. It would fail with this reason, but its
    /// callback is gone, so nobody is told.
    Stale(Seq<char>),
}

/// The reason for a request that finds the slot occupied.
pub open spec fn has_active_task() -> Seq<char> {
    "Has active task!"@
}

/// The reason for a deferred transmission that finds its task gone.
pub open spec fn task_already_canceled() -> Seq<char> {
    "Task already canceled!"@
}

/// The reason for a task that is pending when the socket closes.
pub open spec fn connection_closed() -> Seq<char> {
    "connection closed"@
}

impl State {
    /// The state of a manager that was just made.
    pub open spec fn init() -> State {
        State { link: Link::Absent, url: Seq::empty(), slot: None, issued: 0 }
    }

    /// An adapter was set up at some time, so requests are in order.
    pub open spec fn has_adapter(self) -> bool {
        self.link != Link::Absent
    }

    /// The status that the caller was last told, or the initial one.
    pub open spec fn status(self) -> ProtoStatus {
        if self.link == Link::Open {
            ProtoStatus::Connected
        } else {
            ProtoStatus::Disconnected
        }
    }

    /// `task` occupies the slot: it is neither completed nor cancelled.
    pub open spec fn is_active(self, task: nat) -> bool {
        self.slot matches Some(pending) && pending.id == task
    }

    /// The state with the slot empty.
    pub open spec fn vacate(self) -> State {
        State { slot: None, ..self }
    }

    /// The slot holds a task that was handed out, and so differs from every
    /// task that is handed out later; and no task is pending without an
    /// adapter.
    pub open spec fn wf(self) -> bool {
        self.slot matches Some(pending) ==> pending.id < self.issued && self.has_adapter()
    }
}

/// The state after `event`.
///
/// A request without an adapter and the cancellation of a task that is not
/// active are not in order; like a report of the transport that meets no
/// pending task, they leave the slot and the counter as they are.
pub open spec fn next(state: State, event: Event) -> State {
    match event {
        Event::Connect { url } => State { link: Link::Opening, url, ..state },
        Event::Request { service, action, payload } => if !state.has_adapter() {
            state
        } else if state.slot is Some {
            State { issued: state.issued + 1, ..state }
        } else {
            State {
                slot: Some(
                    Pending {
                        id: state.issued,
                        stage: Stage::Scheduled,
                        request: request_text(service, action, payload),
                    },
                ),
                issued: state.issued + 1,
                ..state
            }
        },
        Event::Cancel { task } => if state.is_active(task) {
            state.vacate()
        } else {
            state
        },
        Event::Execute { task } => if state.is_active(task) {
            State { slot: Some(Pending { stage: Stage::Sent, ..state.slot->0 }), ..state }
        } else {
            state
        },
        Event::SendFailed { task, reason } => if state.is_active(task) && state.slot->0.stage
            == Stage::Sent {
            state.vacate()
        } else {
            state
        },
        Event::Opened => if state.link == Link::Opening {
            State { link: Link::Open, ..state }
        } else {
            state
        },
        Event::Closed => if state.link == Link::Opening || state.link == Link::Open {
            State { link: Link::Closed, slot: None, ..state }
        } else {
            state.vacate()
        },
        Event::Message { text } => state.vacate(),
        Event::Error { reason } => state.vacate(),
    }
}

/// The status that `event` makes the manager announce: one for each change
/// of the link between open and not open, and none after the socket closed.
pub open spec fn notice(state: State, event: Event) -> Option<ProtoStatus> {
    match event {
        Event::Opened => if state.link == Link::Opening {
            Some(ProtoStatus::Connected)
        } else {
            None
        },
        Event::Closed => if state.link == Link::Opening || state.link == Link::Open {
            Some(ProtoStatus::Disconnected)
        } else {
            None
        },
        _ => None,
    }
}

/// The completion that `event` brings about, if any. A request that finds
/// the slot occupied completes itself; every other completion is that of the
/// task in the slot.
pub open spec fn fired(state: State, event: Event) -> Option<Firing> {
    match event {
        Event::Request { service, action, payload } => if state.has_adapter() && state.slot
            is Some {
            Some(Firing::failure(state.issued, has_active_task()))
        } else {
            None
        },
        Event::SendFailed { task, reason } => if state.is_active(task) && state.slot->0.stage
            == Stage::Sent {
            Some(Firing::failure(task, reason))
        } else {
            None
        },
        Event::Closed => match state.slot {
            Some(pending) => Some(Firing::failure(pending.id, connection_closed())),
            None => None,
        },
        Event::Message { text } => match state.slot {
            Some(pending) => Some(Firing { task: pending.id, success: true, data: text }),
            None => None,
        },
        Event::Error { reason } => match state.slot {
            Some(pending) => Some(Firing::failure(pending.id, reason)),
            None => None,
        },
        _ => None,
    }
}

/// The task that `event` cancels, if any.
pub open spec fn cancelled(state: State, event: Event) -> Option<nat> {
    match event {
        Event::Cancel { task } => if state.is_active(task) {
            Some(task)
        } else {
            None
        },
        _ => None,
    }
}

/// The task that `event` admits to the slot, if any.
pub open spec fn admitted(state: State, event: Event) -> Option<nat> {
    match event {
        Event::Request { service, action, payload } => if state.has_adapter() && state.slot
            is None {
            Some(state.issued)
        } else {
            None
        },
        _ => None,
    }
}

/// What the deferred transmission of `task` comes to in `state`.
pub open spec fn dispatch(state: State, task: nat) -> DispatchView {
    if state.is_active(task) {
        DispatchView::Transmit(state.slot->0.request)
    } else {
        DispatchView::Stale(task_already_canceled())
    }
}

/// The task whose text `event` hands to the transport, if any.
pub open spec fn sent(state: State, event: Event) -> Option<nat> {
    match event {
        Event::Execute { task } => if dispatch(state, task) is Transmit {
            Some(task)
        } else {
            None
        },
        _ => None,
    }
}

/// No event leads out of the well-formed states.
pub proof fn lemma_next_is_well_formed(state: State, event: Event)
    requires
        state.wf(),
    ensures
        next(state, event).wf(),
{
}

} // verus!
