//! What holds of every history of the connection manager.
//!
//! A history is the sequence of events since the manager was made. The life
//! of each task is read off the history alone: when it was admitted, sent,
//! completed or cancelled, and how often its callback was invoked.

use crate::model::{
    admitted, cancelled, connection_closed, fired, has_active_task, next, notice, sent, Event,
    Firing, ProtoStatus, Stage, State,
};
use vstd::prelude::*;

verus! {

/// Where a task stands in its life.
pub enum Phase {
    /// No request has been given this number yet.
    Unissued,
    /// The task occupies the slot and waits for its deferred transmission.
    Scheduled,
    /// The task occupies the slot and its text was handed to the transport.
    Sent,
    /// The callback of the task was invoked.
    Completed,
    /// The task was cancelled and its callback released unused.
    Cancelled,
}

impl Phase {
    /// The task is outstanding: it was admitted and has not ended.
    pub open spec fn is_pending(self) -> bool {
        self is Scheduled || self is Sent
    }

    /// The task has ended.
    pub open spec fn is_terminal(self) -> bool {
        self is Completed || self is Cancelled
    }
}

/// The phase of the task in a slot that is at `stage`.
pub open spec fn phase_at(stage: Stage) -> Phase {
    match stage {
        Stage::Scheduled => Phase::Scheduled,
        Stage::Sent => Phase::Sent,
    }
}

/// The state that a history leads to.
pub open spec fn run(history: Seq<Event>) -> State
    decreases history.len(),
{
    if history.len() == 0 {
        State::init()
    } else {
        next(run(history.drop_last()), history.last())
    }
}

/// The phase of `task` after one more event, given its phase before.
pub open spec fn advance(before: Phase, state: State, event: Event, task: nat) -> Phase {
    if fired(state, event) matches Some(firing) && firing.task == task {
        Phase::Completed
    } else if cancelled(state, event) == Some(task) {
        Phase::Cancelled
    } else if sent(state, event) == Some(task) {
        Phase::Sent
    } else if admitted(state, event) == Some(task) {
        Phase::Scheduled
    } else {
        before
    }
}

/// The phase of `task` at the end of a history.
pub open spec fn phase(history: Seq<Event>, task: nat) -> Phase
    decreases history.len(),
{
    if history.len() == 0 {
        Phase::Unissued
    } else {
        advance(
            phase(history.drop_last(), task),
            run(history.drop_last()),
            history.last(),
            task,
        )
    }
}

/// How often the callback of `task` was invoked in the course of a history.
pub open spec fn firings(history: Seq<Event>, task: nat) -> nat
    decreases history.len(),
{
    if history.len() == 0 {
        0
    } else {
        let earlier = firings(history.drop_last(), task);
        if fired(run(history.drop_last()), history.last()) matches Some(firing) && firing.task
            == task {
            earlier + 1
        } else {
            earlier
        }
    }
}

/// One more event takes the state, the phase and the count one step further.
pub proof fn lemma_one_more_event(history: Seq<Event>, event: Event, task: nat)
    ensures
        run(history.push(event)) == next(run(history), event),
        phase(history.push(event), task) == advance(
            phase(history, task),
            run(history),
            event,
            task,
        ),
        firings(history.push(event), task) == firings(history, task) + (if fired(
            run(history),
            event,
        ) matches Some(firing) && firing.task == task {
            1nat
        } else {
            0nat
        }),
{
    assert(history.push(event).drop_last() == history);
}

/// How the slot and the counter of a state account for the life of `task`.
pub open spec fn accounts_for(state: State, phase: Phase, firings: nat, task: nat) -> bool {
    if task >= state.issued {
        phase is Unissued && firings == 0
    } else if state.is_active(task) {
        phase == phase_at(state.slot->0.stage) && firings == 0
    } else {
        (phase is Completed && firings == 1) || (phase is Cancelled && firings == 0)
    }
}

/// Every history leads to a well-formed state that accounts for every task.
pub proof fn lemma_history(history: Seq<Event>, task: nat)
    ensures
        run(history).wf(),
        accounts_for(run(history), phase(history, task), firings(history, task), task),
    decreases history.len(),
{
    if history.len() > 0 {
        lemma_history(history.drop_last(), task);
    }
}

/// Single flight: at every moment at most one task is outstanding, so at most
/// one is in the sent state.
pub proof fn lemma_single_flight(history: Seq<Event>, first: nat, second: nat)
    requires
        phase(history, first).is_pending(),
        phase(history, second).is_pending(),
    ensures
        first == second,
        run(history).is_active(first),
{
    lemma_history(history, first);
    lemma_history(history, second);
}

/// The callback of a task is never invoked twice.
pub proof fn lemma_fires_at_most_once(history: Seq<Event>, task: nat)
    ensures
        firings(history, task) <= 1,
{
    lemma_history(history, task);
}

/// A task that has ended had its callback invoked exactly once, unless it was
/// cancelled: then the callback was never invoked. Before the end it was not
/// invoked either.
pub proof fn lemma_fires_exactly_once(history: Seq<Event>, task: nat)
    ensures
        phase(history, task) is Completed <==> firings(history, task) == 1,
        phase(history, task) is Cancelled ==> firings(history, task) == 0,
        phase(history, task).is_terminal() <==> task < run(history).issued && !run(
            history,
        ).is_active(task),
{
    lemma_history(history, task);
}

/// A task that has ended stays as it is: no later event completes it again,
/// cancels it or sends it.
pub proof fn lemma_end_is_final(history: Seq<Event>, event: Event, task: nat)
    requires
        phase(history, task).is_terminal(),
    ensures
        phase(history.push(event), task) == phase(history, task),
        firings(history.push(event), task) == firings(history, task),
{
    lemma_history(history, task);
    lemma_one_more_event(history, event, task);
}

/// A request that finds the slot occupied is completed with the failure
/// `Has active task!`, and the task in the slot is left as it is.
pub proof fn lemma_second_request_is_rejected(
    state: State,
    service: Seq<char>,
    action: Seq<char>,
    payload: serde_json::Value,
)
    requires
        state.has_adapter(),
        state.slot is Some,
    ensures
        fired(state, Event::Request { service, action, payload }) == Some(
            Firing::failure(state.issued, has_active_task()),
        ),
        Firing::failure(state.issued, has_active_task()).result() == Err::<
            serde_json::Value,
            Seq<char>,
        >(has_active_task()),
        next(state, Event::Request { service, action, payload }).slot == state.slot,
        next(state, Event::Request { service, action, payload }).link == state.link,
{
}

/// A task that has ended is inert: whatever happens later, it is never
/// completed again, and a task that was cancelled is never completed at all.
pub proof fn lemma_ended_task_is_inert(history: Seq<Event>, later: Seq<Event>, task: nat)
    requires
        phase(history, task).is_terminal(),
    ensures
        phase(history + later, task) == phase(history, task),
        firings(history + later, task) == firings(history, task),
        phase(history, task) is Cancelled ==> firings(history + later, task) == 0,
    decreases later.len(),
{
    lemma_history(history, task);
    if later.len() == 0 {
        assert(history + later == history);
    } else {
        lemma_ended_task_is_inert(history, later.drop_last(), task);
        assert(history + later == (history + later.drop_last()).push(later.last()));
        lemma_end_is_final(history + later.drop_last(), later.last(), task);
    }
}

/// Right after a task is cancelled no event invokes a callback, and what the
/// transport delivers for the task changes nothing.
pub proof fn lemma_cancelled_task_stays_silent(state: State, task: nat, late: Event)
    requires
        state.is_active(task),
    ensures
        fired(next(state, Event::Cancel { task }), late) is None,
        late is Message || late is Error || late is SendFailed || late == (Event::Execute {
            task,
        }) ==> next(next(state, Event::Cancel { task }), late) == next(
            state,
            Event::Cancel { task },
        ),
{
}

/// Closing the connection while a task is pending completes that task with
/// the failure `connection closed` and leaves the slot empty.
pub proof fn lemma_close_completes_pending(state: State, task: nat)
    requires
        state.is_active(task),
    ensures
        fired(state, Event::Closed) == Some(Firing::failure(task, connection_closed())),
        Firing::failure(task, connection_closed()).result() == Err::<
            serde_json::Value,
            Seq<char>,
        >(connection_closed()),
        next(state, Event::Closed).slot is None,
{
}

/// `Connected` is announced exactly when the status changes to it.
pub proof fn lemma_connected_is_announced_once(state: State, event: Event)
    ensures
        notice(state, event) == Some(ProtoStatus::Connected) <==> state.status()
            is Disconnected && next(state, event).status() is Connected,
{
}

/// `Disconnected` is announced exactly when an adapter that has not closed
/// yet reports that it is closed, and nothing is announced for that adapter
/// afterwards.
pub proof fn lemma_disconnected_is_announced_once(state: State, event: Event)
    ensures
        notice(state, event) == Some(ProtoStatus::Disconnected) <==> event is Closed && (
        state.link is Opening || state.link is Open),
        notice(state, event) is Some ==> notice(next(state, event), event) is None,
        state.link is Closed ==> notice(state, event) is None,
{
}

} // verus!
