//! The decisions of the worker loop: it waits for a notification (or a
//! second), fetches the received transactions, and marks each of them
//! processed in turn, whatever the outcome of each update.

use vstd::prelude::*;
use crate::database::{processed, status_processed, DatabaseError, TransactionModel};

verus! {

/// How long the worker waits for a notification before it looks anyway.
pub const WAIT_FALLBACK_SECONDS: u64 = 1;

/// Where the worker loop stands.
#[derive(Debug)]
pub enum WorkerState {
    /// Waiting for a notification or the fallback delay.
    Waiting,
    /// Waiting for the unprocessed transactions.
    Fetching,
    /// Marking a fetched batch processed; `next` is the transaction whose
    /// update is under way.
    Processing { batch: Vec<TransactionModel>, next: usize },
}

/// What happened since the last step.
#[derive(Debug)]
pub enum WorkerEvent {
    /// A notification arrived or the fallback delay passed.
    Woken,
    /// The query for unprocessed transactions answered.
    Fetched(Result<Vec<TransactionModel>, DatabaseError>),
    /// The status update of the current transaction answered.
    Updated(Result<(), DatabaseError>),
}

/// What the worker does next.
#[derive(Debug)]
pub enum WorkerAction {
    /// Wait for a notification, at most `WAIT_FALLBACK_SECONDS`.
    Wait,
    /// Query the unprocessed transactions.
    FetchUnprocessed,
    /// Set the status of the transaction with this identifier.
    MarkProcessed { id: String, status: String },
}

impl WorkerState {
    /// A batch being processed is not empty and its position is inside it.
    pub open spec fn well_formed(self) -> bool {
        match self {
            WorkerState::Processing { batch, next } => next < batch@.len(),
            _ => true,
        }
    }
}

/// The state that follows a state on an event. An event that the state
/// does not wait for leaves it as it is.
pub open spec fn successor(state: WorkerState, event: WorkerEvent) -> WorkerState {
    match (state, event) {
        (WorkerState::Waiting, WorkerEvent::Woken) => WorkerState::Fetching,
        (WorkerState::Fetching, WorkerEvent::Fetched(Ok(batch))) => if batch@.len() > 0 {
            WorkerState::Processing { batch, next: 0 }
        } else {
            WorkerState::Waiting
        },
        (WorkerState::Fetching, WorkerEvent::Fetched(Err(_))) => WorkerState::Waiting,
        (WorkerState::Processing { batch, next }, WorkerEvent::Updated(_)) => if next + 1 < batch@.len() {
            WorkerState::Processing { batch, next: (next + 1) as usize }
        } else {
            WorkerState::Waiting
        },
        (s, _) => s,
    }
}

/// The action a state waits on: waiting, fetching, or the update of the
/// current transaction to `Processed`.
pub open spec fn awaits(state: WorkerState, action: WorkerAction) -> bool {
    match state {
        WorkerState::Waiting => action is Wait,
        WorkerState::Fetching => action is FetchUnprocessed,
        WorkerState::Processing { batch, next } => action matches WorkerAction::MarkProcessed { id, status }
            && id == batch@[next as int].id && status@ == status_processed(),
    }
}

/// The action of a state.
fn action_of(state: &WorkerState) -> (r: WorkerAction)
    requires
        state.well_formed(),
    ensures
        awaits(*state, r),
{
    match state {
        WorkerState::Waiting => WorkerAction::Wait,
        WorkerState::Fetching => WorkerAction::FetchUnprocessed,
        WorkerState::Processing { batch, next } => WorkerAction::MarkProcessed {
            id: batch[*next].id.clone(),
            status: processed(),
        },
    }
}

/// One step of the worker loop: the next state, and the action it waits on.
pub fn step(state: WorkerState, event: WorkerEvent) -> (r: (WorkerState, WorkerAction))
    requires
        state.well_formed(),
    ensures
        r.0 == successor(state, event),
        r.0.well_formed(),
        awaits(r.0, r.1),
{
    let next_state = match (state, event) {
        (WorkerState::Waiting, WorkerEvent::Woken) => WorkerState::Fetching,
        (WorkerState::Fetching, WorkerEvent::Fetched(Ok(batch))) => {
            if batch.len() > 0 {
                WorkerState::Processing { batch, next: 0 }
            } else {
                WorkerState::Waiting
            }
        },
        (WorkerState::Fetching, WorkerEvent::Fetched(Err(_))) => WorkerState::Waiting,
        (WorkerState::Processing { batch, next }, WorkerEvent::Updated(_)) => {
            if next < batch.len() - 1 {
                WorkerState::Processing { batch, next: next + 1 }
            } else {
                WorkerState::Waiting
            }
        },
        (s, _) => s,
    };
    let action = action_of(&next_state);
    (next_state, action)
}

/// The state after a run of update answers, one per step.
pub open spec fn after_updates(state: WorkerState, outcomes: Seq<Result<(), DatabaseError>>) -> WorkerState
    decreases outcomes.len(),
{
    if outcomes.len() == 0 {
        state
    } else {
        after_updates(successor(state, WorkerEvent::Updated(outcomes[0])), outcomes.drop_first())
    }
}

/// A fetched batch is worked through in order, one transaction per update
/// answer whatever that answer is: after `k` answers the worker updates the
/// `k`-th transaction, and after as many answers as the batch holds it waits
/// again. So every fetched transaction is marked processed exactly once.
pub proof fn lemma_batch_marked_in_order(
    batch: Vec<TransactionModel>,
    outcomes: Seq<Result<(), DatabaseError>>,
)
    requires
        batch@.len() > 0,
        outcomes.len() <= batch@.len(),
    ensures
        outcomes.len() < batch@.len() ==> after_updates(
            successor(WorkerState::Fetching, WorkerEvent::Fetched(Ok(batch))),
            outcomes,
        ) == (WorkerState::Processing { batch, next: outcomes.len() as usize }),
        outcomes.len() == batch@.len() ==> after_updates(
            successor(WorkerState::Fetching, WorkerEvent::Fetched(Ok(batch))),
            outcomes,
        ) == WorkerState::Waiting,
{
    lemma_updates_from(batch, 0, outcomes);
}

proof fn lemma_updates_from(batch: Vec<TransactionModel>, k: nat, outcomes: Seq<Result<(), DatabaseError>>)
    requires
        k < batch@.len(),
        k + outcomes.len() <= batch@.len(),
    ensures
        k + outcomes.len() < batch@.len() ==> after_updates(
            WorkerState::Processing { batch, next: k as usize },
            outcomes,
        ) == (WorkerState::Processing { batch, next: (k + outcomes.len()) as usize }),
        k + outcomes.len() == batch@.len() ==> after_updates(
            WorkerState::Processing { batch, next: k as usize },
            outcomes,
        ) == WorkerState::Waiting,
    decreases outcomes.len(),
{
    assert(batch@.len() == batch.len());
    if outcomes.len() > 0 {
        let s = WorkerState::Processing { batch, next: k as usize };
        assert(after_updates(s, outcomes) == after_updates(successor(s, WorkerEvent::Updated(outcomes[0])), outcomes.drop_first()));
        if k + 1 < batch@.len() {
            lemma_updates_from(batch, k + 1, outcomes.drop_first());
        } else {
            assert(outcomes.drop_first().len() == 0);
        }
    }
}

} // verus!
