use rpc_gateway::database::{DatabaseError, TransactionModel};
use rpc_gateway::worker::worker::{step, WorkerAction, WorkerEvent, WorkerState, WAIT_FALLBACK_SECONDS};

fn model(id: &str) -> TransactionModel {
    TransactionModel {
        id: id.to_string(),
        signer: "0xs".to_string(),
        raw_transaction: "0xr".to_string(),
        status: "Received".to_string(),
    }
}

#[test]
fn woken_worker_fetches() {
    assert_eq!(WAIT_FALLBACK_SECONDS, 1);
    let (s, a) = step(WorkerState::Waiting, WorkerEvent::Woken);
    assert!(matches!(s, WorkerState::Fetching));
    assert!(matches!(a, WorkerAction::FetchUnprocessed));
}

#[test]
fn failed_or_empty_fetch_waits_again() {
    let (s, a) = step(WorkerState::Fetching, WorkerEvent::Fetched(Err(DatabaseError::Query("down".to_string()))));
    assert!(matches!(s, WorkerState::Waiting));
    assert!(matches!(a, WorkerAction::Wait));
    let (s, a) = step(WorkerState::Fetching, WorkerEvent::Fetched(Ok(vec![])));
    assert!(matches!(s, WorkerState::Waiting));
    assert!(matches!(a, WorkerAction::Wait));
}

#[test]
fn batch_is_marked_in_order_whatever_the_updates_give() {
    let (mut s, mut a) = step(WorkerState::Fetching, WorkerEvent::Fetched(Ok(vec![model("a"), model("b"), model("c")])));
    let mut marked = Vec::new();
    let outcomes = vec![Ok(()), Err(DatabaseError::NotFound), Ok(())];
    for outcome in outcomes {
        match &a {
            WorkerAction::MarkProcessed { id, status } => {
                assert_eq!(status, "Processed");
                marked.push(id.clone());
            }
            other => panic!("unexpected {:?}", other),
        }
        let next = step(s, WorkerEvent::Updated(outcome));
        s = next.0;
        a = next.1;
    }
    assert_eq!(marked, vec!["a", "b", "c"]);
    assert!(matches!(s, WorkerState::Waiting));
    assert!(matches!(a, WorkerAction::Wait));
}

#[test]
fn unexpected_event_keeps_state() {
    let (s, a) = step(WorkerState::Waiting, WorkerEvent::Updated(Ok(())));
    assert!(matches!(s, WorkerState::Waiting));
    assert!(matches!(a, WorkerAction::Wait));
    let (s, a) = step(WorkerState::Fetching, WorkerEvent::Woken);
    assert!(matches!(s, WorkerState::Fetching));
    assert!(matches!(a, WorkerAction::FetchUnprocessed));
}
