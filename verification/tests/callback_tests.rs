use raft_callback::callback::LogApplied;
use raft_callback::callback::LogFlushed;
use raft_callback::errors::IoError;
use raft_callback::errors::StorageError;
use raft_callback::log_id::LogIOId;
use raft_callback::log_id::LogId;

fn io_error(message: &str) -> IoError {
    IoError::new(String::from(message))
}

#[test]
fn flush_ok_delivers_bound_identity() {
    let (tx, mut rx) = tokio::sync::oneshot::channel();
    let l1 = LogIOId::new(1, 5);
    let completion = LogFlushed::new(l1, tx);
    completion.log_io_completed(Ok(()));
    let got = rx.try_recv().expect("exactly one message should be pending");
    assert_eq!(got, Ok(l1));
    // after the single delivery the channel is closed
    assert!(rx.try_recv().is_err());
}

#[test]
fn flush_err_forwards_error_unchanged() {
    let (tx, mut rx) = tokio::sync::oneshot::channel();
    let l2 = LogIOId::new(1, 6);
    let completion = LogFlushed::new(l2, tx);
    completion.log_io_completed(Err(io_error("disk full")));
    let got = rx.try_recv().expect("exactly one message should be pending");
    assert_eq!(got, Err(io_error("disk full")));
    assert!(rx.try_recv().is_err());
}

#[test]
fn flush_abandoned_receiver_is_tolerated() {
    let (tx, rx) = tokio::sync::oneshot::channel();
    let completion = LogFlushed::new(LogIOId::new(3, 7), tx);
    drop(rx);
    // delivery fails, but nothing panics and nothing is propagated
    completion.log_io_completed(Ok(()));
}

#[test]
fn flush_abandoned_receiver_tolerates_error_outcome_too() {
    let (tx, rx) = tokio::sync::oneshot::channel();
    let completion = LogFlushed::new(LogIOId::new(3, 8), tx);
    drop(rx);
    completion.log_io_completed(Err(io_error("gone")));
}

#[test]
fn apply_ok_pairs_identity_with_responses_in_order() {
    let (tx, mut rx) = tokio::sync::oneshot::channel();
    let last = LogId::new(10);
    let completion = LogApplied::new(last, tx);
    let responses = vec![String::from("r1"), String::from("r2"), String::from("r3")];
    completion.completed(Ok(responses.clone()));
    let got = rx.try_recv().expect("exactly one message should be pending");
    assert_eq!(got, Ok((last, responses)));
    assert!(rx.try_recv().is_err());
}

#[test]
fn apply_io_error_is_forwarded_unchanged() {
    let (tx, mut rx) = tokio::sync::oneshot::channel::<Result<(LogId, Vec<u64>), StorageError>>();
    let completion = LogApplied::new(LogId::new(4), tx);
    completion.completed(Err(StorageError::Io(io_error("bad sector"))));
    let got = rx.try_recv().expect("exactly one message should be pending");
    assert_eq!(got, Err(StorageError::Io(io_error("bad sector"))));
}

#[test]
fn apply_inconsistency_error_is_forwarded_unchanged() {
    let (tx, mut rx) = tokio::sync::oneshot::channel::<Result<(LogId, Vec<u64>), StorageError>>();
    let completion = LogApplied::new(LogId::new(4), tx);
    completion.completed(Err(StorageError::Inconsistency(String::from("torn write"))));
    let got = rx.try_recv().expect("exactly one message should be pending");
    assert_eq!(got, Err(StorageError::Inconsistency(String::from("torn write"))));
}

#[test]
fn apply_empty_batch_yields_empty_responses() {
    let (tx, mut rx) = tokio::sync::oneshot::channel::<Result<(LogId, Vec<u64>), StorageError>>();
    let last = LogId::new(0);
    let completion = LogApplied::new(last, tx);
    completion.completed(Ok(Vec::new()));
    let got = rx.try_recv().expect("exactly one message should be pending");
    assert_eq!(got, Ok((last, Vec::new())));
}

#[test]
fn apply_abandoned_receiver_is_tolerated() {
    let (tx, rx) = tokio::sync::oneshot::channel::<Result<(LogId, Vec<u64>), StorageError>>();
    let completion = LogApplied::new(LogId::new(9), tx);
    drop(rx);
    completion.completed(Ok(vec![1, 2]));
}
