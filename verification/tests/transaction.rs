use sqlx_odbc::transaction::{TransactionCall, TransactionFailure, TransactionRequest, TransactionStep};
use sqlx_odbc::{OdbcQueryResult, OdbcTransactionManager};

/// Runs a request to its end, answering each call from `outcomes` in order.
fn drive(manager: &mut OdbcTransactionManager, request: TransactionRequest, outcomes: &[bool]) -> (TransactionStep, Vec<TransactionCall>) {
    let mut calls = Vec::new();
    let mut step = manager.request(request);
    let mut answers = outcomes.iter();
    while let TransactionStep::Call(call) = step {
        calls.push(call);
        step = manager.resume(*answers.next().expect("an outcome for every call"));
    }
    (step, calls)
}

#[test]
fn begin_then_commit_opens_and_closes_a_transaction() {
    let mut manager = OdbcTransactionManager::new();
    assert_eq!(manager.transaction_depth(), 0);

    let (step, calls) = drive(&mut manager, TransactionRequest::Begin, &[true]);
    assert_eq!(step, TransactionStep::Succeeded);
    assert_eq!(calls, vec![TransactionCall::DisableAutocommit]);
    assert_eq!(manager.transaction_depth(), 1);

    let (step, calls) = drive(&mut manager, TransactionRequest::Commit, &[true, true]);
    assert_eq!(step, TransactionStep::Succeeded);
    assert_eq!(calls, vec![TransactionCall::Commit, TransactionCall::EnableAutocommit]);
    assert_eq!(manager.transaction_depth(), 0);
}

#[test]
fn begin_then_rollback_returns_to_autocommit() {
    let mut manager = OdbcTransactionManager::new();
    drive(&mut manager, TransactionRequest::Begin, &[true]);
    let (step, calls) = drive(&mut manager, TransactionRequest::Rollback, &[true, true]);
    assert_eq!(step, TransactionStep::Succeeded);
    assert_eq!(calls, vec![TransactionCall::Rollback, TransactionCall::EnableAutocommit]);
    assert_eq!(manager.transaction_depth(), 0);
}

#[test]
fn nested_begin_is_refused_without_a_call() {
    let mut manager = OdbcTransactionManager::new();
    drive(&mut manager, TransactionRequest::Begin, &[true]);
    let (step, calls) = drive(&mut manager, TransactionRequest::Begin, &[]);
    assert_eq!(step, TransactionStep::Failed(TransactionFailure::AlreadyInTransaction));
    assert!(calls.is_empty());
    assert_eq!(manager.transaction_depth(), 1);
}

#[test]
fn commit_and_rollback_outside_a_transaction_do_nothing() {
    let mut manager = OdbcTransactionManager::new();
    for request in [
        TransactionRequest::Commit,
        TransactionRequest::Rollback,
        TransactionRequest::StartRollback,
    ] {
        let (step, calls) = drive(&mut manager, request, &[]);
        assert_eq!(step, TransactionStep::Succeeded);
        assert!(calls.is_empty());
        assert_eq!(manager.transaction_depth(), 0);
    }
}

#[test]
fn failed_calls_keep_the_depth() {
    let mut manager = OdbcTransactionManager::new();
    let (step, _) = drive(&mut manager, TransactionRequest::Begin, &[false]);
    assert_eq!(step, TransactionStep::Failed(TransactionFailure::DisableAutocommit));
    assert_eq!(manager.transaction_depth(), 0);

    drive(&mut manager, TransactionRequest::Begin, &[true]);
    let (step, _) = drive(&mut manager, TransactionRequest::Commit, &[false]);
    assert_eq!(step, TransactionStep::Failed(TransactionFailure::Commit));
    assert_eq!(manager.transaction_depth(), 1);

    let (step, _) = drive(&mut manager, TransactionRequest::Commit, &[true, false]);
    assert_eq!(step, TransactionStep::Failed(TransactionFailure::RestoreAfterCommit));
    assert_eq!(manager.transaction_depth(), 1);

    let (step, _) = drive(&mut manager, TransactionRequest::Rollback, &[false]);
    assert_eq!(step, TransactionStep::Failed(TransactionFailure::Rollback));
    let (step, _) = drive(&mut manager, TransactionRequest::Rollback, &[true, false]);
    assert_eq!(step, TransactionStep::Failed(TransactionFailure::RestoreAfterRollback));
    assert_eq!(manager.transaction_depth(), 1);
}

#[test]
fn start_rollback_ends_the_transaction_whatever_restoring_gives() {
    let mut manager = OdbcTransactionManager::new();
    drive(&mut manager, TransactionRequest::Begin, &[true]);
    let (step, calls) = drive(&mut manager, TransactionRequest::StartRollback, &[true, false]);
    assert_eq!(step, TransactionStep::Succeeded);
    assert_eq!(calls, vec![TransactionCall::Rollback, TransactionCall::EnableAutocommit]);
    assert_eq!(manager.transaction_depth(), 0);

    drive(&mut manager, TransactionRequest::Begin, &[true]);
    let (step, calls) = drive(&mut manager, TransactionRequest::StartRollback, &[false]);
    assert_eq!(step, TransactionStep::Succeeded);
    assert_eq!(calls, vec![TransactionCall::Rollback]);
    assert_eq!(manager.transaction_depth(), 1);
}

#[test]
fn query_results_add_up() {
    let mut result = OdbcQueryResult::new(2);
    result.extend_from(vec![OdbcQueryResult::new(3), OdbcQueryResult::new(0), OdbcQueryResult::new(5)]);
    assert_eq!(result.rows_affected(), 10);
    assert_eq!(OdbcQueryResult::default().rows_affected(), 0);
}

#[test]
fn query_results_are_equal_by_count() {
    assert_eq!(OdbcQueryResult::new(0), OdbcQueryResult::default());
    assert_eq!(OdbcQueryResult::new(3), OdbcQueryResult::new(3));
    assert_ne!(OdbcQueryResult::new(3), OdbcQueryResult::new(4));
}
