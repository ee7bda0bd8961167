use precise_api::country::{UpdateCountrySchema, update_country};
use precise_api::txn::{
    MutationError, MutationPhase, StoreAction, StoreEvent, TransactionalMutation,
    mutation_error_response,
};

fn update_form() -> UpdateCountrySchema {
    UpdateCountrySchema {
        country_code: "DEU".to_string(),
        country_name: "Germany".to_string(),
        updated_by: Some("clerk".to_string()),
        reason: Some("boundary change".to_string()),
    }
}

#[test]
fn successful_run_records_then_mutates_then_commits() {
    let mut run = TransactionalMutation::new();
    assert_eq!(run.phase, MutationPhase::BeginPending);
    assert_eq!(run.step(StoreEvent::BeginOk), StoreAction::RecordReason);
    assert_eq!(run.step(StoreEvent::ReasonOk), StoreAction::RunMutation);
    assert_eq!(run.step(StoreEvent::MutationOk(1)), StoreAction::Commit);
    assert_eq!(run.step(StoreEvent::CommitOk), StoreAction::Finish);
    assert_eq!(run.phase, MutationPhase::Committed);
    assert!(run.is_done());

    let reply = update_country(update_form(), run.phase);
    assert_eq!(reply.status, 200);
    assert_eq!(reply.message, "Data updated successfully");
    assert!(reply.data.is_some());
}

#[test]
fn failed_mutation_rolls_back_the_reason_too() {
    let mut run = TransactionalMutation::new();
    assert_eq!(run.step(StoreEvent::BeginOk), StoreAction::RecordReason);
    assert_eq!(run.step(StoreEvent::ReasonOk), StoreAction::RunMutation);
    assert_eq!(run.step(StoreEvent::MutationFailed), StoreAction::Rollback);
    assert_eq!(run.step(StoreEvent::RolledBack), StoreAction::Finish);
    assert_eq!(run.phase, MutationPhase::Aborted(MutationError::UpdateFailed));

    let reply = update_country(update_form(), run.phase);
    assert_eq!(reply.status, 500);
    assert_eq!(reply.message, "Failed to update data");
    assert!(reply.data.is_none());
}

#[test]
fn failed_reason_write_rolls_back() {
    let mut run = TransactionalMutation::new();
    assert_eq!(run.step(StoreEvent::BeginOk), StoreAction::RecordReason);
    assert_eq!(run.step(StoreEvent::ReasonFailed), StoreAction::Rollback);
    assert_eq!(run.step(StoreEvent::RolledBack), StoreAction::Finish);
    assert_eq!(run.phase, MutationPhase::Aborted(MutationError::UpdateFailed));
}

#[test]
fn zero_rows_is_not_found() {
    let mut run = TransactionalMutation::new();
    run.step(StoreEvent::BeginOk);
    run.step(StoreEvent::ReasonOk);
    assert_eq!(run.step(StoreEvent::MutationOk(0)), StoreAction::Rollback);
    assert_eq!(run.step(StoreEvent::RolledBack), StoreAction::Finish);
    assert_eq!(run.phase, MutationPhase::Aborted(MutationError::NotFound));

    let reply = update_country(update_form(), run.phase);
    assert_eq!(reply.status, 404);
    assert_eq!(reply.message, "Data not found");
}

#[test]
fn begin_failure_aborts_without_rollback() {
    let mut run = TransactionalMutation::new();
    assert_eq!(run.step(StoreEvent::BeginFailed), StoreAction::Finish);
    assert_eq!(run.phase, MutationPhase::Aborted(MutationError::UpdateFailed));
}

#[test]
fn commit_failure_is_reported_apart() {
    let mut run = TransactionalMutation::new();
    run.step(StoreEvent::BeginOk);
    run.step(StoreEvent::ReasonOk);
    run.step(StoreEvent::MutationOk(3));
    assert_eq!(run.step(StoreEvent::CommitFailed), StoreAction::Finish);
    assert_eq!(run.phase, MutationPhase::Aborted(MutationError::CommitFailed));

    let reply: precise_api::response::ApiResponse<u64> =
        mutation_error_response(MutationError::CommitFailed);
    assert_eq!(reply.status, 500);
    assert_eq!(reply.message, "Failed to commit transaction");
}

#[test]
fn two_identical_runs_take_identical_full_cycles() {
    let events = [
        StoreEvent::BeginOk,
        StoreEvent::ReasonOk,
        StoreEvent::MutationOk(1),
        StoreEvent::CommitOk,
    ];
    let expected = [
        StoreAction::RecordReason,
        StoreAction::RunMutation,
        StoreAction::Commit,
        StoreAction::Finish,
    ];
    let mut first_actions = Vec::new();
    let mut run = TransactionalMutation::new();
    for ev in events {
        first_actions.push(run.step(ev));
    }
    assert_eq!(run.phase, MutationPhase::Committed);

    let mut second_actions = Vec::new();
    let mut run = TransactionalMutation::new();
    for ev in events {
        second_actions.push(run.step(ev));
    }
    assert_eq!(run.phase, MutationPhase::Committed);

    assert_eq!(first_actions, expected);
    assert_eq!(second_actions, expected);
}
