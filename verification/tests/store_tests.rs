use sha2::Digest as _;
use libllm::status::{LlmError, STATUS_CREATED, STATUS_FAILURE, STATUS_IN_PROGRESS, STATUS_NOT_FOUND, STATUS_SUCCESS};
use libllm::store::JobStore;
use libllm::InferStatus;

const T1: &str = "2024-01-01 00:00:01";
const T2: &str = "2024-01-01 00:00:02";
const T3: &str = "2024-01-01 00:00:03";
const T4: &str = "2024-01-01 00:00:04";
const T5: &str = "2024-01-01 00:00:05";

#[test]
fn never_submitted_reads_not_found() {
    let store = JobStore::new();
    let row = store.get("unknown-ticket");
    assert_eq!(row.status, STATUS_NOT_FOUND);
    assert_eq!(row.txid, "");
    assert_eq!(row.context, "");
    assert_eq!(row.input, "");
    assert_eq!(row.output, "");
    assert_eq!(row.output_hash, "");
    assert_eq!(row.create_time, "");
    assert_eq!(row.start_time, "");
    assert_eq!(row.end_time, "");
}

#[test]
fn create_reads_created_with_no_timestamps() {
    let mut store = JobStore::new();
    store.create("A", "", "2+2?", T1).unwrap();
    let row = store.get("A");
    assert_eq!(row.status, STATUS_CREATED);
    assert_eq!(row.txid, "A");
    assert_eq!(row.input, "2+2?");
    assert_eq!(row.create_time, T1);
    assert_eq!(row.start_time, "");
    assert_eq!(row.end_time, "");
    assert_eq!(row.output, "");
    assert_eq!(row.output_hash, "");
}

#[test]
fn create_with_empty_input_fails_and_alters_nothing() {
    let mut store = JobStore::new();
    store.create("A", "", "2+2?", T1).unwrap();
    let before = store.get("A");
    let r = store.create("A", "", "", T2);
    assert_eq!(r, Err(LlmError::InvalidInput));
    let after = store.get("A");
    assert_eq!(after.status, before.status);
    assert_eq!(after.input, before.input);
    assert_eq!(after.create_time, before.create_time);
}

#[test]
fn create_resubmission_is_last_writer_wins() {
    let mut store = JobStore::new();
    store.create("A", "", "first question", T1).unwrap();
    store.claim("A", T2).unwrap();
    store.create("A", "ctx", "second question", T3).unwrap();
    let row = store.get("A");
    assert_eq!(row.status, STATUS_CREATED);
    assert_eq!(row.input, "second question");
    assert_eq!(row.context, "ctx");
    assert_eq!(row.create_time, T3);
    assert_eq!(row.start_time, "");
}

#[test]
fn claim_sets_in_progress_and_start_time() {
    let mut store = JobStore::new();
    store.create("A", "", "2+2?", T1).unwrap();
    store.claim("A", T2).unwrap();
    let row = store.get("A");
    assert_eq!(row.status, STATUS_IN_PROGRESS);
    assert!(!row.start_time.is_empty());
    assert!(row.start_time.as_str() >= row.create_time.as_str());
}

#[test]
fn claim_unknown_ticket_fails() {
    let mut store = JobStore::new();
    assert_eq!(store.claim("nope", T1), Err(LlmError::NotFoundError));
}

#[test]
fn complete_success_stores_output_and_matching_hash() {
    let mut store = JobStore::new();
    store.create("A", "", "2+2?", T1).unwrap();
    store.claim("A", T2).unwrap();
    store.finish_success("A", "4", T3).unwrap();
    let row = store.get("A");
    assert_eq!(row.status, STATUS_SUCCESS);
    assert_eq!(row.output, "4");
    // the fingerprint of "4", as the worker computes it
    let expected = hex::encode(sha2::Sha256::digest("4".as_bytes()));
    assert_eq!(
        expected,
        "4b227777d4dd1fc61c6f884f48641d02b4d121d3fd328cb08b5531fcacdabf8a"
    );
    assert_eq!(row.output_hash, expected);
    assert!(row.end_time.as_str() >= row.start_time.as_str());
}

#[test]
fn terminal_success_refuses_claim_and_complete() {
    let mut store = JobStore::new();
    store.create("A", "", "2+2?", T1).unwrap();
    store.claim("A", T2).unwrap();
    store.finish_success("A", "4", T3).unwrap();
    let before = store.get("A");
    assert_eq!(store.claim("A", T4), Err(LlmError::NotFoundError));
    assert_eq!(store.finish_success("A", "5", T4), Err(LlmError::NotFoundError));
    assert_eq!(store.finish_failure("A", T4), Err(LlmError::NotFoundError));
    let after = store.get("A");
    assert_eq!(after.status, before.status);
    assert_eq!(after.output, before.output);
    assert_eq!(after.output_hash, before.output_hash);
    assert_eq!(after.end_time, before.end_time);
}

#[test]
fn failure_refuses_complete_but_stays_eligible() {
    let mut store = JobStore::new();
    store.create("B", "", "x", T1).unwrap();
    store.claim("B", T2).unwrap();
    store.finish_failure("B", T3).unwrap();
    let row = store.get("B");
    assert_eq!(row.status, STATUS_FAILURE);
    assert_eq!(row.output, "");
    assert_eq!(row.output_hash, "");
    assert_eq!(store.finish_success("B", "y", T4), Err(LlmError::NotFoundError));
    let picked = store.select_pending().unwrap();
    assert_eq!(picked.txid, "B");
}

#[test]
fn select_pending_returns_oldest_eligible() {
    let mut store = JobStore::new();
    store.create("newer", "", "q2", T3).unwrap();
    store.create("older", "", "q1", T1).unwrap();
    store.create("working", "", "q3", T2).unwrap();
    store.claim("working", T4).unwrap();
    let picked = store.select_pending().unwrap();
    assert_eq!(picked.txid, "older");
    assert_eq!(picked.status, STATUS_CREATED);
}

#[test]
fn select_pending_none_when_nothing_eligible() {
    let mut store = JobStore::new();
    assert!(store.select_pending().is_none());
    store.create("A", "", "q", T1).unwrap();
    store.claim("A", T2).unwrap();
    assert!(store.select_pending().is_none());
    store.finish_success("A", "out", T3).unwrap();
    assert!(store.select_pending().is_none());
}

#[test]
fn claim_next_claims_the_selected_record() {
    let mut store = JobStore::new();
    store.create("A", "", "2+2?", T1).unwrap();
    store.create("B", "", "x", T2).unwrap();
    let picked = store.claim_next(T3).unwrap();
    assert_eq!(picked.txid, "A");
    assert_eq!(picked.status, STATUS_CREATED);
    let row = store.get("A");
    assert_eq!(row.status, STATUS_IN_PROGRESS);
    let picked2 = store.claim_next(T4).unwrap();
    assert_eq!(picked2.txid, "B");
    assert!(store.claim_next(T5).is_none());
}

#[test]
fn worker_success_scenario() {
    let mut store = JobStore::new();
    store.create("A", "", "2+2?", T1).unwrap();
    assert_eq!(store.get("A").status, STATUS_CREATED);
    let picked = store.claim_next(T2).unwrap();
    assert_eq!(store.get("A").status, STATUS_IN_PROGRESS);
    store
        .record_outcome(picked.txid.as_str(), &Some("4".to_string()), T3)
        .unwrap();
    let row = store.get("A");
    assert_eq!(row.status, STATUS_SUCCESS);
    assert_eq!(row.output, "4");
    assert_eq!(row.output_hash, hex::encode(sha2::Sha256::digest("4".as_bytes())));
}

#[test]
fn worker_failure_scenario_leaves_record_retryable() {
    let mut store = JobStore::new();
    store.create("B", "", "x", T1).unwrap();
    let picked = store.claim_next(T2).unwrap();
    store.record_outcome(picked.txid.as_str(), &None, T3).unwrap();
    let row = store.get("B");
    assert_eq!(row.status, STATUS_FAILURE);
    assert_eq!(row.output, "");
    let again = store.select_pending().unwrap();
    assert_eq!(again.txid, "B");
}

#[test]
fn status_codes_round_trip() {
    for status in [
        InferStatus::Created,
        InferStatus::InProgress,
        InferStatus::Success,
        InferStatus::Failure,
        InferStatus::NotFound,
    ] {
        assert_eq!(InferStatus::from_code(status.code()), Some(status));
    }
    assert_eq!(InferStatus::from_code(0), None);
    assert_eq!(InferStatus::from_code(6), None);
    assert_eq!(InferStatus::Created.code(), 1);
    assert_eq!(InferStatus::NotFound.code(), 5);
    assert!(InferStatus::Success.is_terminal());
    assert!(InferStatus::Failure.is_terminal());
    assert!(!InferStatus::Created.is_terminal());
}

#[test]
fn select_pending_breaks_ties_by_storage_order() {
    let mut store = JobStore::new();
    store.create("first", "", "q1", T1).unwrap();
    store.create("second", "", "q2", T1).unwrap();
    let picked = store.select_pending().unwrap();
    assert_eq!(picked.txid, "first");
}

#[test]
fn failed_record_retry_can_succeed() {
    let mut store = JobStore::new();
    store.create("B", "", "x", T1).unwrap();
    store.claim_next(T2).unwrap();
    store.record_outcome("B", &None, T3).unwrap();
    assert_eq!(store.get("B").status, STATUS_FAILURE);
    let retried = store.claim_next(T4).unwrap();
    assert_eq!(retried.txid, "B");
    store.record_outcome("B", &Some("answer".to_string()), T5).unwrap();
    let row = store.get("B");
    assert_eq!(row.status, STATUS_SUCCESS);
    assert_eq!(row.output, "answer");
    assert_eq!(row.output_hash, hex::encode(sha2::Sha256::digest("answer".as_bytes())));
}
