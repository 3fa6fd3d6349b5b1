use sha2::Digest as _;
use libllm::store::JobStore;
use libllm::{infer_chain, query, query_hash, InferStatus};

const T1: &str = "2024-01-01 00:00:01";
const T2: &str = "2024-01-01 00:00:02";
const T3: &str = "2024-01-01 00:00:03";

#[test]
fn test_infer_chain() {
    let mut store = JobStore::new();
    let txid = "0".to_string();
    let user_input = "Is the Earth round?";

    let result = infer_chain(&mut store, txid, user_input, T1);
    assert!(result.is_ok());
    assert!(result.unwrap() == InferStatus::Created);
}

#[test]
fn test_query() {
    let mut store = JobStore::new();
    infer_chain(&mut store, "0".to_string(), "Is the Earth round?", T1).unwrap();
    let txid = "0".to_string();

    let result = query(&store, txid);
    assert!(result.is_ok());
}

#[test]
fn test_query_hash() {
    let mut store = JobStore::new();
    infer_chain(&mut store, "0".to_string(), "Is the Earth round?", T1).unwrap();
    let txid = "0".to_string();

    let result = query_hash(&store, txid);
    assert!(result.is_ok());
}

#[test]
fn test_query_not_found() {
    let store = JobStore::new();
    let txid = "1".to_string();

    let result = query(&store, txid);
    assert!(result.is_ok());
    assert_eq!(result.unwrap().status, InferStatus::NotFound)
}

#[test]
fn query_returns_full_record() {
    let mut store = JobStore::new();
    store.create("A", "some context", "2+2?", T1).unwrap();
    store.claim("A", T2).unwrap();
    store.finish_success("A", "4", T3).unwrap();
    let r = query(&store, "A".to_string()).unwrap();
    assert_eq!(r.txid, "A");
    assert_eq!(r.status, InferStatus::Success);
    assert_eq!(r.input, "2+2?");
    assert_eq!(r.output, "4");
    assert_eq!(r.output_hash, hex::encode(sha2::Sha256::digest("4".as_bytes())));
}

#[test]
fn query_hash_redacts_payload() {
    let mut store = JobStore::new();
    store.create("A", "", "2+2?", T1).unwrap();
    store.claim("A", T2).unwrap();
    store.finish_success("A", "4", T3).unwrap();
    let r = query_hash(&store, "A".to_string()).unwrap();
    assert_eq!(r.txid, "A");
    assert_eq!(r.status, InferStatus::Success);
    assert_eq!(r.input, "");
    assert_eq!(r.output, "");
    assert_eq!(r.output_hash, hex::encode(sha2::Sha256::digest("4".as_bytes())));
}

#[test]
fn query_not_found_is_all_empty() {
    let store = JobStore::new();
    let r = query(&store, "unknown-ticket".to_string()).unwrap();
    assert_eq!(r.status, InferStatus::NotFound);
    assert_eq!(r.txid, "");
    assert_eq!(r.input, "");
    assert_eq!(r.output, "");
    assert_eq!(r.output_hash, "");
}

#[test]
fn infer_chain_rejects_empty_input() {
    let mut store = JobStore::new();
    let result = infer_chain(&mut store, "0".to_string(), "", T1);
    assert_eq!(result, Err(libllm::LlmError::InvalidInput));
    assert_eq!(query(&store, "0".to_string()).unwrap().status, InferStatus::NotFound);
}
