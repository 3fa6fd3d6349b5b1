use libllm::api::{
    make_infer_result_path, parse_infer_result_path, RPCInferResultData, RPCInferResultRequestHandler,
};
use libllm::store::JobStore;
use libllm::{InferStatus, LlmError};

const T1: &str = "2024-01-01 00:00:01";

#[test]
fn parse_path_extracts_ticket() {
    assert_eq!(
        parse_infer_result_path("/v2/infer_res/123456"),
        Some("123456".to_string())
    );
    assert_eq!(
        parse_infer_result_path("/v2/infer_res/aB9"),
        Some("aB9".to_string())
    );
}

#[test]
fn parse_path_rejects_malformed_paths() {
    assert_eq!(parse_infer_result_path("/v2/infer_res/"), None);
    assert_eq!(parse_infer_result_path("/v2/infer_res"), None);
    assert_eq!(parse_infer_result_path("/v2/infer_res/abc/def"), None);
    assert_eq!(parse_infer_result_path("/v2/infer_res/abc!"), None);
    assert_eq!(parse_infer_result_path("/v3/infer_res/abc"), None);
    assert_eq!(parse_infer_result_path(""), None);
}

#[test]
fn built_path_parses_back() {
    let path = make_infer_result_path("123456");
    assert_eq!(path, "/v2/infer_res/123456");
    assert_eq!(parse_infer_result_path(path.as_str()), Some("123456".to_string()));
}

#[test]
fn test_try_parse_request() {
    let mut handler = RPCInferResultRequestHandler::new();
    assert!(handler.tx_id.is_none());

    let r = handler.try_parse_request(0, "/v2/infer_res/123456");
    assert!(r.is_ok());
    assert_eq!(handler.tx_id, Some("123456".to_string()));

    handler.restart();
    assert!(handler.tx_id.is_none());
}

#[test]
fn try_parse_request_rejects_nonempty_body() {
    let mut handler = RPCInferResultRequestHandler::new();
    let r = handler.try_parse_request(12, "/v2/infer_res/123456");
    assert_eq!(r, Err(LlmError::InvalidInput));
    assert!(handler.tx_id.is_none());
}

#[test]
fn handler_verb_and_metrics() {
    let handler = RPCInferResultRequestHandler::new();
    assert_eq!(handler.verb(), "GET");
    assert_eq!(handler.metrics_identifier(), "/v2/infer_res/:tx_id");
}

#[test]
fn test_try_make_response() {
    let mut store = JobStore::new();
    store.create("123456", "", "2+2?", T1).unwrap();

    let resp = RPCInferResultData::from_llm("123456".to_string(), &store).unwrap();
    assert_eq!(resp.txid, "123456".to_string());
    assert_eq!(resp.status, InferStatus::Created);

    let missing = RPCInferResultData::from_llm("654321".to_string(), &store).unwrap();
    assert_eq!(missing.txid, "654321".to_string());
    assert_eq!(missing.status, InferStatus::NotFound);
}
