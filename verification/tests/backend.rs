use mcp_server::backend::{
    BackendReply, BackendRequest, CallKind, HttpStatus, Method, Payload, USER_ID_HEADER,
};
use mcp_server::errors::McpError;
use mcp_server::json::JsonValue;
use mcp_server::models::MemorySearchRequest;

fn status(code: u16) -> HttpStatus {
    HttpStatus::new(code).unwrap()
}

fn answered<B>(code: u16, body: Result<B, String>) -> BackendReply<B> {
    BackendReply::Answered { status: status(code), body }
}

#[test]
fn identity_header_name() {
    assert_eq!(USER_ID_HEADER, "X-User-Id");
}

#[test]
fn status_numbers_run_from_100_to_999() {
    assert!(HttpStatus::new(99).is_none());
    assert!(HttpStatus::new(0).is_none());
    assert!(HttpStatus::new(1000).is_none());
    assert!(HttpStatus::new(u16::MAX).is_none());
    assert_eq!(HttpStatus::new(100).unwrap().code(), 100);
    assert_eq!(HttpStatus::new(999).unwrap().code(), 999);
    assert_eq!(HttpStatus::new(404).unwrap().code(), 404);
}

#[test]
fn success_is_the_two_hundreds() {
    assert!(!status(199).is_success());
    assert!(status(200).is_success());
    assert!(status(204).is_success());
    assert!(status(299).is_success());
    assert!(!status(300).is_success());
    assert!(!status(500).is_success());
}

#[test]
fn only_store_accepts_created() {
    assert!(CallKind::Search.accepts_status(status(200)));
    assert!(CallKind::Store.accepts_status(status(200)));
    assert!(CallKind::Chat.accepts_status(status(200)));
    assert!(!CallKind::Search.accepts_status(status(201)));
    assert!(CallKind::Store.accepts_status(status(201)));
    assert!(!CallKind::Chat.accepts_status(status(201)));
    for code in [100u16, 199, 202, 204, 301, 400, 404, 500, 503, 999] {
        assert!(!CallKind::Search.accepts_status(status(code)));
        assert!(!CallKind::Store.accepts_status(status(code)));
        assert!(!CallKind::Chat.accepts_status(status(code)));
    }
}

#[test]
fn unreachable_backend_is_service_unavailable() {
    let reply: BackendReply<u8> = BackendReply::Unreachable("connection refused".to_string());
    assert_eq!(
        CallKind::Search.receive(reply),
        Err(McpError::ServiceUnavailable("connection refused".to_string()))
    );
}

#[test]
fn unexpected_status_is_service_unavailable_and_is_named() {
    assert_eq!(
        CallKind::Search.receive(answered(404, Ok(1u8))),
        Err(McpError::ServiceUnavailable("Memory service returned status: 404 Not Found".to_string()))
    );
    assert_eq!(
        CallKind::Store.receive(answered(500, Ok(1u8))),
        Err(McpError::ServiceUnavailable(
            "Memory service returned status: 500 Internal Server Error".to_string()
        ))
    );
    assert_eq!(
        CallKind::Chat.receive(answered(503, Ok(1u8))),
        Err(McpError::ServiceUnavailable(
            "Intelligence service returned status: 503 Service Unavailable".to_string()
        ))
    );
}

#[test]
fn status_without_a_standard_reason_is_written_out_too() {
    assert_eq!(
        CallKind::Search.receive(answered(799, Ok(1u8))),
        Err(McpError::ServiceUnavailable(
            "Memory service returned status: 799 <unknown status code>".to_string()
        ))
    );
}

#[test]
fn created_is_refused_by_search_and_chat() {
    assert_eq!(
        CallKind::Search.receive(answered(201, Ok(1u8))),
        Err(McpError::ServiceUnavailable("Memory service returned status: 201 Created".to_string()))
    );
    assert_eq!(
        CallKind::Chat.receive(answered(201, Ok(1u8))),
        Err(McpError::ServiceUnavailable("Intelligence service returned status: 201 Created".to_string()))
    );
    assert_eq!(CallKind::Store.receive(answered(201, Ok(1u8))), Ok(1u8));
}

#[test]
fn unexpected_status_wins_over_the_body() {
    let reply: BackendReply<u8> = answered(502, Err("unread".to_string()));
    assert_eq!(
        CallKind::Search.receive(reply),
        Err(McpError::ServiceUnavailable("Memory service returned status: 502 Bad Gateway".to_string()))
    );
}

#[test]
fn unusable_body_is_internal_error() {
    let why = "expected value at line 1 column 1".to_string();
    assert_eq!(
        CallKind::Search.receive(answered::<u8>(200, Err(why.clone()))),
        Err(McpError::InternalError(
            "Failed to parse memory response: expected value at line 1 column 1".to_string()
        ))
    );
    assert_eq!(
        CallKind::Store.receive(answered::<u8>(201, Err(why.clone()))),
        Err(McpError::InternalError(
            "Failed to parse store response: expected value at line 1 column 1".to_string()
        ))
    );
    assert_eq!(
        CallKind::Chat.receive(answered::<u8>(200, Err(why))),
        Err(McpError::InternalError(
            "Failed to parse intelligence response: expected value at line 1 column 1".to_string()
        ))
    );
}

#[test]
fn accepted_answer_yields_its_body() {
    assert_eq!(CallKind::Search.receive(answered(200, Ok("body".to_string()))), Ok("body".to_string()));
    assert_eq!(CallKind::Store.receive(answered(200, Ok(7u8))), Ok(7u8));
    assert_eq!(CallKind::Chat.receive(answered(200, Ok(()))), Ok(()));
}

#[test]
fn reply_succeeded_only_on_answered_success() {
    assert!(answered(200, Ok(())).succeeded());
    assert!(answered::<()>(204, Err(String::new())).succeeded());
    assert!(!answered(404, Ok(())).succeeded());
    assert!(!answered(500, Ok(())).succeeded());
    assert!(!BackendReply::<()>::Unreachable("timeout".to_string()).succeeded());
}

#[test]
fn body_is_wanted_only_where_the_status_is_accepted() {
    let search = BackendRequest {
        method: Method::Post,
        url: "http://memory:8001/memory/search".to_string(),
        user_id: Some("u1".to_string()),
        payload: Payload::Search(MemorySearchRequest { query: "q".to_string(), limit: None, tier: None }),
    };
    assert_eq!(search.kind(), Some(CallKind::Search));
    assert!(search.wants_body(status(200)));
    assert!(!search.wants_body(status(201)));
    assert!(!search.wants_body(status(404)));
    let probe = BackendRequest {
        method: Method::Get,
        url: "http://memory:8001/health".to_string(),
        user_id: None,
        payload: Payload::Empty,
    };
    assert_eq!(probe.kind(), None);
    assert!(!probe.wants_body(status(200)));
}

#[test]
fn json_answer_is_decoded_after_classification() {
    let body = br#"{"id":"m-1"}"#.to_vec();
    let answer = CallKind::Store.receive_json(answered(201, Ok(body.clone()))).unwrap();
    assert_eq!(answer.member("id"), Some(&JsonValue::Text("m-1".to_string())));
    assert_eq!(
        CallKind::Search.receive_json(answered(201, Ok(body))),
        Err(McpError::ServiceUnavailable("Memory service returned status: 201 Created".to_string()))
    );
    assert_eq!(
        CallKind::Search.receive_json(answered(200, Ok(b"oops".to_vec()))),
        Err(McpError::InternalError(
            "Failed to parse memory response: expected value at line 1 column 1".to_string()
        ))
    );
    assert_eq!(
        CallKind::Search.receive_json(BackendReply::Unreachable("refused".to_string())),
        Err(McpError::ServiceUnavailable("refused".to_string()))
    );
}
