use mcp_server::backend::{BackendReply, BackendRequest, HttpStatus, Method, Payload};
use mcp_server::errors::McpError;
use mcp_server::json::{JsonNumber, JsonValue};
use mcp_server::models::{
    ChatMessageRequest, ChatMessageResponse, MemoryItem, MemorySearchRequest, MemoryStoreRequest,
};
use mcp_server::services::{
    memories_from_json, memory_item, stored_id_from_json, IntelligenceServiceClient,
    MemoryServiceClient,
};

fn text(s: &str) -> JsonValue {
    JsonValue::Text(s.to_string())
}

fn number(x: f64) -> JsonValue {
    JsonValue::Number(JsonNumber { bits: x.to_bits() })
}

fn object(members: Vec<(&str, JsonValue)>) -> JsonValue {
    JsonValue::Object(members.into_iter().map(|(k, v)| (k.to_string(), v)).collect())
}

fn answered<B>(code: u16, body: B) -> BackendReply<B> {
    BackendReply::Answered { status: HttpStatus::new(code).unwrap(), body: Ok(body) }
}

fn wire(code: u16, body: &str) -> BackendReply<Vec<u8>> {
    answered(code, body.as_bytes().to_vec())
}

const FULL_ENTRY: &str = r#"{"id":"m-1","input_context":"open a.py","output_response":"done","tier":"stm","confidence_score":0.75,"created_at":"2024-01-01T00:00:00Z"}"#;

fn full_entry() -> JsonValue {
    object(vec![
        ("id", text("m-1")),
        ("input_context", text("open a.py")),
        ("output_response", text("done")),
        ("tier", text("stm")),
        ("confidence_score", number(0.75)),
        ("created_at", text("2024-01-01T00:00:00Z")),
    ])
}

#[test]
fn search_request_is_shaped() {
    let client = MemoryServiceClient::new("http://memory:8001");
    assert_eq!(client.base_url(), "http://memory:8001");
    let call = client.search_memories("u1", "a.py print(1)", Some(5));
    assert_eq!(
        call,
        BackendRequest {
            method: Method::Post,
            url: "http://memory:8001/memory/search".to_string(),
            user_id: Some("u1".to_string()),
            payload: Payload::Search(MemorySearchRequest {
                query: "a.py print(1)".to_string(),
                limit: Some(5),
                tier: None,
            }),
        }
    );
}

#[test]
fn search_request_without_limit() {
    let call = MemoryServiceClient::new("http://m").search_memories("u", "q", None);
    assert_eq!(
        call.payload,
        Payload::Search(MemorySearchRequest { query: "q".to_string(), limit: None, tier: None })
    );
}

#[test]
fn entry_with_all_fields() {
    let item = memory_item(&full_entry());
    assert_eq!(
        item,
        MemoryItem {
            id: "m-1".to_string(),
            content: "Input: open a.py\nOutput: done".to_string(),
            tier: "stm".to_string(),
            confidence_score: JsonNumber { bits: 0.75f64.to_bits() },
            created_at: "2024-01-01T00:00:00Z".to_string(),
        }
    );
    assert_eq!(f64::from_bits(item.confidence_score.bits), 0.75);
}

#[test]
fn entry_without_fields_takes_defaults() {
    let item = memory_item(&object(vec![]));
    assert_eq!(
        item,
        MemoryItem {
            id: String::new(),
            content: "Input: \nOutput: ".to_string(),
            tier: "ltm".to_string(),
            confidence_score: JsonNumber { bits: 0 },
            created_at: String::new(),
        }
    );
    assert_eq!(f64::from_bits(item.confidence_score.bits), 0.0);
}

#[test]
fn entry_with_fields_of_the_wrong_type_takes_defaults() {
    let entry = object(vec![
        ("id", number(7.0)),
        ("input_context", JsonValue::Null),
        ("output_response", JsonValue::Array(vec![])),
        ("tier", JsonValue::Bool(true)),
        ("confidence_score", text("0.9")),
        ("created_at", object(vec![])),
    ]);
    assert_eq!(memory_item(&entry), memory_item(&object(vec![])));
}

#[test]
fn entry_that_is_not_an_object_takes_defaults() {
    assert_eq!(memory_item(&text("x")), memory_item(&object(vec![])));
    assert_eq!(memory_item(&JsonValue::Null), memory_item(&object(vec![])));
}

#[test]
fn results_are_read_in_order() {
    let answer = object(vec![(
        "results",
        JsonValue::Array(vec![full_entry(), object(vec![("id", text("m-2"))]), JsonValue::Null]),
    )]);
    let items = memories_from_json(&answer).unwrap();
    assert_eq!(items.len(), 3);
    assert_eq!(items[0], memory_item(&full_entry()));
    assert_eq!(items[1].id, "m-2");
    assert_eq!(items[1].tier, "ltm");
    assert_eq!(items[2].id, "");
}

#[test]
fn empty_results_are_no_failure() {
    let answer = object(vec![("results", JsonValue::Array(vec![]))]);
    assert_eq!(memories_from_json(&answer), Ok(vec![]));
}

#[test]
fn answer_without_results_is_malformed() {
    let expected = Err(McpError::InternalError("Invalid memory response format".to_string()));
    assert_eq!(memories_from_json(&object(vec![])), expected);
    assert_eq!(memories_from_json(&object(vec![("results", JsonValue::Null)])), expected);
    assert_eq!(memories_from_json(&object(vec![("results", text("[]"))])), expected);
    assert_eq!(memories_from_json(&object(vec![("results", object(vec![]))])), expected);
    assert_eq!(memories_from_json(&JsonValue::Array(vec![])), expected);
    assert_eq!(memories_from_json(&JsonValue::Null), expected);
}

#[test]
fn search_reply_with_results() {
    let body = format!(r#"{{"results":[{}]}}"#, FULL_ENTRY);
    assert_eq!(
        MemoryServiceClient::search_memories_reply(wire(200, &body)),
        Ok(vec![memory_item(&full_entry())])
    );
}

#[test]
fn search_reply_with_loose_entries() {
    let body = r#"{"total": 3, "results":[{"id":"a","confidence_score":1},{"tier":null,"id":7},"x"]}"#;
    let items = MemoryServiceClient::search_memories_reply(wire(200, body)).unwrap();
    assert_eq!(items.len(), 3);
    assert_eq!(items[0].id, "a");
    assert_eq!(f64::from_bits(items[0].confidence_score.bits), 1.0);
    assert_eq!(items[1], memory_item(&object(vec![])));
    assert_eq!(items[2], memory_item(&object(vec![])));
}

#[test]
fn search_reply_with_empty_results() {
    assert_eq!(MemoryServiceClient::search_memories_reply(wire(200, r#"{"results":[]}"#)), Ok(vec![]));
}

#[test]
fn search_reply_with_refused_status() {
    let cases = [
        (404u16, "Memory service returned status: 404 Not Found"),
        (500, "Memory service returned status: 500 Internal Server Error"),
        (503, "Memory service returned status: 503 Service Unavailable"),
        (201, "Memory service returned status: 201 Created"),
    ];
    for (code, detail) in cases {
        assert_eq!(
            MemoryServiceClient::search_memories_reply(wire(code, r#"{"results":[]}"#)),
            Err(McpError::ServiceUnavailable(detail.to_string()))
        );
    }
}

#[test]
fn search_reply_without_answer() {
    assert_eq!(
        MemoryServiceClient::search_memories_reply(BackendReply::Unreachable("dns error".to_string())),
        Err(McpError::ServiceUnavailable("dns error".to_string()))
    );
}

#[test]
fn search_reply_with_unreadable_body() {
    let reply = BackendReply::Answered {
        status: HttpStatus::new(200).unwrap(),
        body: Err("connection reset".to_string()),
    };
    assert_eq!(
        MemoryServiceClient::search_memories_reply(reply),
        Err(McpError::InternalError("Failed to parse memory response: connection reset".to_string()))
    );
}

#[test]
fn search_reply_with_undecodable_body() {
    assert_eq!(
        MemoryServiceClient::search_memories_reply(wire(200, "<html>")),
        Err(McpError::InternalError(
            "Failed to parse memory response: expected value at line 1 column 1".to_string()
        ))
    );
    assert_eq!(
        MemoryServiceClient::search_memories_reply(wire(200, "")),
        Err(McpError::InternalError(
            "Failed to parse memory response: EOF while parsing a value at line 1 column 0".to_string()
        ))
    );
    assert_eq!(
        MemoryServiceClient::search_memories_reply(wire(200, r#"{"results":[]} x"#)),
        Err(McpError::InternalError(
            "Failed to parse memory response: trailing characters at line 1 column 16".to_string()
        ))
    );
}

#[test]
fn search_reply_with_malformed_answer() {
    for body in ["{}", r#"{"results":null}"#, r#"{"results":{}}"#, r#"{"Results":[]}"#, "[]", "null", "3"] {
        assert_eq!(
            MemoryServiceClient::search_memories_reply(wire(200, body)),
            Err(McpError::InternalError("Invalid memory response format".to_string())),
            "body {}",
            body
        );
    }
}

#[test]
fn store_request_is_shaped() {
    let client = MemoryServiceClient::new("http://memory:8001");
    let call = client.store_memory(
        "u1",
        "code_interaction",
        "File: a.py",
        Some("ok"),
        None,
        Some(vec!["save".to_string()]),
    );
    assert_eq!(
        call,
        BackendRequest {
            method: Method::Post,
            url: "http://memory:8001/memory/store".to_string(),
            user_id: Some("u1".to_string()),
            payload: Payload::Store(MemoryStoreRequest {
                memory_type: "code_interaction".to_string(),
                input_context: "File: a.py".to_string(),
                output_response: Some("ok".to_string()),
                outcome: None,
                tier: "ltm".to_string(),
                tags: Some(vec!["save".to_string()]),
            }),
        }
    );
}

#[test]
fn store_request_without_tags() {
    let call = MemoryServiceClient::new("http://m").store_memory("u", "t", "i", None, Some("o"), None);
    match call.payload {
        Payload::Store(body) => {
            assert_eq!(body.tier, "ltm");
            assert_eq!(body.tags, None);
            assert_eq!(body.output_response, None);
            assert_eq!(body.outcome, Some("o".to_string()));
        }
        other => panic!("unexpected payload {:?}", other),
    }
}

#[test]
fn store_reply_accepts_ok_and_created() {
    for code in [200u16, 201] {
        assert_eq!(
            MemoryServiceClient::store_memory_reply(wire(code, r#"{"id":"m-1","stored":true}"#)),
            Ok("m-1".to_string())
        );
    }
}

#[test]
fn store_reply_without_id_is_empty() {
    assert_eq!(MemoryServiceClient::store_memory_reply(wire(200, "{}")), Ok(String::new()));
    assert_eq!(MemoryServiceClient::store_memory_reply(wire(201, r#"{"id":3}"#)), Ok(String::new()));
    assert_eq!(MemoryServiceClient::store_memory_reply(wire(200, "null")), Ok(String::new()));
    assert_eq!(stored_id_from_json(&object(vec![("id", text("x"))])), "x");
    assert_eq!(stored_id_from_json(&object(vec![("id", number(3.0))])), "");
}

#[test]
fn store_reply_with_refused_status() {
    let cases = [
        (202u16, "Memory service returned status: 202 Accepted"),
        (204, "Memory service returned status: 204 No Content"),
        (400, "Memory service returned status: 400 Bad Request"),
        (404, "Memory service returned status: 404 Not Found"),
        (500, "Memory service returned status: 500 Internal Server Error"),
    ];
    for (code, detail) in cases {
        assert_eq!(
            MemoryServiceClient::store_memory_reply(wire(code, r#"{"id":"m-1"}"#)),
            Err(McpError::ServiceUnavailable(detail.to_string()))
        );
    }
}

#[test]
fn store_reply_with_undecodable_body() {
    assert_eq!(
        MemoryServiceClient::store_memory_reply(wire(201, "{\"id\":")),
        Err(McpError::InternalError(
            "Failed to parse store response: EOF while parsing a value at line 1 column 6".to_string()
        ))
    );
    let unread = BackendReply::Answered {
        status: HttpStatus::new(200).unwrap(),
        body: Err("timed out".to_string()),
    };
    assert_eq!(
        MemoryServiceClient::store_memory_reply(unread),
        Err(McpError::InternalError("Failed to parse store response: timed out".to_string()))
    );
}

#[test]
fn probes_are_shaped() {
    let expected = |url: &str| BackendRequest {
        method: Method::Get,
        url: url.to_string(),
        user_id: None,
        payload: Payload::Empty,
    };
    assert_eq!(MemoryServiceClient::new("http://memory:8001").health_check(), expected("http://memory:8001/health"));
    assert_eq!(
        IntelligenceServiceClient::new("http://intelligence:8000").health_check(),
        expected("http://intelligence:8000/health")
    );
}

#[test]
fn probe_replies_collapse_to_a_truth_value() {
    assert!(MemoryServiceClient::health_check_reply(&answered(200, ())));
    assert!(IntelligenceServiceClient::health_check_reply(&answered(204, ())));
    assert!(!MemoryServiceClient::health_check_reply(&answered(503, ())));
    assert!(!IntelligenceServiceClient::health_check_reply(&answered(404, ())));
    assert!(!MemoryServiceClient::health_check_reply(&BackendReply::<()>::Unreachable("refused".to_string())));
    assert!(!IntelligenceServiceClient::health_check_reply(&BackendReply::<()>::Unreachable(String::new())));
}

#[test]
fn message_request_is_shaped() {
    let client = IntelligenceServiceClient::new("http://intelligence:8000");
    assert_eq!(client.base_url(), "http://intelligence:8000");
    let session = uuid::Uuid::from_u128(0x1234);
    for use_memory in [true, false] {
        let call = client.send_message("u1", "hello", Some(session), use_memory);
        assert_eq!(
            call,
            BackendRequest {
                method: Method::Post,
                url: "http://intelligence:8000/chat/message".to_string(),
                user_id: Some("u1".to_string()),
                payload: Payload::Chat(ChatMessageRequest {
                    message: "hello".to_string(),
                    session_id: Some(session),
                    use_memory,
                }),
            }
        );
    }
}

#[test]
fn message_reply_is_passed_on() {
    let chat = ChatMessageResponse {
        session_id: "s-1".to_string(),
        response: "hi".to_string(),
        tokens_used: Some(12),
    };
    assert_eq!(IntelligenceServiceClient::send_message_reply(answered(200, chat.clone())), Ok(chat.clone()));
    assert_eq!(
        IntelligenceServiceClient::send_message_reply(answered(500, chat)),
        Err(McpError::ServiceUnavailable(
            "Intelligence service returned status: 500 Internal Server Error".to_string()
        ))
    );
    assert_eq!(
        IntelligenceServiceClient::send_message_reply(BackendReply::Unreachable("timed out".to_string())),
        Err(McpError::ServiceUnavailable("timed out".to_string()))
    );
    let undecodable = BackendReply::Answered {
        status: HttpStatus::new(200).unwrap(),
        body: Err("missing field `response`".to_string()),
    };
    assert_eq!(
        IntelligenceServiceClient::send_message_reply(undecodable),
        Err(McpError::InternalError(
            "Failed to parse intelligence response: missing field `response`".to_string()
        ))
    );
}
