use mcp_server::errors::{ErrorKind, McpError};

fn all_kinds(detail: &str) -> Vec<(McpError, ErrorKind, u16, &'static str)> {
    vec![
        (
            McpError::ServiceUnavailable(detail.to_string()),
            ErrorKind::ServiceUnavailable,
            503,
            "Service unavailable: ",
        ),
        (McpError::InvalidRequest(detail.to_string()), ErrorKind::InvalidRequest, 400, "Invalid request: "),
        (McpError::Unauthorized(detail.to_string()), ErrorKind::Unauthorized, 401, "Unauthorized: "),
        (McpError::NotFound(detail.to_string()), ErrorKind::NotFound, 404, "Not found: "),
        (McpError::InternalError(detail.to_string()), ErrorKind::InternalError, 500, "Internal error: "),
    ]
}

#[test]
fn unauthorized_is_reported_as_401() {
    let error = McpError::Unauthorized("User ID not found in request".to_string());
    assert_eq!(error.kind(), ErrorKind::Unauthorized);
    assert_eq!(error.status_code(), 401);
    assert_eq!(error.message(), "Unauthorized: User ID not found in request");
}

#[test]
fn every_kind_has_its_status_code() {
    for (error, kind, status, _) in all_kinds("x") {
        assert_eq!(error.kind(), kind);
        assert_eq!(error.status_code(), status);
    }
}

#[test]
fn every_kind_has_its_label() {
    for (error, _, _, label) in all_kinds("backend down") {
        assert_eq!(error.message(), format!("{}backend down", label));
        assert_eq!(error.detail(), "backend down");
    }
}

#[test]
fn status_codes_are_distinct() {
    let kinds = all_kinds("");
    for (i, a) in kinds.iter().enumerate() {
        for (j, b) in kinds.iter().enumerate() {
            assert_eq!(a.0.status_code() == b.0.status_code(), i == j);
        }
    }
}

#[test]
fn error_body_repeats_message_and_status() {
    let error = McpError::ServiceUnavailable("Memory service returned status: 503 Service Unavailable".to_string());
    let body = error.error_response();
    assert_eq!(body.error, "Service unavailable: Memory service returned status: 503 Service Unavailable");
    assert_eq!(body.status, 503);
}

#[test]
fn error_body_of_empty_detail() {
    let body = McpError::NotFound(String::new()).error_response();
    assert_eq!(body.error, "Not found: ");
    assert_eq!(body.status, 404);
}
