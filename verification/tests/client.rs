//! Tests of the dispatch client: construction, pagination, and the shared
//! response algorithm.

use resend_cli::api::{
    handle_response, handle_void, ApiError, Method, PaginationOptions, ResendClient,
};
use resend_cli::config::Config;
use resend_cli::json::Json;

fn make_client() -> ResendClient {
    ResendClient::new(Config { api_key: "test_key".to_string() })
}

#[test]
fn test_resend_client_creation() {
    let config = Config { api_key: "test_key".to_string() };
    let client = ResendClient::new(config);

    assert_eq!(client.api_key, "test_key");
    assert_eq!(client.base_url, "https://api.resend.com");
}

#[test]
fn test_request_builder() {
    let client = make_client();
    let request = client.request(Method::Get, "/test");

    assert!(!client.api_key.is_empty());
    assert_eq!(request.url, "https://api.resend.com/test");
    assert_eq!(request.api_key, "test_key");
    assert_eq!(request.auth_header(), "Bearer test_key");
    assert!(request.query.is_empty());
    assert!(request.body.is_none());
}

#[test]
fn test_apply_pagination_with_limit() {
    let client = make_client();
    let mut request = client.request(Method::Get, "/test");
    let pagination = PaginationOptions { limit: Some(10), after: None, before: None };

    request.apply_pagination(&pagination);
    assert_eq!(request.query, vec![("limit".to_string(), "10".to_string())]);
}

#[test]
fn test_apply_pagination_with_after() {
    let client = make_client();
    let mut request = client.request(Method::Get, "/test");
    let pagination = PaginationOptions {
        limit: None,
        after: Some("after_value".to_string()),
        before: None,
    };

    request.apply_pagination(&pagination);
    assert_eq!(request.query, vec![("after".to_string(), "after_value".to_string())]);
}

#[test]
fn test_apply_pagination_with_before() {
    let client = make_client();
    let mut request = client.request(Method::Get, "/test");
    let pagination = PaginationOptions {
        limit: None,
        after: None,
        before: Some("before_value".to_string()),
    };

    request.apply_pagination(&pagination);
    assert_eq!(request.query, vec![("before".to_string(), "before_value".to_string())]);
}

#[test]
fn test_apply_pagination_with_all_params() {
    let client = make_client();
    let mut request = client.request(Method::Get, "/test");
    let pagination = PaginationOptions {
        limit: Some(20),
        after: Some("after_value".to_string()),
        before: Some("before_value".to_string()),
    };

    request.apply_pagination(&pagination);
    assert_eq!(
        request.query,
        vec![
            ("limit".to_string(), "20".to_string()),
            ("after".to_string(), "after_value".to_string()),
            ("before".to_string(), "before_value".to_string()),
        ]
    );
}

#[test]
fn test_apply_pagination_with_no_params() {
    let client = make_client();
    let mut request = client.request(Method::Get, "/test");
    let pagination = PaginationOptions::default();

    request.apply_pagination(&pagination);
    assert!(request.query.is_empty());
}

#[test]
fn empty_success_body_decodes_as_empty_object() {
    let decoded: Result<Json, ApiError> = handle_response(200, "");
    match decoded {
        Ok(Json::Obj(members)) => assert!(members.is_empty()),
        _ => panic!("an empty success body must decode as the empty object"),
    }
}

#[test]
fn empty_success_body_succeeds_for_void_operations() {
    assert!(handle_void(200, "").is_ok());
    assert!(handle_void(204, "").is_ok());
}

#[test]
fn non_success_status_fails_with_status_and_body() {
    let r = handle_void(404, "{\"message\":\"not found\"}");
    match r {
        Err(e) => {
            match &e {
                ApiError::Api { status, body } => {
                    assert_eq!(*status, 404);
                    assert_eq!(body, "{\"message\":\"not found\"}");
                },
                _ => panic!("a rejected call must carry an API error"),
            }
            let message = e.message();
            assert!(message.contains("404"));
            assert!(message.contains("not found"));
        },
        Ok(()) => panic!("a 404 must fail"),
    }
}

#[test]
fn typed_decode_of_non_success_reports_api_error() {
    let decoded: Result<Json, ApiError> = handle_response(500, "boom");
    match decoded {
        Err(ApiError::Api { status, body }) => {
            assert_eq!(status, 500);
            assert_eq!(body, "boom");
        },
        _ => panic!("a non-success status must fail with an API error"),
    }
}

#[test]
fn malformed_success_body_reports_decode_error() {
    let decoded: Result<Json, ApiError> = handle_response(200, "not json at all");
    match decoded {
        Err(e) => {
            assert!(matches!(e, ApiError::Decode { .. }));
            assert!(!matches!(e, ApiError::Api { .. }));
            let message = e.message();
            assert!(message.contains("not json at all"));
        },
        Ok(_) => panic!("a malformed body must fail"),
    }
}

#[test]
fn raw_json_decodes_any_well_formed_number() {
    // The raw-JSON operation is a transparent relay: numbers the integer
    // form cannot hold are carried as their literal text, never an error.
    for body in ["-1", "1.5", "18446744073709551616"] {
        let decoded: Result<Json, ApiError> = handle_response(200, body);
        match decoded {
            Ok(Json::NumText(lexeme)) => assert_eq!(lexeme, body),
            _ => panic!("a well-formed numeric body must decode"),
        }
    }
    let nested: Result<Json, ApiError> = handle_response(200, "{\"score\":-0.25}");
    assert!(nested.is_ok());
}

#[test]
fn api_error_message_is_exact() {
    let e = ApiError::Api { status: 404, body: "not found".to_string() };
    assert_eq!(e.message(), "API Error (404): not found");
    let d = ApiError::Decode { body: "<html>".to_string() };
    assert_eq!(d.message(), "Failed to parse response. Body: <html>");
}
