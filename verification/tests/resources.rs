//! Tests of the resource schemas: serialized request payloads and decoded
//! records, with the mock bodies a server would return.

use resend_cli::api::api_keys::{ApiKey, CreateApiKeyRequest, ListApiKeysResponse};
use resend_cli::api::broadcasts::{Broadcast, CreateBroadcastRequest, ListBroadcastsResponse};
use resend_cli::api::contact_properties::{ContactProperty, CreateContactPropertyRequest};
use resend_cli::api::contacts::ListContactsResponse;
use resend_cli::api::domains::{CreateDomainRequest, Domain, ListDomainsResponse};
use resend_cli::api::emails::{
    display_vec, Email, ListAttachmentsResponse, ListEmailsResponse, SendEmailRequest,
    SendEmailResponse, UpdateEmailRequest,
};
use resend_cli::api::receiving::ListReceivedEmailsResponse;
use resend_cli::api::segments::ListSegmentsResponse;
use resend_cli::api::templates::ListTemplatesResponse;
use resend_cli::api::{handle_response, ApiError, Method, PaginationOptions, ResendClient};
use resend_cli::config::Config;
use resend_cli::encode::to_text;
use resend_cli::json::Json;

fn client_for_tests() -> ResendClient {
    ResendClient::new(Config { api_key: "test_key".to_string() })
}

#[test]
fn create_domain_scenario() {
    // Creating a domain without a region sends only the name; the echoed
    // record decodes with the server-issued fields.
    let client = client_for_tests();
    let request = CreateDomainRequest { name: "example.com".to_string(), region: None };
    let call = client.create_domain(&request);
    assert_eq!(call.method, Method::Post);
    assert_eq!(call.url, "https://api.resend.com/domains");
    assert_eq!(call.body.as_deref(), Some("{\"name\":\"example.com\"}"));

    let body = "{\"id\":\"dom_1\",\"name\":\"example.com\",\"created_at\":\"2024-01-01\",\
                \"status\":\"not_verified\",\"region\":\"us-east-1\"}";
    let decoded: Result<Domain, ApiError> = handle_response(200, body);
    let domain = decoded.expect("the mock record must decode");
    assert_eq!(domain.status, "not_verified");
    assert_eq!(domain.name, "example.com");
    assert_eq!(domain.id, "dom_1");
}

#[test]
fn create_domain_with_region_sends_it() {
    let client = client_for_tests();
    let request = CreateDomainRequest {
        name: "example.com".to_string(),
        region: Some("eu-west-1".to_string()),
    };
    let call = client.create_domain(&request);
    assert_eq!(
        call.body.as_deref(),
        Some("{\"name\":\"example.com\",\"region\":\"eu-west-1\"}")
    );
}

#[test]
fn test_list_domains() {
    let body = "{\"data\":[{\"id\":\"dom_1\",\"name\":\"example.com\",\
                \"created_at\":\"2023-01-01\",\"status\":\"verified\",\
                \"region\":\"us-east-1\"}]}";
    let decoded: Result<ListDomainsResponse, ApiError> = handle_response(200, body);
    let list = decoded.expect("the mock list must decode");
    assert_eq!(list.data.len(), 1);
    assert_eq!(list.data[0].id, "dom_1");
    assert_eq!(list.data[0].status, "verified");
    assert_eq!(list.data[0].region, "us-east-1");
}

#[test]
fn test_create_domain() {
    let client = client_for_tests();
    let request = CreateDomainRequest {
        name: "newdomain.com".to_string(),
        region: Some("us-west-2".to_string()),
    };
    let call = client.create_domain(&request);
    assert_eq!(
        call.body.as_deref(),
        Some("{\"name\":\"newdomain.com\",\"region\":\"us-west-2\"}")
    );
    let body = "{\"id\":\"new_dom_id\",\"name\":\"newdomain.com\",\
                \"created_at\":\"2023-01-01\",\"status\":\"not_verified\",\
                \"region\":\"us-east-1\"}";
    let decoded: Result<Domain, ApiError> = handle_response(200, body);
    assert_eq!(decoded.expect("decodes").id, "new_dom_id");
}

#[test]
fn test_get_domain() {
    let client = client_for_tests();
    let call = client.get_domain("dom_get_id");
    assert_eq!(call.method, Method::Get);
    assert_eq!(call.url, "https://api.resend.com/domains/dom_get_id");
    let body = "{\"id\":\"dom_get_id\",\"name\":\"getdomain.com\",\
                \"created_at\":\"2023-01-01\",\"status\":\"verified\",\
                \"region\":\"eu-west-1\"}";
    let decoded: Result<Domain, ApiError> = handle_response(200, body);
    assert_eq!(decoded.expect("decodes").name, "getdomain.com");
}

#[test]
fn test_delete_domain() {
    let call = client_for_tests().delete_domain("dom_delete_id");
    assert_eq!(call.method, Method::Delete);
    assert_eq!(call.url, "https://api.resend.com/domains/dom_delete_id");
    assert!(call.body.is_none());
}

#[test]
fn test_verify_domain() {
    let call = client_for_tests().verify_domain("dom_verify_id");
    assert_eq!(call.method, Method::Post);
    assert_eq!(call.url, "https://api.resend.com/domains/dom_verify_id/verify");
}

#[test]
fn test_list_api_keys() {
    let body = "{\"data\":[{\"id\":\"key_1\",\"name\":\"Test Key\",\
                \"created_at\":\"2023-01-01\"}]}";
    let decoded: Result<ListApiKeysResponse, ApiError> = handle_response(200, body);
    let list = decoded.expect("decodes");
    assert_eq!(list.data.len(), 1);
    assert_eq!(list.data[0].name, "Test Key");
    assert!(list.data[0].token.is_none());
}

#[test]
fn test_create_api_key() {
    let client = client_for_tests();
    let request = CreateApiKeyRequest {
        name: "New Test Key".to_string(),
        permission: Some("full_access".to_string()),
        domain_id: Some("domain_123".to_string()),
    };
    let call = client.create_api_key(&request);
    assert_eq!(
        call.body.as_deref(),
        Some(
            "{\"name\":\"New Test Key\",\"permission\":\"full_access\",\
             \"domain_id\":\"domain_123\"}"
        )
    );
    let body = "{\"id\":\"new_key_id\",\"name\":\"New Test Key\",\
                \"created_at\":\"2023-01-01\",\"token\":\"test_token_value\"}";
    let decoded: Result<ApiKey, ApiError> = handle_response(200, body);
    let key = decoded.expect("decodes");
    assert_eq!(key.id, "new_key_id");
    assert_eq!(key.token.as_deref(), Some("test_token_value"));
}

#[test]
fn test_delete_api_key() {
    let call = client_for_tests().delete_api_key("key_to_delete");
    assert_eq!(call.method, Method::Delete);
    assert_eq!(call.url, "https://api.resend.com/api-keys/key_to_delete");
}

#[test]
fn test_create_broadcast() {
    let client = client_for_tests();
    let request = CreateBroadcastRequest {
        name: "Test".to_string(),
        segment_id: "s_123".to_string(),
        from: "me@example.com".to_string(),
        subject: "Sub".to_string(),
        html: None,
        text: None,
        reply_to: None,
    };
    let call = client.create_broadcast(&request);
    assert_eq!(
        call.body.as_deref(),
        Some(
            "{\"name\":\"Test\",\"segment_id\":\"s_123\",\"from\":\"me@example.com\",\
             \"subject\":\"Sub\"}"
        )
    );
    let body = "{\"id\":\"b_123\",\"name\":\"Test\",\"status\":\"draft\",\
                \"created_at\":\"now\",\"segment_id\":\"s_123\"}";
    let decoded: Result<Broadcast, ApiError> = handle_response(200, body);
    let broadcast = decoded.expect("decodes");
    assert_eq!(broadcast.status, "draft");
    assert_eq!(broadcast.segment_id.as_deref(), Some("s_123"));
}

#[test]
fn test_list_broadcasts() {
    let decoded: Result<ListBroadcastsResponse, ApiError> = handle_response(200, "{\"data\":[]}");
    assert!(decoded.expect("decodes").data.is_empty());
}

#[test]
fn test_get_broadcast() {
    let body = "{\"id\":\"b_123\",\"name\":null,\"status\":\"sent\",\"created_at\":\"now\"}";
    let decoded: Result<Broadcast, ApiError> = handle_response(200, body);
    let broadcast = decoded.expect("a null or absent name must decode");
    assert_eq!(broadcast.status, "sent");
    assert!(broadcast.name.is_none());
    assert!(broadcast.segment_id.is_none());
}

#[test]
fn test_delete_broadcast() {
    let call = client_for_tests().delete_broadcast("b_123");
    assert_eq!(call.method, Method::Delete);
    assert_eq!(call.url, "https://api.resend.com/broadcasts/b_123");
}

#[test]
fn test_send_broadcast() {
    let call = client_for_tests().send_broadcast("b_123");
    assert_eq!(call.method, Method::Post);
    assert_eq!(call.url, "https://api.resend.com/broadcasts/b_123/send");
}

#[test]
fn test_list_contacts() {
    let body = "{\"data\":[{\"id\":\"con_1\",\"email\":\"test@example.com\",\
                \"first_name\":\"Test\",\"last_name\":\"User\",\
                \"created_at\":\"2023-01-01\",\"unsubscribed\":false}]}";
    let decoded: Result<ListContactsResponse, ApiError> = handle_response(200, body);
    let list = decoded.expect("decodes");
    assert_eq!(list.data.len(), 1);
    assert_eq!(list.data[0].email, "test@example.com");
    assert_eq!(list.data[0].first_name.as_deref(), Some("Test"));
    assert!(!list.data[0].unsubscribed);
}

#[test]
fn list_contacts_limit_only() {
    // A limit alone yields exactly one query parameter: no cursors appear.
    let client = client_for_tests();
    let pagination = PaginationOptions { limit: Some(10), after: None, before: None };
    let call = client.list_contacts(&pagination);
    assert_eq!(call.url, "https://api.resend.com/contacts");
    assert_eq!(call.query, vec![("limit".to_string(), "10".to_string())]);
    assert!(call.query.iter().all(|(k, _)| k != "after" && k != "before"));
}

#[test]
fn test_send_email_command() {
    let client = client_for_tests();
    let request = SendEmailRequest {
        from: "test@example.com".to_string(),
        to: vec!["recipient@example.com".to_string()],
        subject: "Test Subject".to_string(),
        html: Some("<h1>Test</h1>".to_string()),
        text: None,
        cc: None,
        bcc: None,
        reply_to: None,
        scheduled_at: None,
    };
    let call = client.send_email(&request);
    assert_eq!(call.method, Method::Post);
    assert_eq!(call.url, "https://api.resend.com/emails");
    assert_eq!(
        call.body.as_deref(),
        Some(
            "{\"from\":\"test@example.com\",\"to\":[\"recipient@example.com\"],\
             \"subject\":\"Test Subject\",\"html\":\"<h1>Test</h1>\"}"
        )
    );
    let decoded: Result<SendEmailResponse, ApiError> = handle_response(200, "{\"id\":\"test_id\"}");
    assert_eq!(decoded.expect("decodes").id, "test_id");
}

#[test]
fn test_send_email_batch_command() {
    let client = client_for_tests();
    let requests = vec![SendEmailRequest {
        from: "test@example.com".to_string(),
        to: vec!["recipient@example.com".to_string()],
        subject: "Test Subject".to_string(),
        html: None,
        text: Some("hello".to_string()),
        cc: None,
        bcc: None,
        reply_to: None,
        scheduled_at: None,
    }];
    let call = client.send_email_batch(&requests);
    assert_eq!(call.url, "https://api.resend.com/emails/batch");
    let body = call.body.expect("a batch has a payload");
    assert!(body.starts_with("[{\"from\":\"test@example.com\""));
    let decoded: Result<Vec<SendEmailResponse>, ApiError> = handle_response(
        200,
        "[{\"id\":\"batch_test_id\"}]",
    );
    let responses = decoded.expect("decodes");
    assert_eq!(responses.len(), 1);
    assert_eq!(responses[0].id, "batch_test_id");
}

#[test]
fn test_get_email_command() {
    let body = "{\"id\":\"email_id\",\"from\":\"sender@example.com\",\
                \"to\":[\"recipient@example.com\"],\"subject\":\"Subject\",\
                \"created_at\":\"2023-01-01\",\"last_event\":\"delivered\"}";
    let decoded: Result<Email, ApiError> = handle_response(200, body);
    let email = decoded.expect("decodes");
    assert_eq!(email.id, "email_id");
    assert_eq!(email.to, vec!["recipient@example.com".to_string()]);
    assert_eq!(email.last_event, "delivered");
}

#[test]
fn test_list_emails_command() {
    let body = "{\"data\":[{\"id\":\"email_id\",\"from\":\"sender@example.com\",\
                \"to\":[\"recipient@example.com\"],\"subject\":\"Subject\",\
                \"created_at\":\"2023-01-01\",\"last_event\":\"delivered\"}]}";
    let decoded: Result<ListEmailsResponse, ApiError> = handle_response(200, body);
    assert_eq!(decoded.expect("decodes").data.len(), 1);
}

#[test]
fn test_cancel_email_command() {
    let call = client_for_tests().cancel_email("email_id");
    assert_eq!(call.method, Method::Post);
    assert_eq!(call.url, "https://api.resend.com/emails/email_id/cancel");
}

#[test]
fn test_update_email_command() {
    let client = client_for_tests();
    let request = UpdateEmailRequest { scheduled_at: "2023-01-02".to_string() };
    let call = client.update_email("email_id", &request);
    assert_eq!(call.method, Method::Patch);
    assert_eq!(call.url, "https://api.resend.com/emails/email_id");
    assert_eq!(call.body.as_deref(), Some("{\"scheduled_at\":\"2023-01-02\"}"));
    let decoded: Result<SendEmailResponse, ApiError> = handle_response(
        200,
        "{\"id\":\"updated_email_id\"}",
    );
    assert_eq!(decoded.expect("decodes").id, "updated_email_id");
}

#[test]
fn test_attachments_command() {
    let call = client_for_tests().list_email_attachments("email_id");
    assert_eq!(call.url, "https://api.resend.com/emails/email_id/attachments");
    let body = "{\"data\":[{\"id\":\"attachment_id\",\"filename\":\"test.pdf\",\
                \"size\":1024,\"content_type\":\"application/pdf\"}]}";
    let decoded: Result<ListAttachmentsResponse, ApiError> = handle_response(200, body);
    let list = decoded.expect("decodes");
    assert_eq!(list.data[0].size, 1024);
    assert_eq!(list.data[0].content_type, "application/pdf");
}

#[test]
fn test_list_segments() {
    let body = "{\"data\":[{\"id\":\"seg_1\",\"name\":\"Test Segment\",\
                \"created_at\":\"2023-01-01\"}]}";
    let decoded: Result<ListSegmentsResponse, ApiError> = handle_response(200, body);
    assert_eq!(decoded.expect("decodes").data[0].name, "Test Segment");
}

#[test]
fn test_list_templates() {
    let body = "{\"data\":[{\"id\":\"tpl_1\",\"name\":\"Test Template\",\
                \"created_at\":\"2023-01-01\"}]}";
    let decoded: Result<ListTemplatesResponse, ApiError> = handle_response(200, body);
    assert_eq!(decoded.expect("decodes").data[0].name, "Test Template");
}

#[test]
fn test_config_struct_creation() {
    let config = Config { api_key: "test_key".to_string() };

    assert_eq!(config.api_key, "test_key");
}

#[test]
fn contact_property_type_travels_as_type_key() {
    let client = client_for_tests();
    let request = CreateContactPropertyRequest {
        key: "plan".to_string(),
        property_type: "string".to_string(),
        fallback_value: Some(Json::Str("free".to_string())),
    };
    let call = client.create_contact_property(&request);
    assert_eq!(
        call.body.as_deref(),
        Some("{\"key\":\"plan\",\"type\":\"string\",\"fallback_value\":\"free\"}")
    );
    let body = "{\"id\":\"prop_1\",\"key\":\"plan\",\"type\":\"string\",\
                \"created_at\":\"2023-01-01\"}";
    let decoded: Result<ContactProperty, ApiError> = handle_response(200, body);
    let property = decoded.expect("decodes");
    assert_eq!(property.property_type, "string");
    assert!(property.fallback_value.is_none());
}

#[test]
fn received_email_raw_body_decodes_as_json() {
    let decoded: Result<Json, ApiError> = handle_response(200, "{\"anything\":[1,2,3]}");
    let j = decoded.expect("decodes");
    assert_eq!(to_text(&j), "{\"anything\":[1,2,3]}");
    let body = "{\"data\":[{\"id\":\"re_1\",\"from\":\"a@b.c\",\"to\":[\"d@e.f\"],\
                \"subject\":\"hi\",\"created_at\":\"2023-01-01\"}]}";
    let list: Result<ListReceivedEmailsResponse, ApiError> = handle_response(200, body);
    assert_eq!(list.expect("decodes").data[0].from, "a@b.c");
}

#[test]
fn server_added_numeric_fields_are_tolerated() {
    // Extra fields the record does not read may hold any number.
    let body = "{\"id\":\"dom_1\",\"name\":\"example.com\",\"created_at\":\"2024-01-01\",\
                \"status\":\"verified\",\"region\":\"us-east-1\",\"ttl\":-3.5}";
    let decoded: Result<Domain, ApiError> = handle_response(200, body);
    assert_eq!(decoded.expect("decodes despite the extra float").id, "dom_1");
}

#[test]
fn record_missing_required_field_is_a_decode_error() {
    // The empty success body stands for {}, which lacks a record's
    // required fields: the mismatch is an explicit decode error.
    let decoded: Result<SendEmailResponse, ApiError> = handle_response(200, "");
    assert!(matches!(decoded, Err(ApiError::Decode { .. })));
    let partial: Result<Domain, ApiError> = handle_response(200, "{\"id\":\"dom_1\"}");
    assert!(matches!(partial, Err(ApiError::Decode { .. })));
}

#[test]
fn display_vec_joins_with_comma_space() {
    let v = vec!["Item 1".to_string(), "Item 2".to_string()];
    assert_eq!(display_vec(&v), "Item 1, Item 2");
    assert_eq!(display_vec(&Vec::new()), "");
    assert_eq!(display_vec(&vec!["one".to_string()]), "one");
}
