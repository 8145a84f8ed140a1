use rust_api_client::api::ApiClient;
use rust_api_client::api::HttpRequest;
use rust_api_client::api::HttpResponse;
use rust_api_client::api::Method;
use rust_api_client::api::require_success;

// Each test builds a request, checks what a backend would have observed
// on the wire, and then feeds the backend's canned reply through the
// response half.

fn body_text(req: &HttpRequest) -> String {
    String::from_utf8(req.body.clone().expect("request carries a body")).expect("utf-8 body")
}

fn has_header(req: &HttpRequest, name: &str, value: &str) -> bool {
    req.headers.iter().any(|h| h.0 == name && h.1 == value)
}

fn message_of(body: &str) -> String {
    let value: serde_json::Value = serde_json::from_str(body).expect("json body");
    value["message"].as_str().expect("message field").to_string()
}

#[test]
fn give_extra_headers_when_get_json_then_response_parsed_should_be_ok() {
    let client = ApiClient::new("http://server");

    let extras = vec![("X-Trace".to_string(), "abc123".to_string())];
    let req = client.get_json_request("/hello", Some(&extras));

    assert_eq!(req.method, Method::Get);
    assert_eq!(req.url, "http://server/hello");
    assert!(has_header(&req, "X-Trace", "abc123"));
    assert!(req.body.is_none());

    let reply = HttpResponse { status: 200, body: "{\"message\":\"hi\"}".to_string() };
    let body = require_success(reply).unwrap();
    assert_eq!(message_of(&body), "hi");
}

#[test]
fn give_token_when_get_json_then_authorization_header_should_be_sent() {
    let client = ApiClient::new("http://server").with_token("token123".to_string());

    let req = client.get_json_request("/secure", None);

    assert_eq!(req.url, "http://server/secure");
    assert!(has_header(&req, "authorization", "Bearer token123"));

    let reply = HttpResponse { status: 200, body: "{\"message\":\"secure-hi\"}".to_string() };
    let body = require_success(reply).unwrap();
    assert_eq!(message_of(&body), "secure-hi");
}

#[test]
fn give_json_body_and_token_when_post_json_then_created_should_be_received() {
    let client = ApiClient::new("http://server").with_token("token123".to_string());

    let req = client.post_json_request("items", "{\"name\":\"foo\"}", None);

    assert_eq!(req.method, Method::Post);
    assert_eq!(req.url, "http://server/items");
    assert!(has_header(&req, "authorization", "Bearer token123"));
    assert!(has_header(&req, "content-type", "application/json"));
    assert_eq!(body_text(&req), "{\"name\":\"foo\"}");

    let reply = HttpResponse { status: 200, body: "{\"message\":\"created\"}".to_string() };
    let body = require_success(reply).unwrap();
    assert_eq!(message_of(&body), "created");
}

#[test]
fn give_form_data_when_post_form_then_fields_should_be_encoded() {
    let client = ApiClient::new("http://server");
    let form = vec![
        ("client_id".to_string(), "id123".to_string()),
        ("client_secret".to_string(), "sec456".to_string()),
    ];

    let req = client.post_form_request("/auth/login", &form, None);

    assert_eq!(req.method, Method::Post);
    assert_eq!(req.url, "http://server/auth/login");
    assert!(has_header(&req, "content-type", "application/x-www-form-urlencoded"));
    let body = body_text(&req);
    assert!(body.contains("client_id=id123"));
    assert!(body.contains("client_secret=sec456"));

    let reply = HttpResponse { status: 200, body: "{\"message\":\"ok\"}".to_string() };
    let returned = require_success(reply).unwrap();
    assert_eq!(message_of(&returned), "ok");
}

#[test]
fn give_payload_when_put_json_then_response_updated_should_arrive() {
    let client = ApiClient::new("http://server");

    let req = client.put_json_request("/status", "{\"active\":true}", None);

    assert_eq!(req.method, Method::Put);
    assert_eq!(req.url, "http://server/status");
    assert_eq!(body_text(&req), "{\"active\":true}");

    let reply = HttpResponse { status: 200, body: "{\"message\":\"updated\"}".to_string() };
    let body = require_success(reply).unwrap();
    assert_eq!(message_of(&body), "updated");
}

#[test]
fn give_form_body_when_put_form_then_saved_should_be_returned() {
    let client = ApiClient::new("http://server");
    let form = vec![("name".to_string(), "John".to_string())];

    let req = client.put_form_request("profile", &form, None);

    assert_eq!(req.method, Method::Put);
    assert_eq!(req.url, "http://server/profile");
    assert!(has_header(&req, "content-type", "application/x-www-form-urlencoded"));
    assert!(body_text(&req).contains("name=John"));

    let reply = HttpResponse { status: 200, body: "{\"message\":\"saved\"}".to_string() };
    let body = require_success(reply).unwrap();
    assert_eq!(message_of(&body), "saved");
}

#[test]
fn give_resource_when_delete_json_then_deleted_should_be_returned() {
    let client = ApiClient::new(&format!("{}/", "http://server"));

    let req = client.delete_json_request("/items/42", None);

    assert_eq!(req.method, Method::Delete);
    assert_eq!(req.url, "http://server/items/42");
    assert!(req.body.is_none());

    let reply = HttpResponse { status: 200, body: "{\"message\":\"deleted\"}".to_string() };
    let body = require_success(reply).unwrap();
    assert_eq!(message_of(&body), "deleted");
}
