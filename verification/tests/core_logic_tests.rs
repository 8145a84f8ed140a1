use rust_api_client::api::ApiClient;
use rust_api_client::api::ApiError;
use rust_api_client::api::HttpResponse;
use rust_api_client::api::Method;
use rust_api_client::api::require_success;
use rust_api_client::encoding::form_encode;
use rust_api_client::token_json::decode_auth_token;
use rust_api_client::token_json::token_from_parts;
use rust_api_client::url::join_url;

#[test]
fn join_url_inserts_exactly_one_slash() {
    assert_eq!(join_url("http://host", "/items/42"), "http://host/items/42");
    assert_eq!(join_url("http://host/", "/items/42"), "http://host/items/42");
    assert_eq!(join_url("http://host", "items/42"), "http://host/items/42");
    assert_eq!(join_url("http://host/", "items/42"), "http://host/items/42");
}

#[test]
fn join_url_handles_empty_parts() {
    assert_eq!(join_url("", ""), "/");
    assert_eq!(join_url("http://host", ""), "http://host/");
    assert_eq!(join_url("", "/x"), "/x");
}

#[test]
fn form_encode_joins_fields_in_order() {
    let fields = vec![
        ("client_id".to_string(), "id123".to_string()),
        ("client_secret".to_string(), "sec456".to_string()),
    ];
    let body = form_encode(&fields);
    assert_eq!(body, b"client_id=id123&client_secret=sec456".to_vec());
}

#[test]
fn form_encode_escapes_reserved_bytes() {
    let fields = vec![("a b".to_string(), "c&d=e".to_string())];
    assert_eq!(form_encode(&fields), b"a+b=c%26d%3De".to_vec());
    let unicode = vec![("k".to_string(), "\u{e9}".to_string())];
    assert_eq!(form_encode(&unicode), b"k=%C3%A9".to_vec());
    let empty: Vec<(String, String)> = Vec::new();
    assert_eq!(form_encode(&empty), Vec::<u8>::new());
}

#[test]
fn request_headers_carry_token_then_content_type_then_extras() {
    let client = ApiClient::new("http://host").with_token("token123".to_string());
    let extras = vec![("X-Trace".to_string(), "abc123".to_string())];
    let req = client.post_form_request(
        "/auth/login",
        &vec![("k".to_string(), "v".to_string())],
        Some(&extras),
    );
    assert_eq!(req.method, Method::Post);
    assert_eq!(req.url, "http://host/auth/login");
    assert_eq!(
        req.headers,
        vec![
            ("authorization".to_string(), "Bearer token123".to_string()),
            (
                "content-type".to_string(),
                "application/x-www-form-urlencoded".to_string()
            ),
            ("X-Trace".to_string(), "abc123".to_string()),
        ]
    );
    assert_eq!(req.body, Some(b"k=v".to_vec()));
}

#[test]
fn request_without_token_has_no_authorization_header() {
    let client = ApiClient::new("http://host");
    let req = client.get_json_request("/hello", None);
    assert_eq!(req.method, Method::Get);
    assert!(req.headers.iter().all(|h| h.0 != "authorization"));
    assert!(req.body.is_none());
}

#[test]
fn json_request_carries_body_bytes_and_content_type() {
    let client = ApiClient::new("http://host");
    let req = client.put_json_request("/status", "{\"active\":true}", None);
    assert_eq!(req.method, Method::Put);
    assert_eq!(req.body, Some(b"{\"active\":true}".to_vec()));
    assert_eq!(
        req.headers,
        vec![("content-type".to_string(), "application/json".to_string())]
    );
    let del = client.delete_json_request("/items/2", None);
    assert_eq!(del.method, Method::Delete);
    assert!(del.body.is_none());
}

#[test]
fn require_success_splits_on_status() {
    let ok = require_success(HttpResponse { status: 200, body: "hi".to_string() });
    assert_eq!(ok.unwrap(), "hi");
    let no = require_success(HttpResponse { status: 401, body: "denied".to_string() });
    match no {
        Err(ApiError::RequestFailed { status, body }) => {
            assert_eq!(status, 401);
            assert_eq!(body, "denied");
        }
        other => panic!("expected a request failure, got {:?}", other),
    }
    let edge = require_success(HttpResponse { status: 299, body: "b".to_string() });
    assert!(edge.is_ok());
    let redirect = require_success(HttpResponse { status: 300, body: "b".to_string() });
    assert!(redirect.is_err());
}

#[test]
fn decode_auth_token_reads_all_five_fields() {
    let body = "{\"access_token\":\"abc123\",\"token_type\":\"Bearer\",\"expires_in\":3600,\
                \"refresh_token\":\"refresh\",\"scope\":\"read write\"}";
    let token = decode_auth_token(body).expect("token expected");
    assert_eq!(token.access_token, "abc123");
    assert_eq!(token.token_type, "Bearer");
    assert_eq!(token.expires_in, Some(3600));
    assert_eq!(token.refresh_token.as_deref(), Some("refresh"));
    assert_eq!(token.scope.as_deref(), Some("read write"));
}

#[test]
fn decode_auth_token_leaves_absent_fields_absent() {
    let token = decode_auth_token("{\"access_token\":\"a\",\"token_type\":\"Bearer\"}")
        .expect("token expected");
    assert_eq!(token.expires_in, None);
    assert_eq!(token.refresh_token, None);
    assert_eq!(token.scope, None);
}

#[test]
fn decode_auth_token_treats_wrong_typed_optional_as_absent() {
    let token = decode_auth_token(
        "{\"access_token\":\"a\",\"token_type\":\"B\",\"expires_in\":\"soon\",\"refresh_token\":5}",
    )
    .expect("token expected");
    assert_eq!(token.expires_in, None);
    assert_eq!(token.refresh_token, None);
}

#[test]
fn decode_auth_token_fails_without_required_fields() {
    let missing_type = decode_auth_token("{\"access_token\":\"a\"}");
    assert!(matches!(missing_type, Err(ApiError::Decode(_))));
    let missing_token = decode_auth_token("{\"token_type\":\"Bearer\"}");
    assert!(matches!(missing_token, Err(ApiError::Decode(_))));
    let not_json = decode_auth_token("no json here");
    assert!(matches!(not_json, Err(ApiError::Decode(_))));
}

#[test]
fn token_from_parts_requires_both_mandatory_fields() {
    let ok = token_from_parts(
        Some("a".to_string()),
        Some("Bearer".to_string()),
        None,
        None,
        Some("read".to_string()),
    )
    .unwrap();
    assert_eq!(ok.access_token, "a");
    assert_eq!(ok.scope.as_deref(), Some("read"));
    assert!(token_from_parts(None, Some("Bearer".to_string()), None, None, None).is_err());
    assert!(token_from_parts(Some("a".to_string()), None, None, None, None).is_err());
}

#[test]
fn api_error_duplicate_keeps_every_variant() {
    let t = ApiError::Transport("down".to_string()).duplicate();
    assert!(matches!(t, ApiError::Transport(m) if m == "down"));
    let r = ApiError::RequestFailed { status: 503, body: "busy".to_string() }.duplicate();
    assert!(matches!(r, ApiError::RequestFailed { status: 503, body } if body == "busy"));
    let d = ApiError::Decode("bad".to_string()).duplicate();
    assert!(matches!(d, ApiError::Decode(m) if m == "bad"));
}
