use rust_api_client::api::ApiError;
use rust_api_client::models::AuthToken;
use rust_api_client::repository::FixedAuthRepository;
use rust_api_client::service::AuthService;

#[test]
fn give_valid_credentials_when_login_then_token_should_be_returned() {
    let token = AuthToken {
        access_token: "abc123".to_string(),
        token_type: "Bearer".to_string(),
        expires_in: Some(3600),
        refresh_token: Some("refresh".to_string()),
        scope: Some("read write".to_string()),
    };

    let repo = FixedAuthRepository::new(Ok(token.clone()));
    let service = AuthService::new(repo);

    let result = service.login("id123", "sec456").unwrap();

    assert_eq!(result.access_token, token.access_token);
    assert_eq!(result.token_type, token.token_type);
    assert_eq!(result.expires_in, token.expires_in);
    assert_eq!(result.refresh_token, token.refresh_token);
    assert_eq!(result.scope, token.scope);
}

#[test]
fn give_invalid_credentials_when_login_then_error_should_be_propagated() {
    let repo = FixedAuthRepository::new(Err(ApiError::Transport("invalid".to_string())));
    let service = AuthService::new(repo);

    let result = service.login("bad", "creds");

    assert!(result.is_err(), "expected error to bubble up");
    assert!(matches!(result, Err(ApiError::Transport(m)) if m == "invalid"));
}
