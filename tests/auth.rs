use twitch_notify::auth::{
    request_needs_refresh, AuthAction, AuthError, AuthEvent, AuthPhase, Token, TokenManager, TokenRequest, TokenStorage,
    TokenType, VoidStorage,
};
use twitch_notify::json::JsonValue;

fn token(kind: TokenType, refresh: &str) -> Token {
    Token {
        token_type: kind,
        refresh_token: refresh.to_string(),
        access_token: "old-access".to_string(),
        expires_in: 1800,
        created_at: 1_700_000_000,
        user: None,
    }
}

fn reply(access: &str, refresh: Option<&str>, expires_in: i64) -> JsonValue {
    let mut m = vec![
        ("access_token".to_string(), JsonValue::Str(access.to_string())),
        ("expires_in".to_string(), JsonValue::Int(expires_in)),
        ("token_type".to_string(), JsonValue::Str("bearer".to_string())),
    ];
    if let Some(r) = refresh {
        m.push(("refresh_token".to_string(), JsonValue::Str(r.to_string())));
    }
    JsonValue::Object(m)
}

#[test]
fn short_lived_user_token_refreshes_once_before_use() {
    let mut m = TokenManager::from_token("cid".to_string(), "secret".to_string(), token(TokenType::UserAccessToken, "r1"));
    assert!(matches!(m.ensure_valid(), AuthAction::Validate));
    let mut refresh_calls = 0;
    let mut a = m.step(AuthEvent::Validated(Some(1800)));
    loop {
        match a {
            AuthAction::RequestToken(req) => {
                refresh_calls += 1;
                assert!(matches!(req, TokenRequest::RefreshToken { .. }));
                assert_eq!(
                    req.form_body(),
                    "client_id=cid&client_secret=secret&grant_type=refresh_token&refresh_token=r1"
                );
                a = m.step(AuthEvent::TokenIssued(Some(reply("new-access", Some("r2"), 14400)), 1_700_000_100));
            }
            AuthAction::Save => {
                assert_eq!(m.token.access_token, "new-access");
                assert_eq!(m.token.refresh_token, "r2");
                a = m.step(AuthEvent::Saved(true));
            }
            AuthAction::Done => break,
            _ => panic!("unexpected action"),
        }
    }
    assert_eq!(refresh_calls, 1);
    assert!(m.phase == AuthPhase::Idle);
    assert_eq!(m.token.created_at, 1_700_000_100);
    assert_eq!(m.token.expires_at(), 1_700_014_500);
}

#[test]
fn app_token_refresh_uses_client_credentials() {
    let mut m = TokenManager::from_token("cid".to_string(), "secret".to_string(), token(TokenType::AppAccessToken, "stale-refresh"));
    match m.refresh() {
        AuthAction::RequestToken(req) => {
            assert!(matches!(req, TokenRequest::ClientCredentials { .. }));
            assert_eq!(req.form_body(), "client_id=cid&client_secret=secret&grant_type=client_credentials");
        }
        _ => panic!("expected a token request"),
    }
    assert!(matches!(m.step(AuthEvent::TokenIssued(Some(reply("app", None, 5000000)), 7)), AuthAction::Save));
    assert!(m.token.token_type == TokenType::AppAccessToken);
    assert_eq!(m.token.refresh_token, "");
}

#[test]
fn long_lived_token_needs_no_refresh() {
    let mut m = TokenManager::from_token("cid".to_string(), "secret".to_string(), token(TokenType::UserAccessToken, "r1"));
    m.ensure_valid();
    assert!(matches!(m.step(AuthEvent::Validated(Some(3600))), AuthAction::Done));
    assert_eq!(m.token.access_token, "old-access");
}

#[test]
fn failed_validation_refreshes() {
    let mut m = TokenManager::from_token("cid".to_string(), "secret".to_string(), token(TokenType::UserAccessToken, "r1"));
    m.ensure_valid();
    assert!(matches!(m.step(AuthEvent::Validated(None)), AuthAction::RequestToken(TokenRequest::RefreshToken { .. })));
}

#[test]
fn failed_refresh_is_an_auth_error() {
    let mut m = TokenManager::from_token("cid".to_string(), "secret".to_string(), token(TokenType::UserAccessToken, "r1"));
    m.refresh();
    assert!(matches!(m.step(AuthEvent::TokenIssued(None, 0)), AuthAction::RequestToken(TokenRequest::RefreshToken { .. })));
    assert!(matches!(m.step(AuthEvent::TokenIssued(None, 0)), AuthAction::RequestToken(TokenRequest::RefreshToken { .. })));
    assert!(matches!(m.step(AuthEvent::TokenIssued(None, 0)), AuthAction::Failed(AuthError::RefreshFailed)));
    assert_eq!(m.token.access_token, "old-access");
    m.refresh();
    let bad = JsonValue::Object(vec![("message".to_string(), JsonValue::Str("Invalid refresh token".to_string()))]);
    assert!(matches!(m.step(AuthEvent::TokenIssued(Some(bad), 0)), AuthAction::Failed(AuthError::RefreshFailed)));
}

#[test]
fn unsaved_refresh_is_an_auth_error() {
    let mut m = TokenManager::from_token("cid".to_string(), "secret".to_string(), token(TokenType::UserAccessToken, "r1"));
    m.refresh();
    m.step(AuthEvent::TokenIssued(Some(reply("new", Some("r2"), 100)), 0));
    assert!(matches!(m.step(AuthEvent::Saved(false)), AuthAction::Failed(AuthError::SaveFailed)));
}

#[test]
fn app_token_from_scratch() {
    let mut m = TokenManager::from_get_app_token("cid".to_string(), "secret".to_string());
    assert!(matches!(m.refresh(), AuthAction::RequestToken(TokenRequest::ClientCredentials { .. })));
}

#[test]
fn authorization_code_form() {
    let mut m = TokenManager::from_token("cid".to_string(), "secret".to_string(), token(TokenType::UserAccessToken, ""));
    match m.authorize("code1".to_string(), "http://localhost".to_string()) {
        AuthAction::RequestToken(req) => assert_eq!(
            req.form_body(),
            "client_id=cid&client_secret=secret&code=code1&grant_type=authorization_code&redirect_uri=http://localhost"
        ),
        _ => panic!("expected a token request"),
    }
    assert!(matches!(m.step(AuthEvent::TokenIssued(None, 0)), AuthAction::Failed(AuthError::RefreshFailed)));
}

#[test]
fn unauthorized_status_asks_for_refresh() {
    assert!(request_needs_refresh(401));
    assert!(!request_needs_refresh(200));
    assert!(!request_needs_refresh(403));
}

#[test]
fn void_storage_accepts() {
    let mut s = VoidStorage {};
    assert!(s.save(&token(TokenType::UserAccessToken, "r")).is_ok());
}

#[test]
fn token_reply_needs_access_token() {
    let v = JsonValue::Object(vec![("expires_in".to_string(), JsonValue::Int(5))]);
    assert!(Token::from_json(&v, TokenType::UserAccessToken, 0).is_none());
    let v = JsonValue::Object(vec![
        ("access_token".to_string(), JsonValue::Str("a".to_string())),
        ("expires_in".to_string(), JsonValue::Number("5.5".to_string())),
    ]);
    assert!(Token::from_json(&v, TokenType::UserAccessToken, 0).is_none());
}
