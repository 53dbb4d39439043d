use rust_app::auth::{role_allowed, Auth, AuthAction, AuthMiddleware, AuthType, RequestCredentials};
use rust_app::error::ApiError;

fn jwt_guard() -> AuthMiddleware<&'static str> {
    Auth { classification: AuthType::JWT(vec!["admin".to_string()]) }.new_transform("svc")
}

fn key_guard() -> AuthMiddleware<&'static str> {
    Auth { classification: AuthType::APIKEY }.new_transform("svc")
}

fn creds(cookie: Option<&str>, key: Option<&str>) -> RequestCredentials {
    RequestCredentials {
        auth_cookie: cookie.map(|c| c.to_string()),
        api_key: key.map(|k| k.to_string()),
    }
}

fn rejected_with(a: AuthAction) -> ApiError {
    match a {
        AuthAction::Reject(e) => e,
        _ => panic!("expected a rejection"),
    }
}

#[test]
fn guard_keeps_its_service() {
    assert_eq!(*jwt_guard().service(), "svc");
}

#[test]
fn token_guard_without_cookie_is_not_logged_in() {
    let e = rejected_with(jwt_guard().call(&creds(None, Some("k"))));
    assert_eq!(e, ApiError::Unauthorized("not logged in".to_string()));
}

#[test]
fn token_guard_decodes_the_cookie_with_its_roles() {
    match jwt_guard().call(&creds(Some("tok.en"), None)) {
        AuthAction::DecodeToken { roles, token } => {
            assert_eq!(roles, vec!["admin".to_string()]);
            assert_eq!(token, "tok.en");
        }
        _ => panic!("expected a token decode"),
    }
}

#[test]
fn decoded_token_forwards_with_identity() {
    match AuthMiddleware::<()>::on_token_decoded(Ok(42)) {
        AuthAction::Forward { claims } => assert_eq!(claims, Some("{ \"id\":42 }".to_string())),
        _ => panic!("expected forwarding"),
    }
    match AuthMiddleware::<()>::on_token_decoded(Ok(-7)) {
        AuthAction::Forward { claims } => assert_eq!(claims, Some("{ \"id\":-7 }".to_string())),
        _ => panic!("expected forwarding"),
    }
}

#[test]
fn failed_decoding_is_the_answer() {
    let e = rejected_with(AuthMiddleware::<()>::on_token_decoded(Err(ApiError::Forbidden(
        "role".to_string(),
    ))));
    assert_eq!(e, ApiError::Forbidden("role".to_string()));
}

#[test]
fn key_guard_without_header_is_wrong_auth() {
    let e = rejected_with(key_guard().call(&creds(Some("tok"), None)));
    assert_eq!(e, ApiError::Unauthorized("wrong auth".to_string()));
}

#[test]
fn key_guard_compares_the_presented_key() {
    match key_guard().call(&creds(None, Some("s3cret"))) {
        AuthAction::CompareApiKey { presented } => assert_eq!(presented, "s3cret"),
        _ => panic!("expected a key comparison"),
    }
}

#[test]
fn service_key_decides() {
    let ok = AuthMiddleware::<()>::on_service_key(&"s3cret".to_string(), &"s3cret".to_string());
    assert!(matches!(ok, AuthAction::Forward { claims: None }));
    let e = rejected_with(AuthMiddleware::<()>::on_service_key(
        &"guess".to_string(),
        &"s3cret".to_string(),
    ));
    assert_eq!(e, ApiError::Unauthorized("wrong auth".to_string()));
}

#[test]
fn roles_are_admitted_by_membership() {
    let roles = vec!["admin".to_string(), "staff".to_string()];
    assert!(role_allowed(&roles, &"admin".to_string()));
    assert!(role_allowed(&roles, &"staff".to_string()));
    assert!(!role_allowed(&roles, &"customer".to_string()));
    assert!(!role_allowed(&Vec::new(), &"admin".to_string()));
}
