use postgres_oidc_proxy::gateway::{auth_decision, AuthDecision};
use postgres_oidc_proxy::{
    http_status_for_auth_error, http_status_for_db_error, AuthError, DbError,
};

#[test]
fn test_health_passes_without_authorization() {
    let decision = auth_decision("/health", None);
    assert!(matches!(decision, AuthDecision::PassThrough));
}

#[test]
fn test_query_without_authorization_rejected() {
    let decision = auth_decision("/query", None);
    assert!(matches!(decision, AuthDecision::Reject));
    assert_eq!(http_status_for_auth_error(&AuthError::SignatureInvalid), 401);
}

#[test]
fn test_bearer_token_extracted() {
    let decision = auth_decision("/query", Some("Bearer abc.def.ghi"));
    match decision {
        AuthDecision::Validate(token) => assert_eq!(token, "abc.def.ghi"),
        _ => panic!("expected the token to be handed on for validation"),
    }
}

#[test]
fn test_non_bearer_scheme_rejected() {
    let decision = auth_decision("/execute", Some("Basic dXNlcjpwdw=="));
    assert!(matches!(decision, AuthDecision::Reject));
    let lowercase = auth_decision("/execute", Some("bearer abc"));
    assert!(matches!(lowercase, AuthDecision::Reject));
}

#[test]
fn test_health_ignores_authorization_header() {
    let decision = auth_decision("/health", Some("Basic whatever"));
    assert!(matches!(decision, AuthDecision::PassThrough));
}

#[test]
fn test_all_auth_errors_map_to_401() {
    let errors = [
        AuthError::MalformedToken,
        AuthError::KeySetFetch,
        AuthError::KeyNotFound,
        AuthError::UnsupportedKeyType,
        AuthError::SignatureInvalid,
        AuthError::ClaimInvalid,
    ];
    for e in errors {
        assert_eq!(http_status_for_auth_error(&e), 401);
    }
}

#[test]
fn test_db_error_status_codes() {
    assert_eq!(
        http_status_for_db_error(&DbError::ConnectionExhaustedOrTimeout),
        500
    );
    assert_eq!(http_status_for_db_error(&DbError::QueryExecution), 400);
}
