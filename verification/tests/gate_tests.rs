use vault_core::gate::{authorize_request, extract_bearer};
use vault_core::session::{SessionManager, SESSION_TTL_SECONDS};

#[test]
fn extract_bearer_exact_scheme_only() {
    assert_eq!(extract_bearer("Bearer abc123"), Some("abc123".to_string()));
    assert_eq!(extract_bearer("Bearer "), Some("".to_string()));
    assert_eq!(extract_bearer("bearer abc123"), None);
    assert_eq!(extract_bearer("Basic abc123"), None);
    assert_eq!(extract_bearer("Bearer"), None);
    assert_eq!(extract_bearer(""), None);
    assert_eq!(extract_bearer("BearerX token"), None);
}

#[test]
fn missing_header_is_rejected() {
    let mut sm = SessionManager::new();
    sm.create_session("alice", 0);
    assert!(authorize_request(&mut sm, None, 0).is_none());
}

#[test]
fn non_bearer_scheme_is_rejected() {
    let mut sm = SessionManager::new();
    let token = sm.create_session("alice", 0);
    let basic = format!("Basic {}", token);
    assert!(authorize_request(&mut sm, Some(&basic), 0).is_none());
    let bare = token.clone();
    assert!(authorize_request(&mut sm, Some(&bare), 0).is_none());
}

#[test]
fn unknown_token_is_rejected() {
    let mut sm = SessionManager::new();
    sm.create_session("alice", 0);
    assert!(authorize_request(&mut sm, Some("Bearer forged"), 0).is_none());
}

#[test]
fn expired_token_is_rejected_and_evicted() {
    let mut sm = SessionManager::new();
    let token = sm.create_session("alice", 0);
    let header = format!("Bearer {}", token);
    assert!(authorize_request(&mut sm, Some(&header), SESSION_TTL_SECONDS).is_none());
    assert!(sm.validate_token(&token, 0).is_none());
}

#[test]
fn live_token_is_forwarded_with_its_session() {
    let mut sm = SessionManager::new();
    let token = sm.create_session("alice", 100);
    let header = format!("Bearer {}", token);
    let session = authorize_request(&mut sm, Some(&header), 200).expect("gate passes");
    assert_eq!(session.user_id, "alice");
    assert_eq!(session.token, token);
    let again = authorize_request(&mut sm, Some(&header), 300).expect("registry unchanged");
    assert_eq!(again.user_id, "alice");
}
