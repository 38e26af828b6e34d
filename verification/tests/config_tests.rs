use exec_bridge::auth::{auth_decision, AuthDecision};
use exec_bridge::locate::{candidate_paths, env_allowlist, locate_binary};
use exec_bridge::types::{legacy_response, ExecRequest};

#[test]
fn auth_open_without_configured_key() {
    assert_eq!(auth_decision(None, None), AuthDecision::Allow);
    assert_eq!(auth_decision(None, Some("Bearer x")), AuthDecision::Allow);
    assert_eq!(auth_decision(Some(""), None), AuthDecision::Allow);
}

#[test]
fn auth_checks_bearer_token() {
    assert_eq!(
        auth_decision(Some("k1"), Some("Bearer k1")),
        AuthDecision::Allow
    );
    assert_eq!(
        auth_decision(Some("k1"), Some("Bearer nope")),
        AuthDecision::Deny
    );
    assert_eq!(auth_decision(Some("k1"), Some("k1")), AuthDecision::Deny);
    assert_eq!(auth_decision(Some("k1"), None), AuthDecision::Deny);
    assert_eq!(auth_decision(Some("k1"), Some("")), AuthDecision::Deny);
}

#[test]
fn auth_strips_repeated_scheme_prefix() {
    // the token is the header with every leading "Bearer " removed
    assert_eq!(
        auth_decision(Some("k1"), Some("Bearer Bearer k1")),
        AuthDecision::Allow
    );
}

#[test]
fn locator_prefers_earlier_candidates() {
    assert_eq!(
        locate_binary(
            Some("/opt/bin/app".to_string()),
            Some("./app".to_string()),
            Some("../build/app".to_string()),
        ),
        "/opt/bin/app"
    );
    assert_eq!(
        locate_binary(None, Some("./app".to_string()), Some("../build/app".to_string())),
        "./app"
    );
    assert_eq!(
        locate_binary(None, None, Some("../build/app".to_string())),
        "../build/app"
    );
    assert_eq!(locate_binary(None, None, None), "codex-app-server");
}

#[test]
fn candidate_paths_are_fixed() {
    let v = candidate_paths();
    assert_eq!(
        v,
        vec![
            "./codex-app-server".to_string(),
            "../app-server/target/release/codex-app-server".to_string(),
        ]
    );
}

#[test]
fn env_allowlist_is_fixed() {
    let v = env_allowlist();
    assert_eq!(
        v,
        vec![
            "ANTHROPIC_API_KEY".to_string(),
            "OPENAI_API_KEY".to_string(),
            "OPENROUTER_API_KEY".to_string(),
            "GOOGLE_API_KEY".to_string(),
            "CODEX_CONFIG_PATH".to_string(),
            "RUST_LOG".to_string(),
            "CODEX_UNSAFE_ALLOW_NO_SANDBOX".to_string(),
        ]
    );
}

#[test]
fn legacy_response_redirects() {
    let r = legacy_response();
    assert_eq!(r.status, 422);
    assert_eq!(
        r.error,
        "Use /api/v1/exec/stream endpoint for real-time execution"
    );
    assert_eq!(r.recommended_endpoint.as_deref(), Some("/api/v1/exec/stream"));
}

#[test]
fn request_defaults_and_validity() {
    let r = ExecRequest {
        prompt: "hello".to_string(),
        timeout_ms: None,
        session_id: None,
    };
    assert_eq!(r.effective_timeout(), 30000);
    assert!(r.is_valid());
    let r2 = ExecRequest {
        prompt: "".to_string(),
        timeout_ms: Some(50),
        session_id: None,
    };
    assert_eq!(r2.effective_timeout(), 50);
    assert!(!r2.is_valid());
}
