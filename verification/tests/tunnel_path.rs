use wsproxy::classify::InboundRequest;
use wsproxy::forward::ProxyConfig;
use wsproxy::headers::Headers;
use wsproxy::tunnel::{
    after_backend_handshake, plan_upgrade, TunnelDecision, UpgradePlan, BACKEND_FAILURE_CLOSE_CODE,
};

fn upgrade_request(pairs: &[(&str, &str)]) -> InboundRequest {
    let mut h = Headers::new();
    for (n, v) in pairs {
        h.push(n.as_bytes().to_vec(), v.as_bytes().to_vec());
    }
    InboundRequest {
        method: b"GET".to_vec(),
        path_and_query: b"/socket?room=3".to_vec(),
        headers: h,
    }
}

fn backend() -> ProxyConfig {
    ProxyConfig {
        backend_authority: b"127.0.0.1:8080".to_vec(),
    }
}

#[test]
fn missing_key_is_rejected_with_400() {
    let req = upgrade_request(&[
        ("connection", "upgrade"),
        ("upgrade", "websocket"),
        ("sec-websocket-version", "13"),
    ]);
    match plan_upgrade(&req, &backend()) {
        UpgradePlan::Reject(e) => {
            assert_eq!(e.status, 400);
            assert_eq!(e.body, b"WebSocket upgrade required".to_vec());
        }
        UpgradePlan::Accept { .. } => panic!("malformed upgrade must be rejected"),
    }
}

#[test]
fn missing_version_is_rejected_with_400() {
    let req = upgrade_request(&[("sec-websocket-key", "dGhlIHNhbXBsZSBub25jZQ==")]);
    match plan_upgrade(&req, &backend()) {
        UpgradePlan::Reject(e) => {
            assert_eq!(e.status, 400);
            assert_eq!(e.body, b"WebSocket upgrade required".to_vec());
        }
        UpgradePlan::Accept { .. } => panic!("malformed upgrade must be rejected"),
    }
}

#[test]
fn wrong_version_is_rejected_with_400() {
    let req = upgrade_request(&[
        ("sec-websocket-key", "dGhlIHNhbXBsZSBub25jZQ=="),
        ("sec-websocket-version", "8"),
    ]);
    match plan_upgrade(&req, &backend()) {
        UpgradePlan::Reject(e) => assert_eq!(e.status, 400),
        UpgradePlan::Accept { .. } => panic!("malformed upgrade must be rejected"),
    }
}

#[test]
fn well_formed_upgrade_is_accepted_with_translated_target() {
    let req = upgrade_request(&[
        ("Sec-WebSocket-Key", "dGhlIHNhbXBsZSBub25jZQ=="),
        ("Sec-WebSocket-Version", "13"),
    ]);
    match plan_upgrade(&req, &backend()) {
        UpgradePlan::Accept { backend_target } => {
            assert_eq!(backend_target, b"ws://127.0.0.1:8080/socket?room=3".to_vec());
        }
        UpgradePlan::Reject(_) => panic!("well-formed upgrade must be accepted"),
    }
}

#[test]
fn backend_handshake_success_starts_the_relay() {
    assert_eq!(after_backend_handshake(true), TunnelDecision::StartRelay);
}

#[test]
fn backend_handshake_failure_closes_only_the_client() {
    assert_eq!(
        after_backend_handshake(false),
        TunnelDecision::CloseClient {
            close_code: BACKEND_FAILURE_CLOSE_CODE
        }
    );
    assert_eq!(BACKEND_FAILURE_CLOSE_CODE, 1011);
}

#[test]
fn first_version_value_decides() {
    let accepted = upgrade_request(&[
        ("sec-websocket-key", "dGhlIHNhbXBsZSBub25jZQ=="),
        ("sec-websocket-version", "13"),
        ("sec-websocket-version", "8"),
    ]);
    assert!(matches!(
        plan_upgrade(&accepted, &backend()),
        UpgradePlan::Accept { .. }
    ));
    let rejected = upgrade_request(&[
        ("sec-websocket-key", "dGhlIHNhbXBsZSBub25jZQ=="),
        ("sec-websocket-version", "8"),
        ("sec-websocket-version", "13"),
    ]);
    assert!(matches!(
        plan_upgrade(&rejected, &backend()),
        UpgradePlan::Reject(_)
    ));
}
