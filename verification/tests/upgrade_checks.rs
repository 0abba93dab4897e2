use kube_runtime::upgrade::{verify_upgrade_response, UpgradeError};

const ACCEPT: &str = "derived-accept-key=";

#[test]
fn valid_upgrade_response_is_accepted() {
    let r = verify_upgrade_response(
        101,
        Some("websocket"),
        Some("Upgrade"),
        Some(ACCEPT),
        ACCEPT,
        Some("v4.channel.k8s.io"),
    );
    assert!(r.is_ok());
}

#[test]
fn upgrade_headers_match_case_insensitively() {
    let r = verify_upgrade_response(
        101,
        Some("WebSocket"),
        Some("upgrade"),
        Some(ACCEPT),
        ACCEPT,
        Some("v4.channel.k8s.io"),
    );
    assert!(r.is_ok());
}

#[test]
fn non_switching_status_is_rejected_with_its_code() {
    let r = verify_upgrade_response(
        200,
        Some("websocket"),
        Some("Upgrade"),
        Some(ACCEPT),
        ACCEPT,
        Some("v4.channel.k8s.io"),
    );
    assert!(matches!(r, Err(UpgradeError::ProtocolSwitch(200))));
}

#[test]
fn missing_or_wrong_headers_are_rejected_in_order() {
    let r = verify_upgrade_response(
        101,
        None,
        Some("Upgrade"),
        Some(ACCEPT),
        ACCEPT,
        Some("v4.channel.k8s.io"),
    );
    assert!(matches!(r, Err(UpgradeError::MissingUpgradeWebSocketHeader)));

    let r = verify_upgrade_response(
        101,
        Some("websocket"),
        Some("keep-alive"),
        Some(ACCEPT),
        ACCEPT,
        Some("v4.channel.k8s.io"),
    );
    assert!(matches!(r, Err(UpgradeError::MissingConnectionUpgradeHeader)));

    let r = verify_upgrade_response(
        101,
        Some("websocket"),
        Some("Upgrade"),
        Some("someotherkey="),
        ACCEPT,
        Some("v4.channel.k8s.io"),
    );
    assert!(matches!(r, Err(UpgradeError::SecWebSocketAcceptKeyMismatch)));

    let r = verify_upgrade_response(
        101,
        Some("websocket"),
        Some("Upgrade"),
        Some(ACCEPT),
        ACCEPT,
        None,
    );
    assert!(matches!(r, Err(UpgradeError::SecWebSocketProtocolMismatch)));
}
