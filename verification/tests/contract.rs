use torca::contract::generated;
use torca::contract::names::{pairing_state_name, relay_error_code, PairingState, RelayTransportFailureKind};

#[test]
fn pairing_states_use_the_generated_wire_contract() {
    assert_eq!(pairing_state_name(PairingState::PeerJoined), "peer_joined");
    assert_eq!(pairing_state_name(PairingState::AwaitingApproval), "awaiting_approval");
}

#[test]
fn generated_operation_allowlist_matches_runtime_surface() {
    assert!(generated::contains("command", "profile.set"));
    assert!(generated::contains("command", "diagnostics.observation.start"));
    assert!(generated::contains("query", "snapshot.get"));
    assert!(generated::contains("query", "runtime.poll"));
    assert!(generated::contains("lifecycle", "foregrounded"));
    assert!(generated::contains("lifecycle", "flutter_gateway_ready"));
    assert!(generated::contains("lifecycle", "network_validated"));
    assert!(!generated::contains("command", "operation.unknown"));
    assert!(!generated::contains("query", "message.history.full"));
}

#[test]
fn relay_failure_codes_are_stable_and_specific() {
    assert_eq!(relay_error_code(RelayTransportFailureKind::Busy), "relay.connection_busy");
    assert_eq!(relay_error_code(RelayTransportFailureKind::Timeout), "relay.request_timeout");
    assert_eq!(
        relay_error_code(RelayTransportFailureKind::InvalidResponse),
        "relay.health_response_invalid"
    );
}
