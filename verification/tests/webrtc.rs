use torca::contract::application::TransportKind;
use torca::contract::names::{CommissioningState, CommunicationState, RelayTransportFailureKind};
use torca::iroh_lifecycle::{IncomingReachabilityState, ProviderRouteState};
use torca::webrtc::{
    admit_incoming_channel, check_commissioning_provider, check_signaling_request,
    check_signaling_response, default_commissioning, mark_route_stale, validate_local_hint,
    webrtc_endpoint_summary, CommissioningStage, WebRtcLifecycle, WebRtcTransportGate,
    MAX_SIGNALING_MESSAGE,
};

#[test]
fn oversized_signaling_response_is_invalid_after_sending() {
    let error = check_signaling_response(MAX_SIGNALING_MESSAGE + 1).unwrap_err();
    assert_eq!(error.kind, RelayTransportFailureKind::InvalidResponse);
    assert!(error.request_was_sent);
    let error = check_signaling_request(MAX_SIGNALING_MESSAGE + 1).unwrap_err();
    assert!(!error.request_was_sent);
    assert_eq!(check_signaling_response(MAX_SIGNALING_MESSAGE), Ok(()));
}

#[test]
fn refreshing_the_route_invalidates_it_until_fresh_candidates_arrive() {
    let mut commissioning = default_commissioning();
    assert_eq!(commissioning.provider, TransportKind::WebRtc);
    assert_eq!(commissioning.route_state, ProviderRouteState::Unavailable);
    commissioning.route_state = ProviderRouteState::Fresh;
    commissioning.steps[1].state = CommissioningState::Ready;
    mark_route_stale(&mut commissioning);
    assert_eq!(commissioning.route_state, ProviderRouteState::Stale);
    assert_eq!(commissioning.steps[1].stage, CommissioningStage::IncomingReachability);
    assert_eq!(commissioning.steps[1].state, CommissioningState::Pending);
    assert_eq!(commissioning.steps[0].state, CommissioningState::Ready);
}

#[test]
fn host_bridge_bounds_hints_channels_and_providers() {
    assert!(validate_local_hint(2).is_ok());
    assert_eq!(
        validate_local_hint(0),
        Err("WebRTC local signaling hint must be 1..=8192 bytes".to_owned())
    );
    assert!(validate_local_hint(8193).is_err());
    assert!(admit_incoming_channel(63).is_ok());
    assert_eq!(admit_incoming_channel(64), Err("WebRTC incoming channel queue is full".to_owned()));
    let mut other = default_commissioning();
    other.provider = TransportKind::Iroh;
    assert_eq!(
        check_commissioning_provider(&other),
        Err("commissioning snapshot belongs to another provider".to_owned())
    );
    assert_eq!(webrtc_endpoint_summary(2), "webrtc:2 bytes");
}

#[test]
fn lifecycle_projects_commissioning_steps() {
    let mut lifecycle = WebRtcLifecycle::new();
    assert_eq!(lifecycle.state(CommissioningState::NotRequired), CommunicationState::Ready);
    assert_eq!(lifecycle.state(CommissioningState::Pending), CommunicationState::Starting);
    assert_eq!(
        lifecycle.incoming_reachability_state(CommissioningState::Pending),
        IncomingReachabilityState::Unknown
    );
    assert!(lifecycle.maintenance_ok(true));
    assert!(lifecycle.endpoint_active(ProviderRouteState::Fresh));
    lifecycle.shutdown();
    assert_eq!(lifecycle.state(CommissioningState::Ready), CommunicationState::Stopped);
    assert!(!lifecycle.maintenance_ok(true));
}

#[test]
fn data_channel_gate_requires_connection_and_limit() {
    let mut gate = WebRtcTransportGate::new();
    assert!(gate.check_receive().is_err());
    gate.connect();
    assert!(gate.check_send(10, 10).is_ok());
    assert_eq!(
        gate.check_send(11, 10).unwrap_err().0,
        "WebRTC payload exceeds peer limit"
    );
    gate.close();
    assert_eq!(gate.check_send(1, 10).unwrap_err().0, "WebRTC transport is not connected");
}
