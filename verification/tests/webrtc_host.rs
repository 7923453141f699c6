use torca::contract::application::TransportKind;
use torca::contract::names::CommissioningState;
use torca::iroh_lifecycle::ProviderRouteState;
use torca::webrtc::{default_commissioning, MAX_PENDING_INCOMING_CHANNELS};
use torca::webrtc_host::WebRtcHostBridge;

fn bridge() -> WebRtcHostBridge {
    WebRtcHostBridge::new(b"hint".to_vec()).unwrap()
}

#[test]
fn local_hint_must_be_one_to_8192_bytes() {
    assert!(WebRtcHostBridge::new(Vec::new()).is_err());
    assert!(WebRtcHostBridge::new(vec![1; 8193]).is_err());
    assert!(WebRtcHostBridge::new(vec![1; 8192]).is_ok());
    match WebRtcHostBridge::new(Vec::new()) {
        Err(message) => assert_eq!(message, "WebRTC local signaling hint must be 1..=8192 bytes"),
        Ok(_) => panic!("empty hint accepted"),
    }
    assert_eq!(bridge().local_endpoint_hint(), b"hint".to_vec());
    assert_eq!(bridge().commissioning(), default_commissioning());
}

#[test]
fn binding_replaces_and_hands_back_the_previous_channel() {
    let mut bridge = bridge();
    assert_eq!(bridge.connect(7), None);
    assert_eq!(bridge.bind_contact(7, 100), None);
    assert_eq!(bridge.bind_contact(8, 200), None);
    assert_eq!(bridge.connect(7), Some(100));
    assert_eq!(bridge.bind_contact(7, 101), Some(100));
    assert_eq!(bridge.connect(7), Some(101));
    assert_eq!(bridge.connect(8), Some(200));
}

#[test]
fn unbound_contact_cannot_be_dialed() {
    let mut bridge = bridge();
    bridge.bind_contact(7, 100);
    assert_eq!(bridge.unbind_contact(7), Some(100));
    assert_eq!(bridge.connect(7), None);
    assert_eq!(bridge.unbind_contact(7), None);
}

#[test]
fn incoming_channels_are_accepted_in_order_and_bounded() {
    let mut bridge = bridge();
    assert_eq!(bridge.accept(), None);
    for handle in 0..MAX_PENDING_INCOMING_CHANNELS as u64 {
        assert_eq!(bridge.push_incoming(handle), Ok(()));
    }
    assert_eq!(
        bridge.push_incoming(999),
        Err("WebRTC incoming channel queue is full".to_owned())
    );
    assert_eq!(bridge.accept(), Some(0));
    assert_eq!(bridge.accept(), Some(1));
    assert_eq!(bridge.push_incoming(999), Ok(()));
}

#[test]
fn clearing_hands_back_every_channel() {
    let mut bridge = bridge();
    bridge.bind_contact(7, 100);
    bridge.bind_contact(8, 200);
    bridge.push_incoming(300).unwrap();
    assert_eq!(bridge.clear_channels(), vec![100, 200, 300]);
    assert_eq!(bridge.connect(7), None);
    assert_eq!(bridge.accept(), None);
    assert!(bridge.clear_channels().is_empty());
}

#[test]
fn refreshing_the_route_drops_channels_and_marks_it_stale() {
    let mut bridge = bridge();
    let mut fresh = default_commissioning();
    fresh.route_state = ProviderRouteState::Fresh;
    fresh.steps[1].state = CommissioningState::Ready;
    assert_eq!(bridge.set_commissioning(fresh), Ok(()));
    bridge.bind_contact(7, 100);
    assert_eq!(bridge.refresh_route(), vec![100]);
    let commissioning = bridge.commissioning();
    assert_eq!(commissioning.route_state, ProviderRouteState::Stale);
    assert_eq!(commissioning.steps[1].state, CommissioningState::Pending);
    assert_eq!(commissioning.steps[0].state, CommissioningState::Ready);
}

#[test]
fn commissioning_of_another_provider_is_refused() {
    let mut bridge = bridge();
    let mut other = default_commissioning();
    other.provider = TransportKind::Iroh;
    assert_eq!(
        bridge.set_commissioning(other),
        Err("commissioning snapshot belongs to another provider".to_owned())
    );
    assert_eq!(bridge.commissioning(), default_commissioning());
}
