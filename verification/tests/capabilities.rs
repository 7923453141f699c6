use torca::capabilities::{
    iroh_capabilities, iroh_radio_capabilities, memory_capabilities, tor_capabilities,
    webrtc_capabilities, LatencyClass,
};
use torca::iroh_profile::{EnergyClass, IrohEndpointProfile};

#[test]
fn iroh_is_not_an_anonymity_network() {
    for profile in [
        IrohEndpointProfile::AlwaysReachable,
        IrohEndpointProfile::DirectOnly,
        IrohEndpointProfile::LocalOnly,
    ] {
        let capabilities = iroh_capabilities(profile, 1024);
        assert!(!capabilities.hides_peer_ip);
        assert!(capabilities.supports_direct_path);
        assert_eq!(capabilities.max_frame_size, 1024);
        assert_eq!(capabilities.latency, LatencyClass::Interactive);
    }
}

#[test]
fn only_the_always_reachable_profile_relays() {
    let reachable = iroh_capabilities(IrohEndpointProfile::AlwaysReachable, 1024);
    assert!(reachable.supports_relay_path);
    assert_eq!(reachable.energy, EnergyClass::Medium);
    let direct = iroh_capabilities(IrohEndpointProfile::DirectOnly, 1024);
    assert!(!direct.supports_relay_path);
    assert_eq!(direct.energy, EnergyClass::Low);
}

#[test]
fn other_providers_state_their_paths_and_costs() {
    let memory = memory_capabilities();
    assert!(memory.hides_peer_ip && !memory.supports_relay_path);
    assert_eq!(memory.max_frame_size, usize::MAX);
    let tor = tor_capabilities(2048);
    assert!(tor.hides_peer_ip && !tor.supports_direct_path && tor.supports_relay_path);
    assert_eq!((tor.latency, tor.energy), (LatencyClass::High, EnergyClass::High));
    let webrtc = webrtc_capabilities(2048);
    assert!(!webrtc.hides_peer_ip && webrtc.supports_direct_path && webrtc.supports_relay_path);
    assert_eq!(webrtc.energy, EnergyClass::Medium);
    let radio = iroh_radio_capabilities();
    assert!(!radio.supports_datagrams);
    assert_eq!(radio.max_frame_size, 65536);
    assert_eq!(radio.max_idle_interval_ms, 10_000);
}
