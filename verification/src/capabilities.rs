//! What each transport provider promises the peer layer: delivery
//! guarantees, the paths it can take, whether it hides the peer's address,
//! the largest frame, and its latency and energy classes.
use vstd::prelude::*;
use crate::iroh_lifecycle::profile_supports_relay;
use crate::iroh_profile::{EnergyClass, IrohEndpointProfile};

verus! {

/// How quickly a provider delivers.
#[derive(Clone, Copy, Debug, PartialEq, Eq, Structural)]
pub enum LatencyClass {
    Interactive,
    High,
}

/// The capabilities of a peer transport.
#[derive(Clone, Copy, Debug, PartialEq, Eq, Structural)]
pub struct TransportCapabilities {
    pub reliable: bool,
    pub ordered: bool,
    pub supports_incoming: bool,
    pub supports_direct_path: bool,
    pub supports_relay_path: bool,
    pub hides_peer_ip: bool,
    pub max_frame_size: usize,
    pub latency: LatencyClass,
    pub energy: EnergyClass,
}

/// The capabilities of a realtime media connector.
#[derive(Clone, Copy, Debug, PartialEq, Eq, Structural)]
pub struct RealtimeCapabilities {
    pub reliable: bool,
    pub ordered: bool,
    pub supports_datagrams: bool,
    pub max_frame_size: usize,
    pub max_idle_interval_ms: u64,
    pub requires_application_keep_alive: bool,
}

/// An Iroh peer transport under `profile`, with frames up to the peer
/// protocol's `max_peer_data_len`: interactive, never hiding the peer's
/// address, relayed only where the profile uses relays, and costing what
/// the profile's energy class says.
pub fn iroh_capabilities(profile: IrohEndpointProfile, max_peer_data_len: usize) -> (r: TransportCapabilities)
    ensures
        r == (TransportCapabilities {
            reliable: true,
            ordered: true,
            supports_incoming: true,
            supports_direct_path: true,
            supports_relay_path: profile == IrohEndpointProfile::AlwaysReachable,
            hides_peer_ip: false,
            max_frame_size: max_peer_data_len,
            latency: LatencyClass::Interactive,
            energy: if profile == IrohEndpointProfile::AlwaysReachable {
                EnergyClass::Medium
            } else {
                EnergyClass::Low
            },
        }),
{
    TransportCapabilities {
        reliable: true,
        ordered: true,
        supports_incoming: true,
        supports_direct_path: true,
        supports_relay_path: profile_supports_relay(profile),
        hides_peer_ip: false,
        max_frame_size: max_peer_data_len,
        latency: LatencyClass::Interactive,
        energy: profile.energy_class(),
    }
}

/// The deterministic memory transport: direct, address-hiding, unbounded
/// frames, low energy.
pub fn memory_capabilities() -> (r: TransportCapabilities)
    ensures
        r == (TransportCapabilities {
            reliable: true,
            ordered: true,
            supports_incoming: true,
            supports_direct_path: true,
            supports_relay_path: false,
            hides_peer_ip: true,
            max_frame_size: usize::MAX,
            latency: LatencyClass::Interactive,
            energy: EnergyClass::Low,
        }),
{
    TransportCapabilities {
        reliable: true,
        ordered: true,
        supports_incoming: true,
        supports_direct_path: true,
        supports_relay_path: false,
        hides_peer_ip: true,
        max_frame_size: usize::MAX,
        latency: LatencyClass::Interactive,
        energy: EnergyClass::Low,
    }
}

/// A Tor peer transport: always relayed through the onion network, hiding
/// the peer's address, at high latency and energy cost.
pub fn tor_capabilities(max_peer_data_len: usize) -> (r: TransportCapabilities)
    ensures
        r == (TransportCapabilities {
            reliable: true,
            ordered: true,
            supports_incoming: true,
            supports_direct_path: false,
            supports_relay_path: true,
            hides_peer_ip: true,
            max_frame_size: max_peer_data_len,
            latency: LatencyClass::High,
            energy: EnergyClass::High,
        }),
{
    TransportCapabilities {
        reliable: true,
        ordered: true,
        supports_incoming: true,
        supports_direct_path: false,
        supports_relay_path: true,
        hides_peer_ip: true,
        max_frame_size: max_peer_data_len,
        latency: LatencyClass::High,
        energy: EnergyClass::High,
    }
}

/// A WebRTC data channel: direct or relayed, not hiding the peer's
/// address, interactive, medium energy.
pub fn webrtc_capabilities(max_peer_data_len: usize) -> (r: TransportCapabilities)
    ensures
        r == (TransportCapabilities {
            reliable: true,
            ordered: true,
            supports_incoming: true,
            supports_direct_path: true,
            supports_relay_path: true,
            hides_peer_ip: false,
            max_frame_size: max_peer_data_len,
            latency: LatencyClass::Interactive,
            energy: EnergyClass::Medium,
        }),
{
    TransportCapabilities {
        reliable: true,
        ordered: true,
        supports_incoming: true,
        supports_direct_path: true,
        supports_relay_path: true,
        hides_peer_ip: false,
        max_frame_size: max_peer_data_len,
        latency: LatencyClass::Interactive,
        energy: EnergyClass::Medium,
    }
}

/// The Iroh radio media connector: a reliable ordered stream without
/// datagrams, frames up to 64 KiB, ten seconds of allowed idleness.
pub fn iroh_radio_capabilities() -> (r: RealtimeCapabilities)
    ensures
        r == (RealtimeCapabilities {
            reliable: true,
            ordered: true,
            supports_datagrams: false,
            max_frame_size: 65536,
            max_idle_interval_ms: 10000,
            requires_application_keep_alive: false,
        }),
{
    RealtimeCapabilities {
        reliable: true,
        ordered: true,
        supports_datagrams: false,
        max_frame_size: 64 * 1024,
        max_idle_interval_ms: 10_000,
        requires_application_keep_alive: false,
    }
}

} // verus!
