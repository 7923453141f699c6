//! Decisions of the WebRTC provider: its lifecycle projection, the
//! commissioning facts the host bridge publishes, the bounds on signaling
//! messages and waiting incoming channels, and when a channel transport
//! may send or receive. The channels themselves belong to the platform.
use vstd::prelude::*;
use crate::contract::application::TransportKind;
use crate::contract::names::{CommissioningState, CommunicationState, RelayTransportFailureKind};
use crate::iroh_lifecycle::{IncomingReachabilityState, ProviderRouteState};
use crate::memory_transport::PeerTransportError;
use crate::native_json::{decimal_chars, push_decimal};

verus! {

/// Largest signaling request or response, in bytes.
pub const MAX_SIGNALING_MESSAGE: usize = 65536;

/// Most incoming channels waiting for the runtime.
pub const MAX_PENDING_INCOMING_CHANNELS: usize = 64;

/// Largest local signaling hint, in bytes.
pub const MAX_LOCAL_HINT: usize = 8192;

/// The stage a commissioning step belongs to.
#[derive(Clone, Copy, Debug, PartialEq, Eq, Structural)]
pub enum CommissioningStage {
    LocalRuntime,
    IncomingReachability,
}

#[derive(Clone, Copy, Debug, PartialEq, Eq, Structural)]
pub struct CommissioningStep {
    pub stage: CommissioningStage,
    pub state: CommissioningState,
    pub required_for_local_shell: bool,
    pub required_for_pairing: bool,
}

/// What a provider reports about its commissioning.
#[derive(Clone, Debug, PartialEq, Eq)]
pub struct ProviderCommissioning {
    pub provider: TransportKind,
    pub steps: Vec<CommissioningStep>,
    pub endpoint_summary: Option<String>,
    pub route_state: ProviderRouteState,
}

/// A failed signaling exchange: why, and whether the request had left.
#[derive(Clone, Copy, Debug, PartialEq, Eq, Structural)]
pub struct RelayTransportError {
    pub kind: RelayTransportFailureKind,
    pub request_was_sent: bool,
}

/// Checks the local signaling hint: 1 to 8192 bytes.
pub fn validate_local_hint(len: usize) -> (r: Result<(), String>)
    ensures
        match r {
            Ok(()) => 1 <= len <= MAX_LOCAL_HINT,
            Err(e) => !(1 <= len <= MAX_LOCAL_HINT) && e@
                == "WebRTC local signaling hint must be 1..=8192 bytes"@,
        },
{
    if len == 0 || len > MAX_LOCAL_HINT {
        return Err("WebRTC local signaling hint must be 1..=8192 bytes".to_owned());
    }
    Ok(())
}

/// The local runtime ready, incoming reachability pending, no route yet.
pub open spec fn is_default_commissioning(r: ProviderCommissioning) -> bool {
    &&& r.provider == TransportKind::WebRtc
    &&& r.steps@ =~= seq![
        CommissioningStep {
            stage: CommissioningStage::LocalRuntime,
            state: CommissioningState::Ready,
            required_for_local_shell: true,
            required_for_pairing: false,
        },
        CommissioningStep {
            stage: CommissioningStage::IncomingReachability,
            state: CommissioningState::Pending,
            required_for_local_shell: false,
            required_for_pairing: true,
        },
    ]
    &&& r.endpoint_summary is None
    &&& r.route_state == ProviderRouteState::Unavailable
}

/// The commissioning a fresh host bridge reports: the local runtime ready,
/// incoming reachability pending, no route yet.
pub fn default_commissioning() -> (r: ProviderCommissioning)
    ensures
        is_default_commissioning(r),
{
    let mut steps: Vec<CommissioningStep> = Vec::new();
    steps.push(
        CommissioningStep {
            stage: CommissioningStage::LocalRuntime,
            state: CommissioningState::Ready,
            required_for_local_shell: true,
            required_for_pairing: false,
        },
    );
    steps.push(
        CommissioningStep {
            stage: CommissioningStage::IncomingReachability,
            state: CommissioningState::Pending,
            required_for_local_shell: false,
            required_for_pairing: true,
        },
    );
    ProviderCommissioning {
        provider: TransportKind::WebRtc,
        steps,
        endpoint_summary: None,
        route_state: ProviderRouteState::Unavailable,
    }
}

/// A host may only publish WebRTC commissioning.
pub fn check_commissioning_provider(commissioning: &ProviderCommissioning) -> (r: Result<(), String>)
    ensures
        match r {
            Ok(()) => commissioning.provider == TransportKind::WebRtc,
            Err(e) => commissioning.provider != TransportKind::WebRtc && e@
                == "commissioning snapshot belongs to another provider"@,
        },
{
    match commissioning.provider {
        TransportKind::WebRtc => Ok(()),
        _ => Err("commissioning snapshot belongs to another provider".to_owned()),
    }
}

/// The step after a route refresh: incoming reachability is pending again.
pub open spec fn refreshed_step(s: CommissioningStep) -> CommissioningStep {
    if s.stage == CommissioningStage::IncomingReachability {
        CommissioningStep { state: CommissioningState::Pending, ..s }
    } else {
        s
    }
}

/// Before renegotiation the old route is no longer advertised: the route
/// is stale and incoming reachability pending until the host publishes
/// fresh commissioning.
pub fn mark_route_stale(commissioning: &mut ProviderCommissioning)
    ensures
        final(commissioning).route_state == ProviderRouteState::Stale,
        final(commissioning).provider == old(commissioning).provider,
        final(commissioning).endpoint_summary == old(commissioning).endpoint_summary,
        final(commissioning).steps@.len() == old(commissioning).steps@.len(),
        forall|i: int|
            0 <= i < old(commissioning).steps@.len() ==> #[trigger] final(commissioning).steps@[i]
                == refreshed_step(old(commissioning).steps@[i]),
{
    commissioning.route_state = ProviderRouteState::Stale;
    let ghost before = commissioning.steps@;
    let mut i: usize = 0;
    while i < commissioning.steps.len()
        invariant
            i <= commissioning.steps@.len(),
            commissioning.steps@.len() == before.len(),
            commissioning.route_state == ProviderRouteState::Stale,
            commissioning.provider == old(commissioning).provider,
            commissioning.endpoint_summary == old(commissioning).endpoint_summary,
            before == old(commissioning).steps@,
            forall|k: int| 0 <= k < i ==> #[trigger] commissioning.steps@[k] == refreshed_step(before[k]),
            forall|k: int| i <= k < before.len() ==> #[trigger] commissioning.steps@[k] == before[k],
        decreases commissioning.steps@.len() - i,
    {
        let step = commissioning.steps[i];
        if step.stage == CommissioningStage::IncomingReachability {
            commissioning.steps.set(i, CommissioningStep { state: CommissioningState::Pending, ..step });
        }
        i = i + 1;
    }
}

/// An incoming channel is queued only below the bound.
pub fn admit_incoming_channel(pending: usize) -> (r: Result<(), String>)
    ensures
        match r {
            Ok(()) => pending < MAX_PENDING_INCOMING_CHANNELS,
            Err(e) => pending >= MAX_PENDING_INCOMING_CHANNELS && e@
                == "WebRTC incoming channel queue is full"@,
        },
{
    if pending >= MAX_PENDING_INCOMING_CHANNELS {
        return Err("WebRTC incoming channel queue is full".to_owned());
    }
    Ok(())
}

/// A signaling request must fit in one signaling message.
pub fn check_signaling_request(encoded_len: usize) -> (r: Result<(), RelayTransportError>)
    ensures
        r == if encoded_len > MAX_SIGNALING_MESSAGE {
            Err(
                RelayTransportError {
                    kind: RelayTransportFailureKind::InvalidResponse,
                    request_was_sent: false,
                },
            )
        } else {
            Ok::<(), RelayTransportError>(())
        },
{
    if encoded_len > MAX_SIGNALING_MESSAGE {
        return Err(
            RelayTransportError { kind: RelayTransportFailureKind::InvalidResponse, request_was_sent: false },
        );
    }
    Ok(())
}

/// An oversized signaling response is refused after the request was sent.
pub fn check_signaling_response(response_len: usize) -> (r: Result<(), RelayTransportError>)
    ensures
        r == if response_len > MAX_SIGNALING_MESSAGE {
            Err(
                RelayTransportError {
                    kind: RelayTransportFailureKind::InvalidResponse,
                    request_was_sent: true,
                },
            )
        } else {
            Ok::<(), RelayTransportError>(())
        },
{
    if response_len > MAX_SIGNALING_MESSAGE {
        return Err(
            RelayTransportError { kind: RelayTransportFailureKind::InvalidResponse, request_was_sent: true },
        );
    }
    Ok(())
}

/// The readiness of the WebRTC runtime from its local-runtime step.
pub open spec fn spec_webrtc_state(stopped: bool, local: CommissioningState) -> CommunicationState {
    if stopped {
        CommunicationState::Stopped
    } else {
        match local {
            CommissioningState::Ready | CommissioningState::NotRequired => CommunicationState::Ready,
            CommissioningState::Degraded => CommunicationState::Degraded,
            CommissioningState::Failed => CommunicationState::Failed,
            CommissioningState::Pending => CommunicationState::Starting,
        }
    }
}

/// Incoming reachability from the incoming-reachability step.
pub open spec fn spec_webrtc_incoming(stopped: bool, incoming: CommissioningState) -> IncomingReachabilityState {
    if stopped {
        IncomingReachabilityState::Stopped
    } else {
        match incoming {
            CommissioningState::Ready => IncomingReachabilityState::Reachable,
            CommissioningState::Degraded => IncomingReachabilityState::Degraded,
            CommissioningState::Failed => IncomingReachabilityState::Failed,
            CommissioningState::Pending => IncomingReachabilityState::Unknown,
            CommissioningState::NotRequired => IncomingReachabilityState::Reachable,
        }
    }
}

/// The lifecycle projection of a registered WebRTC session provider.
#[derive(Clone, Copy, Debug, PartialEq, Eq, Structural)]
pub struct WebRtcLifecycle {
    pub stopped: bool,
}

impl WebRtcLifecycle {
    pub fn new() -> (r: Self)
        ensures
            !r.stopped,
    {
        WebRtcLifecycle { stopped: false }
    }

    pub fn state(&self, local: CommissioningState) -> (r: CommunicationState)
        ensures
            r == spec_webrtc_state(self.stopped, local),
    {
        if self.stopped {
            return CommunicationState::Stopped;
        }
        match local {
            CommissioningState::Ready | CommissioningState::NotRequired => CommunicationState::Ready,
            CommissioningState::Degraded => CommunicationState::Degraded,
            CommissioningState::Failed => CommunicationState::Failed,
            CommissioningState::Pending => CommunicationState::Starting,
        }
    }

    pub fn incoming_reachability_state(&self, incoming: CommissioningState) -> (r: IncomingReachabilityState)
        ensures
            r == spec_webrtc_incoming(self.stopped, incoming),
    {
        if self.stopped {
            return IncomingReachabilityState::Stopped;
        }
        match incoming {
            CommissioningState::Ready => IncomingReachabilityState::Reachable,
            CommissioningState::Degraded => IncomingReachabilityState::Degraded,
            CommissioningState::Failed => IncomingReachabilityState::Failed,
            CommissioningState::Pending => IncomingReachabilityState::Unknown,
            CommissioningState::NotRequired => IncomingReachabilityState::Reachable,
        }
    }

    /// Maintenance fails once stopped or when the local shell is not ready.
    pub fn maintenance_ok(&self, local_shell_ready: bool) -> (r: bool)
        ensures
            r == (!self.stopped && local_shell_ready),
    {
        !self.stopped && local_shell_ready
    }

    /// Whether the endpoint is active: running with a fresh route.
    pub fn endpoint_active(&self, route_state: ProviderRouteState) -> (r: bool)
        ensures
            r == (!self.stopped && route_state == ProviderRouteState::Fresh),
    {
        !self.stopped && matches!(route_state, ProviderRouteState::Fresh)
    }

    pub fn shutdown(&mut self)
        ensures
            final(self).stopped,
    {
        self.stopped = true;
    }
}

/// The endpoint summary of a WebRTC hint: its size only.
pub fn webrtc_endpoint_summary(hint_len: usize) -> (r: String)
    ensures
        r@ == "webrtc:"@ + decimal_chars(hint_len as nat) + " bytes"@,
{
    let mut out = "webrtc:".to_owned();
    push_decimal(&mut out, hint_len as u64);
    out.append(" bytes");
    out
}

/// A data-channel transport: the platform channel is used only while the
/// runtime holds it connected.
#[derive(Clone, Copy, Debug, PartialEq, Eq, Structural)]
pub struct WebRtcTransportGate {
    pub connected: bool,
}

impl WebRtcTransportGate {
    pub fn new() -> (r: Self)
        ensures
            !r.connected,
    {
        WebRtcTransportGate { connected: false }
    }

    pub fn connect(&mut self)
        ensures
            final(self).connected,
    {
        self.connected = true;
    }

    pub fn close(&mut self)
        ensures
            !final(self).connected,
    {
        self.connected = false;
    }

    /// Whether a payload of `len` bytes may be sent, given the peer
    /// protocol's data limit.
    pub fn check_send(&self, len: usize, max_peer_data_len: usize) -> (r: Result<(), PeerTransportError>)
        ensures
            match r {
                Ok(()) => self.connected && len <= max_peer_data_len,
                Err(e) => if !self.connected {
                    e.0@ == "WebRTC transport is not connected"@
                } else {
                    len > max_peer_data_len && e.0@ == "WebRTC payload exceeds peer limit"@
                },
            },
    {
        if !self.connected {
            return Err(PeerTransportError("WebRTC transport is not connected".to_owned()));
        }
        if len > max_peer_data_len {
            return Err(PeerTransportError("WebRTC payload exceeds peer limit".to_owned()));
        }
        Ok(())
    }

    /// Whether the channel may be read.
    pub fn check_receive(&self) -> (r: Result<(), PeerTransportError>)
        ensures
            match r {
                Ok(()) => self.connected,
                Err(e) => !self.connected && e.0@ == "WebRTC transport is not connected"@,
            },
    {
        if !self.connected {
            return Err(PeerTransportError("WebRTC transport is not connected".to_owned()));
        }
        Ok(())
    }
}

} // verus!
