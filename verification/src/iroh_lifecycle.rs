//! Lifecycle decisions of the Iroh communication provider: the readiness and
//! incoming reachability it reports, the commissioning it shows, and what it
//! does when reachability demand or dormancy changes. The endpoint work
//! itself (binding, probing, closing) is carried out by the caller.
use vstd::prelude::*;
use std::collections::VecDeque;
use crate::contract::names::{CommissioningState, CommunicationState};
use crate::iroh_profile::IrohEndpointProfile;
use crate::iroh_endpoint::{activation_of, after_terminate, wait_step_of, EndpointSlotState, WaitStep};

verus! {

/// Whether the endpoint slot holds an endpoint, and whether it was closed.
#[derive(Clone, Copy, Debug, PartialEq, Eq, Structural)]
pub enum EndpointPresence {
    Absent,
    Open,
    Closed,
}

/// Whether the provider can currently be reached by incoming connections.
#[derive(Clone, Copy, Debug, PartialEq, Eq, Structural)]
pub enum IncomingReachabilityState {
    Stopped,
    Unknown,
    Publishing,
    Reachable,
    Degraded,
    Failed,
}

/// Freshness of the route that contacts would dial.
#[derive(Clone, Copy, Debug, PartialEq, Eq, Structural)]
pub enum ProviderRouteState {
    Fresh,
    Stale,
    Unavailable,
}

/// Path topology of a transport.
#[derive(Clone, Copy, Debug, PartialEq, Eq, Structural)]
pub enum TransportTopology {
    Direct,
    Relay,
    Unknown,
}

/// Kind of the path a connection reports as selected.
#[derive(Clone, Copy, Debug, PartialEq, Eq, Structural)]
pub enum SelectedPathKind {
    Relay,
    Ip,
    Other,
}

/// Plain facts of one Iroh lifecycle.
#[derive(Clone, Copy, Debug, PartialEq, Eq, Structural)]
pub struct IrohLifecycleState {
    pub profile: IrohEndpointProfile,
    pub stopped: bool,
    pub dormant: bool,
    pub endpoint: EndpointPresence,
    pub address_available: bool,
    pub route_fresh: bool,
    pub reachability_demand: bool,
    pub online: bool,
    pub network_generation: u64,
}

/// What to do after the reachability demand changed.
#[derive(Clone, Copy, Debug, PartialEq, Eq, Structural)]
pub struct DemandActions {
    /// Cancel an in-flight online probe.
    pub cancel_probe: bool,
    /// Start a bounded online probe.
    pub spawn_probe: bool,
    /// Wake the runtime.
    pub notify: bool,
}

/// What to do after dormancy changed.
#[derive(Clone, Copy, Debug, PartialEq, Eq, Structural)]
pub struct DormancyActions {
    pub cancel_probe: bool,
    /// Close the endpoint to release background network work.
    pub deactivate_endpoint: bool,
    /// Bind the endpoint again.
    pub activate_endpoint: bool,
    /// Start a bounded online probe for the given network generation.
    pub spawn_probe: bool,
    pub probe_generation: u64,
}

/// Whether the profile routes through relays.
pub fn profile_supports_relay(profile: IrohEndpointProfile) -> (r: bool)
    ensures
        r == (profile == IrohEndpointProfile::AlwaysReachable),
{
    match profile {
        IrohEndpointProfile::AlwaysReachable => true,
        _ => false,
    }
}

/// The topology of a connection: its selected path, or, before one is
/// published, the conservative guess from the profile.
pub fn selected_topology(selected: Option<SelectedPathKind>, profile: IrohEndpointProfile) -> (r:
    TransportTopology)
    ensures
        r == match selected {
            Some(SelectedPathKind::Relay) => TransportTopology::Relay,
            Some(SelectedPathKind::Ip) => TransportTopology::Direct,
            Some(SelectedPathKind::Other) => TransportTopology::Unknown,
            None => if profile == IrohEndpointProfile::AlwaysReachable {
                TransportTopology::Relay
            } else {
                TransportTopology::Direct
            },
        },
{
    match selected {
        Some(SelectedPathKind::Relay) => TransportTopology::Relay,
        Some(SelectedPathKind::Ip) => TransportTopology::Direct,
        Some(SelectedPathKind::Other) => TransportTopology::Unknown,
        None => if profile_supports_relay(profile) {
            TransportTopology::Relay
        } else {
            TransportTopology::Direct
        },
    }
}

pub open spec fn spec_state(s: IrohLifecycleState) -> CommunicationState {
    if s.stopped {
        CommunicationState::Stopped
    } else if s.dormant {
        CommunicationState::Ready
    } else if s.endpoint == EndpointPresence::Absent {
        CommunicationState::Degraded
    } else if s.endpoint == EndpointPresence::Closed {
        CommunicationState::Failed
    } else {
        CommunicationState::Ready
    }
}

pub open spec fn spec_incoming(s: IrohLifecycleState) -> IncomingReachabilityState {
    if s.stopped {
        IncomingReachabilityState::Stopped
    } else if s.profile != IrohEndpointProfile::AlwaysReachable {
        IncomingReachabilityState::Stopped
    } else if s.endpoint == EndpointPresence::Absent {
        IncomingReachabilityState::Degraded
    } else if s.endpoint == EndpointPresence::Closed {
        IncomingReachabilityState::Failed
    } else if s.dormant {
        IncomingReachabilityState::Degraded
    } else if !s.reachability_demand {
        IncomingReachabilityState::Unknown
    } else if s.online {
        IncomingReachabilityState::Reachable
    } else {
        IncomingReachabilityState::Publishing
    }
}

pub open spec fn spec_local_commissioning(state: CommunicationState) -> CommissioningState {
    match state {
        CommunicationState::Ready => CommissioningState::Ready,
        CommunicationState::Starting | CommunicationState::Stopped => CommissioningState::Pending,
        CommunicationState::Degraded => CommissioningState::Degraded,
        CommunicationState::Failed => CommissioningState::Failed,
    }
}

pub open spec fn spec_incoming_commissioning(state: IncomingReachabilityState) -> CommissioningState {
    match state {
        IncomingReachabilityState::Reachable => CommissioningState::Ready,
        IncomingReachabilityState::Publishing => CommissioningState::Pending,
        IncomingReachabilityState::Unknown => CommissioningState::NotRequired,
        IncomingReachabilityState::Degraded => CommissioningState::Degraded,
        IncomingReachabilityState::Failed => CommissioningState::Failed,
        IncomingReachabilityState::Stopped => CommissioningState::NotRequired,
    }
}

impl IrohLifecycleState {
    /// Readiness of the local communication runtime.
    pub fn state(&self) -> (r: CommunicationState)
        ensures
            r == spec_state(*self),
    {
        if self.stopped {
            CommunicationState::Stopped
        } else if self.dormant {
            CommunicationState::Ready
        } else {
            match self.endpoint {
                EndpointPresence::Absent => CommunicationState::Degraded,
                EndpointPresence::Closed => CommunicationState::Failed,
                EndpointPresence::Open => CommunicationState::Ready,
            }
        }
    }

    /// Incoming reachability: only the relay-backed profile publishes, and
    /// only while some runtime demand asks for it.
    pub fn incoming_reachability_state(&self) -> (r: IncomingReachabilityState)
        ensures
            r == spec_incoming(*self),
    {
        if self.stopped {
            IncomingReachabilityState::Stopped
        } else if !self.profile.supports_incoming_reachability() {
            IncomingReachabilityState::Stopped
        } else {
            match self.endpoint {
                EndpointPresence::Absent => IncomingReachabilityState::Degraded,
                EndpointPresence::Closed => IncomingReachabilityState::Failed,
                EndpointPresence::Open => if self.dormant {
                    IncomingReachabilityState::Degraded
                } else if !self.reachability_demand {
                    IncomingReachabilityState::Unknown
                } else if self.online {
                    IncomingReachabilityState::Reachable
                } else {
                    IncomingReachabilityState::Publishing
                },
            }
        }
    }

    /// Commissioning state of the local runtime step.
    pub fn local_commissioning(&self) -> (r: CommissioningState)
        ensures
            r == spec_local_commissioning(spec_state(*self)),
    {
        match self.state() {
            CommunicationState::Ready => CommissioningState::Ready,
            CommunicationState::Starting | CommunicationState::Stopped => {
                CommissioningState::Pending
            },
            CommunicationState::Degraded => CommissioningState::Degraded,
            CommunicationState::Failed => CommissioningState::Failed,
        }
    }

    /// Commissioning state of the incoming reachability step. An idle
    /// endpoint is already commissioned: suppressed probing is not pending.
    pub fn incoming_commissioning(&self) -> (r: CommissioningState)
        ensures
            r == spec_incoming_commissioning(spec_incoming(*self)),
    {
        match self.incoming_reachability_state() {
            IncomingReachabilityState::Reachable => CommissioningState::Ready,
            IncomingReachabilityState::Publishing => CommissioningState::Pending,
            IncomingReachabilityState::Unknown => CommissioningState::NotRequired,
            IncomingReachabilityState::Degraded => CommissioningState::Degraded,
            IncomingReachabilityState::Failed => CommissioningState::Failed,
            IncomingReachabilityState::Stopped => CommissioningState::NotRequired,
        }
    }

    /// Route state of the commissioning report.
    pub fn commissioning_route_state(&self) -> (r: ProviderRouteState)
        ensures
            r == if !self.route_fresh {
                ProviderRouteState::Stale
            } else if self.endpoint != EndpointPresence::Absent {
                ProviderRouteState::Fresh
            } else {
                ProviderRouteState::Unavailable
            },
    {
        if !self.route_fresh {
            ProviderRouteState::Stale
        } else if !matches!(self.endpoint, EndpointPresence::Absent) {
            ProviderRouteState::Fresh
        } else {
            ProviderRouteState::Unavailable
        }
    }

    /// Route state of the endpoint's published address.
    pub fn endpoint_route_state(&self) -> (r: ProviderRouteState)
        ensures
            r == if !self.route_fresh {
                ProviderRouteState::Stale
            } else if self.address_available {
                ProviderRouteState::Fresh
            } else {
                ProviderRouteState::Unavailable
            },
    {
        if !self.route_fresh {
            ProviderRouteState::Stale
        } else if self.address_available {
            ProviderRouteState::Fresh
        } else {
            ProviderRouteState::Unavailable
        }
    }

    /// How long attention is held after the UI leaves, in seconds: short
    /// for direct profiles, which keep nothing warm.
    pub fn background_grace_secs(&self) -> (r: u64)
        ensures
            r == if self.profile == IrohEndpointProfile::AlwaysReachable {
                15u64
            } else {
                5u64
            },
    {
        match self.profile {
            IrohEndpointProfile::DirectOnly | IrohEndpointProfile::LocalOnly => 5,
            IrohEndpointProfile::AlwaysReachable => 15,
        }
    }

    /// Records whether some runtime lease asks for proven reachability.
    /// Withdrawing it clears the online evidence at once.
    pub fn set_reachability_demand(&mut self, demanded: bool) -> (r: DemandActions)
        ensures
            final(self).reachability_demand == demanded,
            final(self).online == (old(self).online && demanded),
            final(self).stopped == old(self).stopped,
            final(self).dormant == old(self).dormant,
            final(self).endpoint == old(self).endpoint,
            final(self).profile == old(self).profile,
            final(self).address_available == old(self).address_available,
            final(self).route_fresh == old(self).route_fresh,
            final(self).network_generation == old(self).network_generation,
            r.cancel_probe == !demanded,
            r.spawn_probe == (demanded && !old(self).reachability_demand && !old(self).dormant
                && !old(self).stopped && old(self).profile == IrohEndpointProfile::AlwaysReachable
                && !old(self).online && old(self).endpoint != EndpointPresence::Absent),
            r.notify == (old(self).reachability_demand != demanded),
    {
        let was_demanded = self.reachability_demand;
        self.reachability_demand = demanded;
        let mut spawn_probe = false;
        if !demanded {
            self.online = false;
        } else if !was_demanded && !self.dormant && !self.stopped
            && self.profile.supports_incoming_reachability() && !self.online && !matches!(
            self.endpoint,
            EndpointPresence::Absent,
        ) {
            spawn_probe = true;
        }
        DemandActions { cancel_probe: !demanded, spawn_probe, notify: was_demanded != demanded }
    }

    /// Enters or leaves dormancy. Dormancy suppresses reachability evidence;
    /// only the relay-backed profile closes its endpoint, so direct routes
    /// stored by contacts stay valid.
    pub fn set_dormant(&mut self, dormant: bool) -> (r: DormancyActions)
        ensures
            final(self).dormant == dormant,
            !final(self).online,
            final(self).network_generation == if old(self).dormant == dormant {
                old(self).network_generation
            } else {
                old(self).network_generation.wrapping_add(1)
            },
            final(self).stopped == old(self).stopped,
            final(self).endpoint == old(self).endpoint,
            final(self).profile == old(self).profile,
            final(self).reachability_demand == old(self).reachability_demand,
            final(self).address_available == old(self).address_available,
            final(self).route_fresh == old(self).route_fresh,
            r.cancel_probe == (old(self).dormant != dormant),
            r.deactivate_endpoint == (dormant && old(self).profile
                == IrohEndpointProfile::AlwaysReachable),
            r.activate_endpoint == (!dormant && old(self).dormant && old(self).endpoint
                == EndpointPresence::Absent),
            r.spawn_probe == (!dormant && old(self).dormant && old(self).profile
                == IrohEndpointProfile::AlwaysReachable && old(self).reachability_demand),
            r.probe_generation == final(self).network_generation,
    {
        let was_dormant = self.dormant;
        self.dormant = dormant;
        if was_dormant != dormant {
            self.network_generation = self.network_generation.wrapping_add(1);
        }
        self.online = false;
        let supports = self.profile.supports_incoming_reachability();
        DormancyActions {
            cancel_probe: was_dormant != dormant,
            deactivate_endpoint: dormant && supports,
            activate_endpoint: !dormant && was_dormant && matches!(
                self.endpoint,
                EndpointPresence::Absent,
            ),
            spawn_probe: !dormant && was_dormant && supports && self.reachability_demand,
            probe_generation: self.network_generation,
        }
    }

    /// A platform network change: the network generation advances, the
    /// advertised route is invalidated at once and the online evidence is
    /// dropped. With an endpoint, the route migrates in the background, and
    /// a relay-backed endpoint under demand probes again for the new
    /// generation.
    pub fn network_changed(&mut self) -> (r: NetworkChangeActions)
        ensures
            final(self).network_generation == old(self).network_generation.wrapping_add(1),
            !final(self).route_fresh,
            !final(self).online,
            final(self).stopped == old(self).stopped,
            final(self).dormant == old(self).dormant,
            final(self).endpoint == old(self).endpoint,
            final(self).profile == old(self).profile,
            final(self).reachability_demand == old(self).reachability_demand,
            final(self).address_available == old(self).address_available,
            r.cancel_probe,
            r.migrate == (old(self).endpoint != EndpointPresence::Absent),
            r.spawn_probe == (old(self).endpoint != EndpointPresence::Absent && old(self).profile
                == IrohEndpointProfile::AlwaysReachable && old(self).reachability_demand),
            r.generation == final(self).network_generation,
            r.notify,
    {
        self.network_generation = self.network_generation.wrapping_add(1);
        self.route_fresh = false;
        self.online = false;
        let present = !matches!(self.endpoint, EndpointPresence::Absent);
        NetworkChangeActions {
            cancel_probe: true,
            migrate: present,
            spawn_probe: present && self.profile.supports_incoming_reachability()
                && self.reachability_demand,
            generation: self.network_generation,
            notify: true,
        }
    }

    /// Whether the runtime driver must report a communication failure: the
    /// endpoint closed underneath a lifecycle that was not stopped.
    pub fn maintenance_failed(&self) -> (r: bool)
        ensures
            r == (self.endpoint == EndpointPresence::Closed && !self.stopped),
    {
        matches!(self.endpoint, EndpointPresence::Closed) && !self.stopped
    }

    /// Stops the lifecycle; says whether this call stopped it.
    pub fn shutdown(&mut self) -> (first: bool)
        ensures
            first == !old(self).stopped,
            final(self).stopped,
            first ==> !final(self).online,
            !first ==> *final(self) == *old(self),
            *final(self) == after_shutdown(*old(self)),
    {
        if self.stopped {
            return false;
        }
        self.stopped = true;
        self.online = false;
        true
    }

    /// The local endpoint summary the provider reports: the endpoint's
    /// `summary` while running, none once stopped.
    pub fn local_endpoint_summary(&self, summary: String) -> (r: Option<String>)
        ensures
            r == if self.stopped {
                None
            } else {
                Some(summary)
            },
    {
        if self.stopped {
            None
        } else {
            Some(summary)
        }
    }
}

/// The lifecycle after a shutdown: stopped and offline; a stopped one is
/// left as it is.
pub open spec fn after_shutdown(s: IrohLifecycleState) -> IrohLifecycleState {
    if s.stopped {
        s
    } else {
        IrohLifecycleState { stopped: true, online: false, ..s }
    }
}

/// Shuts the provider down: the first call stops the lifecycle and
/// terminates the endpoint slot, closing its endpoint; a later call does
/// nothing. Says whether this call stopped it.
pub fn shutdown_provider(lifecycle: &mut IrohLifecycleState, slot: &mut EndpointSlotState) -> (first: bool)
    ensures
        first == !old(lifecycle).stopped,
        *final(lifecycle) == after_shutdown(*old(lifecycle)),
        *final(slot) == if first {
            after_terminate(*old(slot))
        } else {
            *old(slot)
        },
{
    if !lifecycle.shutdown() {
        return false;
    }
    slot.terminate();
    true
}

/// Law: after a shutdown the provider reports itself stopped, its incoming
/// reachability stopped and no local endpoint summary; its endpoint slot
/// holds no endpoint, refuses every activation and tells waiters none will
/// come. A second shutdown changes nothing.
pub proof fn shutdown_stops_the_provider(s: IrohLifecycleState, slot: EndpointSlotState)
    ensures
        spec_state(after_shutdown(s)) == CommunicationState::Stopped,
        spec_incoming(after_shutdown(s)) == IncomingReachabilityState::Stopped,
        after_shutdown(s).stopped,
        !after_terminate(slot).active,
        activation_of(after_terminate(slot)) is None,
        wait_step_of(after_terminate(slot)) == WaitStep::Gone,
        after_shutdown(after_shutdown(s)) == after_shutdown(s),
{
}

/// Why the provider cannot hand out its route.
#[derive(Clone, Copy, Debug, PartialEq, Eq, Structural)]
pub enum ProviderRouteError {
    /// The route is migrating to a new network.
    Stale,
    /// No endpoint, or no dialable address yet.
    Unavailable,
    /// The address could not be encoded.
    Invalid,
}

/// Whether the endpoint's address may be handed out: the route must be
/// fresh and an endpoint with a non-empty address present
/// (`address_is_empty` is `None` without an endpoint).
pub fn route_readiness(route_fresh: bool, address_is_empty: Option<bool>) -> (r: Result<(), ProviderRouteError>)
    ensures
        r == if !route_fresh {
            Err(ProviderRouteError::Stale)
        } else if address_is_empty != Some(false) {
            Err(ProviderRouteError::Unavailable)
        } else {
            Ok::<(), ProviderRouteError>(())
        },
{
    if !route_fresh {
        return Err(ProviderRouteError::Stale);
    }
    match address_is_empty {
        Some(false) => Ok(()),
        _ => Err(ProviderRouteError::Unavailable),
    }
}

/// The local route to publish from the encoded endpoint: an unavailable
/// endpoint means there is no route yet rather than an error.
pub fn local_route_outcome(endpoint: Result<Vec<u8>, ProviderRouteError>) -> (r: Result<Option<Vec<u8>>, ProviderRouteError>)
    ensures
        match endpoint {
            Ok(bytes) => r == Ok::<Option<Vec<u8>>, ProviderRouteError>(Some(bytes)),
            Err(ProviderRouteError::Unavailable) => r == Ok::<Option<Vec<u8>>, ProviderRouteError>(None),
            Err(e) => r == Err::<Option<Vec<u8>>, ProviderRouteError>(e),
        },
{
    match endpoint {
        Ok(bytes) => Ok(Some(bytes)),
        Err(ProviderRouteError::Unavailable) => Ok(None),
        Err(e) => Err(e),
    }
}

/// Why a pairing bootstrap descriptor cannot be produced yet.
#[derive(Clone, Copy, Debug, PartialEq, Eq, Structural)]
pub enum BootstrapUnavailable {
    /// The route is migrating to a new network.
    RouteMigrating,
    /// The endpoint is dormant and has no address.
    Dormant,
    /// The address has no dialable transport address yet.
    NoDialableAddress,
}

/// Whether a pairing bootstrap descriptor can be produced from the current
/// endpoint: a fresh route and a non-empty address.
pub fn pairing_bootstrap_readiness(route_fresh: bool, address_is_empty: Option<bool>) -> (r: Result<
    (),
    BootstrapUnavailable,
>)
    ensures
        r == if !route_fresh {
            Err(BootstrapUnavailable::RouteMigrating)
        } else {
            match address_is_empty {
                None => Err(BootstrapUnavailable::Dormant),
                Some(true) => Err(BootstrapUnavailable::NoDialableAddress),
                Some(false) => Ok(()),
            }
        },
{
    if !route_fresh {
        return Err(BootstrapUnavailable::RouteMigrating);
    }
    match address_is_empty {
        None => Err(BootstrapUnavailable::Dormant),
        Some(true) => Err(BootstrapUnavailable::NoDialableAddress),
        Some(false) => Ok(()),
    }
}

/// Whether the endpoint's address may be handed to the peer layer: a
/// fresh route and an endpoint, whatever addresses it has yet.
pub fn peer_endpoint_readiness(route_fresh: bool, has_endpoint: bool) -> (r: Result<(), BootstrapUnavailable>)
    ensures
        r == if !route_fresh {
            Err(BootstrapUnavailable::RouteMigrating)
        } else if !has_endpoint {
            Err(BootstrapUnavailable::Dormant)
        } else {
            Ok::<(), BootstrapUnavailable>(())
        },
{
    if !route_fresh {
        return Err(BootstrapUnavailable::RouteMigrating);
    }
    if !has_endpoint {
        return Err(BootstrapUnavailable::Dormant);
    }
    Ok(())
}

/// The message each bootstrap refusal reports.
pub fn bootstrap_unavailable_message(reason: BootstrapUnavailable) -> (r: &'static str)
    ensures
        r@ == match reason {
            BootstrapUnavailable::RouteMigrating => "Iroh endpoint route is migrating"@,
            BootstrapUnavailable::Dormant => "Iroh endpoint is dormant"@,
            BootstrapUnavailable::NoDialableAddress =>
                "Iroh endpoint has no dialable transport address yet"@,
        },
{
    match reason {
        BootstrapUnavailable::RouteMigrating => "Iroh endpoint route is migrating",
        BootstrapUnavailable::Dormant => "Iroh endpoint is dormant",
        BootstrapUnavailable::NoDialableAddress =>
            "Iroh endpoint has no dialable transport address yet",
    }
}

/// Most inbound frames one transport queues before reporting overflow.
pub const MAX_PENDING_INBOUND_FRAMES: usize = 256;

/// One entry of an inbound frame queue: a frame, or a transport error.
#[derive(Clone, Debug, PartialEq, Eq)]
pub enum InboundItem {
    Frame(Vec<u8>),
    Error(String),
}

/// Appends `item` to a bounded inbound queue. When the queue is full, the
/// oldest frame is dropped and an overflow error is queued instead, and the
/// item is refused.
pub fn push_inbound(entries: &mut VecDeque<InboundItem>, item: InboundItem) -> (accepted: bool)
    requires
        old(entries)@.len() <= MAX_PENDING_INBOUND_FRAMES,
    ensures
        accepted == (old(entries)@.len() < MAX_PENDING_INBOUND_FRAMES),
        accepted ==> final(entries)@ == old(entries)@.push(item),
        !accepted ==> final(entries)@.len() == MAX_PENDING_INBOUND_FRAMES,
        !accepted ==> final(entries)@.drop_last() == old(entries)@.drop_first(),
        !accepted ==> (final(entries)@.last() matches InboundItem::Error(e)
            && e@ == "Iroh inbound frame queue limit exceeded"@),
        final(entries)@.len() <= MAX_PENDING_INBOUND_FRAMES,
{
    if entries.len() >= MAX_PENDING_INBOUND_FRAMES {
        let ghost before = entries@;
        let _ = entries.pop_front();
        let ghost popped = entries@;
        entries.push_back(
            InboundItem::Error("Iroh inbound frame queue limit exceeded".to_owned()),
        );
        assert(entries@.drop_last() =~= popped);
        return false;
    }
    entries.push_back(item);
    true
}

/// Law: a stopped lifecycle reports itself stopped, and its incoming
/// reachability stopped, whatever else it knows.
pub proof fn stopped_lifecycle_reports_stopped(s: IrohLifecycleState)
    requires
        s.stopped,
    ensures
        spec_state(s) == CommunicationState::Stopped,
        spec_incoming(s) == IncomingReachabilityState::Stopped,
{
}

/// Law: direct and local profiles never claim or pursue incoming
/// reachability: their incoming step is not required and no demand or
/// wake-up starts a probe.
pub proof fn direct_profiles_never_publish(s: IrohLifecycleState, demanded: bool, dormant: bool)
    requires
        s.profile != IrohEndpointProfile::AlwaysReachable,
    ensures
        spec_incoming(s) == IncomingReachabilityState::Stopped,
        spec_incoming_commissioning(spec_incoming(s)) == CommissioningState::NotRequired,
        !(demanded && !s.reachability_demand && !s.dormant && !s.stopped && s.profile
            == IrohEndpointProfile::AlwaysReachable && !s.online && s.endpoint
            != EndpointPresence::Absent),
        !(!dormant && s.dormant && s.profile == IrohEndpointProfile::AlwaysReachable
            && s.reachability_demand),
        !(dormant && s.profile == IrohEndpointProfile::AlwaysReachable),
{
}

/// Law: once the demand is withdrawn, the lifecycle never reports reachable
/// until a new probe has succeeded: withdrawing clears the evidence.
pub proof fn withdrawn_demand_is_never_reachable(s: IrohLifecycleState)
    requires
        !s.reachability_demand,
    ensures
        spec_incoming(s) != IncomingReachabilityState::Reachable,
{
}

/// Law: an idle relay-backed endpoint (bound, awake, no demand) counts as
/// commissioned for the local shell: its incoming step is not pending.
pub proof fn idle_endpoint_is_commissioned(s: IrohLifecycleState)
    requires
        !s.stopped,
        !s.dormant,
        s.endpoint == EndpointPresence::Open,
        !s.reachability_demand,
    ensures
        spec_local_commissioning(spec_state(s)) == CommissioningState::Ready,
        spec_incoming_commissioning(spec_incoming(s)) == CommissioningState::NotRequired,
{
}

/// What to do after a network change.
#[derive(Clone, Copy, Debug, PartialEq, Eq, Structural)]
pub struct NetworkChangeActions {
    pub cancel_probe: bool,
    /// Migrate the endpoint to the new network in the background.
    pub migrate: bool,
    /// Start a bounded online probe for the new generation.
    pub spawn_probe: bool,
    pub generation: u64,
    pub notify: bool,
}

/// How a background route migration ends.
#[derive(Clone, Copy, Debug, PartialEq, Eq, Structural)]
pub enum MigrationOutcome {
    /// The lifecycle stopped or a newer network change superseded this one:
    /// leave the route to the newer migration.
    Superseded,
    /// The migration did not finish in time; the route stays stale and the
    /// runtime is woken.
    TimedOut,
    /// The route is fresh again; `address_changed` bumps the route
    /// generation.
    Completed { address_changed: bool },
}

/// The outcome of a migration started for `generation`, seen after it ran.
pub fn migration_outcome(
    stopped: bool,
    current_generation: u64,
    generation: u64,
    timed_out: bool,
    address_changed: bool,
) -> (r: MigrationOutcome)
    ensures
        r == if stopped || current_generation != generation {
            MigrationOutcome::Superseded
        } else if timed_out {
            MigrationOutcome::TimedOut
        } else {
            MigrationOutcome::Completed { address_changed }
        },
{
    if stopped || current_generation != generation {
        MigrationOutcome::Superseded
    } else if timed_out {
        MigrationOutcome::TimedOut
    } else {
        MigrationOutcome::Completed { address_changed }
    }
}

/// Most attempts one online probe makes.
pub const MAX_ONLINE_PROBE_ATTEMPTS: u32 = 3;

/// Longest wait between probe attempts, in seconds.
pub const MAX_PROBE_RETRY_SECS: u64 = 300;

/// A bounded online probe for one network generation: attempts wait 30
/// seconds after the first failure, doubling up to five minutes.
#[derive(Clone, Copy, Debug, PartialEq, Eq, Structural)]
pub struct OnlineProbe {
    pub generation: u64,
    pub attempts: u32,
    pub retry_delay_secs: u64,
}

/// What the probe does after an attempt.
#[derive(Clone, Copy, Debug, PartialEq, Eq, Structural)]
pub enum ProbeStep {
    /// The lifecycle stopped, went dormant or moved to a newer generation.
    Abandon,
    /// Reachable: record it, wake the runtime, stop probing.
    Reachable,
    /// Unreachable and out of attempts: record it, wake, stop.
    GiveUp,
    /// Unreachable: record it, wake, and try again after the delay.
    RetryAfter(u64),
}

/// Whether a probe for `generation` may still act.
pub open spec fn probe_current(stopped: bool, dormant: bool, generation: u64, current_generation: u64) -> bool {
    !stopped && !dormant && current_generation == generation
}

impl OnlineProbe {
    pub fn new(generation: u64) -> (r: Self)
        ensures
            r.generation == generation,
            r.attempts == 0,
            r.retry_delay_secs == 30,
    {
        OnlineProbe { generation, attempts: 0, retry_delay_secs: 30 }
    }

    /// Before an attempt: whether it runs. It runs only while the
    /// lifecycle is live, awake, still demands reachability and is on the
    /// probe's generation; a run counts as an attempt.
    pub fn begin_attempt(&mut self, stopped: bool, dormant: bool, demanded: bool, current_generation: u64) -> (r: bool)
        ensures
            r == (probe_current(stopped, dormant, old(self).generation, current_generation) && demanded),
            final(self).generation == old(self).generation,
            final(self).retry_delay_secs == old(self).retry_delay_secs,
            final(self).attempts == if r {
                old(self).attempts.saturating_add(1)
            } else {
                old(self).attempts
            },
    {
        if stopped || dormant || !demanded || current_generation != self.generation {
            return false;
        }
        self.attempts = self.attempts.saturating_add(1);
        true
    }

    /// After an attempt: what the probe does next.
    pub fn finish_attempt(&mut self, reachable: bool, stopped: bool, dormant: bool, current_generation: u64) -> (r: ProbeStep)
        requires
            old(self).retry_delay_secs <= MAX_PROBE_RETRY_SECS,
        ensures
            final(self).generation == old(self).generation,
            final(self).attempts == old(self).attempts,
            final(self).retry_delay_secs <= MAX_PROBE_RETRY_SECS,
            r == spec_probe_step(*old(self), reachable, stopped, dormant, current_generation),
            r is RetryAfter ==> final(self).retry_delay_secs == if old(self).retry_delay_secs * 2
                < MAX_PROBE_RETRY_SECS {
                (old(self).retry_delay_secs * 2) as u64
            } else {
                MAX_PROBE_RETRY_SECS
            },
            !(r is RetryAfter) ==> final(self).retry_delay_secs == old(self).retry_delay_secs,
    {
        if stopped || dormant || current_generation != self.generation {
            return ProbeStep::Abandon;
        }
        if reachable {
            return ProbeStep::Reachable;
        }
        if self.attempts >= MAX_ONLINE_PROBE_ATTEMPTS {
            return ProbeStep::GiveUp;
        }
        let delay = self.retry_delay_secs;
        let doubled = delay * 2;
        self.retry_delay_secs = if doubled < MAX_PROBE_RETRY_SECS { doubled } else { MAX_PROBE_RETRY_SECS };
        ProbeStep::RetryAfter(delay)
    }
}

/// What a probe does after an attempt: abandon when no longer current,
/// stop when reachable or out of attempts, else retry after its delay.
pub open spec fn spec_probe_step(
    probe: OnlineProbe,
    reachable: bool,
    stopped: bool,
    dormant: bool,
    current_generation: u64,
) -> ProbeStep {
    if !probe_current(stopped, dormant, probe.generation, current_generation) {
        ProbeStep::Abandon
    } else if reachable {
        ProbeStep::Reachable
    } else if probe.attempts >= MAX_ONLINE_PROBE_ATTEMPTS {
        ProbeStep::GiveUp
    } else {
        ProbeStep::RetryAfter(probe.retry_delay_secs)
    }
}

/// An online probe retries only while it has made fewer than
/// `MAX_ONLINE_PROBE_ATTEMPTS` attempts, so it makes at most that many.
pub proof fn online_probe_is_bounded(
    probe: OnlineProbe,
    reachable: bool,
    stopped: bool,
    dormant: bool,
    current_generation: u64,
)
    ensures
        spec_probe_step(probe, reachable, stopped, dormant, current_generation) is RetryAfter
            ==> probe.attempts < MAX_ONLINE_PROBE_ATTEMPTS,
{
}

/// The diagnostic name of an incoming reachability state.
pub fn incoming_reachability_name(state: IncomingReachabilityState) -> (r: &'static str)
    ensures
        r@ == match state {
            IncomingReachabilityState::Unknown => "unknown"@,
            IncomingReachabilityState::Publishing => "publishing"@,
            IncomingReachabilityState::Reachable => "reachable"@,
            IncomingReachabilityState::Degraded => "degraded"@,
            IncomingReachabilityState::Failed => "failed"@,
            IncomingReachabilityState::Stopped => "stopped"@,
        },
{
    match state {
        IncomingReachabilityState::Unknown => "unknown",
        IncomingReachabilityState::Publishing => "publishing",
        IncomingReachabilityState::Reachable => "reachable",
        IncomingReachabilityState::Degraded => "degraded",
        IncomingReachabilityState::Failed => "failed",
        IncomingReachabilityState::Stopped => "stopped",
    }
}

/// ALPN of authenticated peer connections, `torca/peer/1`.
pub const PEER_ALPN: [u8; 12] = [116, 111, 114, 99, 97, 47, 112, 101, 101, 114, 47, 49];

/// ALPN of direct pairing connections, `torca/pairing/1`.
pub const PAIRING_ALPN: [u8; 15] = [116, 111, 114, 99, 97, 47, 112, 97, 105, 114, 105, 110, 103, 47, 49];

/// ALPN of radio media connections, `torca/radio/1`.
pub const RADIO_ALPN: [u8; 13] = [116, 111, 114, 99, 97, 47, 114, 97, 100, 105, 111, 47, 49];

/// Most accepted peer or radio streams waiting for the runtime.
pub const MAX_PENDING_INCOMING_STREAMS: usize = 32;

/// Most accepted pairing connections waiting for the pairing server.
pub const MAX_PENDING_PAIRING_CONNECTIONS: usize = 32;

/// Where an accepted connection goes, by its ALPN.
#[derive(Clone, Copy, Debug, PartialEq, Eq, Structural)]
pub enum IncomingRoute {
    Pairing,
    Peer,
    Radio,
    /// Closed at once as an unsupported ALPN.
    Unsupported,
}

pub open spec fn spec_route_for_alpn(alpn: Seq<u8>) -> IncomingRoute {
    if alpn == PAIRING_ALPN@ {
        IncomingRoute::Pairing
    } else if alpn == PEER_ALPN@ {
        IncomingRoute::Peer
    } else if alpn == RADIO_ALPN@ {
        IncomingRoute::Radio
    } else {
        IncomingRoute::Unsupported
    }
}

fn bytes_equal(a: &[u8], b: &[u8]) -> (r: bool)
    ensures
        r == (a@ == b@),
{
    if a.len() != b.len() {
        return false;
    }
    let mut i: usize = 0;
    while i < a.len()
        invariant
            i <= a@.len(),
            a@.len() == b@.len(),
            forall|k: int| 0 <= k < i ==> a@[k] == b@[k],
        decreases a@.len() - i,
    {
        if a[i] != b[i] {
            return false;
        }
        i = i + 1;
    }
    assert(a@ =~= b@);
    true
}

/// The route of an accepted connection.
pub fn route_for_alpn(alpn: &[u8]) -> (r: IncomingRoute)
    ensures
        r == spec_route_for_alpn(alpn@),
{
    let pairing = PAIRING_ALPN;
    let peer = PEER_ALPN;
    let radio = RADIO_ALPN;
    if bytes_equal(alpn, pairing.as_slice()) {
        IncomingRoute::Pairing
    } else if bytes_equal(alpn, peer.as_slice()) {
        IncomingRoute::Peer
    } else if bytes_equal(alpn, radio.as_slice()) {
        IncomingRoute::Radio
    } else {
        IncomingRoute::Unsupported
    }
}

/// What happens to an accepted connection on its route, given how many
/// are already waiting there.
#[derive(Clone, Copy, Debug, PartialEq, Eq, Structural)]
pub enum Admission {
    Queue,
    /// Close the connection with the reason that names the full queue or
    /// the unsupported ALPN.
    Close,
}

pub open spec fn spec_admission(route: IncomingRoute, waiting: usize) -> Admission {
    match route {
        IncomingRoute::Unsupported => Admission::Close,
        IncomingRoute::Pairing => if waiting >= MAX_PENDING_PAIRING_CONNECTIONS {
            Admission::Close
        } else {
            Admission::Queue
        },
        _ => if waiting >= MAX_PENDING_INCOMING_STREAMS {
            Admission::Close
        } else {
            Admission::Queue
        },
    }
}

pub fn admission(route: IncomingRoute, waiting: usize) -> (r: Admission)
    ensures
        r == spec_admission(route, waiting),
{
    match route {
        IncomingRoute::Unsupported => Admission::Close,
        IncomingRoute::Pairing => if waiting >= MAX_PENDING_PAIRING_CONNECTIONS {
            Admission::Close
        } else {
            Admission::Queue
        },
        _ => if waiting >= MAX_PENDING_INCOMING_STREAMS {
            Admission::Close
        } else {
            Admission::Queue
        },
    }
}

/// The close reason sent when a route refuses a connection.
pub fn close_reason(route: IncomingRoute) -> (r: &'static str)
    ensures
        r@ == match route {
            IncomingRoute::Pairing => "pairing queue full"@,
            IncomingRoute::Peer => "peer queue full"@,
            IncomingRoute::Radio => "radio queue full"@,
            IncomingRoute::Unsupported => "unsupported ALPN"@,
        },
{
    match route {
        IncomingRoute::Pairing => "pairing queue full",
        IncomingRoute::Peer => "peer queue full",
        IncomingRoute::Radio => "radio queue full",
        IncomingRoute::Unsupported => "unsupported ALPN",
    }
}

/// Whether connections accepted so far must be dropped before serving the
/// endpoint of `generation`: they belong to an earlier endpoint.
pub fn generation_changed(observed: Option<u64>, generation: u64) -> (r: bool)
    ensures
        r == (observed matches Some(previous) && previous != generation),
{
    match observed {
        Some(previous) => previous != generation,
        None => false,
    }
}

/// Every route's queue stays within its bound: a connection is queued only
/// while fewer than the bound are waiting.
pub proof fn incoming_queues_are_bounded(route: IncomingRoute, waiting: usize)
    ensures
        spec_admission(route, waiting) == Admission::Queue ==> waiting + 1 <= if route
            == IncomingRoute::Pairing {
            MAX_PENDING_PAIRING_CONNECTIONS
        } else {
            MAX_PENDING_INCOMING_STREAMS
        },
        spec_admission(IncomingRoute::Unsupported, waiting) == Admission::Close,
{
}

/// Law: a probed endpoint is reported reachable, and only then. A
/// relay-backed lifecycle that runs, is awake, has its endpoint open, is
/// asked for reachability and whose online probe succeeded reports
/// incoming reachability `Reachable`, its incoming step ready; any other
/// lifecycle never reports `Reachable`.
pub proof fn probed_endpoint_is_reachable(s: IrohLifecycleState)
    ensures
        (s.profile == IrohEndpointProfile::AlwaysReachable && !s.stopped && !s.dormant && s.endpoint
            == EndpointPresence::Open && s.reachability_demand && s.online) ==> (spec_incoming(s)
            == IncomingReachabilityState::Reachable && spec_incoming_commissioning(spec_incoming(s))
            == CommissioningState::Ready),
        spec_incoming(s) == IncomingReachabilityState::Reachable ==> (s.profile
            == IrohEndpointProfile::AlwaysReachable && !s.stopped && !s.dormant && s.endpoint == EndpointPresence::Open
            && s.reachability_demand && s.online),
{
}

} // verus!
