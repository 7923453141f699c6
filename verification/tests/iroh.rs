use torca::contract::names::CommunicationState;
use torca::iroh_endpoint::{EndpointSlotState, WaitStep};
use torca::iroh_lifecycle::shutdown_provider;
use std::collections::VecDeque;
use torca::iroh_lifecycle::{local_route_outcome, route_readiness, ProviderRouteError};
use torca::iroh_lifecycle::{peer_endpoint_readiness, BootstrapUnavailable};
use torca::iroh_lifecycle::{push_inbound, InboundItem, MAX_PENDING_INBOUND_FRAMES};
use torca::iroh_profile::IrohEndpointProfile;
use torca::iroh_lifecycle::{
    incoming_reachability_name, migration_outcome, EndpointPresence, IncomingReachabilityState,
    IrohLifecycleState, MigrationOutcome, OnlineProbe, ProbeStep,
};
use torca::iroh_profile::IrohEndpointProfile as Profile;
use torca::iroh_lifecycle::{
    admission, close_reason, generation_changed, route_for_alpn, Admission, IncomingRoute,
    MAX_PENDING_INCOMING_STREAMS, MAX_PENDING_PAIRING_CONNECTIONS,
};

#[test]
fn endpoint_profiles_are_explicit_and_unknown_values_are_safe() {
    assert_eq!(IrohEndpointProfile::from_wire("always"), IrohEndpointProfile::AlwaysReachable);
    assert_eq!(IrohEndpointProfile::from_wire("direct-only"), IrohEndpointProfile::DirectOnly);
    assert_eq!(IrohEndpointProfile::from_wire("local"), IrohEndpointProfile::LocalOnly);
    assert_eq!(IrohEndpointProfile::from_wire("unexpected").wire_value(), "always");
    assert!(IrohEndpointProfile::AlwaysReachable.supports_incoming_reachability());
    assert!(!IrohEndpointProfile::DirectOnly.supports_incoming_reachability());
    assert!(!IrohEndpointProfile::LocalOnly.supports_incoming_reachability());
}

#[test]
fn inbound_frames_are_bounded_and_report_overflow() {
    let mut queue = VecDeque::new();
    for _ in 0..MAX_PENDING_INBOUND_FRAMES {
        assert!(push_inbound(&mut queue, InboundItem::Frame(vec![1])));
    }
    assert!(!push_inbound(&mut queue, InboundItem::Frame(vec![2])));
    assert_eq!(queue.len(), MAX_PENDING_INBOUND_FRAMES);
    assert!(matches!(queue.back(), Some(InboundItem::Error(_))));
}

fn lifecycle(profile: Profile) -> IrohLifecycleState {
    IrohLifecycleState {
        profile,
        stopped: false,
        dormant: false,
        endpoint: EndpointPresence::Open,
        address_available: true,
        route_fresh: true,
        reachability_demand: true,
        online: true,
        network_generation: 7,
    }
}

#[test]
fn network_change_invalidates_route_and_reprobes_under_demand() {
    let mut state = lifecycle(Profile::AlwaysReachable);
    let actions = state.network_changed();
    assert!(!state.route_fresh);
    assert!(!state.online);
    assert_eq!(state.network_generation, 8);
    assert!(actions.migrate && actions.spawn_probe && actions.cancel_probe && actions.notify);
    assert_eq!(actions.generation, 8);
    assert_eq!(state.incoming_reachability_state(), IncomingReachabilityState::Publishing);

    let mut direct = lifecycle(Profile::DirectOnly);
    let actions = direct.network_changed();
    assert!(actions.migrate);
    assert!(!actions.spawn_probe);

    let mut absent = lifecycle(Profile::AlwaysReachable);
    absent.endpoint = EndpointPresence::Absent;
    let actions = absent.network_changed();
    assert!(!actions.migrate && !actions.spawn_probe);
}

#[test]
fn migrations_of_older_generations_are_superseded() {
    assert_eq!(migration_outcome(false, 9, 8, false, true), MigrationOutcome::Superseded);
    assert_eq!(migration_outcome(true, 8, 8, false, true), MigrationOutcome::Superseded);
    assert_eq!(migration_outcome(false, 8, 8, true, false), MigrationOutcome::TimedOut);
    assert_eq!(
        migration_outcome(false, 8, 8, false, true),
        MigrationOutcome::Completed { address_changed: true }
    );
}

#[test]
fn online_probe_backs_off_and_gives_up_after_three_attempts() {
    let mut probe = OnlineProbe::new(4);
    assert!(probe.begin_attempt(false, false, true, 4));
    assert_eq!(probe.finish_attempt(false, false, false, 4), ProbeStep::RetryAfter(30));
    assert!(probe.begin_attempt(false, false, true, 4));
    assert_eq!(probe.finish_attempt(false, false, false, 4), ProbeStep::RetryAfter(60));
    assert!(probe.begin_attempt(false, false, true, 4));
    assert_eq!(probe.finish_attempt(false, false, false, 4), ProbeStep::GiveUp);
    let mut other = OnlineProbe::new(4);
    assert!(!other.begin_attempt(false, false, false, 4));
    assert!(!other.begin_attempt(false, false, true, 5));
    assert!(other.begin_attempt(false, false, true, 4));
    assert_eq!(other.finish_attempt(true, false, false, 4), ProbeStep::Reachable);
    assert_eq!(other.finish_attempt(true, false, true, 4), ProbeStep::Abandon);
    let mut slow = OnlineProbe { generation: 1, attempts: 1, retry_delay_secs: 240 };
    assert_eq!(slow.finish_attempt(false, false, false, 1), ProbeStep::RetryAfter(240));
    assert_eq!(slow.retry_delay_secs, 300);
}

#[test]
fn lifecycle_failure_and_reachability_names() {
    let mut state = lifecycle(Profile::AlwaysReachable);
    assert!(!state.maintenance_failed());
    state.endpoint = EndpointPresence::Closed;
    assert!(state.maintenance_failed());
    state.stopped = true;
    assert!(!state.maintenance_failed());
    assert_eq!(incoming_reachability_name(IncomingReachabilityState::Publishing), "publishing");
    assert_eq!(incoming_reachability_name(IncomingReachabilityState::Stopped), "stopped");
}

#[test]
fn incoming_connections_are_routed_by_alpn_and_bounded() {
    assert_eq!(route_for_alpn(b"torca/peer/1"), IncomingRoute::Peer);
    assert_eq!(route_for_alpn(b"torca/pairing/1"), IncomingRoute::Pairing);
    assert_eq!(route_for_alpn(b"torca/radio/1"), IncomingRoute::Radio);
    assert_eq!(route_for_alpn(b"torca/peer/2"), IncomingRoute::Unsupported);
    assert_eq!(admission(IncomingRoute::Peer, MAX_PENDING_INCOMING_STREAMS - 1), Admission::Queue);
    assert_eq!(admission(IncomingRoute::Radio, MAX_PENDING_INCOMING_STREAMS), Admission::Close);
    assert_eq!(admission(IncomingRoute::Pairing, MAX_PENDING_PAIRING_CONNECTIONS), Admission::Close);
    assert_eq!(admission(IncomingRoute::Unsupported, 0), Admission::Close);
    assert_eq!(close_reason(IncomingRoute::Radio), "radio queue full");
    assert_eq!(close_reason(IncomingRoute::Unsupported), "unsupported ALPN");
    assert!(!generation_changed(None, 3));
    assert!(!generation_changed(Some(3), 3));
    assert!(generation_changed(Some(2), 3));
}

#[test]
fn configured_profile_prefers_the_build_value() {
    assert_eq!(Profile::from_configured(Some("local"), Some("direct")), Profile::LocalOnly);
    assert_eq!(Profile::from_configured(None, Some(" Direct-Only ")), Profile::DirectOnly);
    assert_eq!(Profile::from_configured(None, None), Profile::AlwaysReachable);
}

#[test]
fn routes_are_handed_out_only_when_fresh_and_dialable() {
    assert_eq!(route_readiness(false, Some(false)), Err(ProviderRouteError::Stale));
    assert_eq!(route_readiness(true, None), Err(ProviderRouteError::Unavailable));
    assert_eq!(route_readiness(true, Some(true)), Err(ProviderRouteError::Unavailable));
    assert_eq!(route_readiness(true, Some(false)), Ok(()));
    assert_eq!(local_route_outcome(Ok(vec![1, 2])), Ok(Some(vec![1, 2])));
    assert_eq!(local_route_outcome(Err(ProviderRouteError::Unavailable)), Ok(None));
    assert_eq!(local_route_outcome(Err(ProviderRouteError::Stale)), Err(ProviderRouteError::Stale));
}

#[test]
fn peer_endpoints_need_a_fresh_route_and_an_endpoint() {
    assert_eq!(peer_endpoint_readiness(false, true), Err(BootstrapUnavailable::RouteMigrating));
    assert_eq!(peer_endpoint_readiness(true, false), Err(BootstrapUnavailable::Dormant));
    assert_eq!(peer_endpoint_readiness(true, true), Ok(()));
}

#[test]
fn provider_shutdown_stops_lifecycle_and_terminates_the_slot() {
    let mut state = lifecycle(Profile::AlwaysReachable);
    let mut slot = EndpointSlotState::new();
    assert_eq!(state.local_endpoint_summary("node abc".to_owned()), Some("node abc".to_owned()));
    assert!(shutdown_provider(&mut state, &mut slot));
    assert_eq!(state.state(), CommunicationState::Stopped);
    assert_eq!(state.incoming_reachability_state(), IncomingReachabilityState::Stopped);
    assert_eq!(state.local_endpoint_summary("node abc".to_owned()), None);
    assert!(!state.online);
    assert_eq!(slot.wait_step(), WaitStep::Gone);
    assert!(slot.activation().is_err());
    let (before_state, before_slot) = (state, slot);
    assert!(!shutdown_provider(&mut state, &mut slot));
    assert_eq!(state, before_state);
    assert_eq!(slot, before_slot);
}

#[test]
fn finished_probe_keeps_its_delay_unless_it_retries() {
    let mut probe = OnlineProbe { generation: 2, attempts: 1, retry_delay_secs: 60 };
    assert_eq!(probe.finish_attempt(true, false, false, 2), ProbeStep::Reachable);
    assert_eq!(probe.retry_delay_secs, 60);
    assert_eq!(probe.finish_attempt(false, true, false, 2), ProbeStep::Abandon);
    assert_eq!(probe.retry_delay_secs, 60);
    let mut spent = OnlineProbe { generation: 2, attempts: 3, retry_delay_secs: 120 };
    assert_eq!(spent.finish_attempt(false, false, false, 2), ProbeStep::GiveUp);
    assert_eq!(spent.retry_delay_secs, 120);
}
