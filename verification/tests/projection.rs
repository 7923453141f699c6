use torca::contract::application::{
    ApplicationCommandResult, ApplicationError, ApplicationSnapshot, ApplicationSnapshotContext,
    AvatarSummary, BootstrapSnapshot, BootstrapStep, ChannelActivity, ConnectivitySummary,
    ContactRecord, ContactVerification, ConversationRecord, IdentitySummary, MessageRecord,
    NetworkSnapshot, PairingSession, PeerActivity, PeerHealth, PendingOperation,
    PendingOperationKind, Probe, ProbeTarget, RemoteProposal, TransportKind,
};
use torca::contract::names::{
    BootstrapPhase, BootstrapStepId, BootstrapStepState, CommissioningState, CommunicationState,
    ContactStatus, ConversationStatus, MessageDirection, MessageStatus, PairingRole, PairingState,
    PeerConnectionStatus, PeerHealthQuality, ProbeStatus,
};
use torca::contract::projection::{
    bridge_message_from_domain, bridge_radio, bridge_result_from_application,
    bridge_snapshot_from_application, fallback_contact_name, peer_indicator, transport_indicator,
};
use torca::contract::CONTRACT_VERSION;

fn idle() -> ChannelActivity {
    ChannelActivity {
        last_tx_at_ms: None,
        last_rx_at_ms: None,
        tx_sequence: 0,
        rx_sequence: 0,
        in_flight: 0,
        queued: 0,
    }
}

fn network(provider: TransportKind) -> NetworkSnapshot {
    NetworkSnapshot {
        provider,
        communication_step: CommissioningState::Pending,
        endpoint_summary: Some("iroh:abc".to_owned()),
        tor: CommunicationState::Ready,
        probes: vec![
            Probe {
                target: ProbeTarget::Other,
                status: ProbeStatus::Failed,
                diagnostic_code: "OTHER".to_owned(),
                latency_ms: None,
            },
            Probe {
                target: ProbeTarget::Relay,
                status: ProbeStatus::Healthy,
                diagnostic_code: "RELAY_OK".to_owned(),
                latency_ms: Some(42),
            },
        ],
        connectivity: ConnectivitySummary {
            communication: ChannelActivity {
                last_tx_at_ms: Some(10),
                last_rx_at_ms: Some(20),
                tx_sequence: u64::MAX,
                rx_sequence: 5,
                in_flight: 1,
                queued: 2,
            },
            tor: idle(),
            relay: idle(),
            peer: ChannelActivity { last_tx_at_ms: Some(7), ..idle() },
            peer_latency_ms: Some(9),
            peers_ready: 0,
            peers_total: 2,
        },
        relay_info: None,
        onion_address: None,
        peers: vec![("c2".to_owned(), PeerConnectionStatus::Connecting)],
        peer_health: vec![(
            "contact-one-long-id".to_owned(),
            PeerHealth {
                state: PeerConnectionStatus::Ready,
                quality: PeerHealthQuality::Good,
                rtt_ms: Some(30),
                last_success_at_ms: Some(1000),
                consecutive_failures: 0,
                reconnect_attempt: 1,
            },
        )],
        peer_activity: vec![(
            "contact-one-long-id".to_owned(),
            PeerActivity { last_activity_at_ms: Some(900), sequence: 4 },
        )],
        contact_names: vec![("c2".to_owned(), "Bob".to_owned())],
        contact_verifications: vec![(
            "contact-one-long-id".to_owned(),
            ContactVerification { verified: true, verified_at_ms: Some(77) },
        )],
    }
}

fn step(id: BootstrapStepId, state: BootstrapStepState) -> BootstrapStep {
    BootstrapStep { id, state, diagnostic_code: None, attempt: 1 }
}

fn pairing(id: &str, state: PairingState) -> PairingSession {
    PairingSession {
        id: id.to_owned(),
        code: "ABC".to_owned(),
        invite_uri: None,
        role: PairingRole::Creator,
        state,
        expires_at_ms: 5,
        local_approved: false,
        remote_approved: true,
        remote: Some(RemoteProposal {
            identity_id: "remote-identity".to_owned(),
            display_name: "Remote".to_owned(),
            avatar: Some(AvatarSummary {
                genome_hash: vec![0x00, 0xab, 0x7f],
                generator_version: "g1".to_owned(),
                catalog_version: "c1".to_owned(),
            }),
        }),
    }
}

fn context(provider: TransportKind) -> ApplicationSnapshotContext {
    ApplicationSnapshotContext {
        application: ApplicationSnapshot {
            identity: Some(IdentitySummary {
                identity_id: "me".to_owned(),
                display_name: Some("Alice".to_owned()),
            }),
            reactions: Vec::new(),
            pairings: vec![
                pairing("p-open", PairingState::Open),
                pairing("p-done", PairingState::Completed),
                pairing("p-wait", PairingState::AwaitingApproval),
                pairing("p-expired", PairingState::Expired),
            ],
            contacts: vec![
                ContactRecord {
                    id: "contact-one-long-id".to_owned(),
                    remote_identity_id: "r1".to_owned(),
                    status: ContactStatus::Active,
                    created_at_ms: 3,
                    onion_address: "abc.onion".to_owned(),
                    route_providers: vec!["tor".to_owned()],
                },
                ContactRecord {
                    id: "c2".to_owned(),
                    remote_identity_id: "r2".to_owned(),
                    status: ContactStatus::Blocked,
                    created_at_ms: 4,
                    onion_address: "def.onion".to_owned(),
                    route_providers: vec!["iroh".to_owned()],
                },
            ],
            conversations: vec![ConversationRecord {
                id: "conv".to_owned(),
                contact_id: "c2".to_owned(),
                status: ConversationStatus::Archived,
            }],
        },
        network: network(provider),
        attachments: Vec::new(),
        bootstrap: BootstrapSnapshot {
            phase: BootstrapPhase::ReadyForProfile,
            steps: vec![
                step(BootstrapStepId::Preferences, BootstrapStepState::Ready),
                step(BootstrapStepId::SecureStorage, BootstrapStepState::Ready),
                step(BootstrapStepId::CommunicationRuntime, BootstrapStepState::Running),
                step(BootstrapStepId::UserProfile, BootstrapStepState::Pending),
                step(BootstrapStepId::Rendezvous, BootstrapStepState::Blocked),
            ],
        },
        identity_fingerprint: Some("fp".to_owned()),
        identity_fingerprints: vec![("remote-identity".to_owned(), "remote-fp".to_owned())],
        safety_numbers: vec![("c2".to_owned(), "12345".to_owned())],
        pending_operations: vec![
            PendingOperation {
                id: "op1".to_owned(),
                resource_id: "res".to_owned(),
                kind: PendingOperationKind::JoinPairing,
                attempts: 0,
                next_attempt_at_ms: 1,
                created_at_ms: 0,
                last_error: None,
            },
            PendingOperation {
                id: "op2".to_owned(),
                resource_id: "res".to_owned(),
                kind: PendingOperationKind::MarkConversationRead,
                attempts: 3,
                next_attempt_at_ms: 1,
                created_at_ms: 0,
                last_error: Some("boom".to_owned()),
            },
        ],
        radio: None,
    }
}

#[test]
fn tor_snapshot_projects_transport_and_relay_probe() {
    let snapshot = bridge_snapshot_from_application(context(TransportKind::Tor));
    assert_eq!(snapshot.contract_version, CONTRACT_VERSION);
    assert_eq!(snapshot.communication_provider, "tor");
    assert_eq!(snapshot.communication_state, "starting");
    assert_eq!(snapshot.tor_state, "ready");
    let transport = &snapshot.transport;
    assert_eq!(transport.communication.code, "COMMUNICATION_STARTING");
    assert_eq!(transport.communication.last_activity_at_ms, Some(20));
    assert_eq!(transport.communication.activity_sequence, u64::MAX);
    assert_eq!(transport.tor.code, "TOR_READY");
    assert_eq!(transport.relay.state, "healthy");
    assert_eq!(transport.relay.code, "RELAY_OK");
    assert_eq!(transport.relay.latency_ms, Some(42));
    assert_eq!(transport.peer.state, "disconnected");
    assert_eq!(transport.peer.code, "PEER_DISCONNECTED");
    assert_eq!(transport.peer.latency_ms, Some(9));
    assert_eq!(transport.peer.last_activity_at_ms, Some(7));
    assert_eq!(snapshot.contacts[0].onion_address.as_deref(), Some("abc.onion"));
    assert!(snapshot.contacts[0].endpoint_available);
    assert!(!snapshot.contacts[1].endpoint_available);
}

#[test]
fn direct_provider_snapshot_hides_tor_projection() {
    let snapshot = bridge_snapshot_from_application(context(TransportKind::Iroh));
    assert_eq!(snapshot.communication_provider, "iroh");
    assert_eq!(snapshot.tor_state, "unsupported");
    assert_eq!(snapshot.transport.tor.code, "TOR_UNSUPPORTED");
    assert_eq!(snapshot.transport.relay.state, "unknown");
    assert_eq!(snapshot.transport.relay.code, "RELAY_UNAVAILABLE");
    assert_eq!(snapshot.transport.relay.latency_ms, None);
    assert_eq!(snapshot.contacts[0].onion_address, None);
    assert!(snapshot.contacts[1].endpoint_available);
}

#[test]
fn snapshot_keeps_only_visible_steps_and_live_pairings() {
    let snapshot = bridge_snapshot_from_application(context(TransportKind::Iroh));
    let ids: Vec<&str> = snapshot.bootstrap_steps.iter().map(|s| s.id.as_str()).collect();
    assert_eq!(ids, vec!["local_storage", "communication_runtime", "rendezvous"]);
    assert_eq!(snapshot.bootstrap_steps[0].progress, 100);
    assert_eq!(snapshot.bootstrap_steps[1].progress, 0);
    assert_eq!(snapshot.bootstrap_steps[2].state, "blocked");
    assert_eq!(snapshot.bootstrap_phase, "ready_for_profile");
    let pairings: Vec<&str> = snapshot.pairings.iter().map(|p| p.id.as_str()).collect();
    assert_eq!(pairings, vec!["p-open", "p-wait"]);
    let p = &snapshot.pairings[1];
    assert_eq!(p.state, "awaiting_approval");
    assert_eq!(p.invite_uri, "");
    assert_eq!(p.remote_fingerprint.as_deref(), Some("remote-fp"));
    assert_eq!(p.remote_avatar_hash.as_deref(), Some("00ab7f"));
    assert!(snapshot.messages.is_empty());
    assert_eq!(snapshot.unread_messages_count, 0);
}

#[test]
fn snapshot_contacts_use_side_tables_and_fallback_names() {
    let snapshot = bridge_snapshot_from_application(context(TransportKind::Iroh));
    let first = &snapshot.contacts[0];
    assert_eq!(first.display_name, "Contact contact-");
    assert_eq!(first.connection_state, "ready");
    assert_eq!(first.presence_state, "online");
    assert_eq!(first.peer_health.quality, "good");
    assert_eq!(first.peer_health.last_activity_at_ms, Some(900));
    assert_eq!(first.peer_health.activity_sequence, 4);
    assert_eq!(first.verification_status, "verified");
    assert_eq!(first.verified_at_ms, Some(77));
    assert_eq!(first.safety_number, "");
    let second = &snapshot.contacts[1];
    assert_eq!(second.display_name, "Bob");
    assert_eq!(second.status, "blocked");
    assert_eq!(second.connection_state, "connecting");
    assert_eq!(second.presence_state, "unknown");
    assert_eq!(second.peer_health.quality, "unknown");
    assert_eq!(second.verification_status, "unverified");
    assert_eq!(second.safety_number, "12345");
    assert_eq!(snapshot.conversations[0].status, "archived");
    assert_eq!(snapshot.conversations[0].unread_count, 0);
}

#[test]
fn pending_operations_name_their_dependency() {
    let snapshot = bridge_snapshot_from_application(context(TransportKind::Tor));
    let first = &snapshot.pending_operations[0];
    assert_eq!(first.kind, "pairing.join");
    assert_eq!(first.dependency, "communication_and_rendezvous");
    assert_eq!(first.state, "queued");
    let second = &snapshot.pending_operations[1];
    assert_eq!(second.kind, "conversation.mark_read");
    assert_eq!(second.dependency, "runtime");
    assert_eq!(second.state, "retrying");
}

#[test]
fn missing_radio_projects_an_empty_radio() {
    let radio = bridge_radio(&None);
    assert!(radio.contacts.is_empty());
    assert!(radio.session.is_none());
    assert!(radio.audio.input_devices.is_empty());
}

#[test]
fn fallback_names_cut_at_eight_bytes_on_a_character_boundary() {
    assert_eq!(fallback_contact_name("0123456789abcdef"), "Contact 01234567");
    assert_eq!(fallback_contact_name("short"), "Contact short");
    assert_eq!(fallback_contact_name("ééééé"), "Contact éééé");
    assert_eq!(fallback_contact_name("aéééé"), "Contact aéééé");
}

#[test]
fn indicators_take_the_latest_activity() {
    let (state, code) = peer_indicator(0, 0);
    assert_eq!((state, code), ("inactive", "PEER_INACTIVE"));
    assert_eq!(peer_indicator(3, 1), ("ready", "PEER_READY"));
    let indicator = transport_indicator(
        "s".to_owned(),
        "c".to_owned(),
        None,
        &ChannelActivity { last_tx_at_ms: None, last_rx_at_ms: Some(3), ..idle() },
    );
    assert_eq!(indicator.last_activity_at_ms, Some(3));
}

#[test]
fn message_and_result_projection() {
    let message = bridge_message_from_domain(&MessageRecord {
        id: "m".to_owned(),
        conversation_id: "c".to_owned(),
        body: "hi".to_owned(),
        direction: MessageDirection::Inbound,
        status: MessageStatus::Delivered,
        reply_to_message_id: None,
        created_at_ms: 1,
        updated_at_ms: 2,
        sent_at_ms: None,
        delivered_at_ms: Some(3),
        read_at_ms: None,
        attempts: 2,
    });
    assert_eq!(message.direction, "inbound");
    assert_eq!(message.status, "delivered");
    assert_eq!(message.attempt_count, 2);
    let ok = bridge_result_from_application(Ok(ApplicationCommandResult {
        kind: "pairing.created".to_owned(),
        resource_id: Some("p".to_owned()),
        invite_uri: Some("torca://x".to_owned()),
    }));
    assert!(ok.ok);
    assert_eq!(ok.invite_uri.as_deref(), Some("torca://x"));
    let err = bridge_result_from_application(Err(ApplicationError {
        message: "no".to_owned(),
        code: "E_NO".to_owned(),
    }));
    assert!(!err.ok);
    assert_eq!(err.kind, "error");
    assert_eq!(err.error_code.as_deref(), Some("E_NO"));
}
