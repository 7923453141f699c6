use torca::contract::{
    BridgeAttachment, BridgeBootstrapStep, BridgeContact, BridgeMessage, BridgePeerHealth,
    BridgeRadio, BridgeRadioAudio, BridgeRadioContact, BridgeSnapshot, BridgeTransportIndicator,
    BridgeTransportStatus,
};
use torca::runtime_support::Level;
use torca::transition_log::TransitionLog;

fn indicator() -> BridgeTransportIndicator {
    BridgeTransportIndicator {
        state: "ready".to_owned(),
        code: "X".to_owned(),
        latency_ms: None,
        last_activity_at_ms: None,
        activity_sequence: 0,
        tx_sequence: 0,
        rx_sequence: 0,
        in_flight: 0,
        queued: 0,
    }
}

fn step(id: &str, state: &str, code: Option<&str>) -> BridgeBootstrapStep {
    BridgeBootstrapStep {
        id: id.to_owned(),
        state: state.to_owned(),
        code: code.map(str::to_owned),
        progress: 0,
        attempt: 0,
        started_at_ms: None,
        last_progress_at_ms: None,
        retry_at_ms: None,
    }
}

fn contact(id: &str, state: &str, attempt: u32) -> BridgeContact {
    BridgeContact {
        id: id.to_owned(),
        remote_identity_id: "r".to_owned(),
        display_name: "n".to_owned(),
        transport_provider: "iroh".to_owned(),
        endpoint_available: true,
        onion_address: None,
        status: "active".to_owned(),
        connection_state: state.to_owned(),
        presence_state: "unknown".to_owned(),
        last_seen_at_ms: None,
        safety_number: String::new(),
        peer_health: BridgePeerHealth {
            state: state.to_owned(),
            quality: "unknown".to_owned(),
            rtt_ms: None,
            last_success_at_ms: None,
            consecutive_failures: 0,
            reconnect_attempt: attempt,
            last_activity_at_ms: None,
            activity_sequence: 0,
        },
        verification_status: "unverified".to_owned(),
        verified_at_ms: None,
        created_at_ms: 0,
    }
}

fn snapshot(steps: Vec<BridgeBootstrapStep>, contacts: Vec<BridgeContact>) -> BridgeSnapshot {
    BridgeSnapshot {
        contract_version: 15,
        identity_name: None,
        identity_id: None,
        identity_fingerprint: None,
        communication_provider: "iroh".to_owned(),
        communication_state: "ready".to_owned(),
        endpoint_summary: None,
        tor_state: "unsupported".to_owned(),
        transport: BridgeTransportStatus {
            communication: indicator(),
            tor: indicator(),
            relay: indicator(),
            peer: indicator(),
            peers_ready: 0,
            peers_total: 0,
            relay_info: None,
        },
        onion_address: None,
        pairings: Vec::new(),
        contacts,
        conversations: Vec::new(),
        messages: vec![BridgeMessage {
            id: "m1".to_owned(),
            conversation_id: "c".to_owned(),
            body: "hello".to_owned(),
            direction: "outbound".to_owned(),
            status: "failed".to_owned(),
            reply_to_message_id: None,
            created_at_ms: 1,
            updated_at_ms: 2,
            sent_at_ms: Some(-5),
            delivered_at_ms: None,
            read_at_ms: None,
            attempt_count: 3,
        }],
        reactions: Vec::new(),
        attachments: vec![BridgeAttachment {
            id: "a1".to_owned(),
            message_id: "m1".to_owned(),
            name: "f".to_owned(),
            media_type: "text/plain".to_owned(),
            size: 10,
            status: "sending".to_owned(),
            offset: 4,
            attempt_count: 1,
            updated_at_ms: 0,
            direction: "outbound".to_owned(),
            last_error_code: None,
        }],
        pending_operations: Vec::new(),
        radio: BridgeRadio {
            active_contact_id: None,
            contacts: vec![BridgeRadioContact {
                contact_id: "c1".to_owned(),
                local_enabled: true,
                remote_state: "enabled".to_owned(),
                state: "ready".to_owned(),
                changed_at_ms: 0,
            }],
            session: None,
            last_transport_failure: None,
            last_transport_failure_contact_id: None,
            timeline: Vec::new(),
            audio: BridgeRadioAudio::empty(),
        },
        unread_messages_count: 0,
        new_contacts_count: 0,
        pairing_attention_count: 0,
        bootstrap_phase: "starting".to_owned(),
        bootstrap_steps: steps,
    }
}

#[test]
fn first_snapshot_reports_every_state_in_order() {
    let mut log = TransitionLog::new();
    let snap = snapshot(
        vec![
            step("incoming_reachability", "running", None),
            step("rendezvous", "failed", Some("RV")),
            step("communication_runtime", "ready", None),
        ],
        vec![contact("c1", "connecting", 2)],
    );
    let events = log.log_network_transitions(&snap, "iroh");
    let codes: Vec<&str> = events.iter().map(|e| e.code.as_str()).collect();
    assert_eq!(
        codes,
        vec![
            "INCOMING_CONNECTING",
            "PEER_CONNECTING",
            "MESSAGE_STATE_CHANGED",
            "ATTACHMENT_STATE_CHANGED",
            "RADIO_STATE_CHANGED",
            "RADIO_SESSION_CHANGED",
            "COMMUNICATION_READY",
        ]
    );
    assert_eq!(events[0].message, "INCOMING state changed to running (no diagnostic code)");
    assert_eq!(events[1].message, "contact=c1 state=connecting reconnect_attempt=2");
    assert_eq!(events[1].level, Level::Warn);
    assert_eq!(
        events[2].message,
        "message=m1 conversation=c direction=outbound status=failed attempt=3 sent_at_ms=-5 delivered_at_ms=none read_at_ms=none"
    );
    assert_eq!(events[2].level, Level::Error);
    assert_eq!(
        events[3].message,
        "attachment=a1 direction=outbound status=sending offset=4/10 attempt=1 error=none"
    );
    assert_eq!(events[4].message, "contact=c1 local_enabled=true remote_state=enabled state=ready");
    assert_eq!(events[4].level, Level::Info);
    assert_eq!(events[5].message, "none transport_failure=none");
    assert_eq!(events[6].component, "bootstrap");
}

#[test]
fn tor_reports_the_rendezvous_step() {
    let mut log = TransitionLog::new();
    let snap = snapshot(vec![step("rendezvous", "failed", Some("RV_DOWN"))], Vec::new());
    let events = log.log_network_transitions(&snap, "tor");
    assert_eq!(events[0].code, "RENDEZVOUS_FAILED");
    assert_eq!(events[0].level, Level::Error);
    assert_eq!(events[0].message, "RENDEZVOUS state changed to failed (RV_DOWN)");
}

#[test]
fn unchanged_snapshot_logs_nothing_and_changes_are_reported_once() {
    let mut log = TransitionLog::new();
    let first = snapshot(vec![step("incoming_reachability", "ready", None)], vec![contact("c1", "ready", 0)]);
    assert!(!log.log_network_transitions(&first, "iroh").is_empty());
    assert!(log.log_network_transitions(&first, "iroh").is_empty());
    let second = snapshot(vec![step("incoming_reachability", "ready", None)], vec![contact("c1", "ready", 1)]);
    let events = log.log_network_transitions(&second, "iroh");
    assert_eq!(events.len(), 1);
    assert_eq!(events[0].code, "PEER_READY");
    assert_eq!(events[0].level, Level::Info);
    assert!(log.log_network_transitions(&second, "iroh").is_empty());
}
