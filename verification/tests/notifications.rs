use torca::contract::names::{MessageDirection, MessageStatus};
use torca::contract::{
    BridgeContact, BridgeConversation, BridgePairing, BridgePeerHealth, BridgeRadio, BridgeRadioAudio,
    BridgeSnapshot, BridgeTransportIndicator, BridgeTransportStatus,
};
use torca::notifications::{NotificationCenter, NotificationTexts};
use torca::runtime_support::{ConversationSummary, SummaryMessage};

fn quiet_indicator() -> BridgeTransportIndicator {
    BridgeTransportIndicator {
        state: "ready".to_owned(),
        code: "X".to_owned(),
        latency_ms: None,
        last_activity_at_ms: None,
        activity_sequence: 0,
        tx_sequence: 0,
        rx_sequence: 0,
        in_flight: 0,
        queued: 0,
    }
}

fn conversation(id: &str, unread: u32) -> BridgeConversation {
    BridgeConversation {
        id: id.to_owned(),
        contact_id: "c".to_owned(),
        status: "active".to_owned(),
        unread_count: unread,
        last_activity_at_ms: 0,
        last_message_body: None,
        last_message_direction: None,
        last_message_status: None,
    }
}

fn contact(id: &str, created_at_ms: i64) -> BridgeContact {
    BridgeContact {
        id: id.to_owned(),
        remote_identity_id: "r".to_owned(),
        display_name: "n".to_owned(),
        transport_provider: "iroh".to_owned(),
        endpoint_available: true,
        onion_address: None,
        status: "active".to_owned(),
        connection_state: "ready".to_owned(),
        presence_state: "online".to_owned(),
        last_seen_at_ms: None,
        safety_number: String::new(),
        peer_health: BridgePeerHealth {
            state: "ready".to_owned(),
            quality: "good".to_owned(),
            rtt_ms: None,
            last_success_at_ms: None,
            consecutive_failures: 0,
            reconnect_attempt: 0,
            last_activity_at_ms: None,
            activity_sequence: 0,
        },
        verification_status: "unverified".to_owned(),
        verified_at_ms: None,
        created_at_ms,
    }
}

fn snapshot_with(conversations: Vec<BridgeConversation>, contacts: Vec<BridgeContact>) -> BridgeSnapshot {
    BridgeSnapshot {
        contract_version: 15,
        identity_name: None,
        identity_id: None,
        identity_fingerprint: None,
        communication_provider: "iroh".to_owned(),
        communication_state: "ready".to_owned(),
        endpoint_summary: None,
        tor_state: "unsupported".to_owned(),
        transport: BridgeTransportStatus {
            communication: quiet_indicator(),
            tor: quiet_indicator(),
            relay: quiet_indicator(),
            peer: quiet_indicator(),
            peers_ready: 0,
            peers_total: 0,
            relay_info: None,
        },
        onion_address: None,
        pairings: Vec::new(),
        contacts,
        conversations,
        messages: Vec::new(),
        reactions: Vec::new(),
        attachments: Vec::new(),
        pending_operations: Vec::new(),
        radio: BridgeRadio {
            active_contact_id: None,
            contacts: Vec::new(),
            session: None,
            last_transport_failure: None,
            last_transport_failure_contact_id: None,
            timeline: Vec::new(),
            audio: BridgeRadioAudio::empty(),
        },
        unread_messages_count: 0,
        new_contacts_count: 0,
        pairing_attention_count: 0,
        bootstrap_phase: "ready".to_owned(),
        bootstrap_steps: Vec::new(),
    }
}

fn pairing(id: &str, role: &str, state: &str, name: Option<&str>) -> BridgePairing {
    BridgePairing {
        id: id.to_owned(),
        code: "ABC".to_owned(),
        invite_uri: String::new(),
        role: role.to_owned(),
        state: state.to_owned(),
        expires_at_ms: 1_000_000,
        local_approved: false,
        remote_approved: false,
        remote_identity_id: None,
        remote_display_name: name.map(str::to_owned),
        remote_fingerprint: None,
        remote_avatar_hash: None,
        remote_avatar_generator_version: None,
        remote_avatar_catalog_version: None,
    }
}

fn no_texts() -> NotificationTexts {
    NotificationTexts { pairing_request: None, contact_added: None, message_received: None }
}

fn summary(unread: u32, direction: MessageDirection) -> ConversationSummary {
    ConversationSummary {
        unread_count: unread,
        last_activity_at_ms: 5,
        last_message: Some(SummaryMessage {
            body: "secret text".to_owned(),
            direction,
            status: MessageStatus::Delivered,
            created_at_ms: 777,
        }),
    }
}

#[test]
fn a_waiting_pairing_is_announced_once() {
    let mut center = NotificationCenter::new(Vec::new());
    let mut snapshot = snapshot_with(Vec::new(), Vec::new());
    snapshot.pairings = vec![
        pairing("p1", "creator", "peer_joined", Some("  ")),
        pairing("p2", "joiner", "peer_joined", None),
        pairing("p3", "creator", "open", None),
    ];
    let ids = vec!["id-1".to_owned()];
    center.collect(true, &snapshot, &Vec::new(), &no_texts(), &ids);
    assert_eq!(center.cursor, 1);
    assert_eq!(center.events.len(), 1);
    let event = &center.events[0];
    assert_eq!(event.kind, "pairing_request");
    assert_eq!(event.event_id, "id-1");
    assert_eq!(event.resource_id, "p1");
    assert_eq!(event.contact_display_name, "New contact request");
    assert_eq!(event.created_at_ms, 1_000_000 - 300_000);
    assert_eq!(event.title, "Torca");
    assert_eq!(event.body, "");
    center.collect(true, &snapshot, &Vec::new(), &no_texts(), &Vec::new());
    assert_eq!(center.events.len(), 1);
}

#[test]
fn contacts_present_at_attach_are_not_announced() {
    let mut center = NotificationCenter::new(vec!["old".to_owned()]);
    let mut c = conversation("conv-new", 0);
    c.contact_id = "new".to_owned();
    let snapshot = snapshot_with(vec![c], vec![contact("old", 1), contact("new", 2)]);
    let texts = NotificationTexts {
        pairing_request: None,
        contact_added: Some(("New contact".to_owned(), "Say hello".to_owned())),
        message_received: None,
    };
    center.collect(true, &snapshot, &Vec::new(), &texts, &Vec::new());
    assert_eq!(center.events.len(), 1);
    let event = &center.events[0];
    assert_eq!(event.kind, "contact_added");
    assert_eq!(event.resource_id, "new");
    assert_eq!(event.conversation_id, "conv-new");
    assert_eq!(event.event_id, "notification-1");
    assert_eq!((event.title.as_str(), event.body.as_str()), ("New contact", "Say hello"));
    assert_eq!(event.created_at_ms, 2);
}

#[test]
fn only_growing_inbound_unread_counts_are_announced_without_message_text() {
    let mut center = NotificationCenter::new(vec!["c".to_owned()]);
    let snapshot = snapshot_with(vec![conversation("a", 0)], vec![contact("c", 1)]);
    let first = vec![("a".to_owned(), summary(2, MessageDirection::Inbound))];
    center.collect(true, &snapshot, &first, &no_texts(), &Vec::new());
    assert_eq!(center.events.len(), 1);
    let event = &center.events[0];
    assert_eq!(event.kind, "message_received");
    assert_eq!(event.conversation_id, "a");
    assert_eq!(event.contact_display_name, "n");
    assert_eq!(event.created_at_ms, 777);
    assert!(!event.body.contains("secret"));
    // The same count again, or an outbound last message, is quiet.
    center.collect(true, &snapshot, &first, &no_texts(), &Vec::new());
    let outbound = vec![("a".to_owned(), summary(3, MessageDirection::Outbound))];
    center.collect(true, &snapshot, &outbound, &no_texts(), &Vec::new());
    assert_eq!(center.events.len(), 1);
    let grown = vec![("a".to_owned(), summary(4, MessageDirection::Inbound))];
    center.collect(true, &snapshot, &grown, &no_texts(), &Vec::new());
    assert_eq!(center.events.len(), 2);
    assert_eq!(center.events_after(1).len(), 1);
    assert_eq!(center.events_after(1)[0].cursor, 2);
}

#[test]
fn disabled_notifications_change_nothing_and_only_recent_events_are_kept() {
    let mut center = NotificationCenter::new(Vec::new());
    let contacts: Vec<BridgeContact> = (0..300).map(|i| contact(&format!("c{i}"), i)).collect();
    let snapshot = snapshot_with(Vec::new(), contacts);
    center.collect(false, &snapshot, &Vec::new(), &no_texts(), &Vec::new());
    assert_eq!(center.cursor, 0);
    assert!(center.events.is_empty());
    center.collect(true, &snapshot, &Vec::new(), &no_texts(), &Vec::new());
    assert_eq!(center.cursor, 300);
    assert_eq!(center.events.len(), 256);
    assert_eq!(center.events[0].cursor, 45);
    assert_eq!(center.seen_contacts.len(), 300);
}
