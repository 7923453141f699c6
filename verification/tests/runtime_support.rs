use torca::runtime_support::{
    composition_failed, identity_created, identity_step, initial_snapshot_ready, known_contact_ids,
    setting_or_on,
};
use torca::runtime_support::{
    closed_runtime_answer, runtime_error_result, runtime_result_json, runtime_success_result, ABI_CLOSED,
};
use torca::runtime_support::{settled_snapshot_json, snapshot_json_with_settings};
use torca::runtime_support::{
    next_pending_operation_delay, reconcile_delays_ms, reconcile_outcome, stages_after, stages_before,
    CommandStage, ABI_ERROR, ABI_OK,
};
use torca::runtime_support::{lifecycle_actions, LifecycleActions, RadioLifecycle};
use torca::contract::BridgeCommand;
use torca::runtime_support::{is_profile_update, pairing_operation, radio_operation};
use torca::contract::names::{ContactSecurityState, MessageDirection, MessageStatus};
use torca::contract::{
    BridgeContact, BridgeConversation, BridgePeerHealth, BridgeRadio, BridgeRadioAudio,
    BridgeSnapshot, BridgeTransportIndicator, BridgeTransportStatus,
};
use torca::runtime_support::{
    apply_history_summaries, apply_navigation_badges, apply_security_states, ContactSecurity,
    ConversationSummary, SummaryMessage,
};

#[test]
fn event_reconcile_is_bounded_and_has_no_idle_cadence() {
    let delays = reconcile_delays_ms();
    assert_eq!(delays.len(), 5);
    assert!(delays.windows(2).all(|pair| pair[0] < pair[1]));
}

#[test]
fn commands_name_their_pairing_and_radio_operations() {
    let join = BridgeCommand::JoinPairing {
        session_id_hex: "s1".to_owned(),
        code: "ABC".to_owned(),
        ticket: None,
        bootstrap_json: None,
    };
    assert_eq!(pairing_operation(&join), Some(("pairing.join", "s1".to_owned())));
    assert_eq!(
        pairing_operation(&BridgeCommand::CancelPairing { session_id_hex: "s2".to_owned() }),
        Some(("pairing.cancel", "s2".to_owned()))
    );
    assert_eq!(pairing_operation(&BridgeCommand::RefreshSnapshot), None);
    assert_eq!(
        radio_operation(&BridgeCommand::EndRadioTransmission { contact_id_hex: "c".to_owned() }),
        Some("radio.end_transmission")
    );
    assert_eq!(radio_operation(&join), None);
    assert!(is_profile_update(&BridgeCommand::UpdateProfile {
        display_name: "A".to_owned(),
        avatar_envelope_json: None,
        at_ms: 0,
    }));
    assert!(!is_profile_update(&join));
}

fn quiet_indicator() -> BridgeTransportIndicator {
    BridgeTransportIndicator {
        state: "ready".to_owned(),
        code: "X".to_owned(),
        latency_ms: None,
        last_activity_at_ms: None,
        activity_sequence: 0,
        tx_sequence: 0,
        rx_sequence: 0,
        in_flight: 0,
        queued: 0,
    }
}

fn conversation(id: &str, unread: u32) -> BridgeConversation {
    BridgeConversation {
        id: id.to_owned(),
        contact_id: "c".to_owned(),
        status: "active".to_owned(),
        unread_count: unread,
        last_activity_at_ms: 0,
        last_message_body: None,
        last_message_direction: None,
        last_message_status: None,
    }
}

fn contact(id: &str, created_at_ms: i64) -> BridgeContact {
    BridgeContact {
        id: id.to_owned(),
        remote_identity_id: "r".to_owned(),
        display_name: "n".to_owned(),
        transport_provider: "iroh".to_owned(),
        endpoint_available: true,
        onion_address: None,
        status: "active".to_owned(),
        connection_state: "ready".to_owned(),
        presence_state: "online".to_owned(),
        last_seen_at_ms: None,
        safety_number: String::new(),
        peer_health: BridgePeerHealth {
            state: "ready".to_owned(),
            quality: "good".to_owned(),
            rtt_ms: None,
            last_success_at_ms: None,
            consecutive_failures: 0,
            reconnect_attempt: 0,
            last_activity_at_ms: None,
            activity_sequence: 0,
        },
        verification_status: "unverified".to_owned(),
        verified_at_ms: None,
        created_at_ms,
    }
}

fn snapshot_with(conversations: Vec<BridgeConversation>, contacts: Vec<BridgeContact>) -> BridgeSnapshot {
    BridgeSnapshot {
        contract_version: 15,
        identity_name: None,
        identity_id: None,
        identity_fingerprint: None,
        communication_provider: "iroh".to_owned(),
        communication_state: "ready".to_owned(),
        endpoint_summary: None,
        tor_state: "unsupported".to_owned(),
        transport: BridgeTransportStatus {
            communication: quiet_indicator(),
            tor: quiet_indicator(),
            relay: quiet_indicator(),
            peer: quiet_indicator(),
            peers_ready: 0,
            peers_total: 0,
            relay_info: None,
        },
        onion_address: None,
        pairings: Vec::new(),
        contacts,
        conversations,
        messages: Vec::new(),
        reactions: Vec::new(),
        attachments: Vec::new(),
        pending_operations: Vec::new(),
        radio: BridgeRadio {
            active_contact_id: None,
            contacts: Vec::new(),
            session: None,
            last_transport_failure: None,
            last_transport_failure_contact_id: None,
            timeline: Vec::new(),
            audio: BridgeRadioAudio::empty(),
        },
        unread_messages_count: 0,
        new_contacts_count: 0,
        pairing_attention_count: 0,
        bootstrap_phase: "ready".to_owned(),
        bootstrap_steps: Vec::new(),
    }
}

#[test]
fn history_summaries_fill_known_conversations() {
    let mut snapshot = snapshot_with(vec![conversation("a", 0), conversation("b", 1)], Vec::new());
    let summaries = vec![(
        "a".to_owned(),
        ConversationSummary {
            unread_count: 4,
            last_activity_at_ms: 99,
            last_message: Some(SummaryMessage {
                body: "hello".to_owned(),
                direction: MessageDirection::Inbound,
                status: MessageStatus::Read,
                created_at_ms: 98,
            }),
        },
    )];
    apply_history_summaries(&mut snapshot, &summaries);
    let a = &snapshot.conversations[0];
    assert_eq!(a.unread_count, 4);
    assert_eq!(a.last_activity_at_ms, 99);
    assert_eq!(a.last_message_body.as_deref(), Some("hello"));
    assert_eq!(a.last_message_direction.as_deref(), Some("inbound"));
    assert_eq!(a.last_message_status.as_deref(), Some("read"));
    assert_eq!(snapshot.conversations[1], conversation("b", 1));
    apply_navigation_badges(&mut snapshot, None);
    assert_eq!(snapshot.unread_messages_count, 5);
}

#[test]
fn security_states_set_verification() {
    let mut snapshot = snapshot_with(Vec::new(), vec![contact("x", 5), contact("y", 10)]);
    let states = vec![(
        "y".to_owned(),
        ContactSecurity { state: ContactSecurityState::IdentityChanged, verified_at_ms: Some(3) },
    )];
    apply_security_states(&mut snapshot, &states);
    assert_eq!(snapshot.contacts[0].verification_status, "unverified");
    assert_eq!(snapshot.contacts[1].verification_status, "changed");
    assert_eq!(snapshot.contacts[1].verified_at_ms, Some(3));
    apply_navigation_badges(&mut snapshot, Some(5));
    assert_eq!(snapshot.new_contacts_count, 1);
}

#[test]
fn next_wake_is_the_earliest_deadline_and_never_a_poll() {
    assert_eq!(next_pending_operation_delay(None, None, None), None);
    assert_eq!(next_pending_operation_delay(Some(500), None, None), Some(500));
    assert_eq!(next_pending_operation_delay(Some(500), Some(200), Some(900)), Some(200));
    assert_eq!(next_pending_operation_delay(None, Some(700), Some(300)), Some(300));
    assert_eq!(next_pending_operation_delay(Some(0), Some(5), None), Some(0));
}

#[test]
fn reconcile_reports_a_change_only_when_something_moved() {
    let before = "{\"a\":1}".to_owned();
    assert_eq!(reconcile_outcome(before.clone(), Some(before.clone()), 4, 4), (before.clone(), false));
    assert_eq!(
        reconcile_outcome(before.clone(), Some("{\"a\":2}".to_owned()), 4, 4),
        ("{\"a\":2}".to_owned(), true)
    );
    // A failed refresh keeps the previous snapshot; only the cursor counts.
    assert_eq!(reconcile_outcome(before.clone(), None, 4, 4), (before.clone(), false));
    assert_eq!(reconcile_outcome(before.clone(), None, 4, 5), (before, true));
}

#[test]
fn profile_and_pairing_commands_record_their_stages_in_order() {
    assert_eq!(
        stages_before(true, false),
        vec![
            CommandStage::Profile("PROFILE_REQUEST_RECEIVED"),
            CommandStage::Profile("PROFILE_COMMAND_QUEUED"),
            CommandStage::Profile("PROFILE_COMMAND_STARTED"),
            CommandStage::Profile("PROFILE_STORAGE_STARTED"),
        ]
    );
    assert_eq!(stages_before(false, true), vec![CommandStage::Pairing("PAIRING_REQUEST_STARTED")]);
    assert!(stages_before(false, false).is_empty());
    assert_eq!(
        stages_after(true, false, false, true),
        (
            vec![
                CommandStage::Profile("PROFILE_STORAGE_COMMITTED"),
                CommandStage::PublishSnapshot,
                CommandStage::Profile("PROFILE_SNAPSHOT_PUBLISHED"),
                CommandStage::Profile("PROFILE_REQUEST_SUCCEEDED"),
            ],
            ABI_OK
        )
    );
    assert_eq!(
        stages_after(false, true, false, false),
        (
            vec![CommandStage::BridgeRejected, CommandStage::Pairing("PAIRING_REQUEST_FAILED")],
            ABI_ERROR
        )
    );
    assert_eq!(stages_after(false, false, true, false), (vec![CommandStage::RadioRejected], ABI_ERROR));
}

#[test]
fn lifecycle_events_map_to_radio_foreground_and_network_actions() {
    assert_eq!(lifecycle_actions("dancing"), None);
    assert_eq!(
        lifecycle_actions("host_started"),
        Some(LifecycleActions {
            radio: Some(RadioLifecycle::Foreground),
            foreground: Some(true),
            network_changed: false,
            terminate: false,
        })
    );
    let background = lifecycle_actions("backgrounded").unwrap();
    assert_eq!((background.radio, background.foreground), (Some(RadioLifecycle::Background), Some(false)));
    assert!(lifecycle_actions("network_changed").unwrap().network_changed);
    let terminating = lifecycle_actions("terminating").unwrap();
    assert!(terminating.terminate);
    assert_eq!(terminating.radio, Some(RadioLifecycle::Terminating));
    let quiet = lifecycle_actions("charging_on").unwrap();
    assert_eq!((quiet.radio, quiet.foreground, quiet.network_changed, quiet.terminate), (None, None, false, false));
}

#[test]
fn snapshot_json_carries_the_settings() {
    assert_eq!(
        snapshot_json_with_settings(r#"{"contractVersion":1}"#.to_owned(), true, false),
        r#"{"contractVersion":1,"notificationsEnabled":true,"readReceiptsEnabled":false}"#
    );
    assert_eq!(
        snapshot_json_with_settings(r#"{"readReceiptsEnabled":true}"#.to_owned(), false, false),
        r#"{"notificationsEnabled":false,"readReceiptsEnabled":false}"#
    );
    assert_eq!(snapshot_json_with_settings("not json".to_owned(), true, true), "not json");
    assert_eq!(snapshot_json_with_settings("[1]".to_owned(), true, true), "[1]");
    assert_eq!(settled_snapshot_json(Some("b".to_owned()), "a".to_owned()), "b");
    assert_eq!(settled_snapshot_json(None, "a".to_owned()), "a");
}

#[test]
fn runtime_results_carry_codes_not_diagnostics() {
    let failed = r#"{"error":null,"errorCode":"operation_failed","inviteUri":null,"kind":"error:operation_failed","ok":false,"resourceId":null}"#;
    assert_eq!(runtime_error_result(), failed);
    assert_eq!(closed_runtime_answer(true), Some((ABI_CLOSED, failed.to_owned())));
    assert_eq!(closed_runtime_answer(false), None);
    assert_eq!(
        runtime_success_result("snapshot"),
        r#"{"error":null,"errorCode":null,"inviteUri":null,"kind":"snapshot","ok":true,"resourceId":null}"#
    );
    let created = torca::contract::BridgeResult {
        ok: true,
        kind: "pairing_created".to_owned(),
        error: Some("hidden".to_owned()),
        error_code: None,
        resource_id: Some("ab12".to_owned()),
        invite_uri: Some("torca://pair?x=1".to_owned()),
    };
    assert_eq!(
        runtime_result_json(&created),
        r#"{"error":null,"errorCode":null,"inviteUri":"torca://pair?x=1","kind":"pairing_created","ok":true,"resourceId":"ab12"}"#
    );
    let refused = torca::contract::BridgeResult {
        ok: false,
        kind: "error".to_owned(),
        error: Some("secret detail".to_owned()),
        error_code: Some("pairing_expired".to_owned()),
        resource_id: None,
        invite_uri: None,
    };
    assert_eq!(
        runtime_result_json(&refused),
        r#"{"error":null,"errorCode":"pairing_expired","inviteUri":null,"kind":"error:pairing_expired","ok":false,"resourceId":null}"#
    );
    let uncoded = torca::contract::BridgeResult { error_code: None, ..refused };
    assert_eq!(
        runtime_result_json(&uncoded),
        r#"{"error":null,"errorCode":null,"inviteUri":null,"kind":"error:operation_failed","ok":false,"resourceId":null}"#
    );
}

#[test]
fn runtime_start_up_decisions() {
    assert!(setting_or_on(None));
    assert!(!setting_or_on(Some(false)));
    assert!(setting_or_on(Some(true)));
    assert_eq!(composition_failed("db locked"), "native engine composition failed: db locked");
    assert_eq!(identity_step(Some(false)), Ok(true));
    assert_eq!(identity_step(Some(true)), Ok(false));
    assert_eq!(identity_step(None), Err("read local identity failed".to_owned()));
    assert_eq!(identity_created(true), Ok(()));
    assert_eq!(identity_created(false), Err("create bootstrap device identity failed".to_owned()));
    assert_eq!(initial_snapshot_ready(0), Ok(()));
    assert_eq!(
        initial_snapshot_ready(ABI_ERROR),
        Err("initial native snapshot unavailable".to_owned())
    );
    assert!(known_contact_ids(None).is_empty());
    let snapshot = snapshot_with(Vec::new(), vec![contact("c1", 1), contact("c2", 2)]);
    assert_eq!(known_contact_ids(Some(&snapshot)), vec!["c1".to_owned(), "c2".to_owned()]);
}
