use torca::bridge::{engine_command_ids, BridgeCommand};
use torca::contract::command::OpaqueId;
use torca::bridge::{
    bridge_result, map_snapshot, result_kind, ClientContact, ClientConversation, ClientMessage,
    ClientPairing, ClientSnapshot, EngineResult, CONTRACT_VERSION,
};
use torca::contract::names::{
    ContactStatus, ConversationStatus, MessageDirection, MessageStatus, PairingRole, PairingState,
};

#[test]
fn engine_results_name_their_kind() {
    assert_eq!(result_kind(EngineResult::PairingCompleted), "pairing_completed");
    assert_eq!(result_kind(EngineResult::ReceiptApplied), "receipt_applied");
    let ok = bridge_result(Ok(EngineResult::MessageQueued));
    assert!(ok.ok);
    assert_eq!(ok.kind, "message_queued");
    assert_eq!(ok.error, None);
    let err = bridge_result(Err("bad id".to_owned()));
    assert!(!err.ok);
    assert_eq!(err.kind, "error");
    assert_eq!(err.error.as_deref(), Some("bad id"));
}

#[test]
fn engine_snapshot_uses_lowercased_variant_names() {
    let snapshot = map_snapshot(&ClientSnapshot {
        identity_name: Some("Alice".to_owned()),
        pairings: vec![ClientPairing {
            id: "p".to_owned(),
            code: "ABC".to_owned(),
            role: PairingRole::Joiner,
            state: PairingState::AwaitingApproval,
            expires_at_ms: 9,
            local_approved: true,
            remote_approved: false,
        }],
        contacts: vec![ClientContact {
            id: "c".to_owned(),
            onion_address: "x.onion".to_owned(),
            status: ContactStatus::Blocked,
        }],
        conversations: vec![ClientConversation {
            id: "v".to_owned(),
            contact_id: "c".to_owned(),
            status: ConversationStatus::Active,
        }],
        messages: vec![ClientMessage {
            id: "m".to_owned(),
            conversation_id: "v".to_owned(),
            body: "hi".to_owned(),
            direction: MessageDirection::Outbound,
            status: MessageStatus::Sending,
        }],
    });
    assert_eq!(snapshot.contract_version, CONTRACT_VERSION);
    assert_eq!(snapshot.identity_name.as_deref(), Some("Alice"));
    assert_eq!(snapshot.pairings[0].role, "joiner");
    assert_eq!(snapshot.pairings[0].state, "awaitingapproval");
    assert_eq!(snapshot.contacts[0].status, "blocked");
    assert_eq!(snapshot.conversations[0].status, "active");
    assert_eq!(snapshot.messages[0].direction, "outbound");
    assert_eq!(snapshot.messages[0].status, "sending");
}

#[test]
fn engine_commands_parse_their_ids_first() {
    let a = "000102030405060708090a0b0c0d0e0f";
    let b = "00000000000000000000000000000002";
    let queue = BridgeCommand::QueueMessage {
        message_id_hex: a.to_owned(),
        conversation_id_hex: b.to_owned(),
        body: String::new(),
        at_ms: 1,
    };
    assert_eq!(
        engine_command_ids(&queue),
        Ok(vec![OpaqueId(0x000102030405060708090a0b0c0d0e0f), OpaqueId(2)])
    );
    let bad_conversation = BridgeCommand::QueueMessage {
        message_id_hex: a.to_owned(),
        conversation_id_hex: "zz".to_owned(),
        body: "hi".to_owned(),
        at_ms: 1,
    };
    assert_eq!(engine_command_ids(&bad_conversation), Err("invalid opaque id".to_owned()));
    assert_eq!(
        engine_command_ids(&BridgeCommand::RejectPairing { session_id_hex: b.to_owned() }),
        Ok(vec![OpaqueId(2)])
    );
    assert_eq!(
        engine_command_ids(&BridgeCommand::CreateIdentity {
            identity_id_hex: "nope".to_owned(),
            display_name: "Ada".to_owned(),
            at_ms: 0,
        }),
        Err("invalid opaque id".to_owned())
    );
    assert_eq!(engine_command_ids(&BridgeCommand::RefreshSnapshot), Ok(Vec::new()));
}
