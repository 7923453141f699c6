//! Primitive command, result and snapshot types of the engine bridge that
//! the native ABI serialises for Flutter hosts.
use vstd::prelude::*;
use crate::contract::command::{
    invalid_id_message, opaque_id_of, opaque_id_text_valid, parse_opaque_id, OpaqueId,
};
use crate::contract::names::{
    ContactStatus, ConversationStatus, MessageDirection, MessageStatus, PairingRole, PairingState,
};

verus! {

/// Version of this bridge's contract.
pub const CONTRACT_VERSION: u16 = 3;

/// Primitive bridge commands suitable for generated language bindings.
#[derive(Clone, Debug, PartialEq, Eq)]
pub enum BridgeCommand {
    CreateIdentity { identity_id_hex: String, display_name: String, at_ms: i64 },
    StartPairing { session_id_hex: String, code: String, expires_at_ms: i64 },
    JoinPairing { session_id_hex: String, code: String, expires_at_ms: i64 },
    ApprovePairing { session_id_hex: String, at_ms: i64 },
    RejectPairing { session_id_hex: String },
    CancelPairing { session_id_hex: String },
    QueueMessage { message_id_hex: String, conversation_id_hex: String, body: String, at_ms: i64 },
    RefreshSnapshot,
}

/// Primitive bridge result.
#[derive(Clone, Debug, PartialEq, Eq)]
pub struct BridgeResult {
    pub ok: bool,
    pub kind: String,
    pub error: Option<String>,
}

/// Presentation-safe snapshot DTO.
#[derive(Clone, Debug, PartialEq, Eq)]
pub struct BridgeSnapshot {
    pub contract_version: u16,
    pub identity_name: Option<String>,
    pub pairings: Vec<BridgePairing>,
    pub contacts: Vec<BridgeContact>,
    pub conversations: Vec<BridgeConversation>,
    pub messages: Vec<BridgeMessage>,
}

#[derive(Clone, Debug, PartialEq, Eq)]
pub struct BridgePairing {
    pub id: String,
    pub code: String,
    pub role: String,
    pub state: String,
    pub expires_at_ms: i64,
    pub local_approved: bool,
    pub remote_approved: bool,
}

#[derive(Clone, Debug, PartialEq, Eq)]
pub struct BridgeContact {
    pub id: String,
    pub onion_address: String,
    pub status: String,
}

#[derive(Clone, Debug, PartialEq, Eq)]
pub struct BridgeConversation {
    pub id: String,
    pub contact_id: String,
    pub status: String,
}

#[derive(Clone, Debug, PartialEq, Eq)]
pub struct BridgeMessage {
    pub id: String,
    pub conversation_id: String,
    pub body: String,
    pub direction: String,
    pub status: String,
}

/// What the engine reports for a command it carried out.
#[derive(Clone, Copy, Debug, PartialEq, Eq, Structural)]
pub enum EngineResult {
    IdentityCreated,
    PairingStarted,
    PairingJoined,
    PairingUpdated,
    PairingRejected,
    PairingCancelled,
    PairingCompleted,
    MessageQueued,
    MessageUpdated,
    ReceiptApplied,
}

pub open spec fn spec_result_kind(value: EngineResult) -> Seq<char> {
    match value {
        EngineResult::IdentityCreated => "identity_created"@,
        EngineResult::PairingStarted => "pairing_started"@,
        EngineResult::PairingJoined => "pairing_joined"@,
        EngineResult::PairingUpdated => "pairing_updated"@,
        EngineResult::PairingRejected => "pairing_rejected"@,
        EngineResult::PairingCancelled => "pairing_cancelled"@,
        EngineResult::PairingCompleted => "pairing_completed"@,
        EngineResult::MessageQueued => "message_queued"@,
        EngineResult::MessageUpdated => "message_updated"@,
        EngineResult::ReceiptApplied => "receipt_applied"@,
    }
}

/// The result kind reported for an engine result.
pub fn result_kind(value: EngineResult) -> (r: &'static str)
    ensures
        r@ == spec_result_kind(value),
{
    match value {
        EngineResult::IdentityCreated => "identity_created",
        EngineResult::PairingStarted => "pairing_started",
        EngineResult::PairingJoined => "pairing_joined",
        EngineResult::PairingUpdated => "pairing_updated",
        EngineResult::PairingRejected => "pairing_rejected",
        EngineResult::PairingCancelled => "pairing_cancelled",
        EngineResult::PairingCompleted => "pairing_completed",
        EngineResult::MessageQueued => "message_queued",
        EngineResult::MessageUpdated => "message_updated",
        EngineResult::ReceiptApplied => "receipt_applied",
    }
}

/// The bridge result of a dispatched command: the engine result's kind,
/// or "error" with the reason.
pub fn bridge_result(result: Result<EngineResult, String>) -> (r: BridgeResult)
    ensures
        match result {
            Ok(value) => r.ok && r.kind@ == spec_result_kind(value) && r.error is None,
            Err(e) => !r.ok && r.kind@ == "error"@ && r.error == Some(e),
        },
{
    match result {
        Ok(value) => BridgeResult { ok: true, kind: result_kind(value).to_owned(), error: None },
        Err(error) => BridgeResult { ok: false, kind: "error".to_owned(), error: Some(error) },
    }
}

/// The id texts an engine command carries, in the order `execute` reads
/// them: each before any other field of its command.
pub open spec fn engine_command_id_texts(c: BridgeCommand) -> Seq<Seq<char>> {
    match c {
        BridgeCommand::CreateIdentity { identity_id_hex, .. } => seq![identity_id_hex@],
        BridgeCommand::StartPairing { session_id_hex, .. } => seq![session_id_hex@],
        BridgeCommand::JoinPairing { session_id_hex, .. } => seq![session_id_hex@],
        BridgeCommand::ApprovePairing { session_id_hex, .. } => seq![session_id_hex@],
        BridgeCommand::RejectPairing { session_id_hex } => seq![session_id_hex@],
        BridgeCommand::CancelPairing { session_id_hex } => seq![session_id_hex@],
        BridgeCommand::QueueMessage { message_id_hex, conversation_id_hex, .. } => seq![
            message_id_hex@,
            conversation_id_hex@,
        ],
        BridgeCommand::RefreshSnapshot => Seq::empty(),
    }
}

/// Every text is an opaque id.
pub open spec fn all_texts_valid(texts: Seq<Seq<char>>) -> bool {
    forall|i: int| 0 <= i < texts.len() ==> opaque_id_text_valid(#[trigger] texts[i])
}

/// Parses `text` and appends its id.
fn push_parsed_id(ids: &mut Vec<OpaqueId>, text: &str) -> (r: Result<(), String>)
    ensures
        r is Ok <==> opaque_id_text_valid(text@),
        r matches Ok(_) ==> final(ids)@ == old(ids)@.push(opaque_id_of(text@)),
        r matches Err(e) ==> e@ == invalid_id_message(),
{
    match parse_opaque_id(text) {
        Ok(id) => {
            ids.push(id);
            Ok(())
        },
        Err(e) => Err(e),
    }
}

/// The ids of an engine command, parsed in the order `execute` reads them;
/// the first that does not parse is the command's error, before any of its
/// other fields is looked at.
pub fn engine_command_ids(command: &BridgeCommand) -> (r: Result<Vec<OpaqueId>, String>)
    ensures
        match r {
            Ok(ids) => all_texts_valid(engine_command_id_texts(*command)) && ids@ == engine_command_id_texts(
                *command,
            ).map_values(|t: Seq<char>| opaque_id_of(t)),
            Err(e) => !all_texts_valid(engine_command_id_texts(*command)) && e@ == invalid_id_message(),
        },
{
    let mut ids: Vec<OpaqueId> = Vec::new();
    let texts = Ghost(engine_command_id_texts(*command));
    let first = match command {
        BridgeCommand::CreateIdentity { identity_id_hex, .. } => identity_id_hex.as_str(),
        BridgeCommand::StartPairing { session_id_hex, .. } => session_id_hex.as_str(),
        BridgeCommand::JoinPairing { session_id_hex, .. } => session_id_hex.as_str(),
        BridgeCommand::ApprovePairing { session_id_hex, .. } => session_id_hex.as_str(),
        BridgeCommand::RejectPairing { session_id_hex } => session_id_hex.as_str(),
        BridgeCommand::CancelPairing { session_id_hex } => session_id_hex.as_str(),
        BridgeCommand::QueueMessage { message_id_hex, .. } => message_id_hex.as_str(),
        BridgeCommand::RefreshSnapshot => {
            assert(texts@.map_values(|t: Seq<char>| opaque_id_of(t)) =~= ids@);
            return Ok(ids);
        },
    };
    assert(texts@[0] == first@);
    match push_parsed_id(&mut ids, first) {
        Ok(()) => {},
        Err(e) => {
            return Err(e);
        },
    }
    if let BridgeCommand::QueueMessage { conversation_id_hex, .. } = command {
        assert(texts@[1] == conversation_id_hex@);
        match push_parsed_id(&mut ids, conversation_id_hex.as_str()) {
            Ok(()) => {},
            Err(e) => {
                return Err(e);
            },
        }
    }
    assert(texts@.map_values(|t: Seq<char>| opaque_id_of(t)) =~= ids@);
    Ok(ids)
}

/// A pairing session as the engine holds it.
#[derive(Clone, Debug, PartialEq, Eq)]
pub struct ClientPairing {
    pub id: String,
    pub code: String,
    pub role: PairingRole,
    pub state: PairingState,
    pub expires_at_ms: i64,
    pub local_approved: bool,
    pub remote_approved: bool,
}

#[derive(Clone, Debug, PartialEq, Eq)]
pub struct ClientContact {
    pub id: String,
    pub onion_address: String,
    pub status: ContactStatus,
}

#[derive(Clone, Debug, PartialEq, Eq)]
pub struct ClientConversation {
    pub id: String,
    pub contact_id: String,
    pub status: ConversationStatus,
}

#[derive(Clone, Debug, PartialEq, Eq)]
pub struct ClientMessage {
    pub id: String,
    pub conversation_id: String,
    pub body: String,
    pub direction: MessageDirection,
    pub status: MessageStatus,
}

/// The engine's snapshot, ids rendered as text.
#[derive(Clone, Debug, PartialEq, Eq)]
pub struct ClientSnapshot {
    pub identity_name: Option<String>,
    pub pairings: Vec<ClientPairing>,
    pub contacts: Vec<ClientContact>,
    pub conversations: Vec<ClientConversation>,
    pub messages: Vec<ClientMessage>,
}

/// The lowercased variant name of a pairing role.
pub open spec fn role_name(value: PairingRole) -> Seq<char> {
    match value {
        PairingRole::Creator => "creator"@,
        PairingRole::Joiner => "joiner"@,
    }
}

/// The lowercased variant name of a pairing state (words run together).
pub open spec fn state_name(value: PairingState) -> Seq<char> {
    match value {
        PairingState::Open => "open"@,
        PairingState::PeerJoined => "peerjoined"@,
        PairingState::AwaitingApproval => "awaitingapproval"@,
        PairingState::Approved => "approved"@,
        PairingState::Rejected => "rejected"@,
        PairingState::Cancelled => "cancelled"@,
        PairingState::Expired => "expired"@,
        PairingState::Completed => "completed"@,
    }
}

pub open spec fn status_name(value: ContactStatus) -> Seq<char> {
    match value {
        ContactStatus::Active => "active"@,
        ContactStatus::Blocked => "blocked"@,
        ContactStatus::Removed => "removed"@,
    }
}

pub open spec fn conversation_name(value: ConversationStatus) -> Seq<char> {
    match value {
        ConversationStatus::Active => "active"@,
        ConversationStatus::Archived => "archived"@,
    }
}

pub open spec fn direction_name(value: MessageDirection) -> Seq<char> {
    match value {
        MessageDirection::Outbound => "outbound"@,
        MessageDirection::Inbound => "inbound"@,
    }
}

pub open spec fn message_name(value: MessageStatus) -> Seq<char> {
    match value {
        MessageStatus::Queued => "queued"@,
        MessageStatus::Sending => "sending"@,
        MessageStatus::Sent => "sent"@,
        MessageStatus::Delivered => "delivered"@,
        MessageStatus::Read => "read"@,
        MessageStatus::Failed => "failed"@,
        MessageStatus::Cancelled => "cancelled"@,
    }
}

fn lower_role(value: PairingRole) -> (r: &'static str)
    ensures
        r@ == role_name(value),
{
    match value {
        PairingRole::Creator => "creator",
        PairingRole::Joiner => "joiner",
    }
}

fn lower_state(value: PairingState) -> (r: &'static str)
    ensures
        r@ == state_name(value),
{
    match value {
        PairingState::Open => "open",
        PairingState::PeerJoined => "peerjoined",
        PairingState::AwaitingApproval => "awaitingapproval",
        PairingState::Approved => "approved",
        PairingState::Rejected => "rejected",
        PairingState::Cancelled => "cancelled",
        PairingState::Expired => "expired",
        PairingState::Completed => "completed",
    }
}

fn lower_status(value: ContactStatus) -> (r: &'static str)
    ensures
        r@ == status_name(value),
{
    match value {
        ContactStatus::Active => "active",
        ContactStatus::Blocked => "blocked",
        ContactStatus::Removed => "removed",
    }
}

fn lower_conversation(value: ConversationStatus) -> (r: &'static str)
    ensures
        r@ == conversation_name(value),
{
    match value {
        ConversationStatus::Active => "active",
        ConversationStatus::Archived => "archived",
    }
}

fn lower_direction(value: MessageDirection) -> (r: &'static str)
    ensures
        r@ == direction_name(value),
{
    match value {
        MessageDirection::Outbound => "outbound",
        MessageDirection::Inbound => "inbound",
    }
}

fn lower_message(value: MessageStatus) -> (r: &'static str)
    ensures
        r@ == message_name(value),
{
    match value {
        MessageStatus::Queued => "queued",
        MessageStatus::Sending => "sending",
        MessageStatus::Sent => "sent",
        MessageStatus::Delivered => "delivered",
        MessageStatus::Read => "read",
        MessageStatus::Failed => "failed",
        MessageStatus::Cancelled => "cancelled",
    }
}

pub open spec fn pairing_is(r: BridgePairing, p: ClientPairing) -> bool {
    &&& r.id == p.id
    &&& r.code == p.code
    &&& r.role@ == role_name(p.role)
    &&& r.state@ == state_name(p.state)
    &&& r.expires_at_ms == p.expires_at_ms
    &&& r.local_approved == p.local_approved
    &&& r.remote_approved == p.remote_approved
}

pub open spec fn contact_is(r: BridgeContact, c: ClientContact) -> bool {
    r.id == c.id && r.onion_address == c.onion_address && r.status@ == status_name(c.status)
}

pub open spec fn conversation_is(r: BridgeConversation, c: ClientConversation) -> bool {
    r.id == c.id && r.contact_id == c.contact_id && r.status@ == conversation_name(c.status)
}

pub open spec fn message_is(r: BridgeMessage, m: ClientMessage) -> bool {
    &&& r.id == m.id
    &&& r.conversation_id == m.conversation_id
    &&& r.body == m.body
    &&& r.direction@ == direction_name(m.direction)
    &&& r.status@ == message_name(m.status)
}

/// The presentation snapshot of the engine's snapshot: every list in order,
/// enumerations by their lowercased variant names.
pub open spec fn snapshot_is(r: BridgeSnapshot, s: ClientSnapshot) -> bool {
    &&& r.contract_version == CONTRACT_VERSION
    &&& r.identity_name == s.identity_name
    &&& r.pairings@.len() == s.pairings@.len()
    &&& forall|i: int| 0 <= i < r.pairings@.len() ==> pairing_is(#[trigger] r.pairings@[i], s.pairings@[i])
    &&& r.contacts@.len() == s.contacts@.len()
    &&& forall|i: int| 0 <= i < r.contacts@.len() ==> contact_is(#[trigger] r.contacts@[i], s.contacts@[i])
    &&& r.conversations@.len() == s.conversations@.len()
    &&& forall|i: int| 0 <= i < r.conversations@.len() ==> conversation_is(#[trigger] r.conversations@[i], s.conversations@[i])
    &&& r.messages@.len() == s.messages@.len()
    &&& forall|i: int| 0 <= i < r.messages@.len() ==> message_is(#[trigger] r.messages@[i], s.messages@[i])
}

fn clone_option(value: &Option<String>) -> (r: Option<String>)
    ensures
        r == *value,
{
    match value {
        Some(s) => Some(s.clone()),
        None => None,
    }
}

/// The presentation snapshot of the engine's snapshot.
pub fn map_snapshot(snapshot: &ClientSnapshot) -> (r: BridgeSnapshot)
    ensures
        snapshot_is(r, *snapshot),
{
    let mut pairings: Vec<BridgePairing> = Vec::new();
    let mut i: usize = 0;
    while i < snapshot.pairings.len()
        invariant
            i <= snapshot.pairings@.len(),
            pairings@.len() == i,
            forall|k: int| 0 <= k < i ==> pairing_is(#[trigger] pairings@[k], snapshot.pairings@[k]),
        decreases snapshot.pairings@.len() - i,
    {
        let p = &snapshot.pairings[i];
        pairings.push(
            BridgePairing {
                id: p.id.clone(),
                code: p.code.clone(),
                role: lower_role(p.role).to_owned(),
                state: lower_state(p.state).to_owned(),
                expires_at_ms: p.expires_at_ms,
                local_approved: p.local_approved,
                remote_approved: p.remote_approved,
            },
        );
        i = i + 1;
    }
    let mut contacts: Vec<BridgeContact> = Vec::new();
    let mut i: usize = 0;
    while i < snapshot.contacts.len()
        invariant
            i <= snapshot.contacts@.len(),
            contacts@.len() == i,
            forall|k: int| 0 <= k < i ==> contact_is(#[trigger] contacts@[k], snapshot.contacts@[k]),
        decreases snapshot.contacts@.len() - i,
    {
        let c = &snapshot.contacts[i];
        contacts.push(
            BridgeContact {
                id: c.id.clone(),
                onion_address: c.onion_address.clone(),
                status: lower_status(c.status).to_owned(),
            },
        );
        i = i + 1;
    }
    let mut conversations: Vec<BridgeConversation> = Vec::new();
    let mut i: usize = 0;
    while i < snapshot.conversations.len()
        invariant
            i <= snapshot.conversations@.len(),
            conversations@.len() == i,
            forall|k: int| 0 <= k < i ==> conversation_is(#[trigger] conversations@[k], snapshot.conversations@[k]),
        decreases snapshot.conversations@.len() - i,
    {
        let c = &snapshot.conversations[i];
        conversations.push(
            BridgeConversation {
                id: c.id.clone(),
                contact_id: c.contact_id.clone(),
                status: lower_conversation(c.status).to_owned(),
            },
        );
        i = i + 1;
    }
    let mut messages: Vec<BridgeMessage> = Vec::new();
    let mut i: usize = 0;
    while i < snapshot.messages.len()
        invariant
            i <= snapshot.messages@.len(),
            messages@.len() == i,
            forall|k: int| 0 <= k < i ==> message_is(#[trigger] messages@[k], snapshot.messages@[k]),
        decreases snapshot.messages@.len() - i,
    {
        let m = &snapshot.messages[i];
        messages.push(
            BridgeMessage {
                id: m.id.clone(),
                conversation_id: m.conversation_id.clone(),
                body: m.body.clone(),
                direction: lower_direction(m.direction).to_owned(),
                status: lower_message(m.status).to_owned(),
            },
        );
        i = i + 1;
    }
    BridgeSnapshot {
        contract_version: CONTRACT_VERSION,
        identity_name: clone_option(&snapshot.identity_name),
        pairings,
        contacts,
        conversations,
        messages,
    }
}

} // verus!
