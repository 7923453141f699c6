//! Stable typed boundary between Flutter and the process-owned runtime: the
//! commands the presentation layer sends and the snapshot DTOs it renders.
pub mod generated;
pub mod names;
pub mod application;
pub mod command;
pub mod projection;

use vstd::prelude::*;

verus! {

/// Version of the cross-language contract.
pub const CONTRACT_VERSION: u16 = generated::CONTRACT_VERSION;

#[derive(Clone, Debug, Eq, PartialEq)]
pub enum BridgeCommand {
    SetAttention {
        surface: String,
        focused_resource_id: Option<String>,
        visible_contact_ids: Vec<String>,
        generation: u64,
    },
    SetNotifications {
        enabled: bool,
    },
    SetReadReceipts {
        enabled: bool,
    },
    SetBatteryPreferences {
        mode: String,
        background_sync: String,
        allow_delayed_background_delivery: bool,
        metered_transfers: String,
        visual_activity: String,
    },
    SetContactAvailability {
        contact_id_hex: String,
        mode: String,
    },
    AcknowledgeNewContacts,
    StartBatteryObservation,
    StopBatteryObservation,
    ResetBatteryObservation,
    MarkIncident,
    UpdateProfile {
        display_name: String,
        avatar_envelope_json: Option<String>,
        at_ms: i64,
    },
    CreatePairing {
        session_id_hex: String,
    },
    JoinPairing {
        session_id_hex: String,
        code: String,
        ticket: Option<String>,
        bootstrap_json: Option<String>,
    },
    ApprovePairing {
        session_id_hex: String,
    },
    RejectPairing {
        session_id_hex: String,
    },
    CancelPairing {
        session_id_hex: String,
    },
    RenameContact {
        contact_id_hex: String,
        display_name: String,
    },
    VerifyContact {
        contact_id_hex: String,
    },
    ResetContactVerification {
        contact_id_hex: String,
    },
    BlockContact {
        contact_id_hex: String,
    },
    UnblockContact {
        contact_id_hex: String,
    },
    RemoveContact {
        contact_id_hex: String,
    },
    StartConversation {
        contact_id_hex: String,
    },
    ClearConversationHistory {
        conversation_id_hex: String,
    },
    ArchiveConversation {
        conversation_id_hex: String,
        at_ms: i64,
    },
    RestoreConversation {
        conversation_id_hex: String,
        at_ms: i64,
    },
    QueueMessage {
        message_id_hex: String,
        conversation_id_hex: String,
        body: String,
        reply_to_message_id_hex: Option<String>,
        at_ms: i64,
    },
    RetryMessage {
        message_id_hex: String,
        at_ms: i64,
    },
    CancelMessage {
        message_id_hex: String,
        at_ms: i64,
    },
    EditMessage {
        message_id_hex: String,
        body: String,
        at_ms: i64,
    },
    SetMessageReaction {
        message_id_hex: String,
        conversation_id_hex: String,
        actor_id_hex: String,
        emoji: String,
        active: bool,
        at_ms: i64,
    },
    MarkConversationRead {
        conversation_id_hex: String,
    },
    QueueAttachment {
        attachment_id_hex: String,
        message_id_hex: String,
        conversation_id_hex: String,
        source_path: String,
        preview_source_path: Option<String>,
        name: String,
        media_type: String,
        size: u64,
        at_ms: i64,
    },
    RetryAttachment {
        attachment_id_hex: String,
    },
    CancelAttachment {
        attachment_id_hex: String,
    },
    ExportAttachment {
        attachment_id_hex: String,
        destination_path: String,
    },
    ExportAttachmentPreview {
        attachment_id_hex: String,
        destination_path: String,
    },
    SetRadioEnabled {
        contact_id_hex: String,
        enabled: bool,
        at_ms: i64,
    },
    ConfigureRadioAudio {
        input_device_id: Option<String>,
        output_device_id: Option<String>,
    },
    BeginRadioTransmission {
        contact_id_hex: String,
    },
    EndRadioTransmission {
        contact_id_hex: String,
    },
    RefreshSnapshot,
}

#[derive(Clone, Debug, Eq, PartialEq)]
pub struct BridgeResult {
    pub ok: bool,
    pub kind: String,
    pub error: Option<String>,
    /// Stable machine-readable code; never inferred from the diagnostic message.
    pub error_code: Option<String>,
    pub resource_id: Option<String>,
    pub invite_uri: Option<String>,
}
#[derive(Clone, Debug, Eq, PartialEq)]
pub struct BridgeSnapshot {
    pub contract_version: u16,
        pub identity_name: Option<String>,
        pub identity_id: Option<String>,
        pub identity_fingerprint: Option<String>,
    /// Selected provider and its generic readiness state. New presentation
    /// code must use these fields rather than the legacy Tor projection.
    pub communication_provider: String,
    pub communication_state: String,
    pub endpoint_summary: Option<String>,
    /// Legacy compatibility state. New presentation code must use
    /// `communication_state`.
    pub tor_state: String,
    pub transport: BridgeTransportStatus,
    pub onion_address: Option<String>,
    pub pairings: Vec<BridgePairing>,
    pub contacts: Vec<BridgeContact>,
    pub conversations: Vec<BridgeConversation>,
    pub messages: Vec<BridgeMessage>,
    pub reactions: Vec<BridgeReaction>,
    pub attachments: Vec<BridgeAttachment>,
    pub pending_operations: Vec<BridgePendingOperation>,
    pub radio: BridgeRadio,
        pub unread_messages_count: u32,
        pub new_contacts_count: u32,
        pub pairing_attention_count: u32,
    pub bootstrap_phase: String,
    pub bootstrap_steps: Vec<BridgeBootstrapStep>,
}

#[derive(Clone, Debug, Eq, PartialEq)]
pub struct BridgeRadio {
    pub active_contact_id: Option<String>,
    pub contacts: Vec<BridgeRadioContact>,
    pub session: Option<BridgeRadioSession>,
    pub last_transport_failure: Option<String>,
    pub last_transport_failure_contact_id: Option<String>,
    pub timeline: Vec<BridgeRadioTimelineEvent>,
    pub audio: BridgeRadioAudio,
}

#[derive(Clone, Debug, Eq, PartialEq)]
pub struct BridgeRadioAudio {
    pub input_devices: Vec<BridgeAudioDevice>,
    pub output_devices: Vec<BridgeAudioDevice>,
    pub selected_input_id: Option<String>,
    pub selected_output_id: Option<String>,
}

#[derive(Clone, Debug, Eq, PartialEq)]
pub struct BridgeAudioDevice {
    pub id: String,
    pub name: String,
    pub is_default: bool,
}

#[derive(Clone, Debug, Eq, PartialEq)]
pub struct BridgeRadioTimelineEvent {
    pub event_id: String,
    pub contact_id: String,
    pub kind: String,
    pub actor: String,
    pub occurred_at_ms: i64,
}

#[derive(Clone, Debug, Eq, PartialEq)]
pub struct BridgeRadioContact {
    pub contact_id: String,
    pub local_enabled: bool,
    pub remote_state: String,
    pub state: String,
    pub changed_at_ms: i64,
}

#[derive(Clone, Debug, Eq, PartialEq)]
pub struct BridgeRadioSession {
    pub contact_id: String,
    pub session_id: String,
    pub state: String,
    pub floor: String,
    pub burst_elapsed_ms: u32,
    pub max_burst_ms: u32,
    pub input_level_milli: u16,
}

#[derive(Clone, Debug, Eq, PartialEq)]
pub struct BridgePendingOperation {
    pub id: String,
    pub resource_id: String,
    pub kind: String,
    pub state: String,
    pub dependency: String,
    pub attempts: u32,
    pub next_attempt_at_ms: i64,
    pub created_at_ms: i64,
    pub last_error: Option<String>,
}

/// Cursor-addressed, redacted notification emitted by the process runtime.
/// Message bodies, keys, onion addresses and safety numbers never cross this type.
#[derive(Clone, Debug, Eq, PartialEq)]
pub struct NotificationEvent {
    pub cursor: u64,
    pub event_id: String,
    pub kind: String,
    /// Opaque runtime resource targeted by an optional OS notification action.
    pub resource_id: String,
    pub conversation_id: String,
    pub contact_display_name: String,
    pub created_at_ms: i64,
    pub title: String,
    pub body: String,
}
#[derive(Clone, Debug, Eq, PartialEq)]
pub struct BridgeBootstrapStep {
    pub id: String,
    pub state: String,
    pub code: Option<String>,
    pub progress: u8,
    pub attempt: u32,
    pub started_at_ms: Option<i64>,
    pub last_progress_at_ms: Option<i64>,
    pub retry_at_ms: Option<i64>,
}
#[derive(Clone, Debug, Eq, PartialEq)]
pub struct BridgePairing {
    pub id: String,
    pub code: String,
    pub invite_uri: String,
    pub role: String,
    pub state: String,
    pub expires_at_ms: i64,
    pub local_approved: bool,
    pub remote_approved: bool,
    pub remote_identity_id: Option<String>,
    pub remote_display_name: Option<String>,
    pub remote_fingerprint: Option<String>,
    pub remote_avatar_hash: Option<String>,
    pub remote_avatar_generator_version: Option<String>,
    pub remote_avatar_catalog_version: Option<String>,
}
#[derive(Clone, Debug, Eq, PartialEq)]
pub struct BridgePeerHealth {
    pub state: String,
    pub quality: String,
    pub rtt_ms: Option<u64>,
    pub last_success_at_ms: Option<i64>,
    pub consecutive_failures: u32,
    pub reconnect_attempt: u32,
    pub last_activity_at_ms: Option<i64>,
    pub activity_sequence: u64,
}
#[derive(Clone, Debug, Eq, PartialEq)]
pub struct BridgeTransportIndicator {
    pub state: String,
    pub code: String,
    pub latency_ms: Option<u64>,
    pub last_activity_at_ms: Option<i64>,
    pub activity_sequence: u64,
    pub tx_sequence: u64,
    pub rx_sequence: u64,
    pub in_flight: u32,
    pub queued: u32,
}
#[derive(Clone, Debug, Eq, PartialEq)]
pub struct BridgeTransportStatus {
    /// Provider-neutral aggregate. `tor` is retained until older clients are
    /// migrated to this field.
    pub communication: BridgeTransportIndicator,
    pub tor: BridgeTransportIndicator,
    pub relay: BridgeTransportIndicator,
    pub peer: BridgeTransportIndicator,
    pub peers_ready: u32,
    pub peers_total: u32,
    pub relay_info: Option<BridgeRelayInfo>,
}

#[derive(Clone, Debug, Eq, PartialEq)]
pub struct BridgeRelayInfo {
    pub product_version: String,
    pub build_id: String,
    pub source_commit: String,
    pub protocol_version: u16,
}
#[derive(Clone, Debug, Eq, PartialEq)]
pub struct BridgeContact {
    pub id: String,
    pub remote_identity_id: String,
    pub display_name: String,
    /// The provider selected when this relationship was paired. Its endpoint
    /// remains opaque and never crosses the UI boundary.
    pub transport_provider: String,
    pub endpoint_available: bool,
    /// Legacy Tor-only field retained for old clients. Direct providers do
    /// not expose their endpoint to the UI, so this is absent for Iroh/WebRTC.
    pub onion_address: Option<String>,
    pub status: String,
    pub connection_state: String,
    pub presence_state: String,
    pub last_seen_at_ms: Option<i64>,
    pub safety_number: String,
    pub peer_health: BridgePeerHealth,
    pub verification_status: String,
    pub verified_at_ms: Option<i64>,
    pub created_at_ms: i64,
}
#[derive(Clone, Debug, Eq, PartialEq)]
pub struct BridgeConversation {
    pub id: String,
    pub contact_id: String,
    pub status: String,
    pub unread_count: u32,
    pub last_activity_at_ms: i64,
    pub last_message_body: Option<String>,
    pub last_message_direction: Option<String>,
    pub last_message_status: Option<String>,
}
#[derive(Clone, Debug, Eq, PartialEq)]
pub struct BridgeMessage {
    pub id: String,
    pub conversation_id: String,
    pub body: String,
    pub direction: String,
    pub status: String,
    pub reply_to_message_id: Option<String>,
    pub created_at_ms: i64,
    pub updated_at_ms: i64,
    pub sent_at_ms: Option<i64>,
    pub delivered_at_ms: Option<i64>,
    pub read_at_ms: Option<i64>,
    pub attempt_count: u32,
}
#[derive(Clone, Debug, Eq, PartialEq)]
pub struct BridgeMessagePage {
    pub messages: Vec<BridgeMessage>,
    pub has_more: bool,
}
#[derive(Clone, Debug, Eq, PartialEq)]
pub struct BridgeReaction {
    pub message_id: String,
    pub conversation_id: String,
    pub actor_id: String,
    pub emoji: String,
    pub active: bool,
    pub updated_at_ms: i64,
}

#[derive(Clone, Debug, Eq, PartialEq)]
pub struct BridgeAttachment {
    pub id: String,
    pub message_id: String,
    pub name: String,
    pub media_type: String,
    pub size: u64,
    pub status: String,
    pub offset: u64,
    pub attempt_count: u32,
    pub updated_at_ms: i64,
    pub direction: String,
    pub last_error_code: Option<String>,
}

impl BridgeRadioAudio {
    /// Audio settings with no devices and nothing selected.
    pub fn empty() -> (r: Self)
        ensures
            r.input_devices@.len() == 0,
            r.output_devices@.len() == 0,
            r.selected_input_id is None,
            r.selected_output_id is None,
    {
        BridgeRadioAudio {
            input_devices: Vec::new(),
            output_devices: Vec::new(),
            selected_input_id: None,
            selected_output_id: None,
        }
    }
}

} // verus!
