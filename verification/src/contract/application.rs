//! What the application layer hands to the wire projection: its snapshot of
//! identity, pairings, contacts and conversations, the provider's network
//! view, the bootstrap model, and the side tables keyed by contact id.
//! Identifiers arrive already rendered as text.
use vstd::prelude::*;
use crate::contract::BridgeRelayInfo;
use crate::contract::names::{
    BootstrapPhase, BootstrapStepId, BootstrapStepState, CommissioningState, CommunicationState,
    ContactStatus, ConversationStatus, MessageDirection, MessageStatus, PairingRole, PairingState, PeerConnectionStatus,
    PeerHealthQuality, ProbeStatus, RadioEventActor, RadioFloor, RadioState,
    RadioTimelineEventKind, RadioTransportFailure, RemoteRadioState,
};

verus! {

/// The communication provider selected for this build.
#[derive(Clone, Copy, Debug, PartialEq, Eq, Structural)]
pub enum TransportKind {
    Tor,
    Iroh,
    WebRtc,
}

pub open spec fn spec_transport_wire_value(kind: TransportKind) -> Seq<char> {
    match kind {
        TransportKind::Tor => "tor"@,
        TransportKind::Iroh => "iroh"@,
        TransportKind::WebRtc => "webrtc"@,
    }
}

impl TransportKind {
    /// The provider id used on the wire and in contact routes.
    pub fn wire_value(self) -> (r: &'static str)
        ensures
            r@ == spec_transport_wire_value(self),
    {
        match self {
            TransportKind::Tor => "tor",
            TransportKind::Iroh => "iroh",
            TransportKind::WebRtc => "webrtc",
        }
    }
}

/// What a reachability probe checks.
#[derive(Clone, Copy, Debug, PartialEq, Eq, Structural)]
pub enum ProbeTarget {
    PairingService,
    Relay,
    /// Any target other than the pairing service or the relay.
    Other,
}

#[derive(Clone, Debug, PartialEq, Eq)]
pub struct Probe {
    pub target: ProbeTarget,
    pub status: ProbeStatus,
    pub diagnostic_code: String,
    pub latency_ms: Option<u64>,
}

/// Traffic counters of one channel.
#[derive(Clone, Copy, Debug, PartialEq, Eq, Structural)]
pub struct ChannelActivity {
    pub last_tx_at_ms: Option<i64>,
    pub last_rx_at_ms: Option<i64>,
    pub tx_sequence: u64,
    pub rx_sequence: u64,
    pub in_flight: u32,
    pub queued: u32,
}

#[derive(Clone, Copy, Debug, PartialEq, Eq, Structural)]
pub struct ConnectivitySummary {
    pub communication: ChannelActivity,
    pub tor: ChannelActivity,
    pub relay: ChannelActivity,
    pub peer: ChannelActivity,
    pub peer_latency_ms: Option<u64>,
    pub peers_ready: u32,
    pub peers_total: u32,
}

#[derive(Clone, Copy, Debug, PartialEq, Eq, Structural)]
pub struct PeerHealth {
    pub state: PeerConnectionStatus,
    pub quality: PeerHealthQuality,
    pub rtt_ms: Option<u64>,
    pub last_success_at_ms: Option<i64>,
    pub consecutive_failures: u32,
    pub reconnect_attempt: u32,
}

#[derive(Clone, Copy, Debug, PartialEq, Eq, Structural)]
pub struct PeerActivity {
    pub last_activity_at_ms: Option<i64>,
    pub sequence: u64,
}

/// Whether the user compared safety numbers with a contact.
#[derive(Clone, Copy, Debug, PartialEq, Eq, Structural)]
pub struct ContactVerification {
    pub verified: bool,
    pub verified_at_ms: Option<i64>,
}

/// The provider's network view. The tables at the end are keyed by contact
/// id; each key occurs at most once.
#[derive(Clone, Debug, PartialEq, Eq)]
pub struct NetworkSnapshot {
    pub provider: TransportKind,
    /// State of the provider's local-runtime commissioning stage.
    pub communication_step: CommissioningState,
    pub endpoint_summary: Option<String>,
    pub tor: CommunicationState,
    pub probes: Vec<Probe>,
    pub connectivity: ConnectivitySummary,
    pub relay_info: Option<BridgeRelayInfo>,
    pub onion_address: Option<String>,
    pub peers: Vec<(String, PeerConnectionStatus)>,
    pub peer_health: Vec<(String, PeerHealth)>,
    pub peer_activity: Vec<(String, PeerActivity)>,
    pub contact_names: Vec<(String, String)>,
    pub contact_verifications: Vec<(String, ContactVerification)>,
}

#[derive(Clone, Debug, PartialEq, Eq)]
pub struct BootstrapStep {
    pub id: BootstrapStepId,
    pub state: BootstrapStepState,
    pub diagnostic_code: Option<String>,
    pub attempt: u32,
}

#[derive(Clone, Debug, PartialEq, Eq)]
pub struct BootstrapSnapshot {
    pub phase: BootstrapPhase,
    pub steps: Vec<BootstrapStep>,
}

#[derive(Clone, Debug, PartialEq, Eq)]
pub struct IdentitySummary {
    pub identity_id: String,
    /// The profile's display name, once a profile exists.
    pub display_name: Option<String>,
}

#[derive(Clone, Debug, PartialEq, Eq)]
pub struct AvatarSummary {
    pub genome_hash: Vec<u8>,
    pub generator_version: String,
    pub catalog_version: String,
}

/// What the remote side proposed during pairing.
#[derive(Clone, Debug, PartialEq, Eq)]
pub struct RemoteProposal {
    pub identity_id: String,
    pub display_name: String,
    pub avatar: Option<AvatarSummary>,
}

#[derive(Clone, Debug, PartialEq, Eq)]
pub struct PairingSession {
    pub id: String,
    pub code: String,
    /// The invitation encoded with the provider's bootstrap, when it could be
    /// encoded.
    pub invite_uri: Option<String>,
    pub role: PairingRole,
    pub state: PairingState,
    pub expires_at_ms: i64,
    pub local_approved: bool,
    pub remote_approved: bool,
    pub remote: Option<RemoteProposal>,
}

#[derive(Clone, Debug, PartialEq, Eq)]
pub struct ContactRecord {
    pub id: String,
    pub remote_identity_id: String,
    pub status: ContactStatus,
    pub created_at_ms: i64,
    pub onion_address: String,
    /// Provider ids for which the contact's route carries an endpoint.
    pub route_providers: Vec<String>,
}

#[derive(Clone, Debug, PartialEq, Eq)]
pub struct ConversationRecord {
    pub id: String,
    pub contact_id: String,
    pub status: ConversationStatus,
}

#[derive(Clone, Debug, PartialEq, Eq)]
pub struct ReactionRecord {
    pub message_id: String,
    pub conversation_id: String,
    pub actor_id: String,
    pub emoji: String,
    pub active: bool,
    pub updated_at_ms: i64,
}

#[derive(Clone, Debug, PartialEq, Eq)]
pub struct AttachmentRecord {
    pub id: String,
    pub message_id: String,
    pub name: String,
    pub media_type: String,
    pub size: u64,
    pub status: String,
    pub offset: u64,
    pub attempt_count: u32,
    pub updated_at_ms: i64,
    pub direction: String,
    pub last_error_code: Option<String>,
}

/// A user operation waiting for the runtime.
#[derive(Clone, Copy, Debug, PartialEq, Eq, Structural)]
pub enum PendingOperationKind {
    CreatePairing,
    JoinPairing,
    ApprovePairing,
    RejectPairing,
    CancelPairing,
    RenameContact,
    VerifyContact,
    ResetContactVerification,
    BlockContact,
    UnblockContact,
    RemoveContact,
    ClearConversationHistory,
    MarkConversationRead,
}

#[derive(Clone, Debug, PartialEq, Eq)]
pub struct PendingOperation {
    pub id: String,
    pub resource_id: String,
    pub kind: PendingOperationKind,
    pub attempts: u32,
    pub next_attempt_at_ms: i64,
    pub created_at_ms: i64,
    pub last_error: Option<String>,
}

#[derive(Clone, Debug, PartialEq, Eq)]
pub struct RadioContactRecord {
    pub contact_id: String,
    pub local_enabled: bool,
    pub remote_state: RemoteRadioState,
    pub state: RadioState,
    pub changed_at_ms: i64,
}

#[derive(Clone, Debug, PartialEq, Eq)]
pub struct RadioSessionRecord {
    pub contact_id: String,
    pub session_id: String,
    pub state: RadioState,
    pub floor: RadioFloor,
    pub burst_elapsed_ms: u32,
    pub max_burst_ms: u32,
    pub input_level_milli: u16,
}

#[derive(Clone, Debug, PartialEq, Eq)]
pub struct RadioTimelineRecord {
    pub event_id: String,
    pub contact_id: String,
    pub kind: RadioTimelineEventKind,
    pub actor: RadioEventActor,
    pub occurred_at_ms: i64,
}

#[derive(Clone, Debug, PartialEq, Eq)]
pub struct AudioDeviceRecord {
    pub id: String,
    pub name: String,
    pub is_default: bool,
}

#[derive(Clone, Debug, PartialEq, Eq)]
pub struct AudioSettings {
    pub input_devices: Vec<AudioDeviceRecord>,
    pub output_devices: Vec<AudioDeviceRecord>,
    pub selected_input_id: Option<String>,
    pub selected_output_id: Option<String>,
}

#[derive(Clone, Debug, PartialEq, Eq)]
pub struct RadioProjection {
    pub active_contact_id: Option<String>,
    pub contacts: Vec<RadioContactRecord>,
    pub session: Option<RadioSessionRecord>,
    pub last_transport_failure: Option<RadioTransportFailure>,
    pub last_transport_failure_contact_id: Option<String>,
    pub timeline: Vec<RadioTimelineRecord>,
    pub audio: AudioSettings,
}

/// The application's own state.
#[derive(Clone, Debug, PartialEq, Eq)]
pub struct ApplicationSnapshot {
    pub identity: Option<IdentitySummary>,
    pub reactions: Vec<ReactionRecord>,
    pub pairings: Vec<PairingSession>,
    pub contacts: Vec<ContactRecord>,
    pub conversations: Vec<ConversationRecord>,
}

/// Everything the wire projection reads. The fingerprint and safety-number
/// tables are keyed by identity id and contact id; each key occurs at most
/// once.
#[derive(Clone, Debug, PartialEq, Eq)]
pub struct ApplicationSnapshotContext {
    pub application: ApplicationSnapshot,
    pub network: NetworkSnapshot,
    pub attachments: Vec<AttachmentRecord>,
    pub bootstrap: BootstrapSnapshot,
    pub identity_fingerprint: Option<String>,
    pub identity_fingerprints: Vec<(String, String)>,
    pub safety_numbers: Vec<(String, String)>,
    pub pending_operations: Vec<PendingOperation>,
    pub radio: Option<RadioProjection>,
}

#[derive(Clone, Debug, PartialEq, Eq)]
pub struct MessageRecord {
    pub id: String,
    pub conversation_id: String,
    pub body: String,
    pub direction: MessageDirection,
    pub status: MessageStatus,
    pub reply_to_message_id: Option<String>,
    pub created_at_ms: i64,
    pub updated_at_ms: i64,
    pub sent_at_ms: Option<i64>,
    pub delivered_at_ms: Option<i64>,
    pub read_at_ms: Option<i64>,
    /// Number of delivery attempts recorded for the message.
    pub attempts: usize,
}

/// What the application answers to a command that succeeded.
#[derive(Clone, Debug, PartialEq, Eq)]
pub struct ApplicationCommandResult {
    pub kind: String,
    pub resource_id: Option<String>,
    pub invite_uri: Option<String>,
}

/// A refused command: its diagnostic text and its stable error code.
#[derive(Clone, Debug, PartialEq, Eq)]
pub struct ApplicationError {
    pub message: String,
    pub code: String,
}

} // verus!
