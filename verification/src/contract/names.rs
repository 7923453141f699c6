//! Wire names of the contract's enumerations. Each enumeration stands for a
//! domain state; its wire name is what Flutter receives.
use vstd::prelude::*;

verus! {
/// Direction of a message relative to this device.
#[derive(Clone, Copy, Debug, PartialEq, Eq, Structural)]
pub enum MessageDirection {
    Outbound,
    Inbound,
}

pub open spec fn spec_message_direction_name(value: MessageDirection) -> Seq<char> {
    match value {
        MessageDirection::Outbound => "outbound"@,
        MessageDirection::Inbound => "inbound"@,
    }
}

pub fn message_direction_name(value: MessageDirection) -> (r: &'static str)
    ensures
        r@ == spec_message_direction_name(value),
{
    match value {
        MessageDirection::Outbound => "outbound",
        MessageDirection::Inbound => "inbound",
    }
}

/// Delivery status of a message.
#[derive(Clone, Copy, Debug, PartialEq, Eq, Structural)]
pub enum MessageStatus {
    Queued,
    Sending,
    Sent,
    Delivered,
    Read,
    Failed,
    Cancelled,
}

pub open spec fn spec_message_status_name(value: MessageStatus) -> Seq<char> {
    match value {
        MessageStatus::Queued => "queued"@,
        MessageStatus::Sending => "sending"@,
        MessageStatus::Sent => "sent"@,
        MessageStatus::Delivered => "delivered"@,
        MessageStatus::Read => "read"@,
        MessageStatus::Failed => "failed"@,
        MessageStatus::Cancelled => "cancelled"@,
    }
}

pub fn message_status_name(value: MessageStatus) -> (r: &'static str)
    ensures
        r@ == spec_message_status_name(value),
{
    match value {
        MessageStatus::Queued => "queued",
        MessageStatus::Sending => "sending",
        MessageStatus::Sent => "sent",
        MessageStatus::Delivered => "delivered",
        MessageStatus::Read => "read",
        MessageStatus::Failed => "failed",
        MessageStatus::Cancelled => "cancelled",
    }
}

/// Readiness of the selected communication provider.
#[derive(Clone, Copy, Debug, PartialEq, Eq, Structural)]
pub enum CommunicationState {
    Stopped,
    Starting,
    Ready,
    Degraded,
    Failed,
}

pub open spec fn spec_communication_state_name(value: CommunicationState) -> Seq<char> {
    match value {
        CommunicationState::Stopped => "stopped"@,
        CommunicationState::Starting => "starting"@,
        CommunicationState::Ready => "ready"@,
        CommunicationState::Degraded => "degraded"@,
        CommunicationState::Failed => "failed"@,
    }
}

pub fn communication_state_name(value: CommunicationState) -> (r: &'static str)
    ensures
        r@ == spec_communication_state_name(value),
{
    match value {
        CommunicationState::Stopped => "stopped",
        CommunicationState::Starting => "starting",
        CommunicationState::Ready => "ready",
        CommunicationState::Degraded => "degraded",
        CommunicationState::Failed => "failed",
    }
}

/// State of one provider commissioning step.
#[derive(Clone, Copy, Debug, PartialEq, Eq, Structural)]
pub enum CommissioningState {
    NotRequired,
    Pending,
    Ready,
    Degraded,
    Failed,
}

pub open spec fn spec_commissioning_state_name(value: CommissioningState) -> Seq<char> {
    match value {
        CommissioningState::NotRequired => "not_required"@,
        CommissioningState::Pending => "starting"@,
        CommissioningState::Ready => "ready"@,
        CommissioningState::Degraded => "degraded"@,
        CommissioningState::Failed => "failed"@,
    }
}

pub fn commissioning_state_name(value: CommissioningState) -> (r: &'static str)
    ensures
        r@ == spec_commissioning_state_name(value),
{
    match value {
        CommissioningState::NotRequired => "not_required",
        CommissioningState::Pending => "starting",
        CommissioningState::Ready => "ready",
        CommissioningState::Degraded => "degraded",
        CommissioningState::Failed => "failed",
    }
}

/// Outcome of a reachability probe.
#[derive(Clone, Copy, Debug, PartialEq, Eq, Structural)]
pub enum ProbeStatus {
    Unknown,
    Checking,
    Healthy,
    Degraded,
    Unreachable,
    Failed,
    Disabled,
}

pub open spec fn spec_probe_status_name(value: ProbeStatus) -> Seq<char> {
    match value {
        ProbeStatus::Unknown => "unknown"@,
        ProbeStatus::Checking => "checking"@,
        ProbeStatus::Healthy => "healthy"@,
        ProbeStatus::Degraded => "degraded"@,
        ProbeStatus::Unreachable => "unreachable"@,
        ProbeStatus::Failed => "failed"@,
        ProbeStatus::Disabled => "disabled"@,
    }
}

pub fn probe_status_name(value: ProbeStatus) -> (r: &'static str)
    ensures
        r@ == spec_probe_status_name(value),
{
    match value {
        ProbeStatus::Unknown => "unknown",
        ProbeStatus::Checking => "checking",
        ProbeStatus::Healthy => "healthy",
        ProbeStatus::Degraded => "degraded",
        ProbeStatus::Unreachable => "unreachable",
        ProbeStatus::Failed => "failed",
        ProbeStatus::Disabled => "disabled",
    }
}

/// State of one bootstrap step.
#[derive(Clone, Copy, Debug, PartialEq, Eq, Structural)]
pub enum BootstrapStepState {
    Pending,
    Running,
    Verifying,
    Ready,
    Degraded,
    Failed,
    Blocked,
}

pub open spec fn spec_bootstrap_step_state_name(value: BootstrapStepState) -> Seq<char> {
    match value {
        BootstrapStepState::Pending => "pending"@,
        BootstrapStepState::Running => "running"@,
        BootstrapStepState::Verifying => "verifying"@,
        BootstrapStepState::Ready => "ready"@,
        BootstrapStepState::Degraded => "degraded"@,
        BootstrapStepState::Failed => "failed"@,
        BootstrapStepState::Blocked => "blocked"@,
    }
}

pub fn bootstrap_step_state_name(value: BootstrapStepState) -> (r: &'static str)
    ensures
        r@ == spec_bootstrap_step_state_name(value),
{
    match value {
        BootstrapStepState::Pending => "pending",
        BootstrapStepState::Running => "running",
        BootstrapStepState::Verifying => "verifying",
        BootstrapStepState::Ready => "ready",
        BootstrapStepState::Degraded => "degraded",
        BootstrapStepState::Failed => "failed",
        BootstrapStepState::Blocked => "blocked",
    }
}

/// Side of a pairing session.
#[derive(Clone, Copy, Debug, PartialEq, Eq, Structural)]
pub enum PairingRole {
    Creator,
    Joiner,
}

pub open spec fn spec_pairing_role_name(value: PairingRole) -> Seq<char> {
    match value {
        PairingRole::Creator => "creator"@,
        PairingRole::Joiner => "joiner"@,
    }
}

pub fn pairing_role_name(value: PairingRole) -> (r: &'static str)
    ensures
        r@ == spec_pairing_role_name(value),
{
    match value {
        PairingRole::Creator => "creator",
        PairingRole::Joiner => "joiner",
    }
}

/// State of a pairing session.
#[derive(Clone, Copy, Debug, PartialEq, Eq, Structural)]
pub enum PairingState {
    Open,
    PeerJoined,
    AwaitingApproval,
    Approved,
    Rejected,
    Cancelled,
    Expired,
    Completed,
}

pub open spec fn spec_pairing_state_name(value: PairingState) -> Seq<char> {
    match value {
        PairingState::Open => "open"@,
        PairingState::PeerJoined => "peer_joined"@,
        PairingState::AwaitingApproval => "awaiting_approval"@,
        PairingState::Approved => "approved"@,
        PairingState::Rejected => "rejected"@,
        PairingState::Cancelled => "cancelled"@,
        PairingState::Expired => "expired"@,
        PairingState::Completed => "completed"@,
    }
}

pub fn pairing_state_name(value: PairingState) -> (r: &'static str)
    ensures
        r@ == spec_pairing_state_name(value),
{
    match value {
        PairingState::Open => "open",
        PairingState::PeerJoined => "peer_joined",
        PairingState::AwaitingApproval => "awaiting_approval",
        PairingState::Approved => "approved",
        PairingState::Rejected => "rejected",
        PairingState::Cancelled => "cancelled",
        PairingState::Expired => "expired",
        PairingState::Completed => "completed",
    }
}

/// Connection state of a contact's peer session.
#[derive(Clone, Copy, Debug, PartialEq, Eq, Structural)]
pub enum PeerConnectionStatus {
    Disconnected,
    Connecting,
    Handshaking,
    Ready,
    Reconnecting,
    Failed,
}

pub open spec fn spec_peer_connection_status_name(value: PeerConnectionStatus) -> Seq<char> {
    match value {
        PeerConnectionStatus::Disconnected => "disconnected"@,
        PeerConnectionStatus::Connecting => "connecting"@,
        PeerConnectionStatus::Handshaking => "handshaking"@,
        PeerConnectionStatus::Ready => "ready"@,
        PeerConnectionStatus::Reconnecting => "reconnecting"@,
        PeerConnectionStatus::Failed => "failed"@,
    }
}

pub fn peer_connection_status_name(value: PeerConnectionStatus) -> (r: &'static str)
    ensures
        r@ == spec_peer_connection_status_name(value),
{
    match value {
        PeerConnectionStatus::Disconnected => "disconnected",
        PeerConnectionStatus::Connecting => "connecting",
        PeerConnectionStatus::Handshaking => "handshaking",
        PeerConnectionStatus::Ready => "ready",
        PeerConnectionStatus::Reconnecting => "reconnecting",
        PeerConnectionStatus::Failed => "failed",
    }
}

/// Measured quality of a peer session.
#[derive(Clone, Copy, Debug, PartialEq, Eq, Structural)]
pub enum PeerHealthQuality {
    Unknown,
    Excellent,
    Good,
    Fair,
    Poor,
}

pub open spec fn spec_peer_health_quality_name(value: PeerHealthQuality) -> Seq<char> {
    match value {
        PeerHealthQuality::Unknown => "unknown"@,
        PeerHealthQuality::Excellent => "excellent"@,
        PeerHealthQuality::Good => "good"@,
        PeerHealthQuality::Fair => "fair"@,
        PeerHealthQuality::Poor => "poor"@,
    }
}

pub fn peer_health_quality_name(value: PeerHealthQuality) -> (r: &'static str)
    ensures
        r@ == spec_peer_health_quality_name(value),
{
    match value {
        PeerHealthQuality::Unknown => "unknown",
        PeerHealthQuality::Excellent => "excellent",
        PeerHealthQuality::Good => "good",
        PeerHealthQuality::Fair => "fair",
        PeerHealthQuality::Poor => "poor",
    }
}

/// Lifecycle status of a contact.
#[derive(Clone, Copy, Debug, PartialEq, Eq, Structural)]
pub enum ContactStatus {
    Active,
    Blocked,
    Removed,
}

pub open spec fn spec_contact_status_name(value: ContactStatus) -> Seq<char> {
    match value {
        ContactStatus::Active => "active"@,
        ContactStatus::Blocked => "blocked"@,
        ContactStatus::Removed => "removed"@,
    }
}

pub fn contact_status_name(value: ContactStatus) -> (r: &'static str)
    ensures
        r@ == spec_contact_status_name(value),
{
    match value {
        ContactStatus::Active => "active",
        ContactStatus::Blocked => "blocked",
        ContactStatus::Removed => "removed",
    }
}

/// Lifecycle status of a conversation.
#[derive(Clone, Copy, Debug, PartialEq, Eq, Structural)]
pub enum ConversationStatus {
    Active,
    Archived,
}

pub open spec fn spec_conversation_status_name(value: ConversationStatus) -> Seq<char> {
    match value {
        ConversationStatus::Active => "active"@,
        ConversationStatus::Archived => "archived"@,
    }
}

pub fn conversation_status_name(value: ConversationStatus) -> (r: &'static str)
    ensures
        r@ == spec_conversation_status_name(value),
{
    match value {
        ConversationStatus::Active => "active",
        ConversationStatus::Archived => "archived",
    }
}

/// Phase of application bootstrap.
#[derive(Clone, Copy, Debug, PartialEq, Eq, Structural)]
pub enum BootstrapPhase {
    Idle,
    Starting,
    ReadyForProfile,
    Ready,
    Degraded,
    Failed,
}

pub open spec fn spec_bootstrap_phase_name(value: BootstrapPhase) -> Seq<char> {
    match value {
        BootstrapPhase::Idle => "idle"@,
        BootstrapPhase::Starting => "starting"@,
        BootstrapPhase::ReadyForProfile => "ready_for_profile"@,
        BootstrapPhase::Ready => "ready"@,
        BootstrapPhase::Degraded => "degraded"@,
        BootstrapPhase::Failed => "failed"@,
    }
}

pub fn bootstrap_phase_name(value: BootstrapPhase) -> (r: &'static str)
    ensures
        r@ == spec_bootstrap_phase_name(value),
{
    match value {
        BootstrapPhase::Idle => "idle",
        BootstrapPhase::Starting => "starting",
        BootstrapPhase::ReadyForProfile => "ready_for_profile",
        BootstrapPhase::Ready => "ready",
        BootstrapPhase::Degraded => "degraded",
        BootstrapPhase::Failed => "failed",
    }
}

/// Identity of one bootstrap step; local storage steps share one wire id.
#[derive(Clone, Copy, Debug, PartialEq, Eq, Structural)]
pub enum BootstrapStepId {
    Preferences,
    NativeBridge,
    Contract,
    SecureStorage,
    Database,
    DeviceIdentity,
    CommunicationRuntime,
    IncomingReachability,
    Rendezvous,
    UserProfile,
}

pub open spec fn spec_bootstrap_step_id(value: BootstrapStepId) -> Seq<char> {
    match value {
        BootstrapStepId::Preferences => "local_storage"@,
        BootstrapStepId::NativeBridge => "local_storage"@,
        BootstrapStepId::Contract => "local_storage"@,
        BootstrapStepId::SecureStorage => "local_storage"@,
        BootstrapStepId::Database => "local_storage"@,
        BootstrapStepId::DeviceIdentity => "device_identity"@,
        BootstrapStepId::CommunicationRuntime => "communication_runtime"@,
        BootstrapStepId::IncomingReachability => "incoming_reachability"@,
        BootstrapStepId::Rendezvous => "rendezvous"@,
        BootstrapStepId::UserProfile => "profile"@,
    }
}

pub fn bootstrap_step_id(value: BootstrapStepId) -> (r: &'static str)
    ensures
        r@ == spec_bootstrap_step_id(value),
{
    match value {
        BootstrapStepId::Preferences => "local_storage",
        BootstrapStepId::NativeBridge => "local_storage",
        BootstrapStepId::Contract => "local_storage",
        BootstrapStepId::SecureStorage => "local_storage",
        BootstrapStepId::Database => "local_storage",
        BootstrapStepId::DeviceIdentity => "device_identity",
        BootstrapStepId::CommunicationRuntime => "communication_runtime",
        BootstrapStepId::IncomingReachability => "incoming_reachability",
        BootstrapStepId::Rendezvous => "rendezvous",
        BootstrapStepId::UserProfile => "profile",
    }
}

/// What a contact reported about its radio.
#[derive(Clone, Copy, Debug, PartialEq, Eq, Structural)]
pub enum RemoteRadioState {
    Unknown,
    Disabled,
    Enabled,
}

pub open spec fn spec_remote_radio_state_name(value: RemoteRadioState) -> Seq<char> {
    match value {
        RemoteRadioState::Unknown => "unknown"@,
        RemoteRadioState::Disabled => "disabled"@,
        RemoteRadioState::Enabled => "enabled"@,
    }
}

pub fn remote_radio_state_name(value: RemoteRadioState) -> (r: &'static str)
    ensures
        r@ == spec_remote_radio_state_name(value),
{
    match value {
        RemoteRadioState::Unknown => "unknown",
        RemoteRadioState::Disabled => "disabled",
        RemoteRadioState::Enabled => "enabled",
    }
}

/// State of the half-duplex radio for one contact.
#[derive(Clone, Copy, Debug, PartialEq, Eq, Structural)]
pub enum RadioState {
    Off,
    Available,
    WaitingForPeer,
    Connecting,
    Ready,
    RequestingFloor,
    StartingCapture,
    Transmitting,
    Receiving,
    Reconnecting,
    Unavailable,
}

pub open spec fn spec_radio_state_name(value: RadioState) -> Seq<char> {
    match value {
        RadioState::Off => "off"@,
        RadioState::Available => "available"@,
        RadioState::WaitingForPeer => "waiting_for_peer"@,
        RadioState::Connecting => "connecting"@,
        RadioState::Ready => "ready"@,
        RadioState::RequestingFloor => "requesting_floor"@,
        RadioState::StartingCapture => "starting_capture"@,
        RadioState::Transmitting => "transmitting"@,
        RadioState::Receiving => "receiving"@,
        RadioState::Reconnecting => "reconnecting"@,
        RadioState::Unavailable => "unavailable"@,
    }
}

pub fn radio_state_name(value: RadioState) -> (r: &'static str)
    ensures
        r@ == spec_radio_state_name(value),
{
    match value {
        RadioState::Off => "off",
        RadioState::Available => "available",
        RadioState::WaitingForPeer => "waiting_for_peer",
        RadioState::Connecting => "connecting",
        RadioState::Ready => "ready",
        RadioState::RequestingFloor => "requesting_floor",
        RadioState::StartingCapture => "starting_capture",
        RadioState::Transmitting => "transmitting",
        RadioState::Receiving => "receiving",
        RadioState::Reconnecting => "reconnecting",
        RadioState::Unavailable => "unavailable",
    }
}

/// Which side holds the radio floor.
#[derive(Clone, Copy, Debug, PartialEq, Eq, Structural)]
pub enum RadioFloor {
    Nobody,
    Local,
    Remote,
}

pub open spec fn spec_radio_floor_name(value: RadioFloor) -> Seq<char> {
    match value {
        RadioFloor::Nobody => "none"@,
        RadioFloor::Local => "local"@,
        RadioFloor::Remote => "remote"@,
    }
}

pub fn radio_floor_name(value: RadioFloor) -> (r: &'static str)
    ensures
        r@ == spec_radio_floor_name(value),
{
    match value {
        RadioFloor::Nobody => "none",
        RadioFloor::Local => "local",
        RadioFloor::Remote => "remote",
    }
}

/// Why the radio transport failed.
#[derive(Clone, Copy, Debug, PartialEq, Eq, Structural)]
pub enum RadioTransportFailure {
    EndpointUnavailable,
    ConnectTimeout,
    StreamReset,
    IdleTimeout,
    NetworkChanged,
    Protocol,
    Unknown,
}

pub open spec fn spec_radio_transport_failure_name(value: RadioTransportFailure) -> Seq<char> {
    match value {
        RadioTransportFailure::EndpointUnavailable => "endpoint_unavailable"@,
        RadioTransportFailure::ConnectTimeout => "connect_timeout"@,
        RadioTransportFailure::StreamReset => "stream_reset"@,
        RadioTransportFailure::IdleTimeout => "idle_timeout"@,
        RadioTransportFailure::NetworkChanged => "network_changed"@,
        RadioTransportFailure::Protocol => "protocol"@,
        RadioTransportFailure::Unknown => "unknown"@,
    }
}

pub fn radio_transport_failure_name(value: RadioTransportFailure) -> (r: &'static str)
    ensures
        r@ == spec_radio_transport_failure_name(value),
{
    match value {
        RadioTransportFailure::EndpointUnavailable => "endpoint_unavailable",
        RadioTransportFailure::ConnectTimeout => "connect_timeout",
        RadioTransportFailure::StreamReset => "stream_reset",
        RadioTransportFailure::IdleTimeout => "idle_timeout",
        RadioTransportFailure::NetworkChanged => "network_changed",
        RadioTransportFailure::Protocol => "protocol",
        RadioTransportFailure::Unknown => "unknown",
    }
}

/// Kind of a radio timeline event.
#[derive(Clone, Copy, Debug, PartialEq, Eq, Structural)]
pub enum RadioTimelineEventKind {
    Enabled,
    Disabled,
    Ready,
    Interrupted,
    Restored,
}

pub open spec fn spec_radio_event_kind_name(value: RadioTimelineEventKind) -> Seq<char> {
    match value {
        RadioTimelineEventKind::Enabled => "enabled"@,
        RadioTimelineEventKind::Disabled => "disabled"@,
        RadioTimelineEventKind::Ready => "ready"@,
        RadioTimelineEventKind::Interrupted => "interrupted"@,
        RadioTimelineEventKind::Restored => "restored"@,
    }
}

pub fn radio_event_kind_name(value: RadioTimelineEventKind) -> (r: &'static str)
    ensures
        r@ == spec_radio_event_kind_name(value),
{
    match value {
        RadioTimelineEventKind::Enabled => "enabled",
        RadioTimelineEventKind::Disabled => "disabled",
        RadioTimelineEventKind::Ready => "ready",
        RadioTimelineEventKind::Interrupted => "interrupted",
        RadioTimelineEventKind::Restored => "restored",
    }
}

/// Who caused a radio timeline event.
#[derive(Clone, Copy, Debug, PartialEq, Eq, Structural)]
pub enum RadioEventActor {
    Local,
    Remote,
    System,
}

pub open spec fn spec_radio_event_actor_name(value: RadioEventActor) -> Seq<char> {
    match value {
        RadioEventActor::Local => "local"@,
        RadioEventActor::Remote => "remote"@,
        RadioEventActor::System => "system"@,
    }
}

pub fn radio_event_actor_name(value: RadioEventActor) -> (r: &'static str)
    ensures
        r@ == spec_radio_event_actor_name(value),
{
    match value {
        RadioEventActor::Local => "local",
        RadioEventActor::Remote => "remote",
        RadioEventActor::System => "system",
    }
}

/// Why a relay transport request failed; the code is stable and specific.
#[derive(Clone, Copy, Debug, PartialEq, Eq, Structural)]
pub enum RelayTransportFailureKind {
    Busy,
    Unavailable,
    Timeout,
    Disconnected,
    InvalidResponse,
}

pub open spec fn spec_relay_error_code(value: RelayTransportFailureKind) -> Seq<char> {
    match value {
        RelayTransportFailureKind::Busy => "relay.connection_busy"@,
        RelayTransportFailureKind::Unavailable => "relay.connection_unavailable"@,
        RelayTransportFailureKind::Timeout => "relay.request_timeout"@,
        RelayTransportFailureKind::Disconnected => "relay.connection_disconnected"@,
        RelayTransportFailureKind::InvalidResponse => "relay.health_response_invalid"@,
    }
}

pub fn relay_error_code(value: RelayTransportFailureKind) -> (r: &'static str)
    ensures
        r@ == spec_relay_error_code(value),
{
    match value {
        RelayTransportFailureKind::Busy => "relay.connection_busy",
        RelayTransportFailureKind::Unavailable => "relay.connection_unavailable",
        RelayTransportFailureKind::Timeout => "relay.request_timeout",
        RelayTransportFailureKind::Disconnected => "relay.connection_disconnected",
        RelayTransportFailureKind::InvalidResponse => "relay.health_response_invalid",
    }
}

/// Verification state of a contact's identity key.
#[derive(Clone, Copy, Debug, PartialEq, Eq, Structural)]
pub enum ContactSecurityState {
    Unverified,
    Verified,
    IdentityChanged,
}

pub open spec fn spec_contact_security_state_name(value: ContactSecurityState) -> Seq<char> {
    match value {
        ContactSecurityState::Unverified => "unverified"@,
        ContactSecurityState::Verified => "verified"@,
        ContactSecurityState::IdentityChanged => "changed"@,
    }
}

pub fn contact_security_state_name(value: ContactSecurityState) -> (r: &'static str)
    ensures
        r@ == spec_contact_security_state_name(value),
{
    match value {
        ContactSecurityState::Unverified => "unverified",
        ContactSecurityState::Verified => "verified",
        ContactSecurityState::IdentityChanged => "changed",
    }
}

} // verus!
