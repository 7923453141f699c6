//! Decisions of the native runtime around the engine: how state transitions
//! are logged, how host energy events update the battery inputs, how event
//! wakes are reconciled, and the navigation badges of a snapshot.
use vstd::prelude::*;
use crate::contract::{BridgeContact, BridgeConversation, BridgePairing, BridgeSnapshot};
use crate::text::str_eq;

verus! {

/// Severity of a diagnostic log record.
#[derive(Clone, Copy, Debug, PartialEq, Eq, Structural)]
pub enum Level {
    Error,
    Warn,
    Info,
    Debug,
}

pub open spec fn transition_suffix(state: Seq<char>) -> Seq<char> {
    if state == "ready"@ {
        "READY"@
    } else if state == "failed"@ {
        "FAILED"@
    } else if state == "degraded"@ {
        "DEGRADED"@
    } else if state == "retrying"@ {
        "RETRYING"@
    } else if state == "running"@ || state == "checking"@ {
        "CONNECTING"@
    } else {
        "PENDING"@
    }
}

pub open spec fn transition_level(suffix: Seq<char>) -> Level {
    if suffix == "FAILED"@ {
        Level::Error
    } else if suffix == "DEGRADED"@ || suffix == "RETRYING"@ {
        Level::Warn
    } else {
        Level::Info
    }
}

/// The diagnostic text of a transition, or a placeholder.
pub open spec fn transition_detail(diagnostic: Option<String>) -> Seq<char> {
    match diagnostic {
        Some(d) => d@,
        None => "no diagnostic code"@,
    }
}

fn transition_suffix_of(state: &str) -> (r: &'static str)
    ensures
        r@ == transition_suffix(state@),
{
    if str_eq(state, "ready") {
        "READY"
    } else if str_eq(state, "failed") {
        "FAILED"
    } else if str_eq(state, "degraded") {
        "DEGRADED"
    } else if str_eq(state, "retrying") {
        "RETRYING"
    } else if str_eq(state, "running") || str_eq(state, "checking") {
        "CONNECTING"
    } else {
        "PENDING"
    }
}

/// The log record for a component's bootstrap step entering a new state:
/// its level, its stable code and its message.
pub fn network_transition_event(component: &str, transition: &(String, Option<String>)) -> (r: (
    Level,
    String,
    String,
))
    ensures
        r.0 == transition_level(transition_suffix(transition.0@)),
        r.1@ == component@ + "_"@ + transition_suffix(transition.0@),
        r.2@ == component@ + " state changed to "@ + transition.0@ + " ("@ + transition_detail(
            transition.1,
        ) + ")"@,
{
    let state = transition.0.as_str();
    let suffix = transition_suffix_of(state);
    let level = if str_eq(suffix, "FAILED") {
        Level::Error
    } else if str_eq(suffix, "DEGRADED") || str_eq(suffix, "RETRYING") {
        Level::Warn
    } else {
        Level::Info
    };
    let mut code = String::new();
    code.append(component);
    code.append("_");
    code.append(suffix);
    let mut message = String::new();
    message.append(component);
    message.append(" state changed to ");
    message.append(state);
    message.append(" (");
    match &transition.1 {
        Some(detail) => message.append(detail.as_str()),
        None => message.append("no diagnostic code"),
    }
    message.append(")");
    (level, code, message)
}

/// Battery mode the user asked for.
#[derive(Clone, Copy, Debug, PartialEq, Eq, Structural)]
pub enum RequestedBatteryMode {
    Automatic,
    AlwaysAvailable,
    Balanced,
    BatterySaver,
}

/// Energy profile the runtime applies to communication.
#[derive(Clone, Copy, Debug, PartialEq, Eq, Structural)]
pub enum BatteryProfile {
    AlwaysAvailable,
    Balanced,
    BatterySaver,
}

/// The persisted battery preference that selects the energy profile.
#[derive(Clone, Copy, Debug, PartialEq, Eq, Structural)]
pub struct BatteryPreferences {
    pub mode: RequestedBatteryMode,
}

pub open spec fn spec_profile_for_mode(mode: RequestedBatteryMode) -> BatteryProfile {
    match mode {
        RequestedBatteryMode::Automatic | RequestedBatteryMode::AlwaysAvailable =>
            BatteryProfile::AlwaysAvailable,
        RequestedBatteryMode::Balanced => BatteryProfile::Balanced,
        RequestedBatteryMode::BatterySaver => BatteryProfile::BatterySaver,
    }
}

pub fn profile_for_preferences(preferences: BatteryPreferences) -> (r: BatteryProfile)
    ensures
        r == spec_profile_for_mode(preferences.mode),
{
    match preferences.mode {
        RequestedBatteryMode::Automatic | RequestedBatteryMode::AlwaysAvailable => {
            BatteryProfile::AlwaysAvailable
        },
        RequestedBatteryMode::Balanced => BatteryProfile::Balanced,
        RequestedBatteryMode::BatterySaver => BatteryProfile::BatterySaver,
    }
}

/// Facts the host reports about the device's energy situation. An unknown
/// fact is `None`.
#[derive(Clone, Copy, Debug, PartialEq, Eq, Structural)]
pub struct SystemEnergyState {
    pub foreground: bool,
    pub power_saver: Option<bool>,
    pub charging: Option<bool>,
    pub metered_network: Option<bool>,
    pub validated_network: Option<bool>,
    pub data_stall: bool,
}

/// Native-owned cache of host facts and the persisted preference input.
#[derive(Clone, Copy, Debug, PartialEq, Eq, Structural)]
pub struct BatteryPolicyState {
    pub preferences: BatteryPreferences,
    pub system: SystemEnergyState,
}

/// The host facts after a lifecycle event; an event that is not an energy
/// fact leaves them unchanged.
pub open spec fn spec_apply_system_event(s: SystemEnergyState, event: Seq<char>) -> SystemEnergyState {
    if event == "foregrounded"@ || event == "host_started"@ {
        SystemEnergyState { foreground: true, ..s }
    } else if event == "backgrounded"@ {
        SystemEnergyState { foreground: false, ..s }
    } else if event == "power_saver_on"@ {
        SystemEnergyState { power_saver: Some(true), ..s }
    } else if event == "power_saver_off"@ {
        SystemEnergyState { power_saver: Some(false), ..s }
    } else if event == "charging_on"@ {
        SystemEnergyState { charging: Some(true), ..s }
    } else if event == "charging_off"@ {
        SystemEnergyState { charging: Some(false), ..s }
    } else if event == "metered_network_on"@ {
        SystemEnergyState { metered_network: Some(true), ..s }
    } else if event == "metered_network_off"@ {
        SystemEnergyState { metered_network: Some(false), ..s }
    } else if event == "network_validated"@ {
        SystemEnergyState { validated_network: Some(true), ..s }
    } else if event == "network_unvalidated"@ {
        SystemEnergyState { validated_network: Some(false), ..s }
    } else if event == "data_stall_on"@ {
        SystemEnergyState { data_stall: true, ..s }
    } else if event == "data_stall_off"@ {
        SystemEnergyState { data_stall: false, ..s }
    } else {
        s
    }
}

impl BatteryPolicyState {
    pub fn new(preferences: BatteryPreferences, system: SystemEnergyState) -> (r: Self)
        ensures
            r.preferences == preferences,
            r.system == system,
    {
        BatteryPolicyState { preferences, system }
    }

    /// Records one host lifecycle event.
    pub fn apply_system_event(&mut self, event: &str)
        ensures
            final(self).system == spec_apply_system_event(old(self).system, event@),
            final(self).preferences == old(self).preferences,
    {
        let s = self.system;
        self.system = if str_eq(event, "foregrounded") || str_eq(event, "host_started") {
            SystemEnergyState { foreground: true, ..s }
        } else if str_eq(event, "backgrounded") {
            SystemEnergyState { foreground: false, ..s }
        } else if str_eq(event, "power_saver_on") {
            SystemEnergyState { power_saver: Some(true), ..s }
        } else if str_eq(event, "power_saver_off") {
            SystemEnergyState { power_saver: Some(false), ..s }
        } else if str_eq(event, "charging_on") {
            SystemEnergyState { charging: Some(true), ..s }
        } else if str_eq(event, "charging_off") {
            SystemEnergyState { charging: Some(false), ..s }
        } else if str_eq(event, "metered_network_on") {
            SystemEnergyState { metered_network: Some(true), ..s }
        } else if str_eq(event, "metered_network_off") {
            SystemEnergyState { metered_network: Some(false), ..s }
        } else if str_eq(event, "network_validated") {
            SystemEnergyState { validated_network: Some(true), ..s }
        } else if str_eq(event, "network_unvalidated") {
            SystemEnergyState { validated_network: Some(false), ..s }
        } else if str_eq(event, "data_stall_on") {
            SystemEnergyState { data_stall: true, ..s }
        } else if str_eq(event, "data_stall_off") {
            SystemEnergyState { data_stall: false, ..s }
        } else {
            s
        };
    }
}

/// The host lifecycle events the runtime understands.
pub open spec fn is_lifecycle_event(event: Seq<char>) -> bool {
    ||| event == "host_started"@
    ||| event == "foregrounded"@
    ||| event == "backgrounded"@
    ||| event == "network_changed"@
    ||| event == "low_memory"@
    ||| event == "power_saver_on"@
    ||| event == "power_saver_off"@
    ||| event == "charging_on"@
    ||| event == "charging_off"@
    ||| event == "metered_network_on"@
    ||| event == "metered_network_off"@
    ||| event == "network_validated"@
    ||| event == "network_unvalidated"@
    ||| event == "data_stall_on"@
    ||| event == "data_stall_off"@
    ||| event == "terminating"@
}

/// What the radio is told about the host's lifecycle.
#[derive(Clone, Copy, Debug, PartialEq, Eq, Structural)]
pub enum RadioLifecycle {
    Foreground,
    Background,
    Terminating,
}

/// What the runtime does for one host lifecycle event.
#[derive(Clone, Copy, Debug, PartialEq, Eq, Structural)]
pub struct LifecycleActions {
    /// Tell the radio.
    pub radio: Option<RadioLifecycle>,
    /// Set whether the application is in the foreground.
    pub foreground: Option<bool>,
    /// Hand the network change to the provider, or keep it for the
    /// provider that is still starting.
    pub network_changed: bool,
    /// Close the runtime.
    pub terminate: bool,
}

/// The actions for a known lifecycle event.
pub open spec fn spec_lifecycle_actions(event: Seq<char>) -> LifecycleActions {
    let starts = event == "foregrounded"@ || event == "host_started"@;
    LifecycleActions {
        radio: if starts {
            Some(RadioLifecycle::Foreground)
        } else if event == "backgrounded"@ {
            Some(RadioLifecycle::Background)
        } else if event == "terminating"@ {
            Some(RadioLifecycle::Terminating)
        } else {
            None
        },
        foreground: if starts {
            Some(true)
        } else if event == "backgrounded"@ {
            Some(false)
        } else {
            None
        },
        network_changed: event == "network_changed"@,
        terminate: event == "terminating"@,
    }
}

/// The actions for a host lifecycle event; `None` for an event the runtime
/// does not know, which is refused.
pub fn lifecycle_actions(event: &str) -> (r: Option<LifecycleActions>)
    ensures
        is_lifecycle_event(event@) ==> r == Some(spec_lifecycle_actions(event@)),
        !is_lifecycle_event(event@) ==> r is None,
{
    let known = str_eq(event, "host_started") || str_eq(event, "foregrounded") || str_eq(event, "backgrounded")
        || str_eq(event, "network_changed") || str_eq(event, "low_memory") || str_eq(event, "power_saver_on")
        || str_eq(event, "power_saver_off") || str_eq(event, "charging_on") || str_eq(event, "charging_off")
        || str_eq(event, "metered_network_on") || str_eq(event, "metered_network_off") || str_eq(
        event,
        "network_validated",
    ) || str_eq(event, "network_unvalidated") || str_eq(event, "data_stall_on") || str_eq(event, "data_stall_off")
        || str_eq(event, "terminating");
    if !known {
        return None;
    }
    let starts = str_eq(event, "foregrounded") || str_eq(event, "host_started");
    let backgrounded = str_eq(event, "backgrounded");
    let terminating = str_eq(event, "terminating");
    Some(
        LifecycleActions {
            radio: if starts {
                Some(RadioLifecycle::Foreground)
            } else if backgrounded {
                Some(RadioLifecycle::Background)
            } else if terminating {
                Some(RadioLifecycle::Terminating)
            } else {
                None
            },
            foreground: if starts {
                Some(true)
            } else if backgrounded {
                Some(false)
            } else {
                None
            },
            network_changed: str_eq(event, "network_changed"),
            terminate: terminating,
        },
    )
}

/// Delays, in milliseconds, between the snapshot refreshes that reconcile
/// one runtime event. There is no idle cadence: only an event starts them.
pub open spec fn spec_reconcile_delays_ms() -> Seq<u64> {
    seq![5, 15, 40, 100, 250]
}

pub fn reconcile_delays_ms() -> (r: [u64; 5])
    ensures
        r@ == spec_reconcile_delays_ms(),
        forall|i: int, j: int| 0 <= i < j < 5 ==> r@[i] < r@[j],
{
    let r: [u64; 5] = [5, 15, 40, 100, 250];
    assert(r@ =~= spec_reconcile_delays_ms());
    r
}

/// One reconcile attempt after an event: a refresh that produced a newer
/// revision ends the burst; a failed refresh changes nothing.
pub fn reconcile_step(last_revision: u64, revision: Option<u64>) -> (r: (u64, bool))
    ensures
        match revision {
            None => r == (last_revision, false),
            Some(v) => if v > last_revision {
                r == (v, true)
            } else {
                r == (last_revision, false)
            },
        },
{
    match revision {
        None => (last_revision, false),
        Some(v) => if v > last_revision {
            (v, true)
        } else {
            (last_revision, false)
        },
    }
}

/// Result code of a native call that succeeded.
pub const ABI_OK: i32 = 0;
/// Result code of a native call that failed; the result text says why.
pub const ABI_ERROR: i32 = -1;
/// Result code of a call on a closed engine.
pub const ABI_CLOSED: i32 = -2;

/// One diagnostic stage of executing a bridge command.
#[derive(Clone, Copy, Debug, PartialEq, Eq)]
pub enum CommandStage {
    /// A stage of a profile update, by its code.
    Profile(&'static str),
    /// A stage of a pairing operation, by its code.
    Pairing(&'static str),
    /// A radio command was rejected.
    RadioRejected,
    /// Any other command was rejected.
    BridgeRejected,
    /// The snapshot is refreshed and published.
    PublishSnapshot,
}

/// The stages recorded before a command runs.
pub open spec fn spec_stages_before(is_profile: bool, is_pairing: bool) -> Seq<CommandStage> {
    (if is_profile {
        seq![
            CommandStage::Profile("PROFILE_REQUEST_RECEIVED"),
            CommandStage::Profile("PROFILE_COMMAND_QUEUED"),
            CommandStage::Profile("PROFILE_COMMAND_STARTED"),
            CommandStage::Profile("PROFILE_STORAGE_STARTED"),
        ]
    } else {
        seq![]
    }) + (if is_pairing {
        seq![CommandStage::Pairing("PAIRING_REQUEST_STARTED")]
    } else {
        seq![]
    })
}

/// The stages recorded after a command ran, and the call's result code.
pub open spec fn spec_stages_after(is_profile: bool, is_pairing: bool, is_radio: bool, ok: bool) -> (
    Seq<CommandStage>,
    i32,
) {
    if ok {
        ((if is_profile {
            seq![CommandStage::Profile("PROFILE_STORAGE_COMMITTED")]
        } else {
            seq![]
        }) + seq![CommandStage::PublishSnapshot] + (if is_profile {
            seq![
                CommandStage::Profile("PROFILE_SNAPSHOT_PUBLISHED"),
                CommandStage::Profile("PROFILE_REQUEST_SUCCEEDED"),
            ]
        } else {
            seq![]
        }) + (if is_pairing {
            seq![CommandStage::Pairing("PAIRING_REQUEST_SUCCEEDED")]
        } else {
            seq![]
        }), ABI_OK)
    } else {
        ((if is_profile {
            seq![CommandStage::Profile("PROFILE_STORAGE_FAILED")]
        } else {
            seq![]
        }) + seq![if is_radio { CommandStage::RadioRejected } else { CommandStage::BridgeRejected }] + (
        if is_pairing {
            seq![CommandStage::Pairing("PAIRING_REQUEST_FAILED")]
        } else {
            seq![]
        }), ABI_ERROR)
    }
}

/// The stages recorded before a profile update or pairing operation runs.
pub fn stages_before(is_profile: bool, is_pairing: bool) -> (r: Vec<CommandStage>)
    ensures
        r@ == spec_stages_before(is_profile, is_pairing),
{
    let mut r: Vec<CommandStage> = Vec::new();
    if is_profile {
        r.push(CommandStage::Profile("PROFILE_REQUEST_RECEIVED"));
        r.push(CommandStage::Profile("PROFILE_COMMAND_QUEUED"));
        r.push(CommandStage::Profile("PROFILE_COMMAND_STARTED"));
        r.push(CommandStage::Profile("PROFILE_STORAGE_STARTED"));
    }
    if is_pairing {
        r.push(CommandStage::Pairing("PAIRING_REQUEST_STARTED"));
    }
    assert(r@ =~= spec_stages_before(is_profile, is_pairing));
    r
}

/// The stages recorded after a command ran, successfully (`ok`) or not,
/// and the result code of the call: a success refreshes the snapshot
/// between the profile's commit and its publication.
pub fn stages_after(is_profile: bool, is_pairing: bool, is_radio: bool, ok: bool) -> (r: (Vec<CommandStage>, i32))
    ensures
        (r.0@, r.1) == spec_stages_after(is_profile, is_pairing, is_radio, ok),
{
    let mut stages: Vec<CommandStage> = Vec::new();
    if ok {
        if is_profile {
            stages.push(CommandStage::Profile("PROFILE_STORAGE_COMMITTED"));
        }
        stages.push(CommandStage::PublishSnapshot);
        if is_profile {
            stages.push(CommandStage::Profile("PROFILE_SNAPSHOT_PUBLISHED"));
            stages.push(CommandStage::Profile("PROFILE_REQUEST_SUCCEEDED"));
        }
        if is_pairing {
            stages.push(CommandStage::Pairing("PAIRING_REQUEST_SUCCEEDED"));
        }
        assert(stages@ =~= spec_stages_after(is_profile, is_pairing, is_radio, ok).0);
        (stages, ABI_OK)
    } else {
        if is_profile {
            stages.push(CommandStage::Profile("PROFILE_STORAGE_FAILED"));
        }
        if is_radio {
            stages.push(CommandStage::RadioRejected);
        } else {
            stages.push(CommandStage::BridgeRejected);
        }
        if is_pairing {
            stages.push(CommandStage::Pairing("PAIRING_REQUEST_FAILED"));
        }
        assert(stages@ =~= spec_stages_after(is_profile, is_pairing, is_radio, ok).0);
        (stages, ABI_ERROR)
    }
}

/// After pending operations advanced: the snapshot to keep and whether the
/// host must be told. A failed refresh (`refreshed` is `None`) keeps the
/// previous snapshot and reports only a moved notification cursor.
pub fn reconcile_outcome(before: String, refreshed: Option<String>, before_cursor: u64, after_cursor: u64) -> (r:
    (String, bool))
    ensures
        match refreshed {
            None => r.0@ == before@ && r.1 == (after_cursor != before_cursor),
            Some(s) => r.0@ == s@ && r.1 == (s@ != before@ || after_cursor != before_cursor),
        },
{
    match refreshed {
        None => (before, after_cursor != before_cursor),
        Some(snapshot) => {
            let changed = !crate::text::str_eq(snapshot.as_str(), before.as_str()) || after_cursor != before_cursor;
            (snapshot, changed)
        },
    }
}

/// The earlier of two optional delays; absent ones do not count.
pub open spec fn earlier(a: Option<u64>, b: Option<u64>) -> Option<u64> {
    match (a, b) {
        (Some(x), Some(y)) => Some(if x <= y { x } else { y }),
        (Some(x), None) => Some(x),
        (None, _) => b,
    }
}

/// When the runtime must next wake, in milliseconds from now: the earliest
/// of the pending operations' own delay and the host's one-shot startup
/// and retry deadlines. There is no periodic poll: with none of them, it
/// need not wake at all.
pub fn next_pending_operation_delay(pending: Option<u64>, host_start: Option<u64>, host_retry: Option<u64>) -> (r:
    Option<u64>)
    ensures
        r == earlier(earlier(pending, host_start), host_retry),
        r is None <==> (pending is None && host_start is None && host_retry is None),
        r matches Some(d) ==> (pending matches Some(p) ==> d <= p) && (host_start matches Some(s)
            ==> d <= s) && (host_retry matches Some(t) ==> d <= t),
{
    let first = earlier_of(pending, host_start);
    earlier_of(first, host_retry)
}

fn earlier_of(a: Option<u64>, b: Option<u64>) -> (r: Option<u64>)
    ensures
        r == earlier(a, b),
{
    match (a, b) {
        (Some(x), Some(y)) => Some(if x <= y { x } else { y }),
        (Some(x), None) => Some(x),
        (None, _) => b,
    }
}

/// Index of the first conversation with the given id, or -1.
pub open spec fn first_conversation_index(items: Seq<BridgeConversation>, id: Seq<char>) -> int
    decreases items.len(),
{
    if items.len() == 0 {
        -1
    } else if first_conversation_index(items.drop_last(), id) >= 0 {
        first_conversation_index(items.drop_last(), id)
    } else if items.last().id@ == id {
        items.len() - 1
    } else {
        -1
    }
}

/// Index of the first name entry with the given key, or -1.
pub open spec fn first_name_index(names: Seq<(String, String)>, key: Seq<char>) -> int
    decreases names.len(),
{
    if names.len() == 0 {
        -1
    } else if first_name_index(names.drop_last(), key) >= 0 {
        first_name_index(names.drop_last(), key)
    } else if names.last().0@ == key {
        names.len() - 1
    } else {
        -1
    }
}

/// The display name of the contact of a conversation, or the empty string.
pub open spec fn spec_snapshot_contact_name(
    conversations: Seq<BridgeConversation>,
    names: Seq<(String, String)>,
    conversation_id: Seq<char>,
) -> Seq<char> {
    let c = first_conversation_index(conversations, conversation_id);
    if c < 0 {
        Seq::empty()
    } else {
        let n = first_name_index(names, conversations[c].contact_id@);
        if n < 0 {
            Seq::empty()
        } else {
            names[n].1@
        }
    }
}

proof fn lemma_first_conversation_index(items: Seq<BridgeConversation>, id: Seq<char>)
    ensures
        -1 <= first_conversation_index(items, id) < items.len(),
        first_conversation_index(items, id) >= 0 ==> items[first_conversation_index(
            items,
            id,
        )].id@ == id,
        forall|i: int|
            0 <= i < items.len() && (first_conversation_index(items, id) < 0 || i
                < first_conversation_index(items, id)) ==> items[i].id@ != id,
    decreases items.len(),
{
    if items.len() > 0 {
        lemma_first_conversation_index(items.drop_last(), id);
        assert forall|i: int| 0 <= i < items.len() - 1 implies items.drop_last()[i] == items[i] by {}
    }
}

proof fn lemma_first_name_index(names: Seq<(String, String)>, key: Seq<char>)
    ensures
        -1 <= first_name_index(names, key) < names.len(),
        first_name_index(names, key) >= 0 ==> names[first_name_index(names, key)].0@ == key,
        forall|i: int|
            0 <= i < names.len() && (first_name_index(names, key) < 0 || i < first_name_index(
                names,
                key,
            )) ==> names[i].0@ != key,
    decreases names.len(),
{
    if names.len() > 0 {
        lemma_first_name_index(names.drop_last(), key);
        assert forall|i: int| 0 <= i < names.len() - 1 implies names.drop_last()[i] == names[i] by {}
    }
}

fn find_conversation(items: &Vec<BridgeConversation>, id: &str) -> (r: Option<usize>)
    ensures
        match r {
            Some(k) => first_conversation_index(items@, id@) == k as int && k < items@.len(),
            None => first_conversation_index(items@, id@) == -1,
        },
{
    let mut i: usize = 0;
    while i < items.len()
        invariant
            i <= items@.len(),
            forall|k: int| 0 <= k < i ==> items@[k].id@ != id@,
        decreases items@.len() - i,
    {
        if str_eq(items[i].id.as_str(), id) {
            proof {
                lemma_first_conversation_index(items@, id@);
            }
            return Some(i);
        }
        i = i + 1;
    }
    proof {
        lemma_first_conversation_index(items@, id@);
    }
    None
}

/// The display name of the contact of a conversation in the snapshot, or
/// the empty string when either is unknown.
pub fn snapshot_contact_name(
    snapshot: &BridgeSnapshot,
    contact_names: &Vec<(String, String)>,
    conversation_id: &str,
) -> (r: String)
    ensures
        r@ == spec_snapshot_contact_name(
            snapshot.conversations@,
            contact_names@,
            conversation_id@,
        ),
{
    let conversations = &snapshot.conversations;
    let i = match find_conversation(conversations, conversation_id) {
        None => return String::new(),
        Some(i) => i,
    };
    let contact_id = conversations[i].contact_id.as_str();
    let mut j: usize = 0;
    while j < contact_names.len()
        invariant
            j <= contact_names@.len(),
            first_conversation_index(conversations@, conversation_id@) == i as int,
            i < conversations@.len(),
            contact_id@ == conversations@[i as int].contact_id@,
            conversations == &snapshot.conversations,
            forall|k: int| 0 <= k < j ==> contact_names@[k].0@ != contact_id@,
        decreases contact_names@.len() - j,
    {
        if str_eq(contact_names[j].0.as_str(), contact_id) {
            proof {
                lemma_first_name_index(contact_names@, contact_id@);
            }
            assert(first_name_index(contact_names@, contact_id@) == j as int);
            return contact_names[j].1.clone();
        }
        j = j + 1;
    }
    proof {
        lemma_first_name_index(contact_names@, contact_id@);
    }
    String::new()
}

/// The sum of the unread counts, capped at `u32::MAX`.
pub open spec fn unread_total(items: Seq<BridgeConversation>) -> nat
    decreases items.len(),
{
    if items.len() == 0 {
        0
    } else {
        unread_total(items.drop_last()) + items.last().unread_count as nat
    }
}

pub open spec fn capped(n: nat) -> u32 {
    if n > u32::MAX {
        u32::MAX
    } else {
        n as u32
    }
}

/// A contact is new when it was created after the last acknowledgement, or
/// when nothing was ever acknowledged.
pub open spec fn is_new_contact(c: BridgeContact, acknowledged_at: Option<i64>) -> bool {
    match acknowledged_at {
        Some(at) => c.created_at_ms > at,
        None => true,
    }
}

pub open spec fn new_contact_count(items: Seq<BridgeContact>, acknowledged_at: Option<i64>) -> nat
    decreases items.len(),
{
    if items.len() == 0 {
        0
    } else {
        new_contact_count(items.drop_last(), acknowledged_at) + if is_new_contact(
            items.last(),
            acknowledged_at,
        ) {
            1nat
        } else {
            0nat
        }
    }
}

/// A pairing that waits for the local creator's approval.
pub open spec fn needs_attention(p: BridgePairing) -> bool {
    p.role@ == "creator"@ && p.state@ == "awaitingapproval"@
}

pub open spec fn attention_count(items: Seq<BridgePairing>) -> nat
    decreases items.len(),
{
    if items.len() == 0 {
        0
    } else {
        attention_count(items.drop_last()) + if needs_attention(items.last()) {
            1nat
        } else {
            0nat
        }
    }
}

/// Sets the navigation badges from the snapshot's own lists.
pub fn apply_navigation_badges(snapshot: &mut BridgeSnapshot, acknowledged_at: Option<i64>)
    ensures
        final(snapshot).unread_messages_count == capped(unread_total(old(snapshot).conversations@)),
        final(snapshot).new_contacts_count == capped(
            new_contact_count(old(snapshot).contacts@, acknowledged_at),
        ),
        final(snapshot).pairing_attention_count == capped(
            attention_count(old(snapshot).pairings@),
        ),
        final(snapshot).conversations == old(snapshot).conversations,
        final(snapshot).contacts == old(snapshot).contacts,
        final(snapshot).pairings == old(snapshot).pairings,
{
    let mut unread: u32 = 0;
    let mut i: usize = 0;
    while i < snapshot.conversations.len()
        invariant
            i <= snapshot.conversations@.len(),
            unread == capped(unread_total(snapshot.conversations@.subrange(0, i as int))),
        decreases snapshot.conversations@.len() - i,
    {
        let add = snapshot.conversations[i].unread_count;
        proof {
            let t = snapshot.conversations@.subrange(0, i as int + 1);
            assert(t.drop_last() =~= snapshot.conversations@.subrange(0, i as int));
        }
        unread = unread.saturating_add(add);
        i = i + 1;
    }
    assert(snapshot.conversations@.subrange(0, i as int) =~= snapshot.conversations@);
    let mut fresh: u32 = 0;
    let mut j: usize = 0;
    while j < snapshot.contacts.len()
        invariant
            j <= snapshot.contacts@.len(),
            fresh == capped(
                new_contact_count(snapshot.contacts@.subrange(0, j as int), acknowledged_at),
            ),
        decreases snapshot.contacts@.len() - j,
    {
        let is_new = match acknowledged_at {
            Some(at) => snapshot.contacts[j].created_at_ms > at,
            None => true,
        };
        proof {
            let t = snapshot.contacts@.subrange(0, j as int + 1);
            assert(t.drop_last() =~= snapshot.contacts@.subrange(0, j as int));
        }
        if is_new {
            fresh = fresh.saturating_add(1);
        }
        j = j + 1;
    }
    assert(snapshot.contacts@.subrange(0, j as int) =~= snapshot.contacts@);
    let mut attention: u32 = 0;
    let mut k: usize = 0;
    while k < snapshot.pairings.len()
        invariant
            k <= snapshot.pairings@.len(),
            attention == capped(attention_count(snapshot.pairings@.subrange(0, k as int))),
        decreases snapshot.pairings@.len() - k,
    {
        let hit = str_eq(snapshot.pairings[k].role.as_str(), "creator") && str_eq(
            snapshot.pairings[k].state.as_str(),
            "awaitingapproval",
        );
        proof {
            let t = snapshot.pairings@.subrange(0, k as int + 1);
            assert(t.drop_last() =~= snapshot.pairings@.subrange(0, k as int));
        }
        if hit {
            attention = attention.saturating_add(1);
        }
        k = k + 1;
    }
    assert(snapshot.pairings@.subrange(0, k as int) =~= snapshot.pairings@);
    snapshot.unread_messages_count = unread;
    snapshot.new_contacts_count = fresh;
    snapshot.pairing_attention_count = attention;
}

/// The pairing request a command starts, named for the pairing log, with
/// its session id.
pub open spec fn spec_pairing_operation(command: crate::contract::BridgeCommand) -> Option<(Seq<char>, Seq<char>)> {
    match command {
        crate::contract::BridgeCommand::CreatePairing { session_id_hex } => Some(("pairing.create"@, session_id_hex@)),
        crate::contract::BridgeCommand::JoinPairing { session_id_hex, .. } => Some(("pairing.join"@, session_id_hex@)),
        crate::contract::BridgeCommand::ApprovePairing { session_id_hex } => Some(("pairing.approve"@, session_id_hex@)),
        crate::contract::BridgeCommand::RejectPairing { session_id_hex } => Some(("pairing.reject"@, session_id_hex@)),
        crate::contract::BridgeCommand::CancelPairing { session_id_hex } => Some(("pairing.cancel"@, session_id_hex@)),
        _ => None,
    }
}

pub fn pairing_operation(command: &crate::contract::BridgeCommand) -> (r: Option<(&'static str, String)>)
    ensures
        match r {
            Some((name, id)) => spec_pairing_operation(*command) == Some((name@, id@)),
            None => spec_pairing_operation(*command) is None,
        },
{
    match command {
        crate::contract::BridgeCommand::CreatePairing { session_id_hex } => Some(("pairing.create", session_id_hex.clone())),
        crate::contract::BridgeCommand::JoinPairing { session_id_hex, .. } => Some(("pairing.join", session_id_hex.clone())),
        crate::contract::BridgeCommand::ApprovePairing { session_id_hex } => Some(("pairing.approve", session_id_hex.clone())),
        crate::contract::BridgeCommand::RejectPairing { session_id_hex } => Some(("pairing.reject", session_id_hex.clone())),
        crate::contract::BridgeCommand::CancelPairing { session_id_hex } => Some(("pairing.cancel", session_id_hex.clone())),
        _ => None,
    }
}

/// The radio operation a command performs, named for the radio log.
pub fn radio_operation(command: &crate::contract::BridgeCommand) -> (r: Option<&'static str>)
    ensures
        match *command {
            crate::contract::BridgeCommand::SetRadioEnabled { .. } => r matches Some(n) && n@ == "radio.set_enabled"@,
            crate::contract::BridgeCommand::BeginRadioTransmission { .. } => r matches Some(n) && n@ == "radio.begin_transmission"@,
            crate::contract::BridgeCommand::EndRadioTransmission { .. } => r matches Some(n) && n@ == "radio.end_transmission"@,
            _ => r is None,
        },
{
    match command {
        crate::contract::BridgeCommand::SetRadioEnabled { .. } => Some("radio.set_enabled"),
        crate::contract::BridgeCommand::BeginRadioTransmission { .. } => Some("radio.begin_transmission"),
        crate::contract::BridgeCommand::EndRadioTransmission { .. } => Some("radio.end_transmission"),
        _ => None,
    }
}

/// Whether a command updates the user's profile, which the profile log
/// follows step by step.
pub fn is_profile_update(command: &crate::contract::BridgeCommand) -> (r: bool)
    ensures
        r == (*command is UpdateProfile),
{
    match command {
        crate::contract::BridgeCommand::UpdateProfile { .. } => true,
        _ => false,
    }
}

/// The last message of a conversation, as its summary shows it.
#[derive(Clone, Debug, PartialEq, Eq)]
pub struct SummaryMessage {
    pub body: String,
    pub direction: crate::contract::names::MessageDirection,
    pub status: crate::contract::names::MessageStatus,
    pub created_at_ms: i64,
}

/// What the history read model knows of one conversation.
#[derive(Clone, Debug, PartialEq, Eq)]
pub struct ConversationSummary {
    pub unread_count: u32,
    pub last_activity_at_ms: i64,
    pub last_message: Option<SummaryMessage>,
}

/// Conversation `c` after its summary `s` was applied.
pub open spec fn summarized(r: BridgeConversation, c: BridgeConversation, s: Option<ConversationSummary>) -> bool {
    match s {
        None => r == c,
        Some(s) => {
            &&& r.id == c.id
            &&& r.contact_id == c.contact_id
            &&& r.status == c.status
            &&& r.unread_count == s.unread_count
            &&& r.last_activity_at_ms == s.last_activity_at_ms
            &&& match s.last_message {
                None => {
                    &&& r.last_message_body == c.last_message_body
                    &&& r.last_message_direction == c.last_message_direction
                    &&& r.last_message_status == c.last_message_status
                },
                Some(m) => {
                    &&& r.last_message_body == Some(m.body)
                    &&& option_text(r.last_message_direction) == Some(
                        crate::contract::names::spec_message_direction_name(m.direction),
                    )
                    &&& option_text(r.last_message_status) == Some(
                        crate::contract::names::spec_message_status_name(m.status),
                    )
                },
            }
        },
    }
}

pub open spec fn option_text(o: Option<String>) -> Option<Seq<char>> {
    match o {
        Some(s) => Some(s@),
        None => None,
    }
}

/// Fills each conversation from its history summary, looked up by id;
/// conversations without one keep their fields.
pub fn apply_history_summaries(snapshot: &mut BridgeSnapshot, summaries: &Vec<(String, ConversationSummary)>)
    ensures
        final(snapshot).conversations@.len() == old(snapshot).conversations@.len(),
        forall|i: int|
            0 <= i < old(snapshot).conversations@.len() ==> summarized(
                #[trigger] final(snapshot).conversations@[i],
                old(snapshot).conversations@[i],
                crate::contract::projection::lookup(summaries@, old(snapshot).conversations@[i].id@),
            ),
        *final(snapshot) == (BridgeSnapshot { conversations: final(snapshot).conversations, ..*old(snapshot) }),
{
    let ghost before = snapshot.conversations@;
    let mut i: usize = 0;
    while i < snapshot.conversations.len()
        invariant
            i <= snapshot.conversations@.len(),
            snapshot.conversations@.len() == before.len(),
            before == old(snapshot).conversations@,
            *snapshot == (BridgeSnapshot { conversations: snapshot.conversations, ..*old(snapshot) }),
            forall|k: int|
                0 <= k < i ==> summarized(
                    #[trigger] snapshot.conversations@[k],
                    before[k],
                    crate::contract::projection::lookup(summaries@, before[k].id@),
                ),
            forall|k: int| i <= k < before.len() ==> #[trigger] snapshot.conversations@[k] == before[k],
        decreases before.len() - i,
    {
        let found = crate::contract::projection::find_key(summaries, snapshot.conversations[i].id.as_str());
        if let Some(j) = found {
            let summary = &summaries[j].1;
            let mut c = snapshot.conversations.remove(i);
            c.unread_count = summary.unread_count;
            c.last_activity_at_ms = summary.last_activity_at_ms;
            if let Some(message) = &summary.last_message {
                c.last_message_body = Some(message.body.clone());
                c.last_message_direction = Some(
                    crate::contract::names::message_direction_name(message.direction).to_owned(),
                );
                c.last_message_status = Some(
                    crate::contract::names::message_status_name(message.status).to_owned(),
                );
            }
            snapshot.conversations.insert(i, c);
        }
        i = i + 1;
    }
}

/// What the security read model knows of one contact.
#[derive(Clone, Copy, Debug, PartialEq, Eq, Structural)]
pub struct ContactSecurity {
    pub state: crate::contract::names::ContactSecurityState,
    pub verified_at_ms: Option<i64>,
}

/// Contact `c` after its security state `s` was applied.
pub open spec fn secured(r: BridgeContact, c: BridgeContact, s: Option<ContactSecurity>) -> bool {
    match s {
        None => r == c,
        Some(s) => r == (BridgeContact {
            verification_status: r.verification_status,
            verified_at_ms: s.verified_at_ms,
            ..c
        }) && r.verification_status@ == crate::contract::names::spec_contact_security_state_name(s.state),
    }
}

/// Sets each contact's verification from its security state, looked up by
/// id; contacts without one keep theirs.
pub fn apply_security_states(snapshot: &mut BridgeSnapshot, states: &Vec<(String, ContactSecurity)>)
    ensures
        final(snapshot).contacts@.len() == old(snapshot).contacts@.len(),
        forall|i: int|
            0 <= i < old(snapshot).contacts@.len() ==> secured(
                #[trigger] final(snapshot).contacts@[i],
                old(snapshot).contacts@[i],
                crate::contract::projection::lookup(states@, old(snapshot).contacts@[i].id@),
            ),
        *final(snapshot) == (BridgeSnapshot { contacts: final(snapshot).contacts, ..*old(snapshot) }),
{
    let ghost before = snapshot.contacts@;
    let mut i: usize = 0;
    while i < snapshot.contacts.len()
        invariant
            i <= snapshot.contacts@.len(),
            snapshot.contacts@.len() == before.len(),
            before == old(snapshot).contacts@,
            *snapshot == (BridgeSnapshot { contacts: snapshot.contacts, ..*old(snapshot) }),
            forall|k: int|
                0 <= k < i ==> secured(
                    #[trigger] snapshot.contacts@[k],
                    before[k],
                    crate::contract::projection::lookup(states@, before[k].id@),
                ),
            forall|k: int| i <= k < before.len() ==> #[trigger] snapshot.contacts@[k] == before[k],
        decreases before.len() - i,
    {
        let found = crate::contract::projection::find_key(states, snapshot.contacts[i].id.as_str());
        if let Some(j) = found {
            let security = states[j].1;
            let mut c = snapshot.contacts.remove(i);
            c.verification_status = crate::contract::names::contact_security_state_name(security.state).to_owned();
            c.verified_at_ms = security.verified_at_ms;
            snapshot.contacts.insert(i, c);
        }
        i = i + 1;
    }
}

/// What `serde_json` writes for the JSON object `text` with two boolean
/// members set: `None` when `text` is not a JSON object.
pub uninterp spec fn json_object_with_bools(
    text: Seq<char>,
    first_key: Seq<char>,
    first: bool,
    second_key: Seq<char>,
    second: bool,
) -> Option<Seq<char>>;

/// `serde_json::from_str::<serde_json::Value>`, `Map::insert` of the two
/// members into the object, and `Value::to_string`. What it writes (member
/// order, escaping) is named by `json_object_with_bools`, not restated.
#[verifier::external_body]
fn set_json_bools(text: &str, first_key: &str, first: bool, second_key: &str, second: bool) -> (r: Option<String>)
    ensures
        option_text(r) == json_object_with_bools(text@, first_key@, first, second_key@, second),
{
    match serde_json::from_str::<serde_json::Value>(text) {
        Ok(serde_json::Value::Object(mut members)) => {
            members.insert(first_key.to_owned(), serde_json::Value::Bool(first));
            members.insert(second_key.to_owned(), serde_json::Value::Bool(second));
            Some(serde_json::Value::Object(members).to_string())
        },
        _ => None,
    }
}

/// The snapshot text to hand out: the one with the settings when it could
/// be written, else the snapshot as it was.
pub fn settled_snapshot_json(with_settings: Option<String>, snapshot_json: String) -> (r: String)
    ensures
        r@ == match with_settings {
            Some(t) => t@,
            None => snapshot_json@,
        },
{
    match with_settings {
        Some(text) => text,
        None => snapshot_json,
    }
}

/// The bridge snapshot's JSON with the notification and read-receipt
/// settings added as `notificationsEnabled` and `readReceiptsEnabled`; the
/// text unchanged when it is not a JSON object.
pub fn snapshot_json_with_settings(snapshot_json: String, notifications_enabled: bool, read_receipts_enabled: bool) -> (r: String)
    ensures
        r@ == match json_object_with_bools(
            snapshot_json@,
            "notificationsEnabled"@,
            notifications_enabled,
            "readReceiptsEnabled"@,
            read_receipts_enabled,
        ) {
            Some(t) => t,
            None => snapshot_json@,
        },
{
    let with_settings = set_json_bools(
        snapshot_json.as_str(),
        "notificationsEnabled",
        notifications_enabled,
        "readReceiptsEnabled",
        read_receipts_enabled,
    );
    settled_snapshot_json(with_settings, snapshot_json)
}

/// What `serde_json` writes for a JSON object with the boolean member
/// `flag_key` and the given members, each a string or null.
pub uninterp spec fn json_object_text(
    flag_key: Seq<char>,
    flag: bool,
    members: Seq<(Seq<char>, Option<Seq<char>>)>,
) -> Seq<char>;

pub open spec fn members_view(members: Seq<(String, Option<String>)>) -> Seq<(Seq<char>, Option<Seq<char>>)> {
    members.map_values(|m: (String, Option<String>)| (m.0@, option_text(m.1)))
}

/// `serde_json::Map::insert` of each member (`Value::Bool`, and
/// `Value::from` of an `Option<String>`: a string or null) into a new map,
/// then `Value::to_string` of the object. What it writes is named by
/// `json_object_text`, not restated.
#[verifier::external_body]
fn write_json_object(flag_key: &str, flag: bool, members: &Vec<(String, Option<String>)>) -> (r: String)
    ensures
        r@ == json_object_text(flag_key@, flag, members_view(members@)),
{
    let mut object = serde_json::Map::new();
    object.insert(flag_key.to_owned(), serde_json::Value::Bool(flag));
    for (key, value) in members {
        object.insert(key.clone(), serde_json::Value::from(value.clone()));
    }
    serde_json::Value::Object(object).to_string()
}

/// The kind the runtime reports: the result's own kind on success, else
/// `error:` and the error code, `operation_failed` when there is none.
pub open spec fn runtime_result_kind(ok: bool, kind: Seq<char>, error_code: Option<Seq<char>>) -> Seq<char> {
    if ok {
        kind
    } else {
        "error:"@ + match error_code {
            Some(c) => c,
            None => "operation_failed"@,
        }
    }
}

/// The members of the runtime's result object besides `ok`; `error` is
/// always null, so diagnostic text never reaches the host.
pub open spec fn runtime_result_members(
    kind: Seq<char>,
    error_code: Option<Seq<char>>,
    resource_id: Option<Seq<char>>,
    invite_uri: Option<Seq<char>>,
) -> Seq<(Seq<char>, Option<Seq<char>>)> {
    seq![
        ("kind"@, Some(kind)),
        ("error"@, None),
        ("errorCode"@, error_code),
        ("resourceId"@, resource_id),
        ("inviteUri"@, invite_uri),
    ]
}

pub open spec fn spec_runtime_result_json(
    ok: bool,
    kind: Seq<char>,
    error_code: Option<Seq<char>>,
    resource_id: Option<Seq<char>>,
    invite_uri: Option<Seq<char>>,
) -> Seq<char> {
    json_object_text(
        "ok"@,
        ok,
        runtime_result_members(runtime_result_kind(ok, kind, error_code), error_code, resource_id, invite_uri),
    )
}

fn copy_optional(o: &Option<String>) -> (r: Option<String>)
    ensures
        option_text(r) == option_text(*o),
{
    match o {
        Some(s) => Some(s.as_str().to_owned()),
        None => None,
    }
}

/// The JSON the native runtime answers a command with.
pub fn runtime_result_json(result: &crate::contract::BridgeResult) -> (r: String)
    ensures
        r@ == spec_runtime_result_json(
            result.ok,
            result.kind@,
            option_text(result.error_code),
            option_text(result.resource_id),
            option_text(result.invite_uri),
        ),
{
    let kind = if result.ok {
        result.kind.as_str().to_owned()
    } else {
        let mut kind = "error:".to_owned();
        match &result.error_code {
            Some(code) => kind.append(code.as_str()),
            None => kind.append("operation_failed"),
        }
        kind
    };
    let mut members: Vec<(String, Option<String>)> = Vec::new();
    members.push(("kind".to_owned(), Some(kind)));
    members.push(("error".to_owned(), None));
    members.push(("errorCode".to_owned(), copy_optional(&result.error_code)));
    members.push(("resourceId".to_owned(), copy_optional(&result.resource_id)));
    members.push(("inviteUri".to_owned(), copy_optional(&result.invite_uri)));
    assert(members_view(members@) =~= runtime_result_members(
        runtime_result_kind(result.ok, result.kind@, option_text(result.error_code)),
        option_text(result.error_code),
        option_text(result.resource_id),
        option_text(result.invite_uri),
    ));
    write_json_object("ok", result.ok, &members)
}

/// The runtime's answer to a successful command of `kind`.
pub fn runtime_success_result(kind: &str) -> (r: String)
    ensures
        r@ == spec_runtime_result_json(true, kind@, None, None, None),
{
    runtime_result_json(
        &crate::contract::BridgeResult {
            ok: true,
            kind: kind.to_owned(),
            error: None,
            error_code: None,
            resource_id: None,
            invite_uri: None,
        },
    )
}

/// The runtime's answer to a failure: the stable `operation_failed` code,
/// never the diagnostic text.
pub fn runtime_error_result() -> (r: String)
    ensures
        r@ == spec_runtime_result_json(false, "error"@, Some("operation_failed"@), None, None),
{
    runtime_result_json(
        &crate::contract::BridgeResult {
            ok: false,
            kind: "error".to_owned(),
            error: None,
            error_code: Some("operation_failed".to_owned()),
            resource_id: None,
            invite_uri: None,
        },
    )
}

/// Whether the runtime runs a command: a closed runtime runs nothing and
/// answers `ABI_CLOSED` with the failure result.
pub fn closed_runtime_answer(closed: bool) -> (r: Option<(i32, String)>)
    ensures
        closed ==> (r matches Some((code, json)) && code == ABI_CLOSED && json@ == spec_runtime_result_json(
            false,
            "error"@,
            Some("operation_failed"@),
            None,
            None,
        )),
        !closed ==> r is None,
{
    if closed {
        Some((ABI_CLOSED, runtime_error_result()))
    } else {
        None
    }
}

/// A stored on/off setting as the runtime starts with it: as stored, and on
/// when the store has none or cannot be read.
pub fn setting_or_on(stored: Option<bool>) -> (r: bool)
    ensures
        r == match stored {
            Some(b) => b,
            None => true,
        },
{
    match stored {
        Some(b) => b,
        None => true,
    }
}

/// The runtime's error when its engine cannot be composed.
pub fn composition_failed(error: &str) -> (r: String)
    ensures
        r@ == "native engine composition failed: "@ + error@,
{
    let mut message = "native engine composition failed: ".to_owned();
    message.append(error);
    message
}

/// At start-up, after asking whether a local identity exists (`None` when
/// the question failed): whether one must be created, or the error.
pub fn identity_step(has_identity: Option<bool>) -> (r: Result<bool, String>)
    ensures
        match has_identity {
            None => r matches Err(e) && e@ == "read local identity failed"@,
            Some(h) => r == Ok::<bool, String>(!h),
        },
{
    match has_identity {
        None => Err("read local identity failed".to_owned()),
        Some(h) => Ok(!h),
    }
}

/// At start-up, after creating the device identity: the error when it
/// failed.
pub fn identity_created(created: bool) -> (r: Result<(), String>)
    ensures
        created <==> r is Ok,
        r matches Err(e) ==> e@ == "create bootstrap device identity failed"@,
{
    if created {
        Ok(())
    } else {
        Err("create bootstrap device identity failed".to_owned())
    }
}

/// At start-up, after the first snapshot refresh answered `code`: the
/// runtime is ready only when it answered `ABI_OK`.
pub fn initial_snapshot_ready(code: i32) -> (r: Result<(), String>)
    ensures
        r is Ok <==> code == ABI_OK,
        r matches Err(e) ==> e@ == "initial native snapshot unavailable"@,
{
    if code == ABI_OK {
        Ok(())
    } else {
        Err("initial native snapshot unavailable".to_owned())
    }
}

/// The contacts the runtime already knows when it starts, by id, so that
/// none of them is announced as new; none without a snapshot.
pub fn known_contact_ids(snapshot: Option<&BridgeSnapshot>) -> (r: Vec<String>)
    ensures
        match snapshot {
            None => r@.len() == 0,
            Some(s) => r@.len() == s.contacts@.len() && forall|i: int|
                0 <= i < r@.len() ==> #[trigger] r@[i]@ == s.contacts@[i].id@,
        },
{
    let mut ids: Vec<String> = Vec::new();
    if let Some(s) = snapshot {
        let mut i: usize = 0;
        while i < s.contacts.len()
            invariant
                i <= s.contacts@.len(),
                ids@.len() == i,
                forall|k: int| 0 <= k < i ==> #[trigger] ids@[k]@ == s.contacts@[k].id@,
            decreases s.contacts@.len() - i,
        {
            ids.push(s.contacts[i].id.as_str().to_owned());
            i = i + 1;
        }
    }
    ids
}

/// Law: how many contacts are new. With nothing ever acknowledged every
/// contact is new; a contact created after the acknowledgement counts and
/// one created at or before it does not, so the count is at most the number
/// of contacts, and a later acknowledgement never raises it.
pub proof fn new_contacts_follow_the_acknowledgement(items: Seq<BridgeContact>, at: i64, later: i64)
    ensures
        new_contact_count(items, None) == items.len(),
        new_contact_count(items, Some(at)) <= items.len(),
        (forall|i: int| 0 <= i < items.len() ==> #[trigger] items[i].created_at_ms > at) ==> new_contact_count(
            items,
            Some(at),
        ) == items.len(),
        (forall|i: int| 0 <= i < items.len() ==> #[trigger] items[i].created_at_ms <= at) ==> new_contact_count(
            items,
            Some(at),
        ) == 0,
        at <= later ==> new_contact_count(items, Some(later)) <= new_contact_count(items, Some(at)),
    decreases items.len(),
{
    if items.len() > 0 {
        let t = items.drop_last();
        new_contacts_follow_the_acknowledgement(t, at, later);
        if forall|i: int| 0 <= i < items.len() ==> #[trigger] items[i].created_at_ms > at {
            assert forall|i: int| 0 <= i < t.len() implies #[trigger] t[i].created_at_ms > at by {
                assert(t[i] == items[i]);
            }
            assert(items[items.len() - 1].created_at_ms > at);
        }
        if forall|i: int| 0 <= i < items.len() ==> #[trigger] items[i].created_at_ms <= at {
            assert forall|i: int| 0 <= i < t.len() implies #[trigger] t[i].created_at_ms <= at by {
                assert(t[i] == items[i]);
            }
            assert(items[items.len() - 1].created_at_ms <= at);
        }
    }
}

/// Law: the new-contacts badge counts every contact while nothing was ever
/// acknowledged, up to the badge's largest value.
pub proof fn unacknowledged_badge_counts_every_contact(items: Seq<BridgeContact>)
    ensures
        capped(new_contact_count(items, None)) == if items.len() > u32::MAX {
            u32::MAX
        } else {
            items.len() as u32
        },
{
    new_contacts_follow_the_acknowledgement(items, 0, 0);
}

} // verus!
