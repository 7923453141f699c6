//! The wire projection: converts the application's snapshot context into the
//! contract's presentation snapshot. Nothing here decides readiness or
//! policy; every field is a renaming, a lookup or a fixed default.
use vstd::prelude::*;
use crate::contract::application::{
    ApplicationSnapshotContext, AttachmentRecord, AudioDeviceRecord, BootstrapStep,
    ChannelActivity, ContactRecord, ConversationRecord, NetworkSnapshot, PairingSession,
    PendingOperation, PendingOperationKind, Probe, ProbeTarget, RadioProjection, ReactionRecord,
    TransportKind, spec_transport_wire_value,
};
use crate::contract::names::{
    bootstrap_phase_name, bootstrap_step_id, bootstrap_step_state_name, commissioning_state_name,
    communication_state_name, contact_status_name, conversation_status_name, pairing_role_name,
    pairing_state_name, peer_connection_status_name, peer_health_quality_name, probe_status_name,
    radio_event_actor_name, radio_event_kind_name, radio_floor_name, radio_state_name,
    radio_transport_failure_name, remote_radio_state_name, spec_bootstrap_phase_name,
    spec_bootstrap_step_id, spec_bootstrap_step_state_name, spec_commissioning_state_name,
    spec_communication_state_name, spec_contact_status_name, spec_conversation_status_name,
    spec_pairing_role_name, spec_pairing_state_name, spec_peer_connection_status_name,
    spec_peer_health_quality_name, spec_probe_status_name, spec_radio_event_actor_name,
    spec_radio_event_kind_name, spec_radio_floor_name, spec_radio_state_name,
    spec_radio_transport_failure_name, spec_remote_radio_state_name, BootstrapStepId,
    BootstrapStepState, PairingState,
};
use crate::contract::{
    BridgeAttachment, BridgeAudioDevice, BridgeBootstrapStep, BridgeContact, BridgeConversation,
    BridgePairing, BridgePeerHealth, BridgePendingOperation, BridgeRadio, BridgeRadioAudio,
    BridgeRadioContact, BridgeRadioSession, BridgeRadioTimelineEvent, BridgeReaction,
    BridgeRelayInfo, BridgeSnapshot, BridgeTransportIndicator, BridgeTransportStatus,
};
use crate::native_json::{hex_digit_lower, option_view};
use crate::text::push_char;

verus! {

/// The later of two optional instants.
pub open spec fn latest(a: Option<i64>, b: Option<i64>) -> Option<i64> {
    match (a, b) {
        (Some(x), Some(y)) => Some(if x >= y { x } else { y }),
        (Some(x), None) => Some(x),
        (None, y) => y,
    }
}

/// `u64::saturating_add`.
pub open spec fn saturating_sum(a: u64, b: u64) -> u64 {
    if a + b > u64::MAX {
        u64::MAX
    } else {
        (a + b) as u64
    }
}

pub open spec fn ascii_upper_char(c: char) -> char {
    if 'a' <= c && c <= 'z' {
        ((c as u32) - 32) as char
    } else {
        c
    }
}

/// What `str::to_ascii_uppercase` returns.
pub open spec fn spec_ascii_uppercase(s: Seq<char>) -> Seq<char> {
    s.map_values(|c: char| ascii_upper_char(c))
}

/// The lowercase hexadecimal text of `bytes`, high nibble first.
pub open spec fn spec_lower_hex(bytes: Seq<u8>) -> Seq<char>
    decreases bytes.len(),
{
    if bytes.len() == 0 {
        Seq::empty()
    } else {
        spec_lower_hex(bytes.drop_last()) + seq![
            hex_digit_lower((bytes.last() / 16) as nat),
            hex_digit_lower((bytes.last() % 16) as nat),
        ]
    }
}

/// The value stored under the first key whose text is `key`.
pub open spec fn lookup<V>(table: Seq<(String, V)>, key: Seq<char>) -> Option<V>
    decreases table.len(),
{
    if table.len() == 0 {
        None
    } else if table[0].0@ == key {
        Some(table[0].1)
    } else {
        lookup(table.drop_first(), key)
    }
}

/// Bytes that the UTF-8 encoding of `c` takes.
pub open spec fn utf8_width(c: char) -> nat {
    let u = c as u32;
    if u < 0x80 {
        1
    } else if u < 0x800 {
        2
    } else if u < 0x10000 {
        3
    } else {
        4
    }
}

/// Bytes that the UTF-8 encoding of `s` takes.
pub open spec fn utf8_len(s: Seq<char>) -> nat
    decreases s.len(),
{
    if s.len() == 0 {
        0
    } else {
        utf8_len(s.drop_last()) + utf8_width(s.last())
    }
}

/// `&s[..8]` where that is a whole prefix of characters, else `s`: what
/// `str::get(..8).unwrap_or(s)` returns.
pub open spec fn short_id(s: Seq<char>) -> Seq<char> {
    if exists|k: int| 0 <= k <= s.len() && utf8_len(#[trigger] s.subrange(0, k)) == 8 {
        s.subrange(0, choose|k: int| 0 <= k <= s.len() && utf8_len(#[trigger] s.subrange(0, k)) == 8)
    } else {
        s
    }
}

/// The name shown for a contact that has none of its own.
pub open spec fn spec_fallback_contact_name(id: Seq<char>) -> Seq<char> {
    "Contact "@ + short_id(id)
}

/// `r` shows `state`, `code` and `latency` over the counters of `c`.
pub open spec fn indicator_is(
    r: BridgeTransportIndicator,
    state: Seq<char>,
    code: Seq<char>,
    latency: Option<u64>,
    c: ChannelActivity,
) -> bool {
    &&& r.state@ == state
    &&& r.code@ == code
    &&& r.latency_ms == latency
    &&& r.last_activity_at_ms == latest(c.last_tx_at_ms, c.last_rx_at_ms)
    &&& r.activity_sequence == saturating_sum(c.tx_sequence, c.rx_sequence)
    &&& r.tx_sequence == c.tx_sequence
    &&& r.rx_sequence == c.rx_sequence
    &&& r.in_flight == c.in_flight
    &&& r.queued == c.queued
}

fn latest_instant(a: Option<i64>, b: Option<i64>) -> (r: Option<i64>)
    ensures
        r == latest(a, b),
{
    match (a, b) {
        (Some(x), Some(y)) => Some(if x >= y { x } else { y }),
        (Some(x), None) => Some(x),
        (None, y) => y,
    }
}

/// One transport indicator of the snapshot.
pub fn transport_indicator(
    state: String,
    code: String,
    latency_ms: Option<u64>,
    activity: &ChannelActivity,
) -> (r: BridgeTransportIndicator)
    ensures
        indicator_is(r, state@, code@, latency_ms, *activity),
{
    BridgeTransportIndicator {
        state,
        code,
        latency_ms,
        last_activity_at_ms: latest_instant(activity.last_tx_at_ms, activity.last_rx_at_ms),
        activity_sequence: activity.tx_sequence.saturating_add(activity.rx_sequence),
        tx_sequence: activity.tx_sequence,
        rx_sequence: activity.rx_sequence,
        in_flight: activity.in_flight,
        queued: activity.queued,
    }
}

/// `prefix` followed by `value` in ASCII upper case.
pub(crate) fn prefixed_upper(prefix: &str, value: &str) -> (r: String)
    ensures
        r@ == prefix@ + spec_ascii_uppercase(value@),
{
    let mut out = prefix.to_owned();
    let chars = crate::text::chars_of(value);
    let mut i: usize = 0;
    while i < chars.len()
        invariant
            i <= chars@.len(),
            chars@ == value@,
            out@ == prefix@ + spec_ascii_uppercase(value@.subrange(0, i as int)),
        decreases chars@.len() - i,
    {
        let c = chars[i];
        let u = if 'a' <= c && c <= 'z' {
            crate::text::char_from_ascii(((c as u32) - 32) as u8)
        } else {
            c
        };
        push_char(&mut out, u);
        i = i + 1;
        assert(spec_ascii_uppercase(value@.subrange(0, i as int)) =~= spec_ascii_uppercase(
            value@.subrange(0, i - 1),
        ).push(u));
    }
    assert(value@.subrange(0, chars@.len() as int) =~= value@);
    out
}

/// The state and code of the peer indicator: inactive without peers, ready
/// when any peer is ready, disconnected otherwise.
pub open spec fn spec_peer_indicator(peers_total: u32, peers_ready: u32) -> (Seq<char>, Seq<char>) {
    if peers_total == 0 {
        ("inactive"@, "PEER_INACTIVE"@)
    } else if peers_ready > 0 {
        ("ready"@, "PEER_READY"@)
    } else {
        ("disconnected"@, "PEER_DISCONNECTED"@)
    }
}

pub fn peer_indicator(peers_total: u32, peers_ready: u32) -> (r: (&'static str, &'static str))
    ensures
        (r.0@, r.1@) == spec_peer_indicator(peers_total, peers_ready),
{
    if peers_total == 0 {
        ("inactive", "PEER_INACTIVE")
    } else if peers_ready > 0 {
        ("ready", "PEER_READY")
    } else {
        ("disconnected", "PEER_DISCONNECTED")
    }
}

/// Index of the first probe of the pairing service or the relay, or -1.
pub open spec fn first_relay_probe(probes: Seq<Probe>) -> int
    decreases probes.len(),
{
    if probes.len() == 0 {
        -1
    } else if first_relay_probe(probes.drop_last()) >= 0 {
        first_relay_probe(probes.drop_last())
    } else if probes.last().target is PairingService || probes.last().target is Relay {
        probes.len() - 1
    } else {
        -1
    }
}

proof fn lemma_first_relay_probe(probes: Seq<Probe>)
    ensures
        -1 <= first_relay_probe(probes) < probes.len(),
        first_relay_probe(probes) >= 0 ==> (probes[first_relay_probe(probes)].target is PairingService
            || probes[first_relay_probe(probes)].target is Relay),
        forall|i: int|
            0 <= i < probes.len() && (first_relay_probe(probes) < 0 || i < first_relay_probe(probes))
                ==> !(#[trigger] probes[i].target is PairingService || probes[i].target is Relay),
    decreases probes.len(),
{
    if probes.len() > 0 {
        lemma_first_relay_probe(probes.drop_last());
        assert forall|i: int| 0 <= i < probes.len() - 1 implies probes.drop_last()[i] == probes[i] by {}
    }
}

fn find_relay_probe(probes: &Vec<Probe>) -> (r: Option<usize>)
    ensures
        match r {
            Some(i) => i < probes@.len() && first_relay_probe(probes@) == i,
            None => first_relay_probe(probes@) == -1,
        },
{
    proof {
        lemma_first_relay_probe(probes@);
    }
    let mut i: usize = 0;
    while i < probes.len()
        invariant
            i <= probes@.len(),
            forall|k: int|
                0 <= k < i ==> !(#[trigger] probes@[k].target is PairingService
                    || probes@[k].target is Relay),
            -1 <= first_relay_probe(probes@) < probes@.len(),
            first_relay_probe(probes@) >= 0 ==> (probes@[first_relay_probe(probes@)].target is PairingService
                || probes@[first_relay_probe(probes@)].target is Relay),
            forall|k: int|
                0 <= k < probes@.len() && (first_relay_probe(probes@) < 0 || k < first_relay_probe(
                    probes@,
                )) ==> !(#[trigger] probes@[k].target is PairingService || probes@[k].target is Relay),
        decreases probes@.len() - i,
    {
        match probes[i].target {
            ProbeTarget::PairingService | ProbeTarget::Relay => {
                return Some(i);
            },
            ProbeTarget::Other => {},
        }
        i = i + 1;
    }
    None
}

/// The transport part of the snapshot, given the communication and legacy
/// Tor states already named.
pub open spec fn transport_status_is(
    r: BridgeTransportStatus,
    n: NetworkSnapshot,
    communication_state: Seq<char>,
    tor_state: Seq<char>,
) -> bool {
    let is_tor = n.provider == TransportKind::Tor;
    let c = n.connectivity;
    let p = if is_tor { first_relay_probe(n.probes@) } else { -1 };
    let peer = spec_peer_indicator(c.peers_total, c.peers_ready);
    &&& indicator_is(
        r.communication,
        communication_state,
        "COMMUNICATION_"@ + spec_ascii_uppercase(communication_state),
        None,
        c.communication,
    )
    &&& indicator_is(
        r.tor,
        tor_state,
        if !is_tor {
            "TOR_UNSUPPORTED"@
        } else if tor_state == "ready"@ {
            "TOR_READY"@
        } else {
            "TOR_NOT_READY"@
        },
        None,
        c.tor,
    )
    &&& if p >= 0 {
        indicator_is(
            r.relay,
            spec_probe_status_name(n.probes@[p].status),
            n.probes@[p].diagnostic_code@,
            n.probes@[p].latency_ms,
            c.relay,
        )
    } else {
        indicator_is(r.relay, "unknown"@, "RELAY_UNAVAILABLE"@, None, c.relay)
    }
    &&& indicator_is(r.peer, peer.0, peer.1, c.peer_latency_ms, c.peer)
    &&& r.peers_ready == c.peers_ready
    &&& r.peers_total == c.peers_total
    &&& r.relay_info == n.relay_info
}

/// The communication state's wire name: that of the local-runtime stage.
pub open spec fn spec_communication_state(n: NetworkSnapshot) -> Seq<char> {
    spec_commissioning_state_name(n.communication_step)
}

/// The legacy Tor state: the Tor state's name for Tor, else "unsupported".
pub open spec fn spec_tor_state(n: NetworkSnapshot) -> Seq<char> {
    if n.provider == TransportKind::Tor {
        spec_communication_state_name(n.tor)
    } else {
        "unsupported"@
    }
}

fn clone_relay_info(value: &Option<BridgeRelayInfo>) -> (r: Option<BridgeRelayInfo>)
    ensures
        r == *value,
{
    match value {
        Some(info) => Some(
            BridgeRelayInfo {
                product_version: info.product_version.clone(),
                build_id: info.build_id.clone(),
                source_commit: info.source_commit.clone(),
                protocol_version: info.protocol_version,
            },
        ),
        None => None,
    }
}

/// The transport status of the snapshot.
pub fn transport_status(network: &NetworkSnapshot) -> (r: BridgeTransportStatus)
    ensures
        transport_status_is(r, *network, spec_communication_state(*network), spec_tor_state(*network)),
{
    let is_tor = network.provider == TransportKind::Tor;
    let communication_state = commissioning_state_name(network.communication_step);
    let tor_state: &str = if is_tor {
        communication_state_name(network.tor)
    } else {
        "unsupported"
    };
    let c = &network.connectivity;
    let communication = transport_indicator(
        communication_state.to_owned(),
        prefixed_upper("COMMUNICATION_", communication_state),
        None,
        &c.communication,
    );
    let tor_code: &str = if !is_tor {
        "TOR_UNSUPPORTED"
    } else if crate::text::str_eq(tor_state, "ready") {
        "TOR_READY"
    } else {
        "TOR_NOT_READY"
    };
    let tor = transport_indicator(tor_state.to_owned(), tor_code.to_owned(), None, &c.tor);
    let probe = if is_tor {
        find_relay_probe(&network.probes)
    } else {
        None
    };
    let relay = match probe {
        Some(i) => {
            let p = &network.probes[i];
            transport_indicator(
                probe_status_name(p.status).to_owned(),
                p.diagnostic_code.clone(),
                p.latency_ms,
                &c.relay,
            )
        },
        None => transport_indicator(
            "unknown".to_owned(),
            "RELAY_UNAVAILABLE".to_owned(),
            None,
            &c.relay,
        ),
    };
    let (peer_state, peer_code) = peer_indicator(c.peers_total, c.peers_ready);
    let peer = transport_indicator(
        peer_state.to_owned(),
        peer_code.to_owned(),
        c.peer_latency_ms,
        &c.peer,
    );
    BridgeTransportStatus {
        communication,
        tor,
        relay,
        peer,
        peers_ready: c.peers_ready,
        peers_total: c.peers_total,
        relay_info: clone_relay_info(&network.relay_info),
    }
}

fn clone_option(value: &Option<String>) -> (r: Option<String>)
    ensures
        r == *value,
{
    match value {
        Some(s) => Some(s.clone()),
        None => None,
    }
}

/// Index of the first entry of `table` under `key`, matching `lookup`.
pub(crate) fn find_key<V>(table: &Vec<(String, V)>, key: &str) -> (r: Option<usize>)
    ensures
        match r {
            Some(i) => i < table@.len() && lookup(table@, key@) == Some(table@[i as int].1),
            None => lookup(table@, key@) is None,
        },
{
    let mut i: usize = 0;
    assert(table@.subrange(0, table@.len() as int) =~= table@);
    while i < table.len()
        invariant
            i <= table@.len(),
            lookup(table@, key@) == lookup(table@.subrange(i as int, table@.len() as int), key@),
        decreases table@.len() - i,
    {
        let rest = Ghost(table@.subrange(i as int, table@.len() as int));
        assert(rest@[0] == table@[i as int]);
        if crate::text::str_eq(table[i].0.as_str(), key) {
            return Some(i);
        }
        assert(rest@.drop_first() =~= table@.subrange(i + 1, table@.len() as int));
        i = i + 1;
    }
    None
}

/// The text under `key`, or the empty text.
pub open spec fn lookup_text(table: Seq<(String, String)>, key: Seq<char>) -> Seq<char> {
    match lookup(table, key) {
        Some(v) => v@,
        None => Seq::empty(),
    }
}

fn lookup_text_or_empty(table: &Vec<(String, String)>, key: &str) -> (r: String)
    ensures
        r@ == lookup_text(table@, key@),
{
    match find_key(table, key) {
        Some(i) => table[i].1.clone(),
        None => String::new(),
    }
}

/// `hex::encode`: the bytes as lowercase hexadecimal digits, two per byte,
/// high nibble first.
#[verifier::external_body]
fn hex_encode(bytes: &Vec<u8>) -> (r: String)
    ensures
        r@ == spec_lower_hex(bytes@),
{
    hex::encode(bytes)
}

proof fn lemma_utf8_len_prefix(s: Seq<char>, k: int)
    requires
        0 <= k < s.len(),
    ensures
        utf8_len(s.subrange(0, k + 1)) == utf8_len(s.subrange(0, k)) + utf8_width(s[k]),
{
    assert(s.subrange(0, k + 1).drop_last() =~= s.subrange(0, k));
}

proof fn lemma_utf8_len_monotone(s: Seq<char>, a: int, b: int)
    requires
        0 <= a <= b <= s.len(),
    ensures
        utf8_len(s.subrange(0, a)) + (b - a) <= utf8_len(s.subrange(0, b)),
    decreases b - a,
{
    if a < b {
        lemma_utf8_len_monotone(s, a, b - 1);
        lemma_utf8_len_prefix(s, b - 1);
    }
}

/// `format!("Contact {}", id.get(..8).unwrap_or(id))`.
pub fn fallback_contact_name(id: &str) -> (r: String)
    ensures
        r@ == spec_fallback_contact_name(id@),
{
    let chars = crate::text::chars_of(id);
    let mut width: usize = 0;
    let mut k: usize = 0;
    while k < chars.len() && width < 8
        invariant
            chars@ == id@,
            k <= chars@.len(),
            width == utf8_len(id@.subrange(0, k as int)),
            width < 12,
            forall|j: int| 0 <= j < k ==> utf8_len(#[trigger] id@.subrange(0, j)) < 8,
        decreases chars@.len() - k,
    {
        let c = chars[k];
        let u = c as u32;
        let w: usize = if u < 0x80 {
            1
        } else if u < 0x800 {
            2
        } else if u < 0x10000 {
            3
        } else {
            4
        };
        proof {
            lemma_utf8_len_prefix(id@, k as int);
        }
        width = width + w;
        k = k + 1;
    }
    let mut out = "Contact ".to_owned();
    if width == 8 {
        assert(utf8_len(id@.subrange(0, k as int)) == 8);
        let prefix = id.substring_char(0, k);
        proof {
            let w = choose|j: int| 0 <= j <= id@.len() && utf8_len(#[trigger] id@.subrange(0, j)) == 8;
            if w < k {
                assert(utf8_len(id@.subrange(0, w)) < 8);
            } else if w > k {
                lemma_utf8_len_monotone(id@, k as int, w);
            }
        }
        out.append(prefix);
    } else {
        proof {
            assert forall|j: int| 0 <= j <= id@.len() implies utf8_len(#[trigger] id@.subrange(0, j)) != 8 by {
                if j > k {
                    lemma_utf8_len_monotone(id@, k as int, j);
                }
            }
            if width > 8 {
            } else {
                assert(k == chars@.len());
            }
        }
        out.append(id);
        assert(id@.subrange(0, id@.len() as int) =~= id@);
    }
    out
}

/// Whether a bootstrap step is shown: secure storage, device identity,
/// communication runtime, incoming reachability and rendezvous.
pub open spec fn shown_step(s: BootstrapStep) -> bool {
    ||| s.id is SecureStorage
    ||| s.id is DeviceIdentity
    ||| s.id is CommunicationRuntime
    ||| s.id is IncomingReachability
    ||| s.id is Rendezvous
}

/// The shown steps, in order.
pub open spec fn shown_steps(steps: Seq<BootstrapStep>) -> Seq<BootstrapStep>
    decreases steps.len(),
{
    if steps.len() == 0 {
        steps
    } else if shown_step(steps.last()) {
        shown_steps(steps.drop_last()).push(steps.last())
    } else {
        shown_steps(steps.drop_last())
    }
}

/// `r` is the wire form of step `s`.
pub open spec fn bootstrap_step_is(r: BridgeBootstrapStep, s: BootstrapStep) -> bool {
    &&& r.id@ == spec_bootstrap_step_id(s.id)
    &&& r.state@ == spec_bootstrap_step_state_name(s.state)
    &&& r.code == s.diagnostic_code
    &&& r.progress == if s.state is Ready { 100u8 } else { 0u8 }
    &&& r.attempt == s.attempt
    &&& r.started_at_ms is None
    &&& r.last_progress_at_ms is None
    &&& r.retry_at_ms is None
}

pub open spec fn bootstrap_steps_are(r: Seq<BridgeBootstrapStep>, s: Seq<BootstrapStep>) -> bool {
    &&& r.len() == s.len()
    &&& forall|i: int| 0 <= i < r.len() ==> bootstrap_step_is(#[trigger] r[i], s[i])
}

pub fn bridge_bootstrap_step(step: &BootstrapStep) -> (r: BridgeBootstrapStep)
    ensures
        bootstrap_step_is(r, *step),
{
    let ready = match step.state {
        BootstrapStepState::Ready => true,
        _ => false,
    };
    BridgeBootstrapStep {
        id: bootstrap_step_id(step.id).to_owned(),
        state: bootstrap_step_state_name(step.state).to_owned(),
        code: clone_option(&step.diagnostic_code),
        progress: if ready { 100 } else { 0 },
        attempt: step.attempt,
        started_at_ms: None,
        last_progress_at_ms: None,
        retry_at_ms: None,
    }
}

/// The shown bootstrap steps in wire form.
pub fn bridge_bootstrap_steps(steps: &Vec<BootstrapStep>) -> (r: Vec<BridgeBootstrapStep>)
    ensures
        bootstrap_steps_are(r@, shown_steps(steps@)),
{
    let mut out: Vec<BridgeBootstrapStep> = Vec::new();
    let mut i: usize = 0;
    while i < steps.len()
        invariant
            i <= steps@.len(),
            bootstrap_steps_are(out@, shown_steps(steps@.subrange(0, i as int))),
        decreases steps@.len() - i,
    {
        let ghost before = steps@.subrange(0, i as int);
        assert(steps@.subrange(0, i + 1).drop_last() =~= before);
        let keep = match steps[i].id {
            BootstrapStepId::SecureStorage
            | BootstrapStepId::DeviceIdentity
            | BootstrapStepId::CommunicationRuntime
            | BootstrapStepId::IncomingReachability
            | BootstrapStepId::Rendezvous => true,
            _ => false,
        };
        if keep {
            out.push(bridge_bootstrap_step(&steps[i]));
        }
        i = i + 1;
    }
    assert(steps@.subrange(0, steps@.len() as int) =~= steps@);
    out
}

/// Whether a pairing is still shown: terminal sessions are not.
pub open spec fn shown_pairing(p: PairingSession) -> bool {
    !(p.state is Rejected || p.state is Cancelled || p.state is Expired || p.state is Completed)
}

pub open spec fn shown_pairings(items: Seq<PairingSession>) -> Seq<PairingSession>
    decreases items.len(),
{
    if items.len() == 0 {
        items
    } else if shown_pairing(items.last()) {
        shown_pairings(items.drop_last()).push(items.last())
    } else {
        shown_pairings(items.drop_last())
    }
}

/// `r` is the wire form of pairing `p`, with the remote fingerprint looked
/// up by identity id.
pub open spec fn pairing_is(r: BridgePairing, p: PairingSession, fingerprints: Seq<(String, String)>) -> bool {
    &&& r.id@ == p.id@
    &&& r.code@ == p.code@
    &&& r.invite_uri@ == match p.invite_uri {
        Some(u) => u@,
        None => Seq::empty(),
    }
    &&& r.role@ == spec_pairing_role_name(p.role)
    &&& r.state@ == spec_pairing_state_name(p.state)
    &&& r.expires_at_ms == p.expires_at_ms
    &&& r.local_approved == p.local_approved
    &&& r.remote_approved == p.remote_approved
    &&& match p.remote {
        None => {
            &&& r.remote_identity_id is None
            &&& r.remote_display_name is None
            &&& r.remote_fingerprint is None
            &&& r.remote_avatar_hash is None
            &&& r.remote_avatar_generator_version is None
            &&& r.remote_avatar_catalog_version is None
        },
        Some(rp) => {
            &&& r.remote_identity_id == Some(rp.identity_id)
            &&& r.remote_display_name == Some(rp.display_name)
            &&& option_view(r.remote_fingerprint) == Some(lookup_text(fingerprints, rp.identity_id@))
            &&& match rp.avatar {
                None => {
                    &&& r.remote_avatar_hash is None
                    &&& r.remote_avatar_generator_version is None
                    &&& r.remote_avatar_catalog_version is None
                },
                Some(a) => {
                    &&& option_view(r.remote_avatar_hash) == Some(spec_lower_hex(a.genome_hash@))
                    &&& r.remote_avatar_generator_version == Some(a.generator_version)
                    &&& r.remote_avatar_catalog_version == Some(a.catalog_version)
                },
            }
        },
    }
}

pub open spec fn pairings_are(
    r: Seq<BridgePairing>,
    p: Seq<PairingSession>,
    fingerprints: Seq<(String, String)>,
) -> bool {
    &&& r.len() == p.len()
    &&& forall|i: int| 0 <= i < r.len() ==> pairing_is(#[trigger] r[i], p[i], fingerprints)
}

pub fn bridge_pairing(pairing: &PairingSession, fingerprints: &Vec<(String, String)>) -> (r: BridgePairing)
    ensures
        pairing_is(r, *pairing, fingerprints@),
{
    let invite_uri = match &pairing.invite_uri {
        Some(u) => u.clone(),
        None => String::new(),
    };
    let mut r = BridgePairing {
        id: pairing.id.clone(),
        code: pairing.code.clone(),
        invite_uri,
        role: pairing_role_name(pairing.role).to_owned(),
        state: pairing_state_name(pairing.state).to_owned(),
        expires_at_ms: pairing.expires_at_ms,
        local_approved: pairing.local_approved,
        remote_approved: pairing.remote_approved,
        remote_identity_id: None,
        remote_display_name: None,
        remote_fingerprint: None,
        remote_avatar_hash: None,
        remote_avatar_generator_version: None,
        remote_avatar_catalog_version: None,
    };
    if let Some(remote) = &pairing.remote {
        r.remote_identity_id = Some(remote.identity_id.clone());
        r.remote_display_name = Some(remote.display_name.clone());
        r.remote_fingerprint = Some(lookup_text_or_empty(fingerprints, remote.identity_id.as_str()));
        if let Some(avatar) = &remote.avatar {
            r.remote_avatar_hash = Some(hex_encode(&avatar.genome_hash));
            r.remote_avatar_generator_version = Some(avatar.generator_version.clone());
            r.remote_avatar_catalog_version = Some(avatar.catalog_version.clone());
        }
    }
    r
}

/// The shown pairings in wire form.
pub fn bridge_pairings(items: &Vec<PairingSession>, fingerprints: &Vec<(String, String)>) -> (r: Vec<
    BridgePairing,
>)
    ensures
        pairings_are(r@, shown_pairings(items@), fingerprints@),
{
    let mut out: Vec<BridgePairing> = Vec::new();
    let mut i: usize = 0;
    while i < items.len()
        invariant
            i <= items@.len(),
            pairings_are(out@, shown_pairings(items@.subrange(0, i as int)), fingerprints@),
        decreases items@.len() - i,
    {
        let ghost before = items@.subrange(0, i as int);
        assert(items@.subrange(0, i + 1).drop_last() =~= before);
        let terminal = match items[i].state {
            PairingState::Rejected | PairingState::Cancelled | PairingState::Expired
            | PairingState::Completed => true,
            _ => false,
        };
        if !terminal {
            out.push(bridge_pairing(&items[i], fingerprints));
        }
        i = i + 1;
    }
    assert(items@.subrange(0, items@.len() as int) =~= items@);
    out
}

/// The peer health shown for contact `id`: the provider's health record
/// when there is one, else the connection status alone.
pub open spec fn peer_health_is(r: BridgePeerHealth, id: Seq<char>, n: NetworkSnapshot) -> bool {
    match lookup(n.peer_health@, id) {
        None => {
            &&& r.state@ == match lookup(n.peers@, id) {
                Some(s) => spec_peer_connection_status_name(s),
                None => "disconnected"@,
            }
            &&& r.quality@ == "unknown"@
            &&& r.rtt_ms is None
            &&& r.last_success_at_ms is None
            &&& r.consecutive_failures == 0
            &&& r.reconnect_attempt == 0
            &&& r.last_activity_at_ms is None
            &&& r.activity_sequence == 0
        },
        Some(h) => {
            &&& r.state@ == spec_peer_connection_status_name(h.state)
            &&& r.quality@ == spec_peer_health_quality_name(h.quality)
            &&& r.rtt_ms == h.rtt_ms
            &&& r.last_success_at_ms == h.last_success_at_ms
            &&& r.consecutive_failures == h.consecutive_failures
            &&& r.reconnect_attempt == h.reconnect_attempt
            &&& r.last_activity_at_ms == match lookup(n.peer_activity@, id) {
                Some(a) => a.last_activity_at_ms,
                None => None,
            }
            &&& r.activity_sequence == match lookup(n.peer_activity@, id) {
                Some(a) => a.sequence,
                None => 0,
            }
        },
    }
}

pub fn bridge_peer_health(id: &str, network: &NetworkSnapshot) -> (r: BridgePeerHealth)
    ensures
        peer_health_is(r, id@, *network),
{
    match find_key(&network.peer_health, id) {
        None => {
            let state = match find_key(&network.peers, id) {
                Some(i) => peer_connection_status_name(network.peers[i].1),
                None => "disconnected",
            };
            BridgePeerHealth {
                state: state.to_owned(),
                quality: "unknown".to_owned(),
                rtt_ms: None,
                last_success_at_ms: None,
                consecutive_failures: 0,
                reconnect_attempt: 0,
                last_activity_at_ms: None,
                activity_sequence: 0,
            }
        },
        Some(h) => {
            let health = &network.peer_health[h].1;
            let (last_activity_at_ms, activity_sequence) = match find_key(&network.peer_activity, id) {
                Some(a) => (network.peer_activity[a].1.last_activity_at_ms, network.peer_activity[a].1.sequence),
                None => (None, 0),
            };
            BridgePeerHealth {
                state: peer_connection_status_name(health.state).to_owned(),
                quality: peer_health_quality_name(health.quality).to_owned(),
                rtt_ms: health.rtt_ms,
                last_success_at_ms: health.last_success_at_ms,
                consecutive_failures: health.consecutive_failures,
                reconnect_attempt: health.reconnect_attempt,
                last_activity_at_ms,
                activity_sequence,
            }
        },
    }
}

/// Whether the route lists an endpoint for provider `wire`.
pub open spec fn route_has(providers: Seq<String>, wire: Seq<char>) -> bool {
    exists|i: int| 0 <= i < providers.len() && #[trigger] providers[i]@ == wire
}

fn route_contains(providers: &Vec<String>, wire: &str) -> (r: bool)
    ensures
        r == route_has(providers@, wire@),
{
    let mut i: usize = 0;
    while i < providers.len()
        invariant
            i <= providers@.len(),
            forall|k: int| 0 <= k < i ==> #[trigger] providers@[k]@ != wire@,
        decreases providers@.len() - i,
    {
        if crate::text::str_eq(providers[i].as_str(), wire) {
            return true;
        }
        i = i + 1;
    }
    false
}

/// `r` is the wire form of contact `c`.
pub open spec fn contact_is(
    r: BridgeContact,
    c: ContactRecord,
    n: NetworkSnapshot,
    safety_numbers: Seq<(String, String)>,
) -> bool {
    let wire = spec_transport_wire_value(n.provider);
    let verification = lookup(n.contact_verifications@, c.id@);
    &&& r.id@ == c.id@
    &&& r.remote_identity_id@ == c.remote_identity_id@
    &&& r.display_name@ == match lookup(n.contact_names@, c.id@) {
        Some(name) => name@,
        None => spec_fallback_contact_name(c.id@),
    }
    &&& r.transport_provider@ == wire
    &&& r.endpoint_available == route_has(c.route_providers@, wire)
    &&& option_view(r.onion_address) == if n.provider == TransportKind::Tor {
        Some(c.onion_address@)
    } else {
        None
    }
    &&& r.status@ == spec_contact_status_name(c.status)
    &&& peer_health_is(r.peer_health, c.id@, n)
    &&& r.connection_state@ == r.peer_health.state@
    &&& r.presence_state@ == if r.peer_health.state@ == "ready"@ {
        "online"@
    } else if r.peer_health.last_success_at_ms is Some {
        "offline"@
    } else {
        "unknown"@
    }
    &&& r.last_seen_at_ms == r.peer_health.last_success_at_ms
    &&& r.safety_number@ == lookup_text(safety_numbers, c.id@)
    &&& r.verification_status@ == if verification matches Some(v) && v.verified {
        "verified"@
    } else {
        "unverified"@
    }
    &&& r.verified_at_ms == match verification {
        Some(v) => v.verified_at_ms,
        None => None,
    }
    &&& r.created_at_ms == c.created_at_ms
}

pub fn bridge_contact(
    contact: &ContactRecord,
    network: &NetworkSnapshot,
    safety_numbers: &Vec<(String, String)>,
) -> (r: BridgeContact)
    ensures
        contact_is(r, *contact, *network, safety_numbers@),
{
    let id = contact.id.as_str();
    let peer_health = bridge_peer_health(id, network);
    let wire = network.provider.wire_value();
    let display_name = match find_key(&network.contact_names, id) {
        Some(i) => network.contact_names[i].1.clone(),
        None => fallback_contact_name(id),
    };
    let (verified, verified_at_ms) = match find_key(&network.contact_verifications, id) {
        Some(i) => (network.contact_verifications[i].1.verified, network.contact_verifications[i].1.verified_at_ms),
        None => (false, None),
    };
    let presence: &str = if crate::text::str_eq(peer_health.state.as_str(), "ready") {
        "online"
    } else if peer_health.last_success_at_ms.is_some() {
        "offline"
    } else {
        "unknown"
    };
    let onion_address = match network.provider {
        TransportKind::Tor => Some(contact.onion_address.clone()),
        _ => None,
    };
    BridgeContact {
        id: contact.id.clone(),
        remote_identity_id: contact.remote_identity_id.clone(),
        display_name,
        transport_provider: wire.to_owned(),
        endpoint_available: route_contains(&contact.route_providers, wire),
        onion_address,
        status: contact_status_name(contact.status).to_owned(),
        connection_state: peer_health.state.clone(),
        presence_state: presence.to_owned(),
        last_seen_at_ms: peer_health.last_success_at_ms,
        safety_number: lookup_text_or_empty(safety_numbers, id),
        verification_status: if verified { "verified".to_owned() } else { "unverified".to_owned() },
        verified_at_ms,
        created_at_ms: contact.created_at_ms,
        peer_health,
    }
}

/// `r` is the wire form of conversation `c`; summaries are left to the
/// conversation queries.
pub open spec fn conversation_is(r: BridgeConversation, c: ConversationRecord) -> bool {
    &&& r.id@ == c.id@
    &&& r.contact_id@ == c.contact_id@
    &&& r.status@ == spec_conversation_status_name(c.status)
    &&& r.unread_count == 0
    &&& r.last_activity_at_ms == 0
    &&& r.last_message_body is None
    &&& r.last_message_direction is None
    &&& r.last_message_status is None
}

pub fn bridge_conversation(c: &ConversationRecord) -> (r: BridgeConversation)
    ensures
        conversation_is(r, *c),
{
    BridgeConversation {
        id: c.id.clone(),
        contact_id: c.contact_id.clone(),
        status: conversation_status_name(c.status).to_owned(),
        unread_count: 0,
        last_activity_at_ms: 0,
        last_message_body: None,
        last_message_direction: None,
        last_message_status: None,
    }
}

/// `r` carries the fields of reaction `x`.
pub open spec fn reaction_is(r: BridgeReaction, x: ReactionRecord) -> bool {
    &&& r.message_id == x.message_id
    &&& r.conversation_id == x.conversation_id
    &&& r.actor_id == x.actor_id
    &&& r.emoji == x.emoji
    &&& r.active == x.active
    &&& r.updated_at_ms == x.updated_at_ms
}

pub fn bridge_reaction_from_domain(reaction: &ReactionRecord) -> (r: BridgeReaction)
    ensures
        reaction_is(r, *reaction),
{
    BridgeReaction {
        message_id: reaction.message_id.clone(),
        conversation_id: reaction.conversation_id.clone(),
        actor_id: reaction.actor_id.clone(),
        emoji: reaction.emoji.clone(),
        active: reaction.active,
        updated_at_ms: reaction.updated_at_ms,
    }
}

/// `r` carries the fields of attachment `a`.
pub open spec fn attachment_is(r: BridgeAttachment, a: AttachmentRecord) -> bool {
    &&& r.id == a.id
    &&& r.message_id == a.message_id
    &&& r.name == a.name
    &&& r.media_type == a.media_type
    &&& r.size == a.size
    &&& r.status == a.status
    &&& r.offset == a.offset
    &&& r.attempt_count == a.attempt_count
    &&& r.updated_at_ms == a.updated_at_ms
    &&& r.direction == a.direction
    &&& r.last_error_code == a.last_error_code
}

pub fn bridge_attachment(a: &AttachmentRecord) -> (r: BridgeAttachment)
    ensures
        attachment_is(r, *a),
{
    BridgeAttachment {
        id: a.id.clone(),
        message_id: a.message_id.clone(),
        name: a.name.clone(),
        media_type: a.media_type.clone(),
        size: a.size,
        status: a.status.clone(),
        offset: a.offset,
        attempt_count: a.attempt_count,
        updated_at_ms: a.updated_at_ms,
        direction: a.direction.clone(),
        last_error_code: clone_option(&a.last_error_code),
    }
}

/// The kind label of a pending operation and what it waits for. Pairing
/// envelopes need the provider's incoming route and its rendezvous; the
/// label stays provider-neutral.
pub open spec fn spec_pending_operation_labels(kind: PendingOperationKind) -> (Seq<char>, Seq<char>) {
    match kind {
        PendingOperationKind::CreatePairing => ("pairing.create"@, "communication_and_rendezvous"@),
        PendingOperationKind::JoinPairing => ("pairing.join"@, "communication_and_rendezvous"@),
        PendingOperationKind::ApprovePairing => ("pairing.approve"@, "communication"@),
        PendingOperationKind::RejectPairing => ("pairing.reject"@, "communication"@),
        PendingOperationKind::CancelPairing => ("pairing.cancel"@, "communication"@),
        PendingOperationKind::RenameContact => ("contact.rename"@, "runtime"@),
        PendingOperationKind::VerifyContact => ("contact.verify"@, "runtime"@),
        PendingOperationKind::ResetContactVerification => ("contact.verification.reset"@, "runtime"@),
        PendingOperationKind::BlockContact => ("contact.block"@, "runtime"@),
        PendingOperationKind::UnblockContact => ("contact.unblock"@, "runtime"@),
        PendingOperationKind::RemoveContact => ("contact.remove"@, "runtime"@),
        PendingOperationKind::ClearConversationHistory => ("conversation.history.clear"@, "runtime"@),
        PendingOperationKind::MarkConversationRead => ("conversation.mark_read"@, "runtime"@),
    }
}

pub fn pending_operation_labels(kind: PendingOperationKind) -> (r: (&'static str, &'static str))
    ensures
        (r.0@, r.1@) == spec_pending_operation_labels(kind),
{
    match kind {
        PendingOperationKind::CreatePairing => ("pairing.create", "communication_and_rendezvous"),
        PendingOperationKind::JoinPairing => ("pairing.join", "communication_and_rendezvous"),
        PendingOperationKind::ApprovePairing => ("pairing.approve", "communication"),
        PendingOperationKind::RejectPairing => ("pairing.reject", "communication"),
        PendingOperationKind::CancelPairing => ("pairing.cancel", "communication"),
        PendingOperationKind::RenameContact => ("contact.rename", "runtime"),
        PendingOperationKind::VerifyContact => ("contact.verify", "runtime"),
        PendingOperationKind::ResetContactVerification => ("contact.verification.reset", "runtime"),
        PendingOperationKind::BlockContact => ("contact.block", "runtime"),
        PendingOperationKind::UnblockContact => ("contact.unblock", "runtime"),
        PendingOperationKind::RemoveContact => ("contact.remove", "runtime"),
        PendingOperationKind::ClearConversationHistory => ("conversation.history.clear", "runtime"),
        PendingOperationKind::MarkConversationRead => ("conversation.mark_read", "runtime"),
    }
}

/// `r` is the wire form of pending operation `o`: queued before its first
/// attempt, retrying after.
pub open spec fn pending_operation_is(r: BridgePendingOperation, o: PendingOperation) -> bool {
    let labels = spec_pending_operation_labels(o.kind);
    &&& r.id == o.id
    &&& r.resource_id == o.resource_id
    &&& r.kind@ == labels.0
    &&& r.state@ == if o.attempts == 0 { "queued"@ } else { "retrying"@ }
    &&& r.dependency@ == labels.1
    &&& r.attempts == o.attempts
    &&& r.next_attempt_at_ms == o.next_attempt_at_ms
    &&& r.created_at_ms == o.created_at_ms
    &&& r.last_error == o.last_error
}

pub fn bridge_pending_operation(o: &PendingOperation) -> (r: BridgePendingOperation)
    ensures
        pending_operation_is(r, *o),
{
    let (kind, dependency) = pending_operation_labels(o.kind);
    BridgePendingOperation {
        id: o.id.clone(),
        resource_id: o.resource_id.clone(),
        kind: kind.to_owned(),
        state: if o.attempts == 0 { "queued".to_owned() } else { "retrying".to_owned() },
        dependency: dependency.to_owned(),
        attempts: o.attempts,
        next_attempt_at_ms: o.next_attempt_at_ms,
        created_at_ms: o.created_at_ms,
        last_error: clone_option(&o.last_error),
    }
}

pub open spec fn radio_contact_is(r: BridgeRadioContact, c: crate::contract::application::RadioContactRecord) -> bool {
    &&& r.contact_id == c.contact_id
    &&& r.local_enabled == c.local_enabled
    &&& r.remote_state@ == spec_remote_radio_state_name(c.remote_state)
    &&& r.state@ == spec_radio_state_name(c.state)
    &&& r.changed_at_ms == c.changed_at_ms
}

pub open spec fn radio_session_is(r: BridgeRadioSession, s: crate::contract::application::RadioSessionRecord) -> bool {
    &&& r.contact_id == s.contact_id
    &&& r.session_id == s.session_id
    &&& r.state@ == spec_radio_state_name(s.state)
    &&& r.floor@ == spec_radio_floor_name(s.floor)
    &&& r.burst_elapsed_ms == s.burst_elapsed_ms
    &&& r.max_burst_ms == s.max_burst_ms
    &&& r.input_level_milli == s.input_level_milli
}

pub open spec fn timeline_event_is(r: BridgeRadioTimelineEvent, t: crate::contract::application::RadioTimelineRecord) -> bool {
    &&& r.event_id == t.event_id
    &&& r.contact_id == t.contact_id
    &&& r.kind@ == spec_radio_event_kind_name(t.kind)
    &&& r.actor@ == spec_radio_event_actor_name(t.actor)
    &&& r.occurred_at_ms == t.occurred_at_ms
}

pub open spec fn audio_device_is(r: BridgeAudioDevice, d: AudioDeviceRecord) -> bool {
    r.id == d.id && r.name == d.name && r.is_default == d.is_default
}

pub open spec fn audio_devices_are(r: Seq<BridgeAudioDevice>, d: Seq<AudioDeviceRecord>) -> bool {
    r.len() == d.len() && forall|i: int| 0 <= i < r.len() ==> audio_device_is(#[trigger] r[i], d[i])
}

/// `r` is the wire form of the radio projection; without one, the radio is
/// empty with nothing selected.
pub open spec fn radio_is(r: BridgeRadio, v: Option<RadioProjection>) -> bool {
    match v {
        None => {
            &&& r.active_contact_id is None
            &&& r.contacts@.len() == 0
            &&& r.session is None
            &&& r.last_transport_failure is None
            &&& r.last_transport_failure_contact_id is None
            &&& r.timeline@.len() == 0
            &&& r.audio.input_devices@.len() == 0
            &&& r.audio.output_devices@.len() == 0
            &&& r.audio.selected_input_id is None
            &&& r.audio.selected_output_id is None
        },
        Some(v) => {
            &&& r.active_contact_id == v.active_contact_id
            &&& r.contacts@.len() == v.contacts@.len()
            &&& forall|i: int| 0 <= i < r.contacts@.len() ==> radio_contact_is(#[trigger] r.contacts@[i], v.contacts@[i])
            &&& match v.session {
                None => r.session is None,
                Some(s) => r.session matches Some(rs) && radio_session_is(rs, s),
            }
            &&& option_view(r.last_transport_failure) == match v.last_transport_failure {
                Some(f) => Some(spec_radio_transport_failure_name(f)),
                None => None,
            }
            &&& r.last_transport_failure_contact_id == v.last_transport_failure_contact_id
            &&& r.timeline@.len() == v.timeline@.len()
            &&& forall|i: int| 0 <= i < r.timeline@.len() ==> timeline_event_is(#[trigger] r.timeline@[i], v.timeline@[i])
            &&& audio_devices_are(r.audio.input_devices@, v.audio.input_devices@)
            &&& audio_devices_are(r.audio.output_devices@, v.audio.output_devices@)
            &&& r.audio.selected_input_id == v.audio.selected_input_id
            &&& r.audio.selected_output_id == v.audio.selected_output_id
        },
    }
}

fn bridge_audio_devices(devices: &Vec<AudioDeviceRecord>) -> (r: Vec<BridgeAudioDevice>)
    ensures
        audio_devices_are(r@, devices@),
{
    let mut out: Vec<BridgeAudioDevice> = Vec::new();
    let mut i: usize = 0;
    while i < devices.len()
        invariant
            i <= devices@.len(),
            audio_devices_are(out@, devices@.subrange(0, i as int)),
        decreases devices@.len() - i,
    {
        let d = &devices[i];
        out.push(BridgeAudioDevice { id: d.id.clone(), name: d.name.clone(), is_default: d.is_default });
        i = i + 1;
    }
    assert(devices@.subrange(0, devices@.len() as int) =~= devices@);
    out
}

/// The radio part of the snapshot.
pub fn bridge_radio(value: &Option<RadioProjection>) -> (r: BridgeRadio)
    ensures
        radio_is(r, *value),
{
    let v = match value {
        None => {
            return BridgeRadio {
                active_contact_id: None,
                contacts: Vec::new(),
                session: None,
                last_transport_failure: None,
                last_transport_failure_contact_id: None,
                timeline: Vec::new(),
                audio: BridgeRadioAudio::empty(),
            };
        },
        Some(v) => v,
    };
    let mut contacts: Vec<BridgeRadioContact> = Vec::new();
    let mut i: usize = 0;
    while i < v.contacts.len()
        invariant
            i <= v.contacts@.len(),
            contacts@.len() == i,
            forall|k: int| 0 <= k < i ==> radio_contact_is(#[trigger] contacts@[k], v.contacts@[k]),
        decreases v.contacts@.len() - i,
    {
        let c = &v.contacts[i];
        contacts.push(
            BridgeRadioContact {
                contact_id: c.contact_id.clone(),
                local_enabled: c.local_enabled,
                remote_state: remote_radio_state_name(c.remote_state).to_owned(),
                state: radio_state_name(c.state).to_owned(),
                changed_at_ms: c.changed_at_ms,
            },
        );
        i = i + 1;
    }
    let mut timeline: Vec<BridgeRadioTimelineEvent> = Vec::new();
    let mut j: usize = 0;
    while j < v.timeline.len()
        invariant
            j <= v.timeline@.len(),
            timeline@.len() == j,
            forall|k: int| 0 <= k < j ==> timeline_event_is(#[trigger] timeline@[k], v.timeline@[k]),
        decreases v.timeline@.len() - j,
    {
        let t = &v.timeline[j];
        timeline.push(
            BridgeRadioTimelineEvent {
                event_id: t.event_id.clone(),
                contact_id: t.contact_id.clone(),
                kind: radio_event_kind_name(t.kind).to_owned(),
                actor: radio_event_actor_name(t.actor).to_owned(),
                occurred_at_ms: t.occurred_at_ms,
            },
        );
        j = j + 1;
    }
    let session = match &v.session {
        Some(s) => Some(
            BridgeRadioSession {
                contact_id: s.contact_id.clone(),
                session_id: s.session_id.clone(),
                state: radio_state_name(s.state).to_owned(),
                floor: radio_floor_name(s.floor).to_owned(),
                burst_elapsed_ms: s.burst_elapsed_ms,
                max_burst_ms: s.max_burst_ms,
                input_level_milli: s.input_level_milli,
            },
        ),
        None => None,
    };
    let last_transport_failure = match v.last_transport_failure {
        Some(f) => Some(radio_transport_failure_name(f).to_owned()),
        None => None,
    };
    BridgeRadio {
        active_contact_id: clone_option(&v.active_contact_id),
        contacts,
        session,
        last_transport_failure,
        last_transport_failure_contact_id: clone_option(&v.last_transport_failure_contact_id),
        timeline,
        audio: BridgeRadioAudio {
            input_devices: bridge_audio_devices(&v.audio.input_devices),
            output_devices: bridge_audio_devices(&v.audio.output_devices),
            selected_input_id: clone_option(&v.audio.selected_input_id),
            selected_output_id: clone_option(&v.audio.selected_output_id),
        },
    }
}

pub open spec fn contacts_are(
    r: Seq<BridgeContact>,
    c: Seq<ContactRecord>,
    n: NetworkSnapshot,
    safety_numbers: Seq<(String, String)>,
) -> bool {
    &&& r.len() == c.len()
    &&& forall|i: int| 0 <= i < r.len() ==> contact_is(#[trigger] r[i], c[i], n, safety_numbers)
}

fn bridge_contacts(
    items: &Vec<ContactRecord>,
    network: &NetworkSnapshot,
    safety_numbers: &Vec<(String, String)>,
) -> (r: Vec<BridgeContact>)
    ensures
        contacts_are(r@, items@, *network, safety_numbers@),
{
    let mut out: Vec<BridgeContact> = Vec::new();
    let mut i: usize = 0;
    while i < items.len()
        invariant
            i <= items@.len(),
            out@.len() == i,
            forall|k: int| 0 <= k < i ==> contact_is(#[trigger] out@[k], items@[k], *network, safety_numbers@),
        decreases items@.len() - i,
    {
        out.push(bridge_contact(&items[i], network, safety_numbers));
        i = i + 1;
    }
    out
}

fn bridge_conversations(items: &Vec<ConversationRecord>) -> (r: Vec<BridgeConversation>)
    ensures
        r@.len() == items@.len(),
        forall|i: int| 0 <= i < r@.len() ==> conversation_is(#[trigger] r@[i], items@[i]),
{
    let mut out: Vec<BridgeConversation> = Vec::new();
    let mut i: usize = 0;
    while i < items.len()
        invariant
            i <= items@.len(),
            out@.len() == i,
            forall|k: int| 0 <= k < i ==> conversation_is(#[trigger] out@[k], items@[k]),
        decreases items@.len() - i,
    {
        out.push(bridge_conversation(&items[i]));
        i = i + 1;
    }
    out
}

fn bridge_reactions(items: &Vec<ReactionRecord>) -> (r: Vec<BridgeReaction>)
    ensures
        r@.len() == items@.len(),
        forall|i: int| 0 <= i < r@.len() ==> reaction_is(#[trigger] r@[i], items@[i]),
{
    let mut out: Vec<BridgeReaction> = Vec::new();
    let mut i: usize = 0;
    while i < items.len()
        invariant
            i <= items@.len(),
            out@.len() == i,
            forall|k: int| 0 <= k < i ==> reaction_is(#[trigger] out@[k], items@[k]),
        decreases items@.len() - i,
    {
        out.push(bridge_reaction_from_domain(&items[i]));
        i = i + 1;
    }
    out
}

fn bridge_attachments(items: &Vec<AttachmentRecord>) -> (r: Vec<BridgeAttachment>)
    ensures
        r@.len() == items@.len(),
        forall|i: int| 0 <= i < r@.len() ==> attachment_is(#[trigger] r@[i], items@[i]),
{
    let mut out: Vec<BridgeAttachment> = Vec::new();
    let mut i: usize = 0;
    while i < items.len()
        invariant
            i <= items@.len(),
            out@.len() == i,
            forall|k: int| 0 <= k < i ==> attachment_is(#[trigger] out@[k], items@[k]),
        decreases items@.len() - i,
    {
        out.push(bridge_attachment(&items[i]));
        i = i + 1;
    }
    out
}

fn bridge_pending_operations(items: &Vec<PendingOperation>) -> (r: Vec<BridgePendingOperation>)
    ensures
        r@.len() == items@.len(),
        forall|i: int| 0 <= i < r@.len() ==> pending_operation_is(#[trigger] r@[i], items@[i]),
{
    let mut out: Vec<BridgePendingOperation> = Vec::new();
    let mut i: usize = 0;
    while i < items.len()
        invariant
            i <= items@.len(),
            out@.len() == i,
            forall|k: int| 0 <= k < i ==> pending_operation_is(#[trigger] out@[k], items@[k]),
        decreases items@.len() - i,
    {
        out.push(bridge_pending_operation(&items[i]));
        i = i + 1;
    }
    out
}

/// `r` is the presentation snapshot of `ctx`. Message history is never part
/// of it (conversation pages carry it), and the navigation badges start at
/// zero.
pub open spec fn snapshot_is(r: BridgeSnapshot, ctx: ApplicationSnapshotContext) -> bool {
    let app = ctx.application;
    let n = ctx.network;
    &&& r.contract_version == crate::contract::CONTRACT_VERSION
    &&& r.identity_name == match app.identity {
        Some(i) => i.display_name,
        None => None,
    }
    &&& r.identity_id == match app.identity {
        Some(i) => Some(i.identity_id),
        None => None,
    }
    &&& r.identity_fingerprint == ctx.identity_fingerprint
    &&& r.communication_provider@ == spec_transport_wire_value(n.provider)
    &&& r.communication_state@ == spec_communication_state(n)
    &&& r.endpoint_summary == n.endpoint_summary
    &&& r.tor_state@ == spec_tor_state(n)
    &&& transport_status_is(r.transport, n, spec_communication_state(n), spec_tor_state(n))
    &&& r.onion_address == n.onion_address
    &&& r.bootstrap_phase@ == spec_bootstrap_phase_name(ctx.bootstrap.phase)
    &&& bootstrap_steps_are(r.bootstrap_steps@, shown_steps(ctx.bootstrap.steps@))
    &&& pairings_are(r.pairings@, shown_pairings(app.pairings@), ctx.identity_fingerprints@)
    &&& contacts_are(r.contacts@, app.contacts@, n, ctx.safety_numbers@)
    &&& r.conversations@.len() == app.conversations@.len()
    &&& forall|i: int| 0 <= i < r.conversations@.len() ==> conversation_is(#[trigger] r.conversations@[i], app.conversations@[i])
    &&& r.messages@.len() == 0
    &&& r.reactions@.len() == app.reactions@.len()
    &&& forall|i: int| 0 <= i < r.reactions@.len() ==> reaction_is(#[trigger] r.reactions@[i], app.reactions@[i])
    &&& r.attachments@.len() == ctx.attachments@.len()
    &&& forall|i: int| 0 <= i < r.attachments@.len() ==> attachment_is(#[trigger] r.attachments@[i], ctx.attachments@[i])
    &&& r.pending_operations@.len() == ctx.pending_operations@.len()
    &&& forall|i: int| 0 <= i < r.pending_operations@.len() ==> pending_operation_is(#[trigger] r.pending_operations@[i], ctx.pending_operations@[i])
    &&& radio_is(r.radio, ctx.radio)
    &&& r.unread_messages_count == 0
    &&& r.new_contacts_count == 0
    &&& r.pairing_attention_count == 0
}

/// The presentation snapshot of the application's context.
pub fn bridge_snapshot_from_application(context: ApplicationSnapshotContext) -> (r: BridgeSnapshot)
    ensures
        snapshot_is(r, context),
{
    let ctx = &context;
    let app = &ctx.application;
    let network = &ctx.network;
    let (identity_name, identity_id) = match &app.identity {
        Some(identity) => (clone_option(&identity.display_name), Some(identity.identity_id.clone())),
        None => (None, None),
    };
    let communication_state = commissioning_state_name(network.communication_step);
    let tor_state: &str = match network.provider {
        TransportKind::Tor => communication_state_name(network.tor),
        _ => "unsupported",
    };
    BridgeSnapshot {
        contract_version: crate::contract::CONTRACT_VERSION,
        identity_name,
        identity_id,
        identity_fingerprint: clone_option(&ctx.identity_fingerprint),
        communication_provider: network.provider.wire_value().to_owned(),
        communication_state: communication_state.to_owned(),
        endpoint_summary: clone_option(&network.endpoint_summary),
        tor_state: tor_state.to_owned(),
        transport: transport_status(network),
        onion_address: clone_option(&network.onion_address),
        pairings: bridge_pairings(&app.pairings, &ctx.identity_fingerprints),
        contacts: bridge_contacts(&app.contacts, network, &ctx.safety_numbers),
        conversations: bridge_conversations(&app.conversations),
        messages: Vec::new(),
        reactions: bridge_reactions(&app.reactions),
        attachments: bridge_attachments(&ctx.attachments),
        pending_operations: bridge_pending_operations(&ctx.pending_operations),
        radio: bridge_radio(&ctx.radio),
        unread_messages_count: 0,
        new_contacts_count: 0,
        pairing_attention_count: 0,
        bootstrap_phase: bootstrap_phase_name(ctx.bootstrap.phase).to_owned(),
        bootstrap_steps: bridge_bootstrap_steps(&ctx.bootstrap.steps),
    }
}

/// `r` is the wire form of message `m`; the attempt count saturates at
/// `u32::MAX`.
pub open spec fn message_is(r: crate::contract::BridgeMessage, m: crate::contract::application::MessageRecord) -> bool {
    &&& r.id == m.id
    &&& r.conversation_id == m.conversation_id
    &&& r.body == m.body
    &&& r.direction@ == crate::contract::names::spec_message_direction_name(m.direction)
    &&& r.status@ == crate::contract::names::spec_message_status_name(m.status)
    &&& r.reply_to_message_id == m.reply_to_message_id
    &&& r.created_at_ms == m.created_at_ms
    &&& r.updated_at_ms == m.updated_at_ms
    &&& r.sent_at_ms == m.sent_at_ms
    &&& r.delivered_at_ms == m.delivered_at_ms
    &&& r.read_at_ms == m.read_at_ms
    &&& r.attempt_count == if m.attempts > u32::MAX { u32::MAX } else { m.attempts as u32 }
}

pub fn bridge_message_from_domain(message: &crate::contract::application::MessageRecord) -> (r: crate::contract::BridgeMessage)
    ensures
        message_is(r, *message),
{
    let attempt_count: u32 = if message.attempts > 0xffff_ffffusize {
        0xffff_ffffu32
    } else {
        message.attempts as u32
    };
    crate::contract::BridgeMessage {
        id: message.id.clone(),
        conversation_id: message.conversation_id.clone(),
        body: message.body.clone(),
        direction: crate::contract::names::message_direction_name(message.direction).to_owned(),
        status: crate::contract::names::message_status_name(message.status).to_owned(),
        reply_to_message_id: clone_option(&message.reply_to_message_id),
        created_at_ms: message.created_at_ms,
        updated_at_ms: message.updated_at_ms,
        sent_at_ms: message.sent_at_ms,
        delivered_at_ms: message.delivered_at_ms,
        read_at_ms: message.read_at_ms,
        attempt_count,
    }
}

/// The command result the bridge reports: the success's kind, resource and
/// invitation, or "error" with the error's text and code.
pub open spec fn result_is(
    r: crate::contract::BridgeResult,
    result: Result<crate::contract::application::ApplicationCommandResult, crate::contract::application::ApplicationError>,
) -> bool {
    match result {
        Ok(ok) => {
            &&& r.ok
            &&& r.kind == ok.kind
            &&& r.error is None
            &&& r.error_code is None
            &&& r.resource_id == ok.resource_id
            &&& r.invite_uri == ok.invite_uri
        },
        Err(e) => {
            &&& !r.ok
            &&& r.kind@ == "error"@
            &&& r.error == Some(e.message)
            &&& r.error_code == Some(e.code)
            &&& r.resource_id is None
            &&& r.invite_uri is None
        },
    }
}

pub fn bridge_result_from_application(
    result: Result<crate::contract::application::ApplicationCommandResult, crate::contract::application::ApplicationError>,
) -> (r: crate::contract::BridgeResult)
    ensures
        result_is(r, result),
{
    match result {
        Ok(ok) => crate::contract::BridgeResult {
            ok: true,
            kind: ok.kind,
            error: None,
            error_code: None,
            resource_id: ok.resource_id,
            invite_uri: ok.invite_uri,
        },
        Err(e) => crate::contract::BridgeResult {
            ok: false,
            kind: "error".to_owned(),
            error: Some(e.message),
            error_code: Some(e.code),
            resource_id: None,
            invite_uri: None,
        },
    }
}

} // verus!
