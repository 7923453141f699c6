//! Which changes between presentation snapshots the runtime writes to its
//! diagnostic log. The log remembers the last state it reported for each
//! bootstrap step, peer, message, attachment and radio contact, and a
//! snapshot yields one record for each of them whose state differs.
use vstd::prelude::*;
use crate::contract::{
    BridgeAttachment, BridgeBootstrapStep, BridgeContact, BridgeMessage, BridgeRadio,
    BridgeRadioContact, BridgeSnapshot,
};
use crate::contract::projection::{prefixed_upper, spec_ascii_uppercase};
use crate::host_runtime::{find_step, first_step_index};
use crate::native_json::{
    decimal_chars, option_view, push_decimal, push_signed_decimal, signed_decimal_chars,
};
use crate::runtime_support::{
    network_transition_event, transition_detail, transition_level, transition_suffix, Level,
};
use crate::text::str_eq;

verus! {

/// A log record as text: component, level, event, code and message.
pub type LogLine = (Seq<char>, Level, Seq<char>, Seq<char>, Seq<char>);

/// One diagnostic record to write.
#[derive(Clone, Debug, PartialEq, Eq)]
pub struct LogEvent {
    pub component: &'static str,
    pub level: Level,
    pub event: &'static str,
    pub code: String,
    pub message: String,
}

pub open spec fn line_of(e: LogEvent) -> LogLine {
    (e.component@, e.level, e.event@, e.code@, e.message@)
}

pub open spec fn lines_are(events: Seq<LogEvent>, lines: Seq<LogLine>) -> bool {
    &&& events.len() == lines.len()
    &&& forall|i: int| 0 <= i < events.len() ==> line_of(#[trigger] events[i]) == lines[i]
}

/// Last reported state of a peer.
#[derive(Clone, Debug, PartialEq, Eq)]
pub struct PeerMark {
    pub state: String,
    pub reconnect_attempt: u32,
}

/// Last reported state of a message.
#[derive(Clone, Debug, PartialEq, Eq)]
pub struct MessageMark {
    pub status: String,
    pub attempt_count: u32,
}

/// Last reported state of an attachment transfer.
#[derive(Clone, Debug, PartialEq, Eq)]
pub struct AttachmentMark {
    pub status: String,
    pub offset: u64,
    pub attempt_count: u32,
}

/// What the log last reported. The tables are keyed by resource id; the
/// radio table also holds the active session under `active_session`.
#[derive(Debug)]
pub struct TransitionLog {
    pub last_incoming: Option<(String, Option<String>)>,
    pub last_rendezvous: Option<(String, Option<String>)>,
    pub peers: Vec<(String, PeerMark)>,
    pub messages: Vec<(String, MessageMark)>,
    pub attachments: Vec<(String, AttachmentMark)>,
    pub radio: Vec<(String, String)>,
    pub network_ready_logged: bool,
}

/// Index of the first key equal to `key`, or -1.
pub open spec fn key_index(keys: Seq<Seq<char>>, key: Seq<char>) -> int
    decreases keys.len(),
{
    if keys.len() == 0 {
        -1
    } else if key_index(keys.drop_last(), key) >= 0 {
        key_index(keys.drop_last(), key)
    } else if keys.last() == key {
        keys.len() - 1
    } else {
        -1
    }
}

/// The keys of a table, as text.
pub open spec fn keys_of<V>(table: Seq<(String, V)>) -> Seq<Seq<char>> {
    table.map_values(|p: (String, V)| p.0@)
}

/// `table` with `value` stored under `key`: the entry is replaced when
/// present, else appended.
pub open spec fn upsert<V>(table: Seq<(String, V)>, key: String, value: V) -> Seq<(String, V)> {
    let i = key_index(keys_of(table), key@);
    if i >= 0 {
        table.update(i, (key, value))
    } else {
        table.push((key, value))
    }
}

/// A text table as texts.
pub open spec fn texts(table: Seq<(String, String)>) -> Seq<(Seq<char>, Seq<char>)> {
    table.map_values(|p: (String, String)| (p.0@, p.1@))
}

pub open spec fn text_keys(table: Seq<(Seq<char>, Seq<char>)>) -> Seq<Seq<char>> {
    table.map_values(|p: (Seq<char>, Seq<char>)| p.0)
}

/// `upsert` for a table of texts.
pub open spec fn upsert_text(table: Seq<(Seq<char>, Seq<char>)>, key: Seq<char>, value: Seq<char>) -> Seq<
    (Seq<char>, Seq<char>),
> {
    let i = key_index(text_keys(table), key);
    if i >= 0 {
        table.update(i, (key, value))
    } else {
        table.push((key, value))
    }
}

proof fn lemma_key_index(keys: Seq<Seq<char>>, key: Seq<char>)
    ensures
        -1 <= key_index(keys, key) < keys.len(),
        key_index(keys, key) >= 0 ==> keys[key_index(keys, key)] == key,
        forall|i: int|
            0 <= i < keys.len() && (key_index(keys, key) < 0 || i < key_index(keys, key))
                ==> #[trigger] keys[i] != key,
    decreases keys.len(),
{
    if keys.len() > 0 {
        lemma_key_index(keys.drop_last(), key);
        assert forall|i: int| 0 <= i < keys.len() - 1 implies keys.drop_last()[i] == keys[i] by {}
    }
}

proof fn lemma_key_index_at(keys: Seq<Seq<char>>, key: Seq<char>, k: int)
    requires
        0 <= k < keys.len(),
        keys[k] == key,
        forall|i: int| 0 <= i < k ==> #[trigger] keys[i] != key,
    ensures
        key_index(keys, key) == k,
{
    lemma_key_index(keys, key);
}

pub(crate) fn key_position<V>(table: &Vec<(String, V)>, key: &str) -> (r: Option<usize>)
    ensures
        match r {
            Some(i) => i < table@.len() && key_index(keys_of(table@), key@) == i,
            None => key_index(keys_of(table@), key@) == -1,
        },
{
    let ghost keys = keys_of(table@);
    proof {
        lemma_key_index(keys, key@);
    }
    let mut i: usize = 0;
    while i < table.len()
        invariant
            i <= table@.len(),
            keys == keys_of(table@),
            forall|k: int| 0 <= k < i ==> #[trigger] keys[k] != key@,
        decreases table@.len() - i,
    {
        if str_eq(table[i].0.as_str(), key) {
            proof {
                lemma_key_index_at(keys, key@, i as int);
            }
            return Some(i);
        }
        i = i + 1;
    }
    None
}

pub(crate) fn upsert_entry<V>(table: &mut Vec<(String, V)>, key: String, value: V)
    ensures
        final(table)@ == upsert(old(table)@, key, value),
{
    match key_position(table, key.as_str()) {
        Some(i) => {
            table.set(i, (key, value));
        },
        None => {
            table.push((key, value));
        },
    }
}

fn upsert_text_entry(table: &mut Vec<(String, String)>, key: String, value: String)
    ensures
        texts(final(table)@) == upsert_text(texts(old(table)@), key@, value@),
{
    let ghost before = table@;
    assert(text_keys(texts(before)) =~= keys_of(before));
    let ghost k = key@;
    let ghost v = value@;
    match key_position(table, key.as_str()) {
        Some(i) => {
            table.set(i, (key, value));
            assert(texts(table@) =~= texts(before).update(i as int, (k, v)));
        },
        None => {
            table.push((key, value));
            assert(texts(table@) =~= texts(before).push((k, v)));
        },
    }
}

/// A step's state and diagnostic code.
pub open spec fn step_transition(steps: Seq<BridgeBootstrapStep>, id: Seq<char>) -> Option<(String, Option<String>)> {
    let i = first_step_index(steps, id);
    if i >= 0 {
        Some((steps[i].state, steps[i].code))
    } else {
        None
    }
}

pub open spec fn same_transition(a: (String, Option<String>), b: (String, Option<String>)) -> bool {
    a.0@ == b.0@ && option_view(a.1) == option_view(b.1)
}

pub open spec fn transition_line(t: (String, Option<String>), component: Seq<char>, event: Seq<char>) -> LogLine {
    let suffix = transition_suffix(t.0@);
    (
        "communication"@,
        transition_level(suffix),
        event,
        component + "_"@ + suffix,
        component + " state changed to "@ + t.0@ + " ("@ + transition_detail(t.1) + ")"@,
    )
}

/// A step transition is reported when the step exists and differs from the
/// last one reported.
pub open spec fn transition_pass(
    last: Option<(String, Option<String>)>,
    current: Option<(String, Option<String>)>,
    component: Seq<char>,
    event: Seq<char>,
) -> (Seq<LogLine>, Option<(String, Option<String>)>) {
    match current {
        None => (Seq::empty(), last),
        Some(c) => if last matches Some(l) && same_transition(l, c) {
            (Seq::empty(), last)
        } else {
            (seq![transition_line(c, component, event)], Some(c))
        },
    }
}

pub open spec fn peer_line(c: BridgeContact) -> LogLine {
    let state = c.peer_health.state@;
    (
        "messaging"@,
        if state == "ready"@ { Level::Info } else { Level::Warn },
        "peer_connection"@,
        "PEER_"@ + spec_ascii_uppercase(state),
        "contact="@ + c.id@ + " state="@ + state + " reconnect_attempt="@ + decimal_chars(
            c.peer_health.reconnect_attempt as nat,
        ),
    )
}

pub open spec fn peer_unchanged(table: Seq<(String, PeerMark)>, c: BridgeContact) -> bool {
    let i = key_index(keys_of(table), c.id@);
    i >= 0 && table[i].1.state@ == c.peer_health.state@ && table[i].1.reconnect_attempt
        == c.peer_health.reconnect_attempt
}

/// Peers whose connection state or reconnect attempt changed, in order.
pub open spec fn peer_pass(table: Seq<(String, PeerMark)>, contacts: Seq<BridgeContact>) -> (
    Seq<LogLine>,
    Seq<(String, PeerMark)>,
)
    decreases contacts.len(),
{
    if contacts.len() == 0 {
        (Seq::empty(), table)
    } else {
        let prev = peer_pass(table, contacts.drop_last());
        let c = contacts.last();
        if peer_unchanged(prev.1, c) {
            prev
        } else {
            (
                prev.0.push(peer_line(c)),
                upsert(
                    prev.1,
                    c.id,
                    PeerMark { state: c.peer_health.state, reconnect_attempt: c.peer_health.reconnect_attempt },
                ),
            )
        }
    }
}

pub open spec fn optional_ms(value: Option<i64>) -> Seq<char> {
    match value {
        Some(v) => signed_decimal_chars(v as int),
        None => "none"@,
    }
}

pub open spec fn message_level(status: Seq<char>) -> Level {
    if status == "failed"@ {
        Level::Error
    } else if status == "queued"@ || status == "sending"@ {
        Level::Warn
    } else {
        Level::Info
    }
}

pub open spec fn message_line(m: BridgeMessage) -> LogLine {
    (
        "messaging"@,
        message_level(m.status@),
        "delivery"@,
        "MESSAGE_STATE_CHANGED"@,
        "message="@ + m.id@ + " conversation="@ + m.conversation_id@ + " direction="@ + m.direction@
            + " status="@ + m.status@ + " attempt="@ + decimal_chars(m.attempt_count as nat)
            + " sent_at_ms="@ + optional_ms(m.sent_at_ms) + " delivered_at_ms="@ + optional_ms(
            m.delivered_at_ms,
        ) + " read_at_ms="@ + optional_ms(m.read_at_ms),
    )
}

pub open spec fn message_unchanged(table: Seq<(String, MessageMark)>, m: BridgeMessage) -> bool {
    let i = key_index(keys_of(table), m.id@);
    i >= 0 && table[i].1.status@ == m.status@ && table[i].1.attempt_count == m.attempt_count
}

/// Messages whose status or attempt count changed, in order.
pub open spec fn message_pass(table: Seq<(String, MessageMark)>, messages: Seq<BridgeMessage>) -> (
    Seq<LogLine>,
    Seq<(String, MessageMark)>,
)
    decreases messages.len(),
{
    if messages.len() == 0 {
        (Seq::empty(), table)
    } else {
        let prev = message_pass(table, messages.drop_last());
        let m = messages.last();
        if message_unchanged(prev.1, m) {
            prev
        } else {
            (
                prev.0.push(message_line(m)),
                upsert(prev.1, m.id, MessageMark { status: m.status, attempt_count: m.attempt_count }),
            )
        }
    }
}

pub open spec fn attachment_line(a: BridgeAttachment) -> LogLine {
    (
        "messaging"@,
        if a.status@ == "failed"@ { Level::Error } else { Level::Info },
        "attachment_transfer"@,
        "ATTACHMENT_STATE_CHANGED"@,
        "attachment="@ + a.id@ + " direction="@ + a.direction@ + " status="@ + a.status@
            + " offset="@ + decimal_chars(a.offset as nat) + "/"@ + decimal_chars(a.size as nat)
            + " attempt="@ + decimal_chars(a.attempt_count as nat) + " error="@ + match a.last_error_code {
            Some(e) => e@,
            None => "none"@,
        },
    )
}

pub open spec fn attachment_unchanged(table: Seq<(String, AttachmentMark)>, a: BridgeAttachment) -> bool {
    let i = key_index(keys_of(table), a.id@);
    i >= 0 && table[i].1.status@ == a.status@ && table[i].1.offset == a.offset && table[i].1.attempt_count
        == a.attempt_count
}

/// Attachments whose status, offset or attempt count changed, in order.
pub open spec fn attachment_pass(
    table: Seq<(String, AttachmentMark)>,
    attachments: Seq<BridgeAttachment>,
) -> (Seq<LogLine>, Seq<(String, AttachmentMark)>)
    decreases attachments.len(),
{
    if attachments.len() == 0 {
        (Seq::empty(), table)
    } else {
        let prev = attachment_pass(table, attachments.drop_last());
        let a = attachments.last();
        if attachment_unchanged(prev.1, a) {
            prev
        } else {
            (
                prev.0.push(attachment_line(a)),
                upsert(
                    prev.1,
                    a.id,
                    AttachmentMark { status: a.status, offset: a.offset, attempt_count: a.attempt_count },
                ),
            )
        }
    }
}

pub open spec fn bool_text(b: bool) -> Seq<char> {
    if b {
        "true"@
    } else {
        "false"@
    }
}

/// The remembered state of a radio contact.
pub open spec fn radio_mark(c: BridgeRadioContact) -> Seq<char> {
    "local_enabled="@ + bool_text(c.local_enabled) + " remote_state="@ + c.remote_state@ + " state="@
        + c.state@
}

pub open spec fn radio_level(state: Seq<char>) -> Level {
    if state == "ready"@ || state == "receiving"@ {
        Level::Info
    } else if state == "reconnecting"@ || state == "unavailable"@ {
        Level::Warn
    } else {
        Level::Debug
    }
}

pub open spec fn radio_line(c: BridgeRadioContact) -> LogLine {
    (
        "radio"@,
        radio_level(c.state@),
        "session"@,
        "RADIO_STATE_CHANGED"@,
        "contact="@ + c.contact_id@ + " "@ + radio_mark(c),
    )
}

pub open spec fn radio_unchanged(table: Seq<(Seq<char>, Seq<char>)>, key: Seq<char>, mark: Seq<char>) -> bool {
    let i = key_index(text_keys(table), key);
    i >= 0 && table[i].1 == mark
}

/// Radio contacts whose state changed, in order. The table stores the
/// remembered state as text.
pub open spec fn radio_pass(table: Seq<(Seq<char>, Seq<char>)>, contacts: Seq<BridgeRadioContact>) -> (
    Seq<LogLine>,
    Seq<(Seq<char>, Seq<char>)>,
)
    decreases contacts.len(),
{
    if contacts.len() == 0 {
        (Seq::empty(), table)
    } else {
        let prev = radio_pass(table, contacts.drop_last());
        let c = contacts.last();
        if radio_unchanged(prev.1, c.contact_id@, radio_mark(c)) {
            prev
        } else {
            (prev.0.push(radio_line(c)), upsert_text(prev.1, c.contact_id@, radio_mark(c)))
        }
    }
}

/// The remembered text of the active radio session.
pub open spec fn session_mark(radio: BridgeRadio) -> Seq<char> {
    let failure = match radio.last_transport_failure {
        Some(f) => f@,
        None => "none"@,
    };
    match radio.session {
        None => "none transport_failure="@ + failure,
        Some(s) => "contact="@ + s.contact_id@ + " state="@ + s.state@ + " floor="@ + s.floor@
            + " burst_elapsed_ms="@ + decimal_chars(s.burst_elapsed_ms as nat) + " transport_failure="@
            + failure,
    }
}

pub open spec fn session_pass(table: Seq<(Seq<char>, Seq<char>)>, radio: BridgeRadio) -> (
    Seq<LogLine>,
    Seq<(Seq<char>, Seq<char>)>,
) {
    let mark = session_mark(radio);
    if radio_unchanged(table, "active_session"@, mark) {
        (Seq::empty(), table)
    } else {
        (
            seq![("radio"@, Level::Info, "session"@, "RADIO_SESSION_CHANGED"@, mark)],
            upsert_text(table, "active_session"@, mark),
        )
    }
}

/// Whether the communication runtime step is ready.
pub open spec fn network_ready(steps: Seq<BridgeBootstrapStep>) -> bool {
    let i = first_step_index(steps, "communication_runtime"@);
    i >= 0 && steps[i].state@ == "ready"@
}

pub open spec fn ready_line() -> LogLine {
    (
        "bootstrap"@,
        Level::Info,
        "network"@,
        "COMMUNICATION_READY"@,
        "Communication runtime is ready; optional capabilities continue in the background"@,
    )
}

proof fn lemma_lines_append(a: Seq<LogEvent>, la: Seq<LogLine>, b: Seq<LogEvent>, lb: Seq<LogLine>)
    requires
        lines_are(a, la),
        lines_are(b, lb),
    ensures
        lines_are(a + b, la + lb),
{
    assert forall|i: int| 0 <= i < (a + b).len() implies line_of(#[trigger] (a + b)[i]) == (la + lb)[i] by {
        if i < a.len() {
            assert((a + b)[i] == a[i]);
        } else {
            assert((a + b)[i] == b[i - a.len()]);
        }
    }
}

fn log_event(component: &'static str, level: Level, event: &'static str, code: String, message: String) -> (r: LogEvent)
    ensures
        line_of(r) == (component@, level, event@, code@, message@),
{
    LogEvent { component, level, event, code, message }
}

fn peer_events(table: &mut Vec<(String, PeerMark)>, contacts: &Vec<BridgeContact>) -> (r: Vec<LogEvent>)
    ensures
        lines_are(r@, peer_pass(old(table)@, contacts@).0),
        final(table)@ == peer_pass(old(table)@, contacts@).1,
{
    let ghost t0 = table@;
    let mut out: Vec<LogEvent> = Vec::new();
    let mut i: usize = 0;
    while i < contacts.len()
        invariant
            i <= contacts@.len(),
            lines_are(out@, peer_pass(t0, contacts@.subrange(0, i as int)).0),
            table@ == peer_pass(t0, contacts@.subrange(0, i as int)).1,
        decreases contacts@.len() - i,
    {
        let ghost before = contacts@.subrange(0, i as int);
        assert(contacts@.subrange(0, i + 1).drop_last() =~= before);
        let c = &contacts[i];
        let state = c.peer_health.state.as_str();
        let attempt = c.peer_health.reconnect_attempt;
        let unchanged = match key_position(table, c.id.as_str()) {
            Some(k) => table[k].1.state == c.peer_health.state && table[k].1.reconnect_attempt == attempt,
            None => false,
        };
        if !unchanged {
            let level = if str_eq(state, "ready") { Level::Info } else { Level::Warn };
            let mut message = "contact=".to_owned();
            message.append(c.id.as_str());
            message.append(" state=");
            message.append(state);
            message.append(" reconnect_attempt=");
            push_decimal(&mut message, attempt as u64);
            out.push(log_event("messaging", level, "peer_connection", prefixed_upper("PEER_", state), message));
            upsert_entry(
                table,
                c.id.clone(),
                PeerMark { state: c.peer_health.state.clone(), reconnect_attempt: attempt },
            );
        }
        i = i + 1;
    }
    assert(contacts@.subrange(0, contacts@.len() as int) =~= contacts@);
    out
}

fn push_optional_ms(output: &mut String, value: Option<i64>)
    ensures
        final(output)@ == old(output)@ + optional_ms(value),
{
    match value {
        Some(v) => push_signed_decimal(output, v),
        None => output.append("none"),
    }
}

fn message_events(table: &mut Vec<(String, MessageMark)>, messages: &Vec<BridgeMessage>) -> (r: Vec<LogEvent>)
    ensures
        lines_are(r@, message_pass(old(table)@, messages@).0),
        final(table)@ == message_pass(old(table)@, messages@).1,
{
    let ghost t0 = table@;
    let mut out: Vec<LogEvent> = Vec::new();
    let mut i: usize = 0;
    while i < messages.len()
        invariant
            i <= messages@.len(),
            lines_are(out@, message_pass(t0, messages@.subrange(0, i as int)).0),
            table@ == message_pass(t0, messages@.subrange(0, i as int)).1,
        decreases messages@.len() - i,
    {
        let ghost before = messages@.subrange(0, i as int);
        assert(messages@.subrange(0, i + 1).drop_last() =~= before);
        let m = &messages[i];
        let status = m.status.as_str();
        let unchanged = match key_position(table, m.id.as_str()) {
            Some(k) => table[k].1.status == m.status && table[k].1.attempt_count == m.attempt_count,
            None => false,
        };
        if !unchanged {
            let level = if str_eq(status, "failed") {
                Level::Error
            } else if str_eq(status, "queued") || str_eq(status, "sending") {
                Level::Warn
            } else {
                Level::Info
            };
            let mut message = "message=".to_owned();
            message.append(m.id.as_str());
            message.append(" conversation=");
            message.append(m.conversation_id.as_str());
            message.append(" direction=");
            message.append(m.direction.as_str());
            message.append(" status=");
            message.append(status);
            message.append(" attempt=");
            push_decimal(&mut message, m.attempt_count as u64);
            message.append(" sent_at_ms=");
            push_optional_ms(&mut message, m.sent_at_ms);
            message.append(" delivered_at_ms=");
            push_optional_ms(&mut message, m.delivered_at_ms);
            message.append(" read_at_ms=");
            push_optional_ms(&mut message, m.read_at_ms);
            out.push(log_event("messaging", level, "delivery", "MESSAGE_STATE_CHANGED".to_owned(), message));
            upsert_entry(
                table,
                m.id.clone(),
                MessageMark { status: m.status.clone(), attempt_count: m.attempt_count },
            );
        }
        i = i + 1;
    }
    assert(messages@.subrange(0, messages@.len() as int) =~= messages@);
    out
}

fn attachment_events(table: &mut Vec<(String, AttachmentMark)>, attachments: &Vec<BridgeAttachment>) -> (r: Vec<
    LogEvent,
>)
    ensures
        lines_are(r@, attachment_pass(old(table)@, attachments@).0),
        final(table)@ == attachment_pass(old(table)@, attachments@).1,
{
    let ghost t0 = table@;
    let mut out: Vec<LogEvent> = Vec::new();
    let mut i: usize = 0;
    while i < attachments.len()
        invariant
            i <= attachments@.len(),
            lines_are(out@, attachment_pass(t0, attachments@.subrange(0, i as int)).0),
            table@ == attachment_pass(t0, attachments@.subrange(0, i as int)).1,
        decreases attachments@.len() - i,
    {
        let ghost before = attachments@.subrange(0, i as int);
        assert(attachments@.subrange(0, i + 1).drop_last() =~= before);
        let a = &attachments[i];
        let status = a.status.as_str();
        let unchanged = match key_position(table, a.id.as_str()) {
            Some(k) => table[k].1.status == a.status && table[k].1.offset == a.offset
                && table[k].1.attempt_count == a.attempt_count,
            None => false,
        };
        if !unchanged {
            let level = if str_eq(status, "failed") { Level::Error } else { Level::Info };
            let mut message = "attachment=".to_owned();
            message.append(a.id.as_str());
            message.append(" direction=");
            message.append(a.direction.as_str());
            message.append(" status=");
            message.append(status);
            message.append(" offset=");
            push_decimal(&mut message, a.offset);
            message.append("/");
            push_decimal(&mut message, a.size);
            message.append(" attempt=");
            push_decimal(&mut message, a.attempt_count as u64);
            message.append(" error=");
            match &a.last_error_code {
                Some(e) => message.append(e.as_str()),
                None => message.append("none"),
            }
            out.push(
                log_event("messaging", level, "attachment_transfer", "ATTACHMENT_STATE_CHANGED".to_owned(), message),
            );
            upsert_entry(
                table,
                a.id.clone(),
                AttachmentMark { status: a.status.clone(), offset: a.offset, attempt_count: a.attempt_count },
            );
        }
        i = i + 1;
    }
    assert(attachments@.subrange(0, attachments@.len() as int) =~= attachments@);
    out
}

fn text_unchanged(table: &Vec<(String, String)>, key: &str, mark: &String) -> (r: bool)
    ensures
        r == radio_unchanged(texts(table@), key@, mark@),
{
    assert(text_keys(texts(table@)) =~= keys_of(table@));
    match key_position(table, key) {
        Some(k) => table[k].1 == *mark,
        None => false,
    }
}

fn radio_mark_text(c: &BridgeRadioContact) -> (r: String)
    ensures
        r@ == radio_mark(*c),
{
    let mut mark = "local_enabled=".to_owned();
    if c.local_enabled {
        mark.append("true");
    } else {
        mark.append("false");
    }
    mark.append(" remote_state=");
    mark.append(c.remote_state.as_str());
    mark.append(" state=");
    mark.append(c.state.as_str());
    mark
}

fn radio_events(table: &mut Vec<(String, String)>, contacts: &Vec<BridgeRadioContact>) -> (r: Vec<LogEvent>)
    ensures
        lines_are(r@, radio_pass(texts(old(table)@), contacts@).0),
        texts(final(table)@) == radio_pass(texts(old(table)@), contacts@).1,
{
    let ghost t0 = texts(table@);
    let mut out: Vec<LogEvent> = Vec::new();
    let mut i: usize = 0;
    while i < contacts.len()
        invariant
            i <= contacts@.len(),
            lines_are(out@, radio_pass(t0, contacts@.subrange(0, i as int)).0),
            texts(table@) == radio_pass(t0, contacts@.subrange(0, i as int)).1,
        decreases contacts@.len() - i,
    {
        let ghost before = contacts@.subrange(0, i as int);
        assert(contacts@.subrange(0, i + 1).drop_last() =~= before);
        let c = &contacts[i];
        let mark = radio_mark_text(c);
        if !text_unchanged(table, c.contact_id.as_str(), &mark) {
            let state = c.state.as_str();
            let level = if str_eq(state, "ready") || str_eq(state, "receiving") {
                Level::Info
            } else if str_eq(state, "reconnecting") || str_eq(state, "unavailable") {
                Level::Warn
            } else {
                Level::Debug
            };
            let mut message = "contact=".to_owned();
            message.append(c.contact_id.as_str());
            message.append(" ");
            message.append(mark.as_str());
            out.push(log_event("radio", level, "session", "RADIO_STATE_CHANGED".to_owned(), message));
            upsert_text_entry(table, c.contact_id.clone(), mark);
        }
        i = i + 1;
    }
    assert(contacts@.subrange(0, contacts@.len() as int) =~= contacts@);
    out
}

fn session_mark_text(radio: &BridgeRadio) -> (r: String)
    ensures
        r@ == session_mark(*radio),
{
    let mut mark = String::new();
    match &radio.session {
        None => {
            mark.append("none transport_failure=");
        },
        Some(s) => {
            mark.append("contact=");
            mark.append(s.contact_id.as_str());
            mark.append(" state=");
            mark.append(s.state.as_str());
            mark.append(" floor=");
            mark.append(s.floor.as_str());
            mark.append(" burst_elapsed_ms=");
            push_decimal(&mut mark, s.burst_elapsed_ms as u64);
            mark.append(" transport_failure=");
        },
    }
    match &radio.last_transport_failure {
        Some(f) => mark.append(f.as_str()),
        None => mark.append("none"),
    }
    mark
}

fn transition_of(steps: &Vec<BridgeBootstrapStep>, id: &str) -> (r: Option<(String, Option<String>)>)
    ensures
        r == step_transition(steps@, id@),
{
    match find_step(steps, id) {
        Some(k) => {
            let code = match &steps[k].code {
                Some(c) => Some(c.clone()),
                None => None,
            };
            Some((steps[k].state.clone(), code))
        },
        None => None,
    }
}

fn same_transition_exec(a: &(String, Option<String>), b: &(String, Option<String>)) -> (r: bool)
    ensures
        r == same_transition(*a, *b),
{
    if a.0 != b.0 {
        return false;
    }
    match (&a.1, &b.1) {
        (Some(x), Some(y)) => *x == *y,
        (None, None) => true,
        _ => false,
    }
}

fn transition_events(
    last: &mut Option<(String, Option<String>)>,
    current: Option<(String, Option<String>)>,
    component: &str,
    event_name: &'static str,
) -> (r: Vec<LogEvent>)
    ensures
        lines_are(r@, transition_pass(*old(last), current, component@, event_name@).0),
        *final(last) == transition_pass(*old(last), current, component@, event_name@).1,
{
    let mut out: Vec<LogEvent> = Vec::new();
    match current {
        None => {},
        Some(c) => {
            let repeated = match last {
                Some(l) => same_transition_exec(l, &c),
                None => false,
            };
            if !repeated {
                let (level, code, message) = network_transition_event(component, &c);
                out.push(log_event("communication", level, event_name, code, message));
                *last = Some(c);
            }
        },
    }
    out
}

/// The records a snapshot yields, in order: incoming reachability, the
/// rendezvous step (Tor only), peers, messages, attachments, radio contacts,
/// the radio session, and once the communication runtime's readiness.
pub open spec fn spec_log_lines(log: TransitionLog, snapshot: BridgeSnapshot, provider: Seq<char>) -> Seq<LogLine> {
    let steps = snapshot.bootstrap_steps@;
    let incoming = transition_pass(
        log.last_incoming,
        step_transition(steps, "incoming_reachability"@),
        "INCOMING"@,
        "incoming_reachability"@,
    );
    let rendezvous = transition_pass(
        log.last_rendezvous,
        if provider == "tor"@ { step_transition(steps, "rendezvous"@) } else { None },
        "RENDEZVOUS"@,
        "rendezvous"@,
    );
    let peers = peer_pass(log.peers@, snapshot.contacts@);
    let messages = message_pass(log.messages@, snapshot.messages@);
    let attachments = attachment_pass(log.attachments@, snapshot.attachments@);
    let radio = radio_pass(texts(log.radio@), snapshot.radio.contacts@);
    let session = session_pass(radio.1, snapshot.radio);
    let ready = if network_ready(steps) && !log.network_ready_logged {
        seq![ready_line()]
    } else {
        Seq::empty()
    };
    incoming.0 + rendezvous.0 + peers.0 + messages.0 + attachments.0 + radio.0 + session.0 + ready
}

/// What the log remembers after a snapshot.
pub open spec fn recorded(old_log: TransitionLog, new_log: TransitionLog, snapshot: BridgeSnapshot, provider: Seq<char>) -> bool {
    let steps = snapshot.bootstrap_steps@;
    let radio = radio_pass(texts(old_log.radio@), snapshot.radio.contacts@);
    &&& new_log.last_incoming == transition_pass(
        old_log.last_incoming,
        step_transition(steps, "incoming_reachability"@),
        "INCOMING"@,
        "incoming_reachability"@,
    ).1
    &&& new_log.last_rendezvous == transition_pass(
        old_log.last_rendezvous,
        if provider == "tor"@ { step_transition(steps, "rendezvous"@) } else { None },
        "RENDEZVOUS"@,
        "rendezvous"@,
    ).1
    &&& new_log.peers@ == peer_pass(old_log.peers@, snapshot.contacts@).1
    &&& new_log.messages@ == message_pass(old_log.messages@, snapshot.messages@).1
    &&& new_log.attachments@ == attachment_pass(old_log.attachments@, snapshot.attachments@).1
    &&& texts(new_log.radio@) == session_pass(radio.1, snapshot.radio).1
    &&& new_log.network_ready_logged == (old_log.network_ready_logged || network_ready(steps))
}

impl TransitionLog {
    /// A log that has reported nothing yet.
    pub fn new() -> (r: Self)
        ensures
            r.last_incoming is None,
            r.last_rendezvous is None,
            r.peers@.len() == 0,
            r.messages@.len() == 0,
            r.attachments@.len() == 0,
            r.radio@.len() == 0,
            !r.network_ready_logged,
    {
        TransitionLog {
            last_incoming: None,
            last_rendezvous: None,
            peers: Vec::new(),
            messages: Vec::new(),
            attachments: Vec::new(),
            radio: Vec::new(),
            network_ready_logged: false,
        }
    }

    /// The records that `snapshot` yields against what was last reported,
    /// remembering the new states. `selected_provider` is the provider the
    /// build selected; only Tor reports its rendezvous step.
    pub fn log_network_transitions(&mut self, snapshot: &BridgeSnapshot, selected_provider: &str) -> (r: Vec<
        LogEvent,
    >)
        ensures
            lines_are(r@, spec_log_lines(*old(self), *snapshot, selected_provider@)),
            recorded(*old(self), *final(self), *snapshot, selected_provider@),
    {
        let ghost old_log = *self;
        let steps = &snapshot.bootstrap_steps;
        let incoming = transition_of(steps, "incoming_reachability");
        let mut all = transition_events(&mut self.last_incoming, incoming, "INCOMING", "incoming_reachability");
        let rendezvous = if str_eq(selected_provider, "tor") {
            transition_of(steps, "rendezvous")
        } else {
            None
        };
        let mut part = transition_events(&mut self.last_rendezvous, rendezvous, "RENDEZVOUS", "rendezvous");
        let ghost l1 = all@;
        let ghost p1 = part@;
        all.append(&mut part);
        proof {
            lemma_lines_append(l1, spec_log_lines_part1(old_log, *snapshot, selected_provider@), p1, spec_log_lines_part2(old_log, *snapshot, selected_provider@));
        }
        let mut peers = peer_events(&mut self.peers, &snapshot.contacts);
        let ghost l2 = all@;
        let ghost p2 = peers@;
        all.append(&mut peers);
        proof {
            lemma_lines_append(l2, spec_log_lines_part1(old_log, *snapshot, selected_provider@) + spec_log_lines_part2(old_log, *snapshot, selected_provider@), p2, peer_pass(old_log.peers@, snapshot.contacts@).0);
        }
        let mut messages = message_events(&mut self.messages, &snapshot.messages);
        let ghost l3 = all@;
        let ghost p3 = messages@;
        all.append(&mut messages);
        proof {
            lemma_lines_append(l3, spec_log_lines_part1(old_log, *snapshot, selected_provider@) + spec_log_lines_part2(old_log, *snapshot, selected_provider@) + peer_pass(old_log.peers@, snapshot.contacts@).0, p3, message_pass(old_log.messages@, snapshot.messages@).0);
        }
        let mut attachments = attachment_events(&mut self.attachments, &snapshot.attachments);
        let ghost l4 = all@;
        let ghost p4 = attachments@;
        all.append(&mut attachments);
        proof {
            lemma_lines_append(l4, spec_log_lines_part1(old_log, *snapshot, selected_provider@) + spec_log_lines_part2(old_log, *snapshot, selected_provider@) + peer_pass(old_log.peers@, snapshot.contacts@).0 + message_pass(old_log.messages@, snapshot.messages@).0, p4, attachment_pass(old_log.attachments@, snapshot.attachments@).0);
        }
        let mut radio = radio_events(&mut self.radio, &snapshot.radio.contacts);
        let ghost l5 = all@;
        let ghost p5 = radio@;
        all.append(&mut radio);
        proof {
            lemma_lines_append(l5, spec_log_lines_part1(old_log, *snapshot, selected_provider@) + spec_log_lines_part2(old_log, *snapshot, selected_provider@) + peer_pass(old_log.peers@, snapshot.contacts@).0 + message_pass(old_log.messages@, snapshot.messages@).0 + attachment_pass(old_log.attachments@, snapshot.attachments@).0, p5, radio_pass(texts(old_log.radio@), snapshot.radio.contacts@).0);
        }
        let session = session_mark_text(&snapshot.radio);
        let mut tail: Vec<LogEvent> = Vec::new();
        if !text_unchanged(&self.radio, "active_session", &session) {
            tail.push(log_event("radio", Level::Info, "session", "RADIO_SESSION_CHANGED".to_owned(), session.clone()));
            upsert_text_entry(&mut self.radio, "active_session".to_owned(), session);
        }
        let communication = find_step(steps, "communication_runtime");
        let ready = match communication {
            Some(k) => str_eq(steps[k].state.as_str(), "ready"),
            None => false,
        };
        if ready && !self.network_ready_logged {
            tail.push(
                log_event(
                    "bootstrap",
                    Level::Info,
                    "network",
                    "COMMUNICATION_READY".to_owned(),
                    "Communication runtime is ready; optional capabilities continue in the background".to_owned(),
                ),
            );
            self.network_ready_logged = true;
        }
        let ghost l6 = all@;
        let ghost p6 = tail@;
        all.append(&mut tail);
        proof {
            let radio_r = radio_pass(texts(old_log.radio@), snapshot.radio.contacts@);
            let ready_lines = if network_ready(snapshot.bootstrap_steps@) && !old_log.network_ready_logged {
                seq![ready_line()]
            } else {
                Seq::<LogLine>::empty()
            };
            assert(lines_are(p6, session_pass(radio_r.1, snapshot.radio).0 + ready_lines));
            lemma_lines_append(l6, spec_log_lines_part1(old_log, *snapshot, selected_provider@) + spec_log_lines_part2(old_log, *snapshot, selected_provider@) + peer_pass(old_log.peers@, snapshot.contacts@).0 + message_pass(old_log.messages@, snapshot.messages@).0 + attachment_pass(old_log.attachments@, snapshot.attachments@).0 + radio_r.0, p6, session_pass(radio_r.1, snapshot.radio).0 + ready_lines);
            assert(spec_log_lines(old_log, *snapshot, selected_provider@) =~= spec_log_lines_part1(old_log, *snapshot, selected_provider@) + spec_log_lines_part2(old_log, *snapshot, selected_provider@) + peer_pass(old_log.peers@, snapshot.contacts@).0 + message_pass(old_log.messages@, snapshot.messages@).0 + attachment_pass(old_log.attachments@, snapshot.attachments@).0 + radio_r.0 + (session_pass(radio_r.1, snapshot.radio).0 + ready_lines));
        }
        all
    }
}

pub open spec fn spec_log_lines_part1(log: TransitionLog, snapshot: BridgeSnapshot, provider: Seq<char>) -> Seq<LogLine> {
    transition_pass(
        log.last_incoming,
        step_transition(snapshot.bootstrap_steps@, "incoming_reachability"@),
        "INCOMING"@,
        "incoming_reachability"@,
    ).0
}

pub open spec fn spec_log_lines_part2(log: TransitionLog, snapshot: BridgeSnapshot, provider: Seq<char>) -> Seq<LogLine> {
    transition_pass(
        log.last_rendezvous,
        if provider == "tor"@ { step_transition(snapshot.bootstrap_steps@, "rendezvous"@) } else { None },
        "RENDEZVOUS"@,
        "rendezvous"@,
    ).0
}

proof fn lemma_upsert<V>(t: Seq<(String, V)>, key: String, value: V, other: Seq<char>)
    ensures
        ({
            let u = upsert(t, key, value);
            let k = key_index(keys_of(u), key@);
            k >= 0 && u[k].1 == value
        }),
        other != key@ ==> key_index(keys_of(upsert(t, key, value)), other) == key_index(keys_of(t), other),
        other != key@ && key_index(keys_of(t), other) >= 0 ==> upsert(t, key, value)[key_index(
            keys_of(t),
            other,
        )] == t[key_index(keys_of(t), other)],
{
    let keys = keys_of(t);
    let u = upsert(t, key, value);
    let i = key_index(keys, key@);
    lemma_key_index(keys, key@);
    lemma_key_index(keys, other);
    if i >= 0 {
        assert(keys_of(u) =~= keys);
    } else {
        assert(keys_of(u) =~= keys.push(key@));
        lemma_key_index(keys_of(u), key@);
        lemma_key_index(keys_of(u), other);
        let j = key_index(keys, other);
        if j >= 0 {
            lemma_key_index_at(keys_of(u), other, j);
        } else if other != key@ {
            assert forall|m: int| 0 <= m < keys_of(u).len() implies #[trigger] keys_of(u)[m] != other by {
                if m < keys.len() {
                    assert(keys_of(u)[m] == keys[m]);
                }
            }
            lemma_key_index(keys_of(u), other);
        }
        lemma_key_index_at(keys_of(u), key@, keys.len() as int);
    }
}

proof fn lemma_upsert_text(t: Seq<(Seq<char>, Seq<char>)>, key: Seq<char>, value: Seq<char>, other: Seq<char>)
    ensures
        radio_unchanged(upsert_text(t, key, value), key, value),
        other != key ==> key_index(text_keys(upsert_text(t, key, value)), other) == key_index(
            text_keys(t),
            other,
        ),
        other != key && key_index(text_keys(t), other) >= 0 ==> upsert_text(t, key, value)[key_index(
            text_keys(t),
            other,
        )] == t[key_index(text_keys(t), other)],
{
    let keys = text_keys(t);
    let u = upsert_text(t, key, value);
    let i = key_index(keys, key);
    lemma_key_index(keys, key);
    lemma_key_index(keys, other);
    if i >= 0 {
        assert(text_keys(u) =~= keys);
    } else {
        assert(text_keys(u) =~= keys.push(key));
        let j = key_index(keys, other);
        if j >= 0 {
            lemma_key_index_at(text_keys(u), other, j);
        } else if other != key {
            assert forall|m: int| 0 <= m < text_keys(u).len() implies #[trigger] text_keys(u)[m] != other by {
                if m < keys.len() {
                    assert(text_keys(u)[m] == keys[m]);
                }
            }
            lemma_key_index(text_keys(u), other);
        }
        lemma_key_index_at(text_keys(u), key, keys.len() as int);
    }
}

/// No two entries of `ids` are equal.
pub open spec fn distinct(ids: Seq<Seq<char>>) -> bool {
    forall|i: int, j: int| 0 <= i < j < ids.len() ==> ids[i] != ids[j]
}

pub open spec fn contact_ids(items: Seq<BridgeContact>) -> Seq<Seq<char>> {
    items.map_values(|c: BridgeContact| c.id@)
}

pub open spec fn message_ids(items: Seq<BridgeMessage>) -> Seq<Seq<char>> {
    items.map_values(|m: BridgeMessage| m.id@)
}

pub open spec fn attachment_ids(items: Seq<BridgeAttachment>) -> Seq<Seq<char>> {
    items.map_values(|a: BridgeAttachment| a.id@)
}

pub open spec fn radio_contact_ids(items: Seq<BridgeRadioContact>) -> Seq<Seq<char>> {
    items.map_values(|c: BridgeRadioContact| c.contact_id@)
}

proof fn lemma_peer_pass(t: Seq<(String, PeerMark)>, cs: Seq<BridgeContact>)
    requires
        distinct(contact_ids(cs)),
    ensures
        forall|k: int| 0 <= k < cs.len() ==> peer_unchanged(peer_pass(t, cs).1, #[trigger] cs[k]),
    decreases cs.len(),
{
    if cs.len() > 0 {
        let init = cs.drop_last();
        assert(contact_ids(init) =~= contact_ids(cs).drop_last());
        lemma_peer_pass(t, init);
        let prev = peer_pass(t, init);
        let c = cs.last();
        if !peer_unchanged(prev.1, c) {
            let mark = PeerMark { state: c.peer_health.state, reconnect_attempt: c.peer_health.reconnect_attempt };
            lemma_upsert(prev.1, c.id, mark, c.id@);
            assert forall|k: int| 0 <= k < cs.len() implies peer_unchanged(peer_pass(t, cs).1, #[trigger] cs[k]) by {
                if k < cs.len() - 1 {
                    assert(cs[k] == init[k]);
                    assert(contact_ids(cs)[k] != contact_ids(cs)[cs.len() - 1]);
                    lemma_upsert(prev.1, c.id, mark, cs[k].id@);
                    assert(peer_unchanged(prev.1, init[k]));
                }
            }
        } else {
            assert forall|k: int| 0 <= k < cs.len() implies peer_unchanged(peer_pass(t, cs).1, #[trigger] cs[k]) by {
                if k < cs.len() - 1 {
                    assert(cs[k] == init[k]);
                }
            }
        }
    }
}

proof fn lemma_peer_pass_quiet(t: Seq<(String, PeerMark)>, cs: Seq<BridgeContact>)
    requires
        forall|k: int| 0 <= k < cs.len() ==> peer_unchanged(t, #[trigger] cs[k]),
    ensures
        peer_pass(t, cs).0.len() == 0,
        peer_pass(t, cs).1 == t,
    decreases cs.len(),
{
    if cs.len() > 0 {
        let init = cs.drop_last();
        assert forall|k: int| 0 <= k < init.len() implies peer_unchanged(t, #[trigger] init[k]) by {
            assert(init[k] == cs[k]);
        }
        lemma_peer_pass_quiet(t, init);
        assert(peer_unchanged(t, cs[cs.len() - 1]));
    }
}

proof fn lemma_message_pass(t: Seq<(String, MessageMark)>, ms: Seq<BridgeMessage>)
    requires
        distinct(message_ids(ms)),
    ensures
        forall|k: int| 0 <= k < ms.len() ==> message_unchanged(message_pass(t, ms).1, #[trigger] ms[k]),
    decreases ms.len(),
{
    if ms.len() > 0 {
        let init = ms.drop_last();
        assert(message_ids(init) =~= message_ids(ms).drop_last());
        lemma_message_pass(t, init);
        let prev = message_pass(t, init);
        let m = ms.last();
        if !message_unchanged(prev.1, m) {
            let mark = MessageMark { status: m.status, attempt_count: m.attempt_count };
            lemma_upsert(prev.1, m.id, mark, m.id@);
            assert forall|k: int| 0 <= k < ms.len() implies message_unchanged(message_pass(t, ms).1, #[trigger] ms[k]) by {
                if k < ms.len() - 1 {
                    assert(ms[k] == init[k]);
                    assert(message_ids(ms)[k] != message_ids(ms)[ms.len() - 1]);
                    lemma_upsert(prev.1, m.id, mark, ms[k].id@);
                    assert(message_unchanged(prev.1, init[k]));
                }
            }
        } else {
            assert forall|k: int| 0 <= k < ms.len() implies message_unchanged(message_pass(t, ms).1, #[trigger] ms[k]) by {
                if k < ms.len() - 1 {
                    assert(ms[k] == init[k]);
                }
            }
        }
    }
}

proof fn lemma_message_pass_quiet(t: Seq<(String, MessageMark)>, ms: Seq<BridgeMessage>)
    requires
        forall|k: int| 0 <= k < ms.len() ==> message_unchanged(t, #[trigger] ms[k]),
    ensures
        message_pass(t, ms).0.len() == 0,
        message_pass(t, ms).1 == t,
    decreases ms.len(),
{
    if ms.len() > 0 {
        let init = ms.drop_last();
        assert forall|k: int| 0 <= k < init.len() implies message_unchanged(t, #[trigger] init[k]) by {
            assert(init[k] == ms[k]);
        }
        lemma_message_pass_quiet(t, init);
        assert(message_unchanged(t, ms[ms.len() - 1]));
    }
}

proof fn lemma_attachment_pass(t: Seq<(String, AttachmentMark)>, xs: Seq<BridgeAttachment>)
    requires
        distinct(attachment_ids(xs)),
    ensures
        forall|k: int| 0 <= k < xs.len() ==> attachment_unchanged(attachment_pass(t, xs).1, #[trigger] xs[k]),
    decreases xs.len(),
{
    if xs.len() > 0 {
        let init = xs.drop_last();
        assert(attachment_ids(init) =~= attachment_ids(xs).drop_last());
        lemma_attachment_pass(t, init);
        let prev = attachment_pass(t, init);
        let a = xs.last();
        if !attachment_unchanged(prev.1, a) {
            let mark = AttachmentMark { status: a.status, offset: a.offset, attempt_count: a.attempt_count };
            lemma_upsert(prev.1, a.id, mark, a.id@);
            assert forall|k: int| 0 <= k < xs.len() implies attachment_unchanged(attachment_pass(t, xs).1, #[trigger] xs[k]) by {
                if k < xs.len() - 1 {
                    assert(xs[k] == init[k]);
                    assert(attachment_ids(xs)[k] != attachment_ids(xs)[xs.len() - 1]);
                    lemma_upsert(prev.1, a.id, mark, xs[k].id@);
                    assert(attachment_unchanged(prev.1, init[k]));
                }
            }
        } else {
            assert forall|k: int| 0 <= k < xs.len() implies attachment_unchanged(attachment_pass(t, xs).1, #[trigger] xs[k]) by {
                if k < xs.len() - 1 {
                    assert(xs[k] == init[k]);
                }
            }
        }
    }
}

proof fn lemma_attachment_pass_quiet(t: Seq<(String, AttachmentMark)>, xs: Seq<BridgeAttachment>)
    requires
        forall|k: int| 0 <= k < xs.len() ==> attachment_unchanged(t, #[trigger] xs[k]),
    ensures
        attachment_pass(t, xs).0.len() == 0,
        attachment_pass(t, xs).1 == t,
    decreases xs.len(),
{
    if xs.len() > 0 {
        let init = xs.drop_last();
        assert forall|k: int| 0 <= k < init.len() implies attachment_unchanged(t, #[trigger] init[k]) by {
            assert(init[k] == xs[k]);
        }
        lemma_attachment_pass_quiet(t, init);
        assert(attachment_unchanged(t, xs[xs.len() - 1]));
    }
}

proof fn lemma_radio_pass(t: Seq<(Seq<char>, Seq<char>)>, cs: Seq<BridgeRadioContact>)
    requires
        distinct(radio_contact_ids(cs)),
    ensures
        forall|k: int|
            0 <= k < cs.len() ==> radio_unchanged(radio_pass(t, cs).1, #[trigger] cs[k].contact_id@, radio_mark(cs[k])),
    decreases cs.len(),
{
    if cs.len() > 0 {
        let init = cs.drop_last();
        assert(radio_contact_ids(init) =~= radio_contact_ids(cs).drop_last());
        lemma_radio_pass(t, init);
        let prev = radio_pass(t, init);
        let c = cs.last();
        if !radio_unchanged(prev.1, c.contact_id@, radio_mark(c)) {
            lemma_upsert_text(prev.1, c.contact_id@, radio_mark(c), c.contact_id@);
            assert forall|k: int| 0 <= k < cs.len() implies radio_unchanged(radio_pass(t, cs).1, #[trigger] cs[k].contact_id@, radio_mark(cs[k])) by {
                if k < cs.len() - 1 {
                    assert(cs[k] == init[k]);
                    assert(radio_contact_ids(cs)[k] != radio_contact_ids(cs)[cs.len() - 1]);
                    lemma_upsert_text(prev.1, c.contact_id@, radio_mark(c), cs[k].contact_id@);
                    assert(radio_unchanged(prev.1, init[k].contact_id@, radio_mark(init[k])));
                }
            }
        } else {
            assert forall|k: int| 0 <= k < cs.len() implies radio_unchanged(radio_pass(t, cs).1, #[trigger] cs[k].contact_id@, radio_mark(cs[k])) by {
                if k < cs.len() - 1 {
                    assert(cs[k] == init[k]);
                }
            }
        }
    }
}

proof fn lemma_radio_pass_quiet(t: Seq<(Seq<char>, Seq<char>)>, cs: Seq<BridgeRadioContact>)
    requires
        forall|k: int| 0 <= k < cs.len() ==> radio_unchanged(t, #[trigger] cs[k].contact_id@, radio_mark(cs[k])),
    ensures
        radio_pass(t, cs).0.len() == 0,
        radio_pass(t, cs).1 == t,
    decreases cs.len(),
{
    if cs.len() > 0 {
        let init = cs.drop_last();
        assert forall|k: int| 0 <= k < init.len() implies radio_unchanged(t, #[trigger] init[k].contact_id@, radio_mark(init[k])) by {
            assert(init[k] == cs[k]);
        }
        lemma_radio_pass_quiet(t, init);
        let last = cs[cs.len() - 1];
        assert(radio_unchanged(t, last.contact_id@, radio_mark(last)));
    }
}

proof fn lemma_transition_pass_quiet(
    last: Option<(String, Option<String>)>,
    current: Option<(String, Option<String>)>,
    component: Seq<char>,
    event: Seq<char>,
)
    ensures
        transition_pass(transition_pass(last, current, component, event).1, current, component, event).0.len() == 0,
{
}

/// Logging a snapshot a second time yields no records: after a snapshot
/// the log remembers every state it shows, so only changes are ever
/// reported. Ids within each list are distinct, and no radio contact is
/// named like the active-session entry.
pub proof fn relogged_snapshot_is_quiet(
    log: TransitionLog,
    next: TransitionLog,
    snapshot: BridgeSnapshot,
    provider: Seq<char>,
)
    requires
        recorded(log, next, snapshot, provider),
        distinct(contact_ids(snapshot.contacts@)),
        distinct(message_ids(snapshot.messages@)),
        distinct(attachment_ids(snapshot.attachments@)),
        distinct(radio_contact_ids(snapshot.radio.contacts@)),
        forall|k: int|
            0 <= k < snapshot.radio.contacts@.len() ==> (#[trigger] snapshot.radio.contacts@[k]).contact_id@
                != "active_session"@,
    ensures
        spec_log_lines(next, snapshot, provider).len() == 0,
{
    let steps = snapshot.bootstrap_steps@;
    lemma_transition_pass_quiet(
        log.last_incoming,
        step_transition(steps, "incoming_reachability"@),
        "INCOMING"@,
        "incoming_reachability"@,
    );
    lemma_transition_pass_quiet(
        log.last_rendezvous,
        if provider == "tor"@ { step_transition(steps, "rendezvous"@) } else { None },
        "RENDEZVOUS"@,
        "rendezvous"@,
    );
    lemma_peer_pass(log.peers@, snapshot.contacts@);
    lemma_peer_pass_quiet(next.peers@, snapshot.contacts@);
    lemma_message_pass(log.messages@, snapshot.messages@);
    lemma_message_pass_quiet(next.messages@, snapshot.messages@);
    lemma_attachment_pass(log.attachments@, snapshot.attachments@);
    lemma_attachment_pass_quiet(next.attachments@, snapshot.attachments@);
    let cs = snapshot.radio.contacts@;
    let r1 = radio_pass(texts(log.radio@), cs);
    lemma_radio_pass(texts(log.radio@), cs);
    let mark = session_mark(snapshot.radio);
    let s1 = session_pass(r1.1, snapshot.radio);
    if !radio_unchanged(r1.1, "active_session"@, mark) {
        lemma_upsert_text(r1.1, "active_session"@, mark, "active_session"@);
        assert forall|k: int| 0 <= k < cs.len() implies radio_unchanged(s1.1, #[trigger] cs[k].contact_id@, radio_mark(cs[k])) by {
            lemma_upsert_text(r1.1, "active_session"@, mark, cs[k].contact_id@);
            assert(radio_unchanged(r1.1, cs[k].contact_id@, radio_mark(cs[k])));
        }
    }
    lemma_radio_pass_quiet(texts(next.radio@), cs);
}

} // verus!
