//! Decoding of bridge commands into application commands: resource ids,
//! the attention surface, the pairing ticket and the pairing bootstrap are
//! parsed here, and the first field that does not parse is the error.
use vstd::prelude::*;
use crate::contract::BridgeCommand;

verus! {

/// An opaque identifier: 128 bits, written as 32 hexadecimal digits with
/// the most significant digit first.
#[derive(Clone, Copy, Debug, PartialEq, Eq, Hash, Structural)]
pub struct OpaqueId(pub u128);

/// `16` to the power `n`.
pub open spec fn pow16(n: nat) -> nat
    decreases n,
{
    if n == 0 {
        1
    } else {
        16 * pow16((n - 1) as nat)
    }
}

/// The number that the hexadecimal digits `s` write, most significant first.
pub open spec fn hex_number(s: Seq<char>) -> nat
    decreases s.len(),
{
    if s.len() == 0 {
        0
    } else {
        hex_number(s.drop_last()) * 16 + hex_char_value(s.last()).unwrap() as nat
    }
}

/// Whether `s` is the text of an opaque id: exactly 32 hexadecimal digits,
/// either case.
pub open spec fn opaque_id_text_valid(s: Seq<char>) -> bool {
    &&& s.len() == 32
    &&& forall|i: int| 0 <= i < 32 ==> #[trigger] hex_char_value(s[i]) is Some
}

/// The id that valid text `s` writes.
pub open spec fn opaque_id_of(s: Seq<char>) -> OpaqueId {
    OpaqueId(hex_number(s) as u128)
}

pub open spec fn invalid_id_message() -> Seq<char> {
    "invalid opaque id"@
}

/// `r` is the error an id that does not parse gives.
pub open spec fn is_id_error<T>(r: Result<T, String>) -> bool {
    r matches Err(e) && e@ == invalid_id_message()
}

/// What `parse_opaque_id` gives for `s`.
pub open spec fn id_parse_is(r: Result<OpaqueId, String>, s: Seq<char>) -> bool {
    if opaque_id_text_valid(s) {
        r == Ok::<OpaqueId, String>(opaque_id_of(s))
    } else {
        is_id_error(r)
    }
}

proof fn lemma_hex_number_bound(s: Seq<char>)
    requires
        forall|i: int| 0 <= i < s.len() ==> #[trigger] hex_char_value(s[i]) is Some,
    ensures
        hex_number(s) < pow16(s.len()),
    decreases s.len(),
{
    if s.len() > 0 {
        let t = s.drop_last();
        assert forall|i: int| 0 <= i < t.len() implies #[trigger] hex_char_value(t[i]) is Some by {
            assert(t[i] == s[i]);
        }
        lemma_hex_number_bound(t);
        assert(hex_char_value(s[s.len() - 1]) is Some);
    }
}

proof fn lemma_pow16_monotone(a: nat, b: nat)
    requires
        a <= b,
    ensures
        pow16(a) <= pow16(b),
    decreases b,
{
    if a < b {
        lemma_pow16_monotone(a, (b - 1) as nat);
    }
}

proof fn lemma_pow16_32()
    ensures
        pow16(32) == 0x1_0000_0000_0000_0000_0000_0000_0000_0000,
{
    reveal_with_fuel(pow16, 33);
}

/// The opaque id written by `value`.
pub fn parse_opaque_id(value: &str) -> (r: Result<OpaqueId, String>)
    ensures
        id_parse_is(r, value@),
{
    let chars = crate::text::chars_of(value);
    if chars.len() != 32 {
        return Err("invalid opaque id".to_owned());
    }
    let mut acc: u128 = 0;
    let mut i: usize = 0;
    while i < 32
        invariant
            chars@ == value@,
            chars@.len() == 32,
            i <= 32,
            forall|k: int| 0 <= k < i ==> #[trigger] hex_char_value(chars@[k]) is Some,
            acc as nat == hex_number(chars@.subrange(0, i as int)),
        decreases 32 - i,
    {
        let d = match hex_char_value_of(chars[i]) {
            Some(v) => v,
            None => {
                return Err("invalid opaque id".to_owned());
            },
        };
        proof {
            let s = chars@.subrange(0, i as int + 1);
            let t = chars@.subrange(0, i as int);
            assert(s.drop_last() =~= t);
            assert(s.last() == chars@[i as int]);
            assert forall|k: int| 0 <= k < t.len() implies #[trigger] hex_char_value(t[k]) is Some by {
                assert(t[k] == chars@[k]);
            }
            lemma_hex_number_bound(t);
            lemma_pow16_monotone(i as nat + 1, 32);
            lemma_pow16_32();
        }
        acc = acc * 16 + d as u128;
        i = i + 1;
    }
    assert(chars@.subrange(0, 32) =~= chars@);
    Ok(OpaqueId(acc))
}

/// Which screen has the user's attention; resource screens carry the
/// resource's id.
#[derive(Clone, Debug, PartialEq, Eq)]
pub enum AttentionSurface {
    Background,
    Home,
    Chats,
    Contacts,
    Diagnostics,
    Conversation(OpaqueId),
    ConnectionDetails(OpaqueId),
    Pairing(OpaqueId),
    Radio(OpaqueId),
}

pub open spec fn invalid_surface_message(value: Seq<char>) -> Seq<char> {
    "invalid attention surface: "@ + value
}

pub open spec fn has_prefix(s: Seq<char>, p: Seq<char>) -> bool {
    p.len() <= s.len() && s.subrange(0, p.len() as int) == p
}

/// The resource id text after `prefix`, for a resource screen.
pub open spec fn suffix_after(s: Seq<char>, p: Seq<char>) -> Seq<char> {
    s.subrange(p.len() as int, s.len() as int)
}

/// A resource screen whose id text after `prefix` is `id`: the screen
/// `make` builds from the parsed id, or the id's error.
pub open spec fn resource_is(
    r: Result<AttentionSurface, String>,
    value: Seq<char>,
    prefix: Seq<char>,
    make: spec_fn(OpaqueId) -> AttentionSurface,
) -> bool {
    let id = suffix_after(value, prefix);
    if opaque_id_text_valid(id) {
        r == Ok::<AttentionSurface, String>(make(opaque_id_of(id)))
    } else {
        is_id_error(r)
    }
}

/// What `decode_attention_surface` gives for `value`: the fixed screens by
/// name, the resource screens by `kind:` prefix with the rest parsed as
/// the resource's id.
pub open spec fn surface_is(r: Result<AttentionSurface, String>, value: Seq<char>) -> bool {
    if value == "background"@ {
        r == Ok::<AttentionSurface, String>(AttentionSurface::Background)
    } else if value == "home"@ {
        r == Ok::<AttentionSurface, String>(AttentionSurface::Home)
    } else if value == "chats"@ {
        r == Ok::<AttentionSurface, String>(AttentionSurface::Chats)
    } else if value == "contacts"@ {
        r == Ok::<AttentionSurface, String>(AttentionSurface::Contacts)
    } else if value == "diagnostics"@ {
        r == Ok::<AttentionSurface, String>(AttentionSurface::Diagnostics)
    } else if has_prefix(value, "conversation:"@) {
        resource_is(r, value, "conversation:"@, |id: OpaqueId| AttentionSurface::Conversation(id))
    } else if has_prefix(value, "connection_details:"@) {
        resource_is(r, value, "connection_details:"@, |id: OpaqueId| AttentionSurface::ConnectionDetails(id))
    } else if has_prefix(value, "pairing:"@) {
        resource_is(r, value, "pairing:"@, |id: OpaqueId| AttentionSurface::Pairing(id))
    } else if has_prefix(value, "radio:"@) {
        resource_is(r, value, "radio:"@, |id: OpaqueId| AttentionSurface::Radio(id))
    } else {
        r matches Err(e) && e@ == invalid_surface_message(value)
    }
}

fn starts_with(value: &str, prefix: &str) -> (r: bool)
    ensures
        r == has_prefix(value@, prefix@),
{
    let n = prefix.unicode_len();
    let m = value.unicode_len();
    if n > m {
        return false;
    }
    let head = value.substring_char(0, n);
    crate::text::str_eq(head, prefix)
}

/// The id after `prefix`, parsed.
fn resource_id(value: &str, prefix: &str) -> (r: Result<OpaqueId, String>)
    requires
        has_prefix(value@, prefix@),
    ensures
        id_parse_is(r, suffix_after(value@, prefix@)),
{
    let n = prefix.unicode_len();
    let m = value.unicode_len();
    parse_opaque_id(value.substring_char(n, m))
}

/// The screen named by an attention-surface value.
pub fn decode_attention_surface(value: &str) -> (r: Result<AttentionSurface, String>)
    ensures
        surface_is(r, value@),
{
    let eq = |name: &str| -> (b: bool)
        ensures
            b == (value@ == name@),
        { crate::text::str_eq(value, name) };
    if eq("background") {
        Ok(AttentionSurface::Background)
    } else if eq("home") {
        Ok(AttentionSurface::Home)
    } else if eq("chats") {
        Ok(AttentionSurface::Chats)
    } else if eq("contacts") {
        Ok(AttentionSurface::Contacts)
    } else if eq("diagnostics") {
        Ok(AttentionSurface::Diagnostics)
    } else if starts_with(value, "conversation:") {
        match resource_id(value, "conversation:") {
            Ok(id) => Ok(AttentionSurface::Conversation(id)),
            Err(e) => Err(e),
        }
    } else if starts_with(value, "connection_details:") {
        match resource_id(value, "connection_details:") {
            Ok(id) => Ok(AttentionSurface::ConnectionDetails(id)),
            Err(e) => Err(e),
        }
    } else if starts_with(value, "pairing:") {
        match resource_id(value, "pairing:") {
            Ok(id) => Ok(AttentionSurface::Pairing(id)),
            Err(e) => Err(e),
        }
    } else if starts_with(value, "radio:") {
        match resource_id(value, "radio:") {
            Ok(id) => Ok(AttentionSurface::Radio(id)),
            Err(e) => Err(e),
        }
    } else {
        let mut message = "invalid attention surface: ".to_owned();
        message.append(value);
        Err(message)
    }
}

/// The value of a hexadecimal digit character, either case.
pub open spec fn hex_char_value(c: char) -> Option<u8> {
    if '0' <= c && c <= '9' {
        Some(((c as u32) - 48) as u8)
    } else if 'a' <= c && c <= 'f' {
        Some(((c as u32) - 87) as u8)
    } else if 'A' <= c && c <= 'F' {
        Some(((c as u32) - 55) as u8)
    } else {
        None
    }
}

fn hex_char_value_of(c: char) -> (r: Option<u8>)
    ensures
        r == hex_char_value(c),
{
    if '0' <= c && c <= '9' {
        Some(((c as u32) - 48) as u8)
    } else if 'a' <= c && c <= 'f' {
        Some(((c as u32) - 87) as u8)
    } else if 'A' <= c && c <= 'F' {
        Some(((c as u32) - 55) as u8)
    } else {
        None
    }
}

/// `u8::from_str_radix(chunk, 16)` on a two-character chunk: two hex
/// digits, or a plus sign and one digit.
pub open spec fn ticket_byte(a: char, b: char) -> Option<u8> {
    if a == '+' {
        hex_char_value(b)
    } else if hex_char_value(a) is Some && hex_char_value(b) is Some {
        Some((hex_char_value(a).unwrap() * 16 + hex_char_value(b).unwrap()) as u8)
    } else {
        None
    }
}

/// Whether `value` is a pairing ticket: 32 characters read two at a time
/// as hexadecimal bytes. (Any non-ASCII character spoils its chunk, so
/// counting characters agrees with the byte count the text has.)
pub open spec fn ticket_valid(value: Seq<char>) -> bool {
    &&& value.len() == 32
    &&& forall|i: int| 0 <= i < 16 ==> #[trigger] ticket_byte(value[2 * i], value[2 * i + 1]) is Some
}

/// `t` holds the bytes of ticket text `value`.
pub open spec fn ticket_bytes_are(t: [u8; 16], value: Seq<char>) -> bool {
    forall|i: int| 0 <= i < 16 ==> t@[i] == #[trigger] ticket_byte(value[2 * i], value[2 * i + 1]).unwrap()
}

pub open spec fn ticket_is(r: Result<[u8; 16], String>, value: Seq<char>) -> bool {
    if ticket_valid(value) {
        r matches Ok(t) && ticket_bytes_are(t, value)
    } else {
        r matches Err(e) && e@ == "invalid pairing ticket"@
    }
}

/// The 16 bytes of a pairing ticket.
pub fn parse_ticket(value: &str) -> (r: Result<[u8; 16], String>)
    ensures
        ticket_is(r, value@),
{
    let chars = crate::text::chars_of(value);
    if chars.len() != 32 {
        return Err("invalid pairing ticket".to_owned());
    }
    let mut out = [0u8; 16];
    let mut i: usize = 0;
    while i < 16
        invariant
            chars@ == value@,
            chars@.len() == 32,
            i <= 16,
            forall|k: int| 0 <= k < i ==> #[trigger] ticket_byte(chars@[2 * k], chars@[2 * k + 1]) is Some
                && out@[k] == ticket_byte(chars@[2 * k], chars@[2 * k + 1]).unwrap(),
        decreases 16 - i,
    {
        let a = chars[2 * i];
        let b = chars[2 * i + 1];
        let low = match hex_char_value_of(b) {
            Some(v) => v,
            None => {
                assert(ticket_byte(chars@[2 * (i as int)], chars@[2 * (i as int) + 1]) is None);
                return Err("invalid pairing ticket".to_owned());
            },
        };
        let byte = if a == '+' {
            low
        } else {
            match hex_char_value_of(a) {
                Some(high) => high * 16 + low,
                None => {
                    assert(ticket_byte(chars@[2 * (i as int)], chars@[2 * (i as int) + 1]) is None);
                    return Err("invalid pairing ticket".to_owned());
                },
            }
        };
        out[i] = byte;
        i = i + 1;
    }
    Ok(out)
}

/// A pairing bootstrap as the bridge hands it over: the provider id and the
/// provider's payload bytes.
#[derive(Clone, Debug, PartialEq, Eq)]
pub struct PairingBootstrap {
    pub provider: String,
    pub payload: Vec<u8>,
}

/// What `serde_json` reads from `text` for the member `key`: `None` when
/// the text is not one JSON value, `Some(None)` when the member is absent
/// or not a string, else the string.
pub uninterp spec fn json_string_member(text: Seq<char>, key: Seq<char>) -> Option<Option<Seq<char>>>;

pub open spec fn member_view(m: Option<Option<String>>) -> Option<Option<Seq<char>>> {
    match m {
        None => None,
        Some(None) => Some(None),
        Some(Some(s)) => Some(Some(s@)),
    }
}

/// `serde_json::from_str::<serde_json::Value>`, then `Value::get(key)` and
/// `Value::as_str`: the string member `key` of the JSON text. What it
/// returns is named by `json_string_member`; the JSON grammar is not
/// restated here.
#[verifier::external_body]
fn read_json_string_member(text: &str, key: &str) -> (r: Option<Option<String>>)
    ensures
        member_view(r) == json_string_member(text@, key@),
{
    match serde_json::from_str::<serde_json::Value>(text) {
        Ok(value) => Some(value.get(key).and_then(serde_json::Value::as_str).map(str::to_owned)),
        Err(_) => None,
    }
}

/// A payload in hexadecimal: an even number of digits, at most 4096.
pub open spec fn payload_hex_valid(hex: Seq<char>) -> bool {
    &&& hex.len() % 2 == 0
    &&& hex.len() <= 4096
    &&& forall|i: int| 0 <= i < hex.len() ==> #[trigger] hex_char_value(hex[i]) is Some
}

/// The payload byte at `i`: high digit first.
pub open spec fn payload_byte(hex: Seq<char>, i: int) -> u8 {
    (hex_char_value(hex[2 * i]).unwrap() * 16 + hex_char_value(hex[2 * i + 1]).unwrap()) as u8
}

/// The error a bootstrap's JSON members give, if any, in the order they
/// are checked.
pub open spec fn bootstrap_error(provider: Option<Option<Seq<char>>>, payload_hex: Option<Option<Seq<char>>>) -> Option<
    Seq<char>,
> {
    match provider {
        None => Some("invalid pairing bootstrap"@),
        Some(None) => Some("pairing bootstrap provider missing"@),
        Some(Some(_)) => match payload_hex {
            None => Some("invalid pairing bootstrap"@),
            Some(None) => Some("pairing bootstrap payload missing"@),
            Some(Some(h)) => if payload_hex_valid(h) {
                None
            } else {
                Some("pairing bootstrap payload invalid"@)
            },
        },
    }
}

/// `b` holds the provider and the decoded payload.
pub open spec fn bootstrap_value_is(b: PairingBootstrap, provider: Seq<char>, payload_hex: Seq<char>) -> bool {
    &&& b.provider@ == provider
    &&& b.payload@.len() == payload_hex.len() / 2
    &&& forall|i: int| 0 <= i < b.payload@.len() ==> #[trigger] b.payload@[i] == payload_byte(payload_hex, i)
}

pub open spec fn bootstrap_is(
    r: Result<PairingBootstrap, String>,
    provider: Option<Option<Seq<char>>>,
    payload_hex: Option<Option<Seq<char>>>,
) -> bool {
    match bootstrap_error(provider, payload_hex) {
        Some(m) => r matches Err(e) && e@ == m,
        None => r matches Ok(b) && bootstrap_value_is(b, provider.unwrap().unwrap(), payload_hex.unwrap().unwrap()),
    }
}

fn decode_payload(hex: &str) -> (r: Option<Vec<u8>>)
    ensures
        payload_hex_valid(hex@) ==> (r matches Some(p) && p@.len() == hex@.len() / 2 && forall|i: int|
            0 <= i < p@.len() ==> #[trigger] p@[i] == payload_byte(hex@, i)),
        !payload_hex_valid(hex@) ==> r is None,
{
    let chars = crate::text::chars_of(hex);
    if chars.len() % 2 != 0 || chars.len() > 4096 {
        return None;
    }
    let mut payload: Vec<u8> = Vec::new();
    let mut i: usize = 0;
    while i < chars.len() / 2
        invariant
            chars@ == hex@,
            chars@.len() % 2 == 0,
            chars@.len() <= 4096,
            i <= chars@.len() / 2,
            payload@.len() == i,
            forall|k: int| 0 <= k < 2 * i ==> #[trigger] hex_char_value(chars@[k]) is Some,
            forall|k: int| 0 <= k < i ==> #[trigger] payload@[k] == payload_byte(hex@, k),
        decreases chars@.len() / 2 - i,
    {
        let high = match hex_char_value_of(chars[2 * i]) {
            Some(v) => v,
            None => {
                return None;
            },
        };
        let low = match hex_char_value_of(chars[2 * i + 1]) {
            Some(v) => v,
            None => {
                return None;
            },
        };
        payload.push(high * 16 + low);
        i = i + 1;
    }
    Some(payload)
}

/// The bootstrap named by its JSON members, as read by the JSON parser.
pub fn bootstrap_from_members(provider: Option<Option<String>>, payload_hex: Option<Option<String>>) -> (r: Result<
    PairingBootstrap,
    String,
>)
    ensures
        bootstrap_is(r, member_view(provider), member_view(payload_hex)),
{
    let provider = match provider {
        None => {
            return Err("invalid pairing bootstrap".to_owned());
        },
        Some(None) => {
            return Err("pairing bootstrap provider missing".to_owned());
        },
        Some(Some(p)) => p,
    };
    let hex = match payload_hex {
        None => {
            return Err("invalid pairing bootstrap".to_owned());
        },
        Some(None) => {
            return Err("pairing bootstrap payload missing".to_owned());
        },
        Some(Some(h)) => h,
    };
    match decode_payload(hex.as_str()) {
        Some(payload) => Ok(PairingBootstrap { provider, payload }),
        None => Err("pairing bootstrap payload invalid".to_owned()),
    }
}

/// The bootstrap encoded as JSON text with string members `provider` and
/// `payloadHex`.
pub fn parse_bootstrap(value: &str) -> (r: Result<PairingBootstrap, String>)
    ensures
        bootstrap_is(r, json_string_member(value@, "provider"@), json_string_member(value@, "payloadHex"@)),
{
    let provider = read_json_string_member(value, "provider");
    let payload_hex = read_json_string_member(value, "payloadHex");
    bootstrap_from_members(provider, payload_hex)
}

/// The screen with the user's attention and the contacts it shows.
#[derive(Clone, Debug, PartialEq, Eq)]
pub struct AttentionContext {
    pub surface: AttentionSurface,
    pub focused_resource: Option<OpaqueId>,
    pub visible_contact_ids: Vec<OpaqueId>,
    pub generation: u64,
}

/// A command for the application, with its resource ids parsed.
#[derive(Clone, Debug, PartialEq, Eq)]
pub enum ApplicationCommand {
    SetAttention { context: AttentionContext },
    SetNotifications { enabled: bool },
    SetReadReceipts { enabled: bool },
    SetBatteryPreferences {
        mode: String,
        background_sync: String,
        allow_delayed_background_delivery: bool,
        metered_transfers: String,
        visual_activity: String,
    },
    SetContactAvailability { contact_id: OpaqueId, mode: String },
    AcknowledgeNewContacts,
    UpdateProfile { display_name: String, avatar_envelope_json: Option<String>, at_ms: i64 },
    CreatePairing { session_id: OpaqueId },
    JoinPairing {
        session_id: OpaqueId,
        code: String,
        ticket: Option<[u8; 16]>,
        bootstrap: Option<PairingBootstrap>,
    },
    ApprovePairing { session_id: OpaqueId },
    RejectPairing { session_id: OpaqueId },
    CancelPairing { session_id: OpaqueId },
    RenameContact { contact_id: OpaqueId, display_name: String },
    VerifyContact { contact_id: OpaqueId },
    ResetContactVerification { contact_id: OpaqueId },
    BlockContact { contact_id: OpaqueId },
    UnblockContact { contact_id: OpaqueId },
    RemoveContact { contact_id: OpaqueId },
    StartConversation { contact_id: OpaqueId },
    ClearConversationHistory { conversation_id: OpaqueId },
    ArchiveConversation { conversation_id: OpaqueId, at_ms: i64 },
    RestoreConversation { conversation_id: OpaqueId, at_ms: i64 },
    QueueMessage {
        message_id: OpaqueId,
        conversation_id: OpaqueId,
        body: String,
        reply_to_message_id: Option<OpaqueId>,
        at_ms: i64,
    },
    RetryMessage { message_id: OpaqueId, at_ms: i64 },
    CancelMessage { message_id: OpaqueId, at_ms: i64 },
    EditMessage { message_id: OpaqueId, body: String, at_ms: i64 },
    SetMessageReaction {
        message_id: OpaqueId,
        conversation_id: OpaqueId,
        actor_id: OpaqueId,
        emoji: String,
        active: bool,
        at_ms: i64,
    },
    MarkConversationRead { conversation_id: OpaqueId },
    QueueAttachment {
        attachment_id: OpaqueId,
        message_id: OpaqueId,
        conversation_id: OpaqueId,
        source_path: String,
        preview_source_path: Option<String>,
        name: String,
        media_type: String,
        size: u64,
        at_ms: i64,
    },
    RetryAttachment { attachment_id: OpaqueId },
    CancelAttachment { attachment_id: OpaqueId },
    ExportAttachment { attachment_id: OpaqueId, destination_path: String },
    ExportAttachmentPreview { attachment_id: OpaqueId, destination_path: String },
    SetRadioEnabled { contact_id: OpaqueId, enabled: bool, at_ms: i64 },
    ConfigureRadioAudio { input_device_id: Option<String>, output_device_id: Option<String> },
    BeginRadioTransmission { contact_id: OpaqueId },
    EndRadioTransmission { contact_id: OpaqueId },
    RefreshSnapshot,
}

/// An optional id text that, when present, is an opaque id.
pub open spec fn opt_id_valid(o: Option<String>) -> bool {
    match o {
        Some(t) => opaque_id_text_valid(t@),
        None => true,
    }
}

/// The optional id, parsed.
pub open spec fn opt_id_of(o: Option<String>) -> Option<OpaqueId> {
    match o {
        Some(t) => Some(opaque_id_of(t@)),
        None => None,
    }
}

/// Every text in `v` is an opaque id.
pub open spec fn all_ids_valid(v: Seq<String>) -> bool {
    forall|i: int| 0 <= i < v.len() ==> opaque_id_text_valid(#[trigger] v[i]@)
}

/// The ids the texts in `v` write, in order.
pub open spec fn ids_of(v: Seq<String>) -> Seq<OpaqueId> {
    v.map_values(|t: String| opaque_id_of(t@))
}

/// Each text of `values` parsed as an opaque id.
pub fn parse_id_list(values: &Vec<String>) -> (r: Result<Vec<OpaqueId>, String>)
    ensures
        match r {
            Ok(ids) => all_ids_valid(values@) && ids@ == ids_of(values@),
            Err(e) => !all_ids_valid(values@) && e@ == invalid_id_message(),
        },
{
    let mut ids: Vec<OpaqueId> = Vec::new();
    let mut i: usize = 0;
    while i < values.len()
        invariant
            i <= values@.len(),
            ids@.len() == i,
            forall|k: int| 0 <= k < i ==> opaque_id_text_valid(#[trigger] values@[k]@),
            forall|k: int| 0 <= k < i ==> #[trigger] ids@[k] == opaque_id_of(values@[k]@),
        decreases values@.len() - i,
    {
        match parse_opaque_id(values[i].as_str()) {
            Ok(id) => ids.push(id),
            Err(e) => {
                return Err(e);
            },
        }
        i = i + 1;
    }
    assert(ids@ =~= ids_of(values@));
    Ok(ids)
}

/// The optional id text, parsed when present.
pub fn parse_optional_id(value: Option<String>) -> (r: Result<Option<OpaqueId>, String>)
    ensures
        opt_id_valid(value) ==> r == Ok::<Option<OpaqueId>, String>(opt_id_of(value)),
        !opt_id_valid(value) ==> is_id_error(r),
{
    match value {
        Some(text) => match parse_opaque_id(text.as_str()) {
            Ok(id) => Ok(Some(id)),
            Err(e) => Err(e),
        },
        None => Ok(None),
    }
}

/// Whether every id text a bridge command carries is an opaque id: the
/// `*_hex` fields, the optional ids when present, and each visible contact.
pub open spec fn command_ids_valid(c: BridgeCommand) -> bool {
    match c {
        BridgeCommand::SetAttention { focused_resource_id, visible_contact_ids, .. } =>
            opt_id_valid(focused_resource_id) && all_ids_valid(visible_contact_ids@),
        BridgeCommand::JoinPairing { session_id_hex, .. } => opaque_id_text_valid(session_id_hex@),
        BridgeCommand::SetContactAvailability { contact_id_hex, .. } => opaque_id_text_valid(contact_id_hex@),
        BridgeCommand::CreatePairing { session_id_hex, .. } => opaque_id_text_valid(session_id_hex@),
        BridgeCommand::ApprovePairing { session_id_hex, .. } => opaque_id_text_valid(session_id_hex@),
        BridgeCommand::RejectPairing { session_id_hex, .. } => opaque_id_text_valid(session_id_hex@),
        BridgeCommand::CancelPairing { session_id_hex, .. } => opaque_id_text_valid(session_id_hex@),
        BridgeCommand::RenameContact { contact_id_hex, .. } => opaque_id_text_valid(contact_id_hex@),
        BridgeCommand::VerifyContact { contact_id_hex, .. } => opaque_id_text_valid(contact_id_hex@),
        BridgeCommand::ResetContactVerification {
            contact_id_hex,
            ..
        } => opaque_id_text_valid(contact_id_hex@),
        BridgeCommand::BlockContact { contact_id_hex, .. } => opaque_id_text_valid(contact_id_hex@),
        BridgeCommand::UnblockContact { contact_id_hex, .. } => opaque_id_text_valid(contact_id_hex@),
        BridgeCommand::RemoveContact { contact_id_hex, .. } => opaque_id_text_valid(contact_id_hex@),
        BridgeCommand::StartConversation { contact_id_hex, .. } => opaque_id_text_valid(contact_id_hex@),
        BridgeCommand::ClearConversationHistory {
            conversation_id_hex,
            ..
        } => opaque_id_text_valid(conversation_id_hex@),
        BridgeCommand::ArchiveConversation {
            conversation_id_hex,
            ..
        } => opaque_id_text_valid(conversation_id_hex@),
        BridgeCommand::RestoreConversation {
            conversation_id_hex,
            ..
        } => opaque_id_text_valid(conversation_id_hex@),
        BridgeCommand::QueueMessage {
            message_id_hex,
            conversation_id_hex,
            reply_to_message_id_hex,
            ..
        } => {
            &&& opaque_id_text_valid(message_id_hex@)
            &&& opaque_id_text_valid(conversation_id_hex@)
            &&& opt_id_valid(reply_to_message_id_hex)
        },
        BridgeCommand::RetryMessage { message_id_hex, .. } => opaque_id_text_valid(message_id_hex@),
        BridgeCommand::CancelMessage { message_id_hex, .. } => opaque_id_text_valid(message_id_hex@),
        BridgeCommand::EditMessage { message_id_hex, .. } => opaque_id_text_valid(message_id_hex@),
        BridgeCommand::SetMessageReaction {
            message_id_hex,
            conversation_id_hex,
            actor_id_hex,
            ..
        } => {
            &&& opaque_id_text_valid(message_id_hex@)
            &&& opaque_id_text_valid(conversation_id_hex@)
            &&& opaque_id_text_valid(actor_id_hex@)
        },
        BridgeCommand::MarkConversationRead {
            conversation_id_hex,
            ..
        } => opaque_id_text_valid(conversation_id_hex@),
        BridgeCommand::QueueAttachment {
            attachment_id_hex,
            message_id_hex,
            conversation_id_hex,
            ..
        } => {
            &&& opaque_id_text_valid(attachment_id_hex@)
            &&& opaque_id_text_valid(message_id_hex@)
            &&& opaque_id_text_valid(conversation_id_hex@)
        },
        BridgeCommand::RetryAttachment { attachment_id_hex, .. } => opaque_id_text_valid(attachment_id_hex@),
        BridgeCommand::CancelAttachment { attachment_id_hex, .. } => opaque_id_text_valid(attachment_id_hex@),
        BridgeCommand::ExportAttachment { attachment_id_hex, .. } => opaque_id_text_valid(attachment_id_hex@),
        BridgeCommand::ExportAttachmentPreview {
            attachment_id_hex,
            ..
        } => opaque_id_text_valid(attachment_id_hex@),
        BridgeCommand::SetRadioEnabled { contact_id_hex, .. } => opaque_id_text_valid(contact_id_hex@),
        BridgeCommand::BeginRadioTransmission { contact_id_hex, .. } => opaque_id_text_valid(contact_id_hex@),
        BridgeCommand::EndRadioTransmission { contact_id_hex, .. } => opaque_id_text_valid(contact_id_hex@),
        _ => true,
    }
}

/// The application command for a bridge command whose ids all parse:
/// each id parsed, every other field as it was.
pub open spec fn plain_command(c: BridgeCommand) -> ApplicationCommand {
    match c {
        BridgeCommand::SetNotifications { enabled } => ApplicationCommand::SetNotifications { enabled },
        BridgeCommand::SetReadReceipts { enabled } => ApplicationCommand::SetReadReceipts { enabled },
        BridgeCommand::SetBatteryPreferences {
            mode,
            background_sync,
            allow_delayed_background_delivery,
            metered_transfers,
            visual_activity,
        } => ApplicationCommand::SetBatteryPreferences {
            mode,
            background_sync,
            allow_delayed_background_delivery,
            metered_transfers,
            visual_activity,
        },
        BridgeCommand::UpdateProfile {
            display_name,
            avatar_envelope_json,
            at_ms,
        } => ApplicationCommand::UpdateProfile {
            display_name,
            avatar_envelope_json,
            at_ms,
        },
        BridgeCommand::ConfigureRadioAudio {
            input_device_id,
            output_device_id,
        } => ApplicationCommand::ConfigureRadioAudio {
            input_device_id,
            output_device_id,
        },
        BridgeCommand::AcknowledgeNewContacts => ApplicationCommand::AcknowledgeNewContacts,
        BridgeCommand::SetContactAvailability {
            contact_id_hex,
            mode,
        } => ApplicationCommand::SetContactAvailability {
            contact_id: opaque_id_of(contact_id_hex@), mode,
        },
        BridgeCommand::CreatePairing { session_id_hex } => ApplicationCommand::CreatePairing {
            session_id: opaque_id_of(session_id_hex@),
        },
        BridgeCommand::ApprovePairing { session_id_hex } => ApplicationCommand::ApprovePairing {
            session_id: opaque_id_of(session_id_hex@),
        },
        BridgeCommand::RejectPairing { session_id_hex } => ApplicationCommand::RejectPairing {
            session_id: opaque_id_of(session_id_hex@),
        },
        BridgeCommand::CancelPairing { session_id_hex } => ApplicationCommand::CancelPairing {
            session_id: opaque_id_of(session_id_hex@),
        },
        BridgeCommand::RenameContact { contact_id_hex, display_name } => ApplicationCommand::RenameContact {
            contact_id: opaque_id_of(contact_id_hex@), display_name,
        },
        BridgeCommand::VerifyContact { contact_id_hex } => ApplicationCommand::VerifyContact {
            contact_id: opaque_id_of(contact_id_hex@),
        },
        BridgeCommand::ResetContactVerification {
            contact_id_hex,
        } => ApplicationCommand::ResetContactVerification {
            contact_id: opaque_id_of(contact_id_hex@),
        },
        BridgeCommand::BlockContact { contact_id_hex } => ApplicationCommand::BlockContact {
            contact_id: opaque_id_of(contact_id_hex@),
        },
        BridgeCommand::UnblockContact { contact_id_hex } => ApplicationCommand::UnblockContact {
            contact_id: opaque_id_of(contact_id_hex@),
        },
        BridgeCommand::RemoveContact { contact_id_hex } => ApplicationCommand::RemoveContact {
            contact_id: opaque_id_of(contact_id_hex@),
        },
        BridgeCommand::StartConversation { contact_id_hex } => ApplicationCommand::StartConversation {
            contact_id: opaque_id_of(contact_id_hex@),
        },
        BridgeCommand::ClearConversationHistory {
            conversation_id_hex,
        } => ApplicationCommand::ClearConversationHistory {
            conversation_id: opaque_id_of(conversation_id_hex@),
        },
        BridgeCommand::ArchiveConversation {
            conversation_id_hex,
            at_ms,
        } => ApplicationCommand::ArchiveConversation {
            conversation_id: opaque_id_of(conversation_id_hex@), at_ms,
        },
        BridgeCommand::RestoreConversation {
            conversation_id_hex,
            at_ms,
        } => ApplicationCommand::RestoreConversation {
            conversation_id: opaque_id_of(conversation_id_hex@), at_ms,
        },
        BridgeCommand::QueueMessage {
            message_id_hex,
            conversation_id_hex,
            body,
            reply_to_message_id_hex,
            at_ms,
        } => ApplicationCommand::QueueMessage {
            message_id: opaque_id_of(message_id_hex@),
            conversation_id: opaque_id_of(conversation_id_hex@),
            body,
            reply_to_message_id: opt_id_of(reply_to_message_id_hex),
            at_ms,
        },
        BridgeCommand::RetryMessage { message_id_hex, at_ms } => ApplicationCommand::RetryMessage {
            message_id: opaque_id_of(message_id_hex@), at_ms,
        },
        BridgeCommand::CancelMessage { message_id_hex, at_ms } => ApplicationCommand::CancelMessage {
            message_id: opaque_id_of(message_id_hex@), at_ms,
        },
        BridgeCommand::EditMessage { message_id_hex, body, at_ms } => ApplicationCommand::EditMessage {
            message_id: opaque_id_of(message_id_hex@), body, at_ms,
        },
        BridgeCommand::SetMessageReaction {
            message_id_hex,
            conversation_id_hex,
            actor_id_hex,
            emoji,
            active,
            at_ms,
        } => ApplicationCommand::SetMessageReaction {
            message_id: opaque_id_of(message_id_hex@),
            conversation_id: opaque_id_of(conversation_id_hex@),
            actor_id: opaque_id_of(actor_id_hex@),
            emoji,
            active,
            at_ms,
        },
        BridgeCommand::MarkConversationRead {
            conversation_id_hex,
        } => ApplicationCommand::MarkConversationRead {
            conversation_id: opaque_id_of(conversation_id_hex@),
        },
        BridgeCommand::QueueAttachment {
            attachment_id_hex,
            message_id_hex,
            conversation_id_hex,
            source_path,
            preview_source_path,
            name,
            media_type,
            size,
            at_ms,
        } => ApplicationCommand::QueueAttachment {
            attachment_id: opaque_id_of(attachment_id_hex@),
            message_id: opaque_id_of(message_id_hex@),
            conversation_id: opaque_id_of(conversation_id_hex@),
            source_path,
            preview_source_path,
            name,
            media_type,
            size,
            at_ms,
        },
        BridgeCommand::RetryAttachment { attachment_id_hex } => ApplicationCommand::RetryAttachment {
            attachment_id: opaque_id_of(attachment_id_hex@),
        },
        BridgeCommand::CancelAttachment { attachment_id_hex } => ApplicationCommand::CancelAttachment {
            attachment_id: opaque_id_of(attachment_id_hex@),
        },
        BridgeCommand::ExportAttachment {
            attachment_id_hex,
            destination_path,
        } => ApplicationCommand::ExportAttachment {
            attachment_id: opaque_id_of(attachment_id_hex@), destination_path,
        },
        BridgeCommand::ExportAttachmentPreview {
            attachment_id_hex,
            destination_path,
        } => ApplicationCommand::ExportAttachmentPreview {
            attachment_id: opaque_id_of(attachment_id_hex@), destination_path,
        },
        BridgeCommand::SetRadioEnabled {
            contact_id_hex,
            enabled,
            at_ms,
        } => ApplicationCommand::SetRadioEnabled {
            contact_id: opaque_id_of(contact_id_hex@), enabled, at_ms,
        },
        BridgeCommand::BeginRadioTransmission {
            contact_id_hex,
        } => ApplicationCommand::BeginRadioTransmission {
            contact_id: opaque_id_of(contact_id_hex@),
        },
        BridgeCommand::EndRadioTransmission { contact_id_hex } => ApplicationCommand::EndRadioTransmission {
            contact_id: opaque_id_of(contact_id_hex@),
        },
        _ => ApplicationCommand::RefreshSnapshot,
    }
}

/// The bridge commands that only the native runtime handles.
pub open spec fn is_diagnostics_command(c: BridgeCommand) -> bool {
    ||| c is StartBatteryObservation
    ||| c is StopBatteryObservation
    ||| c is ResetBatteryObservation
    ||| c is MarkIncident
}

/// Whether the attention surface `value` decodes: a fixed screen, or a
/// resource screen whose id parses.
pub open spec fn surface_ok(value: Seq<char>) -> bool {
    ||| value == "background"@
    ||| value == "home"@
    ||| value == "chats"@
    ||| value == "contacts"@
    ||| value == "diagnostics"@
    ||| has_prefix(value, "conversation:"@) && opaque_id_text_valid(suffix_after(value, "conversation:"@))
    ||| has_prefix(value, "connection_details:"@) && opaque_id_text_valid(
        suffix_after(value, "connection_details:"@),
    )
    ||| has_prefix(value, "pairing:"@) && opaque_id_text_valid(suffix_after(value, "pairing:"@))
    ||| has_prefix(value, "radio:"@) && opaque_id_text_valid(suffix_after(value, "radio:"@))
}

/// What decoding gives a bridge command. Fields are parsed in their order
/// and the first that does not parse is the error: for an attention
/// command the surface, then the focused resource, then each visible
/// contact; for joining a pairing the session id, then the ticket, then
/// the bootstrap; elsewhere the ids. Every other field is copied.
pub open spec fn decoded_is(r: Result<ApplicationCommand, String>, c: BridgeCommand) -> bool {
    match c {
        BridgeCommand::SetAttention {
            surface,
            focused_resource_id,
            visible_contact_ids,
            generation,
        } => match r {
            Ok(ApplicationCommand::SetAttention { context }) => {
                &&& surface_is(Ok(context.surface), surface@)
                &&& command_ids_valid(c)
                &&& context.focused_resource == opt_id_of(focused_resource_id)
                &&& context.visible_contact_ids@ == ids_of(visible_contact_ids@)
                &&& context.generation == generation
            },
            Err(e) => {
                ||| surface_is(Err(e), surface@)
                ||| surface_ok(surface@) && !command_ids_valid(c) && e@ == invalid_id_message()
            },
            _ => false,
        },
        BridgeCommand::JoinPairing { session_id_hex, code, ticket, bootstrap_json } => {
            if !opaque_id_text_valid(session_id_hex@) {
                is_id_error(r)
            } else if ticket matches Some(t) && !ticket_valid(t@) {
                r matches Err(e) && e@ == "invalid pairing ticket"@
            } else if bootstrap_json matches Some(j) && bootstrap_error(
                json_string_member(j@, "provider"@),
                json_string_member(j@, "payloadHex"@),
            ) is Some {
                r matches Err(e) && Some(e@) == bootstrap_error(
                    json_string_member(bootstrap_json.unwrap()@, "provider"@),
                    json_string_member(bootstrap_json.unwrap()@, "payloadHex"@),
                )
            } else {
                r matches Ok(ApplicationCommand::JoinPairing { session_id, code: decoded_code, ticket: t, bootstrap: b })
                    && session_id == opaque_id_of(session_id_hex@) && decoded_code == code && match ticket {
                    None => t is None,
                    Some(text) => t matches Some(bytes) && ticket_bytes_are(bytes, text@),
                } && match bootstrap_json {
                    None => b is None,
                    Some(j) => b matches Some(value) && bootstrap_value_is(
                        value,
                        json_string_member(j@, "provider"@).unwrap().unwrap(),
                        json_string_member(j@, "payloadHex"@).unwrap().unwrap(),
                    ),
                }
            }
        },
        BridgeCommand::RefreshSnapshot => r == Ok::<ApplicationCommand, String>(ApplicationCommand::RefreshSnapshot),
        _ => if is_diagnostics_command(c) {
            r matches Err(e) && e@ == "diagnostics command must be handled by the native runtime"@
        } else if !command_ids_valid(c) {
            is_id_error(r)
        } else {
            r == Ok::<ApplicationCommand, String>(plain_command(c))
        },
    }
}

/// The application command for a bridge command.
pub fn decode_application_command(command: BridgeCommand) -> (r: Result<ApplicationCommand, String>)
    ensures
        decoded_is(r, command),
{
    match command {
        BridgeCommand::SetAttention { surface, focused_resource_id, visible_contact_ids, generation } => {
            let surface = match decode_attention_surface(surface.as_str()) {
                Ok(surface) => surface,
                Err(e) => {
                    return Err(e);
                },
            };
            let focused_resource = match parse_optional_id(focused_resource_id) {
                Ok(id) => id,
                Err(e) => {
                    return Err(e);
                },
            };
            let visible_contact_ids = match parse_id_list(&visible_contact_ids) {
                Ok(ids) => ids,
                Err(e) => {
                    return Err(e);
                },
            };
            Ok(
                ApplicationCommand::SetAttention {
                    context: AttentionContext { surface, focused_resource, visible_contact_ids, generation },
                },
            )
        },
        BridgeCommand::AcknowledgeNewContacts => Ok(ApplicationCommand::AcknowledgeNewContacts),
        BridgeCommand::StartBatteryObservation
        | BridgeCommand::StopBatteryObservation
        | BridgeCommand::ResetBatteryObservation
        | BridgeCommand::MarkIncident => Err(
            "diagnostics command must be handled by the native runtime".to_owned(),
        ),
        BridgeCommand::JoinPairing { session_id_hex, code, ticket, bootstrap_json } => {
            let session_id = match parse_opaque_id(session_id_hex.as_str()) {
                Ok(id) => id,
                Err(e) => {
                    return Err(e);
                },
            };
            let ticket = match ticket {
                Some(text) => match parse_ticket(text.as_str()) {
                    Ok(bytes) => Some(bytes),
                    Err(e) => {
                        return Err(e);
                    },
                },
                None => None,
            };
            let bootstrap = match bootstrap_json {
                Some(json) => match parse_bootstrap(json.as_str()) {
                    Ok(value) => Some(value),
                    Err(e) => {
                        return Err(e);
                    },
                },
                None => None,
            };
            Ok(ApplicationCommand::JoinPairing { session_id, code, ticket, bootstrap })
        },
        BridgeCommand::SetNotifications { enabled } => Ok(ApplicationCommand::SetNotifications { enabled }),
        BridgeCommand::SetReadReceipts { enabled } => Ok(ApplicationCommand::SetReadReceipts { enabled }),
        BridgeCommand::SetBatteryPreferences {
            mode,
            background_sync,
            allow_delayed_background_delivery,
            metered_transfers,
            visual_activity,
        } => Ok(ApplicationCommand::SetBatteryPreferences {
            mode,
            background_sync,
            allow_delayed_background_delivery,
            metered_transfers,
            visual_activity,
        }),
        BridgeCommand::UpdateProfile {
            display_name,
            avatar_envelope_json,
            at_ms,
        } => Ok(ApplicationCommand::UpdateProfile {
            display_name,
            avatar_envelope_json,
            at_ms,
        }),
        BridgeCommand::ConfigureRadioAudio {
            input_device_id,
            output_device_id,
        } => Ok(ApplicationCommand::ConfigureRadioAudio {
            input_device_id,
            output_device_id,
        }),
        BridgeCommand::SetContactAvailability { contact_id_hex, mode } => {
            let contact_id = match parse_opaque_id(contact_id_hex.as_str()) {
                Ok(id) => id,
                Err(e) => {
                    return Err(e);
                },
            };
            Ok(ApplicationCommand::SetContactAvailability { contact_id, mode })
        },
        BridgeCommand::CreatePairing { session_id_hex } => {
            let session_id = match parse_opaque_id(session_id_hex.as_str()) {
                Ok(id) => id,
                Err(e) => {
                    return Err(e);
                },
            };
            Ok(ApplicationCommand::CreatePairing { session_id })
        },
        BridgeCommand::ApprovePairing { session_id_hex } => {
            let session_id = match parse_opaque_id(session_id_hex.as_str()) {
                Ok(id) => id,
                Err(e) => {
                    return Err(e);
                },
            };
            Ok(ApplicationCommand::ApprovePairing { session_id })
        },
        BridgeCommand::RejectPairing { session_id_hex } => {
            let session_id = match parse_opaque_id(session_id_hex.as_str()) {
                Ok(id) => id,
                Err(e) => {
                    return Err(e);
                },
            };
            Ok(ApplicationCommand::RejectPairing { session_id })
        },
        BridgeCommand::CancelPairing { session_id_hex } => {
            let session_id = match parse_opaque_id(session_id_hex.as_str()) {
                Ok(id) => id,
                Err(e) => {
                    return Err(e);
                },
            };
            Ok(ApplicationCommand::CancelPairing { session_id })
        },
        BridgeCommand::RenameContact { contact_id_hex, display_name } => {
            let contact_id = match parse_opaque_id(contact_id_hex.as_str()) {
                Ok(id) => id,
                Err(e) => {
                    return Err(e);
                },
            };
            Ok(ApplicationCommand::RenameContact { contact_id, display_name })
        },
        BridgeCommand::VerifyContact { contact_id_hex } => {
            let contact_id = match parse_opaque_id(contact_id_hex.as_str()) {
                Ok(id) => id,
                Err(e) => {
                    return Err(e);
                },
            };
            Ok(ApplicationCommand::VerifyContact { contact_id })
        },
        BridgeCommand::ResetContactVerification { contact_id_hex } => {
            let contact_id = match parse_opaque_id(contact_id_hex.as_str()) {
                Ok(id) => id,
                Err(e) => {
                    return Err(e);
                },
            };
            Ok(ApplicationCommand::ResetContactVerification { contact_id })
        },
        BridgeCommand::BlockContact { contact_id_hex } => {
            let contact_id = match parse_opaque_id(contact_id_hex.as_str()) {
                Ok(id) => id,
                Err(e) => {
                    return Err(e);
                },
            };
            Ok(ApplicationCommand::BlockContact { contact_id })
        },
        BridgeCommand::UnblockContact { contact_id_hex } => {
            let contact_id = match parse_opaque_id(contact_id_hex.as_str()) {
                Ok(id) => id,
                Err(e) => {
                    return Err(e);
                },
            };
            Ok(ApplicationCommand::UnblockContact { contact_id })
        },
        BridgeCommand::RemoveContact { contact_id_hex } => {
            let contact_id = match parse_opaque_id(contact_id_hex.as_str()) {
                Ok(id) => id,
                Err(e) => {
                    return Err(e);
                },
            };
            Ok(ApplicationCommand::RemoveContact { contact_id })
        },
        BridgeCommand::StartConversation { contact_id_hex } => {
            let contact_id = match parse_opaque_id(contact_id_hex.as_str()) {
                Ok(id) => id,
                Err(e) => {
                    return Err(e);
                },
            };
            Ok(ApplicationCommand::StartConversation { contact_id })
        },
        BridgeCommand::ClearConversationHistory { conversation_id_hex } => {
            let conversation_id = match parse_opaque_id(conversation_id_hex.as_str()) {
                Ok(id) => id,
                Err(e) => {
                    return Err(e);
                },
            };
            Ok(ApplicationCommand::ClearConversationHistory { conversation_id })
        },
        BridgeCommand::ArchiveConversation { conversation_id_hex, at_ms } => {
            let conversation_id = match parse_opaque_id(conversation_id_hex.as_str()) {
                Ok(id) => id,
                Err(e) => {
                    return Err(e);
                },
            };
            Ok(ApplicationCommand::ArchiveConversation { conversation_id, at_ms })
        },
        BridgeCommand::RestoreConversation { conversation_id_hex, at_ms } => {
            let conversation_id = match parse_opaque_id(conversation_id_hex.as_str()) {
                Ok(id) => id,
                Err(e) => {
                    return Err(e);
                },
            };
            Ok(ApplicationCommand::RestoreConversation { conversation_id, at_ms })
        },
        BridgeCommand::QueueMessage {
            message_id_hex,
            conversation_id_hex,
            body,
            reply_to_message_id_hex,
            at_ms,
        } => {
            let message_id = match parse_opaque_id(message_id_hex.as_str()) {
                Ok(id) => id,
                Err(e) => {
                    return Err(e);
                },
            };
            let conversation_id = match parse_opaque_id(conversation_id_hex.as_str()) {
                Ok(id) => id,
                Err(e) => {
                    return Err(e);
                },
            };
            let reply_to_message_id = match parse_optional_id(reply_to_message_id_hex) {
                Ok(id) => id,
                Err(e) => {
                    return Err(e);
                },
            };
            Ok(ApplicationCommand::QueueMessage {
                message_id,
                conversation_id,
                body,
                reply_to_message_id,
                at_ms,
            })
        },
        BridgeCommand::RetryMessage { message_id_hex, at_ms } => {
            let message_id = match parse_opaque_id(message_id_hex.as_str()) {
                Ok(id) => id,
                Err(e) => {
                    return Err(e);
                },
            };
            Ok(ApplicationCommand::RetryMessage { message_id, at_ms })
        },
        BridgeCommand::CancelMessage { message_id_hex, at_ms } => {
            let message_id = match parse_opaque_id(message_id_hex.as_str()) {
                Ok(id) => id,
                Err(e) => {
                    return Err(e);
                },
            };
            Ok(ApplicationCommand::CancelMessage { message_id, at_ms })
        },
        BridgeCommand::EditMessage { message_id_hex, body, at_ms } => {
            let message_id = match parse_opaque_id(message_id_hex.as_str()) {
                Ok(id) => id,
                Err(e) => {
                    return Err(e);
                },
            };
            Ok(ApplicationCommand::EditMessage { message_id, body, at_ms })
        },
        BridgeCommand::SetMessageReaction {
            message_id_hex,
            conversation_id_hex,
            actor_id_hex,
            emoji,
            active,
            at_ms,
        } => {
            let message_id = match parse_opaque_id(message_id_hex.as_str()) {
                Ok(id) => id,
                Err(e) => {
                    return Err(e);
                },
            };
            let conversation_id = match parse_opaque_id(conversation_id_hex.as_str()) {
                Ok(id) => id,
                Err(e) => {
                    return Err(e);
                },
            };
            let actor_id = match parse_opaque_id(actor_id_hex.as_str()) {
                Ok(id) => id,
                Err(e) => {
                    return Err(e);
                },
            };
            Ok(ApplicationCommand::SetMessageReaction {
                message_id,
                conversation_id,
                actor_id,
                emoji,
                active,
                at_ms,
            })
        },
        BridgeCommand::MarkConversationRead { conversation_id_hex } => {
            let conversation_id = match parse_opaque_id(conversation_id_hex.as_str()) {
                Ok(id) => id,
                Err(e) => {
                    return Err(e);
                },
            };
            Ok(ApplicationCommand::MarkConversationRead { conversation_id })
        },
        BridgeCommand::QueueAttachment {
            attachment_id_hex,
            message_id_hex,
            conversation_id_hex,
            source_path,
            preview_source_path,
            name,
            media_type,
            size,
            at_ms,
        } => {
            let attachment_id = match parse_opaque_id(attachment_id_hex.as_str()) {
                Ok(id) => id,
                Err(e) => {
                    return Err(e);
                },
            };
            let message_id = match parse_opaque_id(message_id_hex.as_str()) {
                Ok(id) => id,
                Err(e) => {
                    return Err(e);
                },
            };
            let conversation_id = match parse_opaque_id(conversation_id_hex.as_str()) {
                Ok(id) => id,
                Err(e) => {
                    return Err(e);
                },
            };
            Ok(ApplicationCommand::QueueAttachment {
                attachment_id,
                message_id,
                conversation_id,
                source_path,
                preview_source_path,
                name,
                media_type,
                size,
                at_ms,
            })
        },
        BridgeCommand::RetryAttachment { attachment_id_hex } => {
            let attachment_id = match parse_opaque_id(attachment_id_hex.as_str()) {
                Ok(id) => id,
                Err(e) => {
                    return Err(e);
                },
            };
            Ok(ApplicationCommand::RetryAttachment { attachment_id })
        },
        BridgeCommand::CancelAttachment { attachment_id_hex } => {
            let attachment_id = match parse_opaque_id(attachment_id_hex.as_str()) {
                Ok(id) => id,
                Err(e) => {
                    return Err(e);
                },
            };
            Ok(ApplicationCommand::CancelAttachment { attachment_id })
        },
        BridgeCommand::ExportAttachment { attachment_id_hex, destination_path } => {
            let attachment_id = match parse_opaque_id(attachment_id_hex.as_str()) {
                Ok(id) => id,
                Err(e) => {
                    return Err(e);
                },
            };
            Ok(ApplicationCommand::ExportAttachment { attachment_id, destination_path })
        },
        BridgeCommand::ExportAttachmentPreview { attachment_id_hex, destination_path } => {
            let attachment_id = match parse_opaque_id(attachment_id_hex.as_str()) {
                Ok(id) => id,
                Err(e) => {
                    return Err(e);
                },
            };
            Ok(ApplicationCommand::ExportAttachmentPreview { attachment_id, destination_path })
        },
        BridgeCommand::SetRadioEnabled { contact_id_hex, enabled, at_ms } => {
            let contact_id = match parse_opaque_id(contact_id_hex.as_str()) {
                Ok(id) => id,
                Err(e) => {
                    return Err(e);
                },
            };
            Ok(ApplicationCommand::SetRadioEnabled { contact_id, enabled, at_ms })
        },
        BridgeCommand::BeginRadioTransmission { contact_id_hex } => {
            let contact_id = match parse_opaque_id(contact_id_hex.as_str()) {
                Ok(id) => id,
                Err(e) => {
                    return Err(e);
                },
            };
            Ok(ApplicationCommand::BeginRadioTransmission { contact_id })
        },
        BridgeCommand::EndRadioTransmission { contact_id_hex } => {
            let contact_id = match parse_opaque_id(contact_id_hex.as_str()) {
                Ok(id) => id,
                Err(e) => {
                    return Err(e);
                },
            };
            Ok(ApplicationCommand::EndRadioTransmission { contact_id })
        },
        BridgeCommand::RefreshSnapshot => Ok(ApplicationCommand::RefreshSnapshot),
    }
}

} // verus!
