//! The JSON text that the native ABI hands to Flutter: command results and
//! presentation snapshots, written by hand so that every string is escaped.
use vstd::prelude::*;
use crate::bridge::{BridgeContact, BridgeConversation, BridgeMessage, BridgeResult, BridgeSnapshot};
use crate::contract::generated::CONTRACT_VERSION;
use crate::text::{chars_of, push_char};

verus! {

/// A control character (`char::is_control`, general category Cc).
pub open spec fn is_control_char(c: char) -> bool {
    (c as u32) <= 0x1f || (0x7f <= (c as u32) && (c as u32) <= 0x9f)
}

/// The lowercase hexadecimal digit for `d < 16`.
pub open spec fn hex_digit_lower(d: nat) -> char {
    if d < 10 {
        ((48 + d) as u32) as char
    } else {
        ((87 + d) as u32) as char
    }
}

/// `{:04x}` of a code below 0x10000.
pub open spec fn hex4(u: nat) -> Seq<char> {
    seq![
        hex_digit_lower((u / 4096) % 16),
        hex_digit_lower((u / 256) % 16),
        hex_digit_lower((u / 16) % 16),
        hex_digit_lower(u % 16),
    ]
}

/// The JSON text standing for one character inside a string literal.
pub open spec fn escape_char(c: char) -> Seq<char> {
    if c == '"' {
        seq!['\\', '"']
    } else if c == '\\' {
        seq!['\\', '\\']
    } else if c == '\n' {
        seq!['\\', 'n']
    } else if c == '\r' {
        seq!['\\', 'r']
    } else if c == '\t' {
        seq!['\\', 't']
    } else if is_control_char(c) {
        seq!['\\', 'u'] + hex4(c as u32 as nat)
    } else {
        seq![c]
    }
}

/// The JSON escape of `s`, character by character.
pub open spec fn json_escape(s: Seq<char>) -> Seq<char>
    decreases s.len(),
{
    if s.len() == 0 {
        Seq::empty()
    } else {
        json_escape(s.drop_last()) + escape_char(s.last())
    }
}

/// The decimal digits of `n`, without sign or leading zeros.
pub open spec fn decimal_chars(n: nat) -> Seq<char>
    decreases n,
{
    if n < 10 {
        seq![((48 + n) as u32) as char]
    } else {
        decimal_chars(n / 10).push(((48 + n % 10) as u32) as char)
    }
}

/// The decimal text of a signed value.
pub open spec fn signed_decimal_chars(n: int) -> Seq<char> {
    if n < 0 {
        seq!['-'] + decimal_chars((-n) as nat)
    } else {
        decimal_chars(n as nat)
    }
}

pub(crate) fn hex_digit(d: u32) -> (c: char)
    requires
        d < 16,
    ensures
        c == hex_digit_lower(d as nat),
{
    if d < 10 {
        crate::text::char_from_ascii((48 + d) as u8)
    } else {
        crate::text::char_from_ascii((87 + d) as u8)
    }
}

/// Appends the escaped form of one character.
fn push_escaped_char(output: &mut String, c: char)
    ensures
        final(output)@ == old(output)@ + escape_char(c),
{
    let u = c as u32;
    if c == '"' {
        output.append("\\\"");
        proof { reveal_strlit("\\\""); }
    } else if c == '\\' {
        output.append("\\\\");
        proof { reveal_strlit("\\\\"); }
    } else if c == '\n' {
        output.append("\\n");
        proof { reveal_strlit("\\n"); }
    } else if c == '\r' {
        output.append("\\r");
        proof { reveal_strlit("\\r"); }
    } else if c == '\t' {
        output.append("\\t");
        proof { reveal_strlit("\\t"); }
    } else if u <= 0x1f || (0x7f <= u && u <= 0x9f) {
        let ghost before = output@;
        push_char(output, '\\');
        push_char(output, 'u');
        push_char(output, hex_digit((u / 4096) % 16));
        push_char(output, hex_digit((u / 256) % 16));
        push_char(output, hex_digit((u / 16) % 16));
        push_char(output, hex_digit(u % 16));
        assert(output@ =~= before + escape_char(c));
    } else {
        push_char(output, c);
        assert(seq![c] =~= escape_char(c));
    }
}

/// Appends the JSON escape of `value` to `output`.
pub fn push_json_string(value: &str, output: &mut String)
    ensures
        final(output)@ == old(output)@ + json_escape(value@),
{
    let chars = chars_of(value);
    let ghost start = output@;
    let mut i: usize = 0;
    while i < chars.len()
        invariant
            i <= chars@.len(),
            chars@ == value@,
            output@ == start + json_escape(chars@.subrange(0, i as int)),
        decreases chars@.len() - i,
    {
        push_escaped_char(output, chars[i]);
        proof {
            let t = chars@.subrange(0, i as int + 1);
            assert(t.drop_last() =~= chars@.subrange(0, i as int));
        }
        i = i + 1;
        assert(output@ =~= start + json_escape(chars@.subrange(0, i as int)));
    }
    assert(chars@.subrange(0, i as int) =~= value@);
}

/// Appends the decimal text of `n`.
pub fn push_decimal(output: &mut String, n: u64)
    ensures
        final(output)@ == old(output)@ + decimal_chars(n as nat),
    decreases n,
{
    let ghost before = output@;
    if n >= 10 {
        push_decimal(output, n / 10);
    }
    let d = (n % 10) as u8;
    push_char(output, crate::text::char_from_ascii(48 + d));
    assert(output@ =~= before + decimal_chars(n as nat));
}

/// Appends the decimal text of a signed value.
pub fn push_signed_decimal(output: &mut String, n: i64)
    ensures
        final(output)@ == old(output)@ + signed_decimal_chars(n as int),
{
    let ghost before = output@;
    if n < 0 {
        push_char(output, '-');
        let m: u64 = if n == i64::MIN {
            9223372036854775808u64
        } else {
            (-n) as u64
        };
        push_decimal(output, m);
        assert(output@ =~= before + signed_decimal_chars(n as int));
    } else {
        push_decimal(output, n as u64);
    }
}

pub open spec fn bool_json(b: bool) -> Seq<char> {
    if b {
        "true"@
    } else {
        "false"@
    }
}

/// The JSON object for one command result.
pub open spec fn spec_bridge_result_json(ok: bool, kind: Seq<char>, error: Option<Seq<char>>) -> Seq<
    char,
> {
    "{\"ok\":"@ + bool_json(ok) + ",\"kind\":\""@ + json_escape(kind) + "\",\"error\":"@ + match error {
        Some(e) => "\""@ + json_escape(e) + "\""@,
        None => "null"@,
    } + "}"@
}

pub open spec fn option_view(o: Option<String>) -> Option<Seq<char>> {
    match o {
        Some(s) => Some(s@),
        None => None,
    }
}

pub fn bridge_result_json(result: &BridgeResult) -> (r: String)
    ensures
        r@ == spec_bridge_result_json(result.ok, result.kind@, option_view(result.error)),
{
    let mut output = String::new();
    output.append("{\"ok\":");
    output.append(if result.ok { "true" } else { "false" });
    output.append(",\"kind\":\"");
    push_json_string(result.kind.as_str(), &mut output);
    output.append("\",\"error\":");
    match &result.error {
        Some(error) => {
            output.append("\"");
            push_json_string(error.as_str(), &mut output);
            output.append("\"");
        },
        None => output.append("null"),
    }
    output.append("}");
    output
}

pub fn success_result(kind: &str) -> (r: String)
    ensures
        r@ == spec_bridge_result_json(true, kind@, None),
{
    bridge_result_json(&BridgeResult { ok: true, kind: kind.to_owned(), error: None })
}

pub fn error_result(error: &str) -> (r: String)
    ensures
        r@ == spec_bridge_result_json(false, "error"@, Some(error@)),
{
    bridge_result_json(
        &BridgeResult { ok: false, kind: "error".to_owned(), error: Some(error.to_owned()) },
    )
}

/// The snapshot sent before the engine has produced one: no identity and
/// empty lists.
pub open spec fn spec_empty_snapshot_json() -> Seq<char> {
    "{\"contractVersion\":"@ + decimal_chars(CONTRACT_VERSION as nat)
        + ",\"identity\":null,\"contacts\":[],\"conversations\":[],\"messages\":[]}"@
}

pub fn empty_snapshot_json() -> (r: String)
    ensures
        r@ == spec_empty_snapshot_json(),
{
    let mut output = String::new();
    output.append("{\"contractVersion\":");
    push_decimal(&mut output, CONTRACT_VERSION as u64);
    output.append(",\"identity\":null,\"contacts\":[],\"conversations\":[],\"messages\":[]}");
    output
}

/// The elements of `items` rendered by `f` and separated by commas.
pub open spec fn json_list<T>(items: Seq<T>, f: spec_fn(T) -> Seq<char>) -> Seq<char>
    decreases items.len(),
{
    if items.len() == 0 {
        Seq::empty()
    } else if items.len() == 1 {
        f(items[0])
    } else {
        json_list(items.drop_last(), f) + ","@ + f(items.last())
    }
}

pub open spec fn contact_json(c: BridgeContact) -> Seq<char> {
    "{\"id\":\""@ + json_escape(c.id@) + "\",\"onionAddress\":\""@ + json_escape(c.onion_address@)
        + "\",\"status\":\""@ + json_escape(c.status@) + "\"}"@
}

pub open spec fn conversation_json(c: BridgeConversation) -> Seq<char> {
    "{\"id\":\""@ + json_escape(c.id@) + "\",\"contactId\":\""@ + json_escape(c.contact_id@)
        + "\",\"status\":\""@ + json_escape(c.status@) + "\"}"@
}

pub open spec fn message_json(m: BridgeMessage) -> Seq<char> {
    "{\"id\":\""@ + json_escape(m.id@) + "\",\"conversationId\":\""@ + json_escape(
        m.conversation_id@,
    ) + "\",\"body\":\""@ + json_escape(m.body@) + "\",\"direction\":\""@ + json_escape(
        m.direction@,
    ) + "\",\"status\":\""@ + json_escape(m.status@) + "\"}"@
}

pub open spec fn identity_json(name: Option<String>) -> Seq<char> {
    match name {
        Some(n) => "{\"displayName\":\""@ + json_escape(n@) + "\"}"@,
        None => "null"@,
    }
}

/// The snapshot JSON: contract version, identity, contacts, conversations
/// and messages, in that order.
pub open spec fn spec_bridge_snapshot_json(s: BridgeSnapshot) -> Seq<char> {
    "{\"contractVersion\":"@ + decimal_chars(s.contract_version as nat) + ",\"identity\":"@
        + identity_json(s.identity_name) + ",\"contacts\":["@ + json_list(
        s.contacts@,
        |c: BridgeContact| contact_json(c),
    ) + "]"@ + ",\"conversations\":["@ + json_list(
        s.conversations@,
        |c: BridgeConversation| conversation_json(c),
    ) + "]"@ + ",\"messages\":["@ + json_list(s.messages@, |m: BridgeMessage| message_json(m))
        + "]}"@
}

proof fn lemma_json_list_step<T>(items: Seq<T>, i: int, f: spec_fn(T) -> Seq<char>)
    requires
        0 <= i < items.len(),
    ensures
        json_list(items.subrange(0, i + 1), f) == (if i == 0 {
            f(items[i])
        } else {
            json_list(items.subrange(0, i), f) + ","@ + f(items[i])
        }),
{
    let t = items.subrange(0, i + 1);
    assert(t.drop_last() =~= items.subrange(0, i));
}

fn push_contact(output: &mut String, item: &BridgeContact)
    ensures
        final(output)@ == old(output)@ + contact_json(*item),
{
    let ghost before = output@;
    output.append("{\"id\":\"");
    push_json_string(item.id.as_str(), output);
    output.append("\",\"onionAddress\":\"");
    push_json_string(item.onion_address.as_str(), output);
    output.append("\",\"status\":\"");
    push_json_string(item.status.as_str(), output);
    output.append("\"}");
    assert(output@ =~= before + contact_json(*item));
}

fn push_conversation(output: &mut String, item: &BridgeConversation)
    ensures
        final(output)@ == old(output)@ + conversation_json(*item),
{
    let ghost before = output@;
    output.append("{\"id\":\"");
    push_json_string(item.id.as_str(), output);
    output.append("\",\"contactId\":\"");
    push_json_string(item.contact_id.as_str(), output);
    output.append("\",\"status\":\"");
    push_json_string(item.status.as_str(), output);
    output.append("\"}");
    assert(output@ =~= before + conversation_json(*item));
}

fn push_contacts(output: &mut String, items: &Vec<BridgeContact>)
    ensures
        final(output)@ == old(output)@ + json_list(items@, |c: BridgeContact| contact_json(c)),
{
    let ghost start = output@;
    let ghost f = |c: BridgeContact| contact_json(c);
    let mut i: usize = 0;
    while i < items.len()
        invariant
            i <= items@.len(),
            f == (|c: BridgeContact| contact_json(c)),
            output@ == start + json_list(items@.subrange(0, i as int), f),
        decreases items@.len() - i,
    {
        if i != 0 {
            output.append(",");
        }
        push_contact(output, &items[i]);
        proof {
            lemma_json_list_step(items@, i as int, f);
            if i == 0 {
                assert(items@.subrange(0, 0) =~= Seq::<BridgeContact>::empty());
            }
        }
        i = i + 1;
        assert(output@ =~= start + json_list(items@.subrange(0, i as int), f));
    }
    assert(items@.subrange(0, i as int) =~= items@);
}

fn push_conversations(output: &mut String, items: &Vec<BridgeConversation>)
    ensures
        final(output)@ == old(output)@ + json_list(
            items@,
            |c: BridgeConversation| conversation_json(c),
        ),
{
    let ghost start = output@;
    let ghost f = |c: BridgeConversation| conversation_json(c);
    let mut i: usize = 0;
    while i < items.len()
        invariant
            i <= items@.len(),
            f == (|c: BridgeConversation| conversation_json(c)),
            output@ == start + json_list(items@.subrange(0, i as int), f),
        decreases items@.len() - i,
    {
        if i != 0 {
            output.append(",");
        }
        push_conversation(output, &items[i]);
        proof {
            lemma_json_list_step(items@, i as int, f);
            if i == 0 {
                assert(items@.subrange(0, 0) =~= Seq::<BridgeConversation>::empty());
            }
        }
        i = i + 1;
        assert(output@ =~= start + json_list(items@.subrange(0, i as int), f));
    }
    assert(items@.subrange(0, i as int) =~= items@);
}

fn push_message(output: &mut String, item: &BridgeMessage)
    ensures
        final(output)@ == old(output)@ + message_json(*item),
{
    let ghost before = output@;
    output.append("{\"id\":\"");
    push_json_string(item.id.as_str(), output);
    output.append("\",\"conversationId\":\"");
    push_json_string(item.conversation_id.as_str(), output);
    output.append("\",\"body\":\"");
    push_json_string(item.body.as_str(), output);
    output.append("\",\"direction\":\"");
    push_json_string(item.direction.as_str(), output);
    output.append("\",\"status\":\"");
    push_json_string(item.status.as_str(), output);
    output.append("\"}");
    assert(output@ =~= before + message_json(*item));
}

fn push_messages(output: &mut String, items: &Vec<BridgeMessage>)
    ensures
        final(output)@ == old(output)@ + json_list(items@, |m: BridgeMessage| message_json(m)),
{
    let ghost start = output@;
    let ghost f = |m: BridgeMessage| message_json(m);
    let mut i: usize = 0;
    while i < items.len()
        invariant
            i <= items@.len(),
            f == (|m: BridgeMessage| message_json(m)),
            output@ == start + json_list(items@.subrange(0, i as int), f),
        decreases items@.len() - i,
    {
        if i != 0 {
            output.append(",");
        }
        push_message(output, &items[i]);
        proof {
            lemma_json_list_step(items@, i as int, f);
            if i == 0 {
                assert(items@.subrange(0, 0) =~= Seq::<BridgeMessage>::empty());
            }
        }
        i = i + 1;
        assert(output@ =~= start + json_list(items@.subrange(0, i as int), f));
    }
    assert(items@.subrange(0, i as int) =~= items@);
}

pub fn bridge_snapshot_json(snapshot: &BridgeSnapshot) -> (r: String)
    ensures
        r@ == spec_bridge_snapshot_json(*snapshot),
{
    let mut output = String::new();
    output.append("{\"contractVersion\":");
    push_decimal(&mut output, snapshot.contract_version as u64);
    output.append(",\"identity\":");
    match &snapshot.identity_name {
        Some(name) => {
            output.append("{\"displayName\":\"");
            push_json_string(name.as_str(), &mut output);
            output.append("\"}");
        },
        None => output.append("null"),
    }
    output.append(",\"contacts\":[");
    push_contacts(&mut output, &snapshot.contacts);
    output.append("]");
    output.append(",\"conversations\":[");
    push_conversations(&mut output, &snapshot.conversations);
    output.append("]");
    output.append(",\"messages\":[");
    push_messages(&mut output, &snapshot.messages);
    output.append("]}");
    output
}

/// The cursor-addressed notification batch that is safe before bootstrap.
pub fn notification_events_json(after_cursor: u64) -> (r: String)
    ensures
        r@ == "{\"afterCursor\":"@ + decimal_chars(after_cursor as nat) + ",\"events\":[]}"@,
{
    let mut output = String::new();
    output.append("{\"afterCursor\":");
    push_decimal(&mut output, after_cursor);
    output.append(",\"events\":[]}");
    output
}

/// The value of a hexadecimal digit, either case.
pub open spec fn json_hex_value(c: char) -> Option<nat> {
    if '0' <= c && c <= '9' {
        Some((c as u32 - 48) as nat)
    } else if 'a' <= c && c <= 'f' {
        Some((c as u32 - 87) as nat)
    } else if 'A' <= c && c <= 'F' {
        Some((c as u32 - 55) as nat)
    } else {
        None
    }
}

/// The code written by four hexadecimal digits.
pub open spec fn json_hex4_value(a: char, b: char, c: char, d: char) -> Option<nat> {
    match (json_hex_value(a), json_hex_value(b), json_hex_value(c), json_hex_value(d)) {
        (Some(w), Some(x), Some(y), Some(z)) => Some(w * 4096 + x * 256 + y * 16 + z),
        _ => None,
    }
}

/// The character a two-character escape `\e` stands for (RFC 8259, section 7).
pub open spec fn json_short_escape(e: char) -> Option<char> {
    if e == '"' {
        Some('"')
    } else if e == '\\' {
        Some('\\')
    } else if e == '/' {
        Some('/')
    } else if e == 'b' {
        Some('\u{8}')
    } else if e == 'f' {
        Some('\u{c}')
    } else if e == 'n' {
        Some('\n')
    } else if e == 'r' {
        Some('\r')
    } else if e == 't' {
        Some('\t')
    } else {
        None
    }
}

/// What a JSON reader makes of the text between a string literal's quotes
/// (RFC 8259, section 7): escapes are replaced by the characters they
/// stand for; a bare quote, a bare control character below U+0020, a
/// lone surrogate or a malformed escape make the text invalid (`None`).
pub open spec fn json_unescape(t: Seq<char>) -> Option<Seq<char>>
    decreases t.len(),
{
    if t.len() == 0 {
        Some(Seq::empty())
    } else if t[0] == '\\' {
        if t.len() < 2 {
            None
        } else if t[1] == 'u' {
            if t.len() < 6 {
                None
            } else {
                match json_hex4_value(t[2], t[3], t[4], t[5]) {
                    Some(code) => if 0xD800 <= code && code <= 0xDFFF {
                        None
                    } else {
                        match json_unescape(t.subrange(6, t.len() as int)) {
                            Some(rest) => Some(seq![(code as u32) as char] + rest),
                            None => None,
                        }
                    },
                    None => None,
                }
            }
        } else {
            match json_short_escape(t[1]) {
                Some(c) => match json_unescape(t.subrange(2, t.len() as int)) {
                    Some(rest) => Some(seq![c] + rest),
                    None => None,
                },
                None => None,
            }
        }
    } else if t[0] == '"' || (t[0] as u32) < 0x20 {
        None
    } else {
        match json_unescape(t.subrange(1, t.len() as int)) {
            Some(rest) => Some(seq![t[0]] + rest),
            None => None,
        }
    }
}

proof fn lemma_escape_front(s: Seq<char>)
    requires
        s.len() > 0,
    ensures
        json_escape(s) == escape_char(s[0]) + json_escape(s.drop_first()),
    decreases s.len(),
{
    if s.len() == 1 {
        assert(s.drop_last() =~= Seq::<char>::empty());
        assert(s.drop_first() =~= Seq::<char>::empty());
        assert(json_escape(s.drop_first()) =~= Seq::<char>::empty());
        assert(json_escape(s) =~= escape_char(s[0]));
    } else {
        let t = s.drop_last();
        lemma_escape_front(t);
        assert(t.drop_first() =~= s.drop_first().drop_last());
        assert(s.drop_first().last() == s.last());
        assert(json_escape(s) =~= escape_char(s[0]) + json_escape(s.drop_first()));
    }
}

proof fn lemma_hex_digit_value(d: nat)
    requires
        d < 16,
    ensures
        json_hex_value(hex_digit_lower(d)) == Some(d),
{
}

proof fn lemma_unescape_one(c: char, rest: Seq<char>)
    ensures
        json_unescape(escape_char(c) + rest) == match json_unescape(rest) {
            Some(r) => Some(seq![c] + r),
            None => None::<Seq<char>>,
        },
{
    let t = escape_char(c) + rest;
    let n = escape_char(c).len();
    assert(t.subrange(n as int, t.len() as int) =~= rest);
    if c == '"' || c == '\\' || c == '\n' || c == '\r' || c == '\t' {
        assert(t[0] == '\\');
        assert(t.subrange(2, t.len() as int) =~= rest);
    } else if is_control_char(c) {
        let u = c as u32 as nat;
        assert(u < 0xA0);
        lemma_hex_digit_value((u / 4096) % 16);
        lemma_hex_digit_value((u / 256) % 16);
        lemma_hex_digit_value((u / 16) % 16);
        lemma_hex_digit_value(u % 16);
        assert(t[0] == '\\' && t[1] == 'u');
        assert(t[2] == hex_digit_lower((u / 4096) % 16));
        assert(t[5] == hex_digit_lower(u % 16));
        assert((u / 4096) % 16 == 0 && (u / 256) % 16 == 0);
        assert((u / 16) % 16 * 16 + u % 16 == u);
        assert(json_hex4_value(t[2], t[3], t[4], t[5]) == Some(u));
        assert(((u as u32) as char) == c);
        assert(t.subrange(6, t.len() as int) =~= rest);
    } else {
        assert(t[0] == c);
        assert(t.subrange(1, t.len() as int) =~= rest);
    }
}

/// Law: a string written by the escaper reads back as itself. Whatever `s`
/// holds, a JSON reader given the text written for it between the quotes
/// gets exactly `s`, so messages, names and bodies cross the ABI unchanged.
pub proof fn json_escape_round_trips(s: Seq<char>)
    ensures
        json_unescape(json_escape(s)) == Some(s),
    decreases s.len(),
{
    if s.len() == 0 {
        assert(json_escape(s) =~= Seq::<char>::empty());
    } else {
        lemma_escape_front(s);
        json_escape_round_trips(s.drop_first());
        lemma_unescape_one(s[0], json_escape(s.drop_first()));
        assert(seq![s[0]] + s.drop_first() =~= s);
    }
}

/// Law: text that needs no escape is written as it is. A string without a
/// quote, a backslash or a control character appears in the JSON text
/// unchanged.
pub proof fn plain_text_is_written_unchanged(s: Seq<char>)
    requires
        forall|i: int|
            0 <= i < s.len() ==> #[trigger] s[i] != '"' && s[i] != '\\' && !((s[i] as u32) <= 0x1f || (
            0x7f <= (s[i] as u32) && (s[i] as u32) <= 0x9f)),
    ensures
        json_escape(s) == s,
    decreases s.len(),
{
    if s.len() > 0 {
        let t = s.drop_last();
        assert forall|i: int| 0 <= i < t.len() implies #[trigger] t[i] != '"' && t[i] != '\\' && !((t[i] as u32)
            <= 0x1f || (0x7f <= (t[i] as u32) && (t[i] as u32) <= 0x9f)) by {
            assert(t[i] == s[i]);
        }
        plain_text_is_written_unchanged(t);
        assert(s[s.len() - 1] == s.last());
        assert(t.push(s.last()) =~= s);
    }
}

} // verus!
