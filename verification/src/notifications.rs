//! The cursor-addressed notifications the process runtime hands to the
//! platform: a pairing that awaits approval, a newly added contact and new
//! inbound messages. Each pairing and contact is announced once per runtime
//! run, a conversation only when its unread count grows, and only the most
//! recent events are kept. Events carry no message text.
use vstd::prelude::*;
use crate::contract::{BridgeContact, BridgeConversation, BridgePairing, BridgeSnapshot, NotificationEvent};
use crate::contract::names::MessageDirection;
use crate::native_json::{decimal_chars, push_decimal};
use crate::runtime_support::{snapshot_contact_name, spec_snapshot_contact_name, ConversationSummary};
use crate::text::{chars_of, spec_trim, str_eq, trim_chars};
use crate::transition_log::{key_index, keys_of, upsert, key_position, upsert_entry};

verus! {

/// Most events kept for the platform to poll.
pub const MAX_NOTIFICATION_EVENTS: usize = 256;

/// Title and body of each kind of notification, as the notification policy
/// words them for redacted display; `None` where it gives no text.
pub struct NotificationTexts {
    pub pairing_request: Option<(String, String)>,
    pub contact_added: Option<(String, String)>,
    pub message_received: Option<(String, String)>,
}

/// A notification as text.
pub struct NoteView {
    pub cursor: u64,
    pub event_id: Seq<char>,
    pub kind: Seq<char>,
    pub resource_id: Seq<char>,
    pub conversation_id: Seq<char>,
    pub contact_display_name: Seq<char>,
    pub created_at_ms: i64,
    pub title: Seq<char>,
    pub body: Seq<char>,
}

pub open spec fn note_view(e: NotificationEvent) -> NoteView {
    NoteView {
        cursor: e.cursor,
        event_id: e.event_id@,
        kind: e.kind@,
        resource_id: e.resource_id@,
        conversation_id: e.conversation_id@,
        contact_display_name: e.contact_display_name@,
        created_at_ms: e.created_at_ms,
        title: e.title@,
        body: e.body@,
    }
}

pub open spec fn note_views(events: Seq<NotificationEvent>) -> Seq<NoteView> {
    events.map_values(|e: NotificationEvent| note_view(e))
}

pub open spec fn text_views(items: Seq<String>) -> Seq<Seq<char>> {
    items.map_values(|s: String| s@)
}

/// What the runtime remembers between collections.
pub struct NoteState {
    pub cursor: u64,
    pub events: Seq<NoteView>,
    /// Pairings already announced.
    pub pairings: Seq<Seq<char>>,
    /// Contacts already announced, or present when the runtime attached.
    pub contacts: Seq<Seq<char>>,
    /// The unread count last seen for each conversation.
    pub unread: Seq<(String, u32)>,
    /// How many of the supplied event ids are used up.
    pub issued: nat,
}

/// `cursor.saturating_add(1)`.
pub open spec fn bump(cursor: u64) -> u64 {
    if cursor == u64::MAX {
        cursor
    } else {
        (cursor + 1) as u64
    }
}

/// The id of the next event: the next supplied random id, or one made from
/// the cursor once they run out.
pub open spec fn event_id_at(ids: Seq<String>, issued: nat, cursor: u64) -> Seq<char> {
    if issued < ids.len() {
        ids[issued as int]@
    } else {
        "notification-"@ + decimal_chars(cursor as nat)
    }
}

pub open spec fn title_of(text: Option<(String, String)>) -> Seq<char> {
    match text {
        Some(t) => t.0@,
        None => "Torca"@,
    }
}

pub open spec fn body_of(text: Option<(String, String)>) -> Seq<char> {
    match text {
        Some(t) => t.1@,
        None => Seq::empty(),
    }
}

/// `a.saturating_sub(b)` for `i64`.
pub open spec fn saturating_sub_i64(a: i64, b: i64) -> i64 {
    if a - b < i64::MIN {
        i64::MIN
    } else if a - b > i64::MAX {
        i64::MAX
    } else {
        (a - b) as i64
    }
}

/// A pairing this device created that waits for the other side.
pub open spec fn pairing_notifiable(p: BridgePairing) -> bool {
    p.role@ == "creator"@ && (p.state@ == "peer_joined"@ || p.state@ == "awaiting_approval"@)
}

/// The name a pairing request is shown under.
pub open spec fn requester_name(p: BridgePairing) -> Seq<char> {
    match p.remote_display_name {
        Some(name) => if spec_trim(name@).len() > 0 {
            name@
        } else {
            "New contact request"@
        },
        None => "New contact request"@,
    }
}

/// The state after one pairing of the snapshot.
pub open spec fn after_pairing(s: NoteState, p: BridgePairing, texts: NotificationTexts, ids: Seq<String>) -> NoteState {
    if pairing_notifiable(p) && !s.pairings.contains(p.id@) {
        let cursor = bump(s.cursor);
        NoteState {
            cursor,
            events: s.events.push(
                NoteView {
                    cursor,
                    event_id: event_id_at(ids, s.issued, cursor),
                    kind: "pairing_request"@,
                    resource_id: p.id@,
                    conversation_id: Seq::empty(),
                    contact_display_name: requester_name(p),
                    created_at_ms: saturating_sub_i64(p.expires_at_ms, 300000),
                    title: title_of(texts.pairing_request),
                    body: body_of(texts.pairing_request),
                },
            ),
            pairings: s.pairings.push(p.id@),
            issued: s.issued + 1,
            ..s
        }
    } else {
        s
    }
}

pub open spec fn pairings_pass(s: NoteState, pairings: Seq<BridgePairing>, texts: NotificationTexts, ids: Seq<String>) -> NoteState
    decreases pairings.len(),
{
    if pairings.len() == 0 {
        s
    } else {
        after_pairing(pairings_pass(s, pairings.drop_last(), texts, ids), pairings.last(), texts, ids)
    }
}

/// The conversation of a contact: the first whose contact is `contact`, or
/// the empty text.
pub open spec fn conversation_of_contact(conversations: Seq<BridgeConversation>, contact: Seq<char>) -> Seq<char>
    decreases conversations.len(),
{
    if conversations.len() == 0 {
        Seq::empty()
    } else if conversations[0].contact_id@ == contact {
        conversations[0].id@
    } else {
        conversation_of_contact(conversations.subrange(1, conversations.len() as int), contact)
    }
}

/// The state after one contact of the snapshot.
pub open spec fn after_contact(
    s: NoteState,
    c: BridgeContact,
    conversations: Seq<BridgeConversation>,
    texts: NotificationTexts,
    ids: Seq<String>,
) -> NoteState {
    if !s.contacts.contains(c.id@) {
        let cursor = bump(s.cursor);
        NoteState {
            cursor,
            events: s.events.push(
                NoteView {
                    cursor,
                    event_id: event_id_at(ids, s.issued, cursor),
                    kind: "contact_added"@,
                    resource_id: c.id@,
                    conversation_id: conversation_of_contact(conversations, c.id@),
                    contact_display_name: c.display_name@,
                    created_at_ms: c.created_at_ms,
                    title: title_of(texts.contact_added),
                    body: body_of(texts.contact_added),
                },
            ),
            contacts: s.contacts.push(c.id@),
            issued: s.issued + 1,
            ..s
        }
    } else {
        s
    }
}

pub open spec fn contacts_pass(
    s: NoteState,
    contacts: Seq<BridgeContact>,
    conversations: Seq<BridgeConversation>,
    texts: NotificationTexts,
    ids: Seq<String>,
) -> NoteState
    decreases contacts.len(),
{
    if contacts.len() == 0 {
        s
    } else {
        after_contact(contacts_pass(s, contacts.drop_last(), conversations, texts, ids), contacts.last(), conversations, texts, ids)
    }
}

/// The unread count last seen for a conversation, or 0.
pub open spec fn previous_unread(unread: Seq<(String, u32)>, key: Seq<char>) -> u32 {
    let i = key_index(keys_of(unread), key);
    if i >= 0 {
        unread[i].1
    } else {
        0
    }
}

/// Contact ids with display names, in snapshot order.
pub open spec fn contact_pairs(contacts: Seq<BridgeContact>) -> Seq<(String, String)> {
    contacts.map_values(|c: BridgeContact| (c.id, c.display_name))
}

/// The state after one conversation summary: its unread count is
/// remembered, and a grown count under an inbound last message is
/// announced.
pub open spec fn after_summary(
    s: NoteState,
    entry: (String, ConversationSummary),
    names: Seq<(String, String)>,
    conversations: Seq<BridgeConversation>,
    texts: NotificationTexts,
    ids: Seq<String>,
) -> NoteState {
    let key = entry.0;
    let count = entry.1.unread_count;
    let previous = previous_unread(s.unread, key@);
    let remembered = NoteState { unread: upsert(s.unread, key, count), ..s };
    match entry.1.last_message {
        Some(m) => if m.direction == MessageDirection::Inbound && count > previous {
                let cursor = bump(s.cursor);
                NoteState {
                    cursor,
                    events: s.events.push(
                        NoteView {
                            cursor,
                            event_id: event_id_at(ids, s.issued, cursor),
                            kind: "message_received"@,
                            resource_id: key@,
                            conversation_id: key@,
                            contact_display_name: spec_snapshot_contact_name(conversations, names, key@),
                            created_at_ms: m.created_at_ms,
                            title: title_of(texts.message_received),
                            body: body_of(texts.message_received),
                        },
                    ),
                    issued: s.issued + 1,
                    ..remembered
                }
        } else {
            remembered
        },
        None => remembered,
    }
}

pub open spec fn summaries_pass(
    s: NoteState,
    summaries: Seq<(String, ConversationSummary)>,
    names: Seq<(String, String)>,
    conversations: Seq<BridgeConversation>,
    texts: NotificationTexts,
    ids: Seq<String>,
) -> NoteState
    decreases summaries.len(),
{
    if summaries.len() == 0 {
        s
    } else {
        after_summary(
            summaries_pass(s, summaries.drop_last(), names, conversations, texts, ids),
            summaries.last(),
            names,
            conversations,
            texts,
            ids,
        )
    }
}

/// The most recent `MAX_NOTIFICATION_EVENTS` events.
pub open spec fn most_recent(events: Seq<NoteView>) -> Seq<NoteView> {
    if events.len() > MAX_NOTIFICATION_EVENTS {
        events.subrange(events.len() - MAX_NOTIFICATION_EVENTS, events.len() as int)
    } else {
        events
    }
}

/// The events with a cursor after `after_cursor`, in order.
pub open spec fn newer_than(events: Seq<NoteView>, after_cursor: u64) -> Seq<NoteView>
    decreases events.len(),
{
    if events.len() == 0 {
        events
    } else if events.last().cursor > after_cursor {
        newer_than(events.drop_last(), after_cursor).push(events.last())
    } else {
        newer_than(events.drop_last(), after_cursor)
    }
}

/// One collection: pairings, then contacts, then conversations, each in
/// snapshot order.
pub open spec fn collected(
    s: NoteState,
    snapshot: BridgeSnapshot,
    summaries: Seq<(String, ConversationSummary)>,
    texts: NotificationTexts,
    ids: Seq<String>,
) -> NoteState {
    let a = pairings_pass(s, snapshot.pairings@, texts, ids);
    let b = contacts_pass(a, snapshot.contacts@, snapshot.conversations@, texts, ids);
    summaries_pass(b, summaries, contact_pairs(snapshot.contacts@), snapshot.conversations@, texts, ids)
}

/// The runtime's notification memory and the events it keeps.
pub struct NotificationCenter {
    pub cursor: u64,
    pub events: Vec<NotificationEvent>,
    pub seen_pairings: Vec<String>,
    pub seen_contacts: Vec<String>,
    pub seen_unread: Vec<(String, u32)>,
}

impl NotificationCenter {
    /// A runtime run that starts at cursor 0; the contacts present when it
    /// attached are not announced.
    pub fn new(existing_contacts: Vec<String>) -> (r: Self)
        ensures
            r.cursor == 0,
            r.events@.len() == 0,
            r.seen_pairings@.len() == 0,
            r.seen_contacts@ == existing_contacts@,
            r.seen_unread@.len() == 0,
    {
        NotificationCenter {
            cursor: 0,
            events: Vec::new(),
            seen_pairings: Vec::new(),
            seen_contacts: existing_contacts,
            seen_unread: Vec::new(),
        }
    }

    /// The remembered state, with `issued` ids used up.
    pub open spec fn state(&self, issued: nat) -> NoteState {
        NoteState {
            cursor: self.cursor,
            events: note_views(self.events@),
            pairings: text_views(self.seen_pairings@),
            contacts: text_views(self.seen_contacts@),
            unread: self.seen_unread@,
            issued,
        }
    }
}

fn contains_text(items: &Vec<String>, text: &str) -> (r: bool)
    ensures
        r == text_views(items@).contains(text@),
{
    let mut i: usize = 0;
    while i < items.len()
        invariant
            i <= items@.len(),
            forall|k: int| 0 <= k < i ==> #[trigger] items@[k]@ != text@,
        decreases items@.len() - i,
    {
        if str_eq(items[i].as_str(), text) {
            assert(text_views(items@)[i as int] == text@);
            return true;
        }
        i = i + 1;
    }
    proof {
        if text_views(items@).contains(text@) {
            let k = choose|k: int| 0 <= k < text_views(items@).len() && text_views(items@)[k] == text@;
            assert(items@[k]@ == text@);
        }
    }
    false
}

fn conversation_for(conversations: &Vec<BridgeConversation>, contact: &str) -> (r: String)
    ensures
        r@ == conversation_of_contact(conversations@, contact@),
{
    assert(conversations@.subrange(0, conversations@.len() as int) =~= conversations@);
    let mut i: usize = 0;
    while i < conversations.len()
        invariant
            i <= conversations@.len(),
            conversation_of_contact(conversations@, contact@) == conversation_of_contact(
                conversations@.subrange(i as int, conversations@.len() as int),
                contact@,
            ),
        decreases conversations@.len() - i,
    {
        let ghost rest = conversations@.subrange(i as int, conversations@.len() as int);
        assert(rest.subrange(1, rest.len() as int) =~= conversations@.subrange(i as int + 1, conversations@.len() as int));
        assert(rest[0] == conversations@[i as int]);
        if str_eq(conversations[i].contact_id.as_str(), contact) {
            return conversations[i].id.clone();
        }
        i = i + 1;
    }
    String::new()
}

fn contact_names(contacts: &Vec<BridgeContact>) -> (r: Vec<(String, String)>)
    ensures
        r@ == contact_pairs(contacts@),
{
    let mut r: Vec<(String, String)> = Vec::new();
    let mut i: usize = 0;
    while i < contacts.len()
        invariant
            i <= contacts@.len(),
            r@ == contact_pairs(contacts@.take(i as int)),
        decreases contacts@.len() - i,
    {
        r.push((contacts[i].id.clone(), contacts[i].display_name.clone()));
        i = i + 1;
        assert(r@ =~= contact_pairs(contacts@.take(i as int)));
    }
    assert(contacts@.take(i as int) =~= contacts@);
    r
}

fn clone_event(e: &NotificationEvent) -> (r: NotificationEvent)
    ensures
        note_view(r) == note_view(*e),
{
    NotificationEvent {
        cursor: e.cursor,
        event_id: e.event_id.clone(),
        kind: e.kind.clone(),
        resource_id: e.resource_id.clone(),
        conversation_id: e.conversation_id.clone(),
        contact_display_name: e.contact_display_name.clone(),
        created_at_ms: e.created_at_ms,
        title: e.title.clone(),
        body: e.body.clone(),
    }
}

fn saturating_sub(a: i64, b: i64) -> (r: i64)
    ensures
        r == saturating_sub_i64(a, b),
{
    if b >= 0 {
        if a < i64::MIN + b {
            i64::MIN
        } else {
            a - b
        }
    } else if a > i64::MAX + b {
        i64::MAX
    } else {
        a - b
    }
}

fn text_or(text: &Option<(String, String)>) -> (r: (String, String))
    ensures
        r.0@ == title_of(*text),
        r.1@ == body_of(*text),
{
    match text {
        Some(t) => (t.0.clone(), t.1.clone()),
        None => ("Torca".to_owned(), String::new()),
    }
}

fn event_id(ids: &Vec<String>, issued: usize, cursor: u64) -> (r: String)
    ensures
        r@ == event_id_at(ids@, issued as nat, cursor),
{
    if issued < ids.len() {
        ids[issued].clone()
    } else {
        let mut id = "notification-".to_owned();
        push_decimal(&mut id, cursor);
        id
    }
}

fn requester(p: &BridgePairing) -> (r: String)
    ensures
        r@ == requester_name(*p),
{
    match &p.remote_display_name {
        Some(name) => {
            let chars = chars_of(name.as_str());
            let trimmed = trim_chars(&chars);
            if trimmed.len() > 0 {
                name.clone()
            } else {
                "New contact request".to_owned()
            }
        },
        None => "New contact request".to_owned(),
    }
}

impl NotificationCenter {
    fn announce_contacts(
        &mut self,
        contacts: &Vec<BridgeContact>,
        conversations: &Vec<BridgeConversation>,
        texts: &NotificationTexts,
        ids: &Vec<String>,
        issued: usize,
    ) -> (used: usize)
        requires
            issued + contacts@.len() <= usize::MAX,
        ensures
            used <= issued + contacts@.len(),
            final(self).state(used as nat) == contacts_pass(old(self).state(issued as nat), contacts@, conversations@, *texts, ids@),
    {
        let ghost start = self.state(issued as nat);
        let mut used = issued;
        let mut i: usize = 0;
        while i < contacts.len()
            invariant
                i <= contacts@.len(),
                issued + contacts@.len() <= usize::MAX,
                used <= issued + i,
                self.state(used as nat) == contacts_pass(start, contacts@.take(i as int), conversations@, *texts, ids@),
            decreases contacts@.len() - i,
        {
            assert(contacts@.take(i as int + 1).drop_last() =~= contacts@.take(i as int));
            let c = &contacts[i];
            if !contains_text(&self.seen_contacts, c.id.as_str()) {
                let ghost before = self.state(used as nat);
                self.seen_contacts.push(c.id.clone());
                self.cursor = self.cursor.saturating_add(1);
                let (title, body) = text_or(&texts.contact_added);
                let event = NotificationEvent {
                    cursor: self.cursor,
                    event_id: event_id(ids, used, self.cursor),
                    kind: "contact_added".to_owned(),
                    resource_id: c.id.clone(),
                    conversation_id: conversation_for(conversations, c.id.as_str()),
                    contact_display_name: c.display_name.clone(),
                    created_at_ms: c.created_at_ms,
                    title,
                    body,
                };
                self.events.push(event);
                used = used + 1;
                proof {
                    assert(text_views(self.seen_contacts@) =~= before.contacts.push(c.id@));
                    assert(note_views(self.events@) =~= after_contact(before, *c, conversations@, *texts, ids@).events);
                }
            }
            i = i + 1;
        }
        assert(contacts@.take(i as int) =~= contacts@);
        used
    }

    fn announce_messages(
        &mut self,
        summaries: &Vec<(String, ConversationSummary)>,
        names: &Vec<(String, String)>,
        snapshot: &BridgeSnapshot,
        texts: &NotificationTexts,
        ids: &Vec<String>,
        issued: usize,
    ) -> (used: usize)
        requires
            issued + summaries@.len() <= usize::MAX,
        ensures
            used <= issued + summaries@.len(),
            final(self).state(used as nat) == summaries_pass(
                old(self).state(issued as nat),
                summaries@,
                names@,
                snapshot.conversations@,
                *texts,
                ids@,
            ),
    {
        let ghost start = self.state(issued as nat);
        let mut used = issued;
        let mut i: usize = 0;
        while i < summaries.len()
            invariant
                i <= summaries@.len(),
                issued + summaries@.len() <= usize::MAX,
                used <= issued + i,
                self.state(used as nat) == summaries_pass(start, summaries@.take(i as int), names@, snapshot.conversations@, *texts, ids@),
            decreases summaries@.len() - i,
        {
            assert(summaries@.take(i as int + 1).drop_last() =~= summaries@.take(i as int));
            let ghost before = self.state(used as nat);
            let key = &summaries[i].0;
            let summary = &summaries[i].1;
            let count = summary.unread_count;
            let previous = match key_position(&self.seen_unread, key.as_str()) {
                Some(k) => self.seen_unread[k].1,
                None => 0,
            };
            upsert_entry(&mut self.seen_unread, key.clone(), count);
            match &summary.last_message {
                Some(m) => {
                    if matches!(m.direction, MessageDirection::Inbound) && count > previous {
                        self.cursor = self.cursor.saturating_add(1);
                        let (title, body) = text_or(&texts.message_received);
                        let name = snapshot_contact_name(snapshot, names, key.as_str());
                        let event = NotificationEvent {
                            cursor: self.cursor,
                            event_id: event_id(ids, used, self.cursor),
                            kind: "message_received".to_owned(),
                            resource_id: key.clone(),
                            conversation_id: key.clone(),
                            contact_display_name: name,
                            created_at_ms: m.created_at_ms,
                            title,
                            body,
                        };
                        self.events.push(event);
                        used = used + 1;
                        proof {
                            assert(note_views(self.events@) =~= after_summary(before, summaries@[i as int], names@, snapshot.conversations@, *texts, ids@).events);
                        }
                    }
                },
                None => {},
            }
            i = i + 1;
        }
        assert(summaries@.take(i as int) =~= summaries@);
        used
    }

    /// Collects the notifications a snapshot and the conversation summaries
    /// call for. `ids` are random event ids, used in order; once they run
    /// out, ids are made from the cursor. Nothing happens while
    /// notifications are disabled.
    pub fn collect(
        &mut self,
        enabled: bool,
        snapshot: &BridgeSnapshot,
        summaries: &Vec<(String, ConversationSummary)>,
        texts: &NotificationTexts,
        ids: &Vec<String>,
    )
        requires
            snapshot.pairings@.len() + snapshot.contacts@.len() + summaries@.len() <= usize::MAX,
        ensures
            !enabled ==> *final(self) == *old(self),
            enabled ==> ({
                let s = collected(old(self).state(0), *snapshot, summaries@, *texts, ids@);
                &&& final(self).cursor == s.cursor
                &&& note_views(final(self).events@) == most_recent(s.events)
                &&& text_views(final(self).seen_pairings@) == s.pairings
                &&& text_views(final(self).seen_contacts@) == s.contacts
                &&& final(self).seen_unread@ == s.unread
            }),
    {
        if !enabled {
            return;
        }
        let names = contact_names(&snapshot.contacts);
        let used = self.announce_pairings(&snapshot.pairings, texts, ids, 0);
        let used = self.announce_contacts(&snapshot.contacts, &snapshot.conversations, texts, ids, used);
        let _ = self.announce_messages(summaries, &names, snapshot, texts, ids, used);
        let ghost all = note_views(self.events@);
        if self.events.len() > MAX_NOTIFICATION_EVENTS {
            let kept = self.events.split_off(self.events.len() - MAX_NOTIFICATION_EVENTS);
            self.events = kept;
            assert(note_views(self.events@) =~= most_recent(all));
        }
    }

    /// The kept events after `after_cursor`, oldest first.
    pub fn events_after(&self, after_cursor: u64) -> (r: Vec<NotificationEvent>)
        ensures
            note_views(r@) == newer_than(note_views(self.events@), after_cursor),
    {
        let mut r: Vec<NotificationEvent> = Vec::new();
        let mut i: usize = 0;
        while i < self.events.len()
            invariant
                i <= self.events@.len(),
                note_views(r@) == newer_than(note_views(self.events@.take(i as int)), after_cursor),
            decreases self.events@.len() - i,
        {
            let ghost prefix = self.events@.take(i as int + 1);
            proof {
                assert(prefix.drop_last() =~= self.events@.take(i as int));
                assert(note_views(prefix).drop_last() =~= note_views(self.events@.take(i as int)));
                assert(note_views(prefix).last() == note_view(self.events@[i as int]));
            }
            if self.events[i].cursor > after_cursor {
                let ghost before = r@;
                r.push(clone_event(&self.events[i]));
                proof {
                    assert(note_views(r@) =~= note_views(before).push(note_view(self.events@[i as int])));
                }
            }
            i = i + 1;
        }
        assert(self.events@.take(i as int) =~= self.events@);
        r
    }

    fn announce_pairings(&mut self, pairings: &Vec<BridgePairing>, texts: &NotificationTexts, ids: &Vec<String>, issued: usize) -> (used: usize)
        requires
            issued + pairings@.len() <= usize::MAX,
        ensures
            used <= issued + pairings@.len(),
            final(self).state(used as nat) == pairings_pass(old(self).state(issued as nat), pairings@, *texts, ids@),
    {
        let ghost start = self.state(issued as nat);
        let mut used = issued;
        let mut i: usize = 0;
        while i < pairings.len()
            invariant
                i <= pairings@.len(),
                issued + pairings@.len() <= usize::MAX,
                used <= issued + i,
                self.state(used as nat) == pairings_pass(start, pairings@.take(i as int), *texts, ids@),
            decreases pairings@.len() - i,
        {
            assert(pairings@.take(i as int + 1).drop_last() =~= pairings@.take(i as int));
            let p = &pairings[i];
            let notifiable = str_eq(p.role.as_str(), "creator") && (str_eq(p.state.as_str(), "peer_joined")
                || str_eq(p.state.as_str(), "awaiting_approval"));
            if notifiable && !contains_text(&self.seen_pairings, p.id.as_str()) {
                let ghost before = self.state(used as nat);
                self.seen_pairings.push(p.id.clone());
                self.cursor = self.cursor.saturating_add(1);
                let (title, body) = text_or(&texts.pairing_request);
                let event = NotificationEvent {
                    cursor: self.cursor,
                    event_id: event_id(ids, used, self.cursor),
                    kind: "pairing_request".to_owned(),
                    resource_id: p.id.clone(),
                    conversation_id: String::new(),
                    contact_display_name: requester(p),
                    created_at_ms: saturating_sub(p.expires_at_ms, 300000),
                    title,
                    body,
                };
                self.events.push(event);
                used = used + 1;
                proof {
                    assert(text_views(self.seen_pairings@) =~= before.pairings.push(p.id@));
                    assert(note_views(self.events@) =~= after_pairing(before, *p, *texts, ids@).events);
                }
            }
            i = i + 1;
        }
        assert(pairings@.take(i as int) =~= pairings@);
        used
    }
}

/// Law: a pairing is announced once per runtime run. Once its id is
/// remembered, no later collection adds a pairing request for it, and the
/// id stays remembered; events already kept are untouched.
pub proof fn pairing_is_announced_once(
    s: NoteState,
    pairings: Seq<BridgePairing>,
    texts: NotificationTexts,
    ids: Seq<String>,
    id: Seq<char>,
)
    requires
        s.pairings.contains(id),
    ensures
        ({
            let r = pairings_pass(s, pairings, texts, ids);
            &&& r.pairings.contains(id)
            &&& r.events.len() >= s.events.len()
            &&& r.events.subrange(0, s.events.len() as int) == s.events
            &&& forall|k: int|
                s.events.len() <= k < r.events.len() ==> !(#[trigger] r.events[k].kind == "pairing_request"@
                    && r.events[k].resource_id == id)
        }),
    decreases pairings.len(),
{
    if pairings.len() > 0 {
        let t = pairings_pass(s, pairings.drop_last(), texts, ids);
        pairing_is_announced_once(s, pairings.drop_last(), texts, ids, id);
        let p = pairings.last();
        let r = after_pairing(t, p, texts, ids);
        if pairing_notifiable(p) && !t.pairings.contains(p.id@) {
            assert(p.id@ != id);
            assert(r.pairings.contains(id)) by {
                let j = choose|j: int| 0 <= j < t.pairings.len() && t.pairings[j] == id;
                assert(r.pairings[j] == id);
            }
            assert(r.events.subrange(0, s.events.len() as int) =~= t.events.subrange(0, s.events.len() as int));
        }
    }
}

/// Law: a contact is announced once per runtime run, like a pairing.
pub proof fn contact_is_announced_once(
    s: NoteState,
    contacts: Seq<BridgeContact>,
    conversations: Seq<BridgeConversation>,
    texts: NotificationTexts,
    ids: Seq<String>,
    id: Seq<char>,
)
    requires
        s.contacts.contains(id),
    ensures
        ({
            let r = contacts_pass(s, contacts, conversations, texts, ids);
            &&& r.contacts.contains(id)
            &&& r.events.len() >= s.events.len()
            &&& r.events.subrange(0, s.events.len() as int) == s.events
            &&& forall|k: int|
                s.events.len() <= k < r.events.len() ==> !(#[trigger] r.events[k].kind == "contact_added"@
                    && r.events[k].resource_id == id)
        }),
    decreases contacts.len(),
{
    if contacts.len() > 0 {
        let t = contacts_pass(s, contacts.drop_last(), conversations, texts, ids);
        contact_is_announced_once(s, contacts.drop_last(), conversations, texts, ids, id);
        let c = contacts.last();
        let r = after_contact(t, c, conversations, texts, ids);
        if !t.contacts.contains(c.id@) {
            assert(c.id@ != id);
            assert(r.contacts.contains(id)) by {
                let j = choose|j: int| 0 <= j < t.contacts.len() && t.contacts[j] == id;
                assert(r.contacts[j] == id);
            }
            assert(r.events.subrange(0, s.events.len() as int) =~= t.events.subrange(0, s.events.len() as int));
        }
    }
}

/// A new pairing request for `id` among the events after the first `from`.
pub open spec fn announces_pairing(events: Seq<NoteView>, from: int, id: Seq<char>) -> bool {
    exists|k: int| from <= k < events.len() && #[trigger] events[k].kind == "pairing_request"@ && events[k].resource_id == id
}

proof fn lemma_pairings_pass_records(s: NoteState, pairings: Seq<BridgePairing>, texts: NotificationTexts, ids: Seq<String>)
    ensures
        ({
            let r = pairings_pass(s, pairings, texts, ids);
            &&& r.events.len() >= s.events.len()
            &&& forall|id: Seq<char>| s.pairings.contains(id) ==> #[trigger] r.pairings.contains(id)
            &&& forall|id: Seq<char>|
                #[trigger] r.pairings.contains(id) && !s.pairings.contains(id) ==> announces_pairing(
                    r.events,
                    s.events.len() as int,
                    id,
                )
        }),
    decreases pairings.len(),
{
    if pairings.len() > 0 {
        let t = pairings_pass(s, pairings.drop_last(), texts, ids);
        lemma_pairings_pass_records(s, pairings.drop_last(), texts, ids);
        let p = pairings.last();
        let r = after_pairing(t, p, texts, ids);
        if pairing_notifiable(p) && !t.pairings.contains(p.id@) {
            let n = t.events.len() as int;
            assert forall|id: Seq<char>| t.pairings.contains(id) implies #[trigger] r.pairings.contains(id) by {
                let j = choose|j: int| 0 <= j < t.pairings.len() && t.pairings[j] == id;
                assert(r.pairings[j] == id);
            }
            assert forall|id: Seq<char>|
                #[trigger] r.pairings.contains(id) && !s.pairings.contains(id) implies announces_pairing(
                r.events,
                s.events.len() as int,
                id,
            ) by {
                if id == p.id@ {
                    assert(r.events[n].kind == "pairing_request"@ && r.events[n].resource_id == id);
                } else {
                    let j = choose|j: int| 0 <= j < r.pairings.len() && r.pairings[j] == id;
                    assert(j < t.pairings.len());
                    assert(t.pairings.contains(id));
                    let k = choose|k: int|
                        s.events.len() <= k < t.events.len() && #[trigger] t.events[k].kind == "pairing_request"@
                            && t.events[k].resource_id == id;
                    assert(r.events[k] == t.events[k]);
                }
            }
        }
    }
}

proof fn lemma_waiting_pairing_remembered(
    s: NoteState,
    pairings: Seq<BridgePairing>,
    texts: NotificationTexts,
    ids: Seq<String>,
    j: int,
)
    requires
        0 <= j < pairings.len(),
        pairings[j].role@ == "creator"@,
        pairings[j].state@ == "awaiting_approval"@ || pairings[j].state@ == "peer_joined"@,
    ensures
        pairings_pass(s, pairings, texts, ids).pairings.contains(pairings[j].id@),
    decreases pairings.len(),
{
    let t = pairings_pass(s, pairings.drop_last(), texts, ids);
    let p = pairings.last();
    let r = after_pairing(t, p, texts, ids);
    let id = pairings[j].id@;
    if j < pairings.len() - 1 {
        assert(pairings.drop_last()[j] == pairings[j]);
        lemma_waiting_pairing_remembered(s, pairings.drop_last(), texts, ids, j);
    }
    if t.pairings.contains(id) {
        if pairing_notifiable(p) && !t.pairings.contains(p.id@) {
            let i = choose|i: int| 0 <= i < t.pairings.len() && t.pairings[i] == id;
            assert(r.pairings[i] == id);
        }
    } else {
        assert(j == pairings.len() - 1);
        assert(r.pairings.last() == id);
    }
}

/// Law: a pairing this device created that waits for approval (its state
/// `awaiting_approval`, or `peer_joined`) and was not announced before is
/// announced: the pass adds a pairing request for its id.
pub proof fn waiting_pairing_is_announced(
    s: NoteState,
    pairings: Seq<BridgePairing>,
    texts: NotificationTexts,
    ids: Seq<String>,
    j: int,
)
    requires
        0 <= j < pairings.len(),
        pairings[j].role@ == "creator"@,
        pairings[j].state@ == "awaiting_approval"@ || pairings[j].state@ == "peer_joined"@,
        !s.pairings.contains(pairings[j].id@),
    ensures
        announces_pairing(pairings_pass(s, pairings, texts, ids).events, s.events.len() as int, pairings[j].id@),
{
    lemma_waiting_pairing_remembered(s, pairings, texts, ids, j);
    lemma_pairings_pass_records(s, pairings, texts, ids);
    let r = pairings_pass(s, pairings, texts, ids);
    assert(r.pairings.contains(pairings[j].id@));
}

/// Some pairing of `pairings` this device created, waiting for approval,
/// has the id `id`.
pub open spec fn has_waiting_creator_pairing(pairings: Seq<BridgePairing>, id: Seq<char>) -> bool {
    exists|j: int|
        0 <= j < pairings.len() && #[trigger] pairings[j].id@ == id && pairings[j].role@ == "creator"@ && (
        pairings[j].state@ == "awaiting_approval"@ || pairings[j].state@ == "peer_joined"@)
}

/// The event at `k` is a pairing request for such a pairing of `pairings`.
pub open spec fn request_for_waiting_pairing(events: Seq<NoteView>, pairings: Seq<BridgePairing>, k: int) -> bool {
    events[k].kind == "pairing_request"@ && has_waiting_creator_pairing(pairings, events[k].resource_id)
}

/// Law: only pairings this device created that wait for approval are
/// announced. The pass keeps the events it was given and appends only
/// pairing requests, each for such a pairing of the snapshot.
pub proof fn only_waiting_pairings_are_announced(
    s: NoteState,
    pairings: Seq<BridgePairing>,
    texts: NotificationTexts,
    ids: Seq<String>,
)
    ensures
        ({
            let r = pairings_pass(s, pairings, texts, ids);
            &&& r.events.len() >= s.events.len()
            &&& r.events.subrange(0, s.events.len() as int) == s.events
            &&& forall|k: int|
                s.events.len() <= k < r.events.len() ==> #[trigger] request_for_waiting_pairing(r.events, pairings, k)
        }),
    decreases pairings.len(),
{
    if pairings.len() > 0 {
        let t = pairings_pass(s, pairings.drop_last(), texts, ids);
        only_waiting_pairings_are_announced(s, pairings.drop_last(), texts, ids);
        let p = pairings.last();
        let r = after_pairing(t, p, texts, ids);
        assert forall|k: int| s.events.len() <= k < t.events.len() implies #[trigger] request_for_waiting_pairing(
            t.events,
            pairings,
            k,
        ) by {
            assert(request_for_waiting_pairing(t.events, pairings.drop_last(), k));
            let j = choose|j: int|
                0 <= j < pairings.drop_last().len() && #[trigger] pairings.drop_last()[j].id@ == t.events[k].resource_id
                    && pairings.drop_last()[j].role@ == "creator"@ && (pairings.drop_last()[j].state@
                    == "awaiting_approval"@ || pairings.drop_last()[j].state@ == "peer_joined"@);
            assert(pairings[j] == pairings.drop_last()[j]);
        }
        if pairing_notifiable(p) && !t.pairings.contains(p.id@) {
            let n = t.events.len() as int;
            assert(pairings[pairings.len() - 1] == p);
            assert(request_for_waiting_pairing(r.events, pairings, n));
            assert(r.events.subrange(0, s.events.len() as int) =~= t.events.subrange(0, s.events.len() as int));
            assert forall|k: int| s.events.len() <= k < r.events.len() implies #[trigger] request_for_waiting_pairing(
                r.events,
                pairings,
                k,
            ) by {
                if k < n {
                    assert(request_for_waiting_pairing(t.events, pairings, k));
                    assert(r.events[k] == t.events[k]);
                }
            }
        }
    } else {
        assert(s.events.subrange(0, s.events.len() as int) =~= s.events);
    }
}

} // verus!
