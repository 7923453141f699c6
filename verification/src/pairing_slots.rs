//! The direct pairing slot server of the Iroh provider. A creator opens a
//! short-lived slot under an invitation code; one joiner claims it; both
//! sides then exchange sequenced blobs through one bounded queue per side
//! until the slot is closed or expires. Requests are served one at a time;
//! the caller supplies the current time and a fresh random identifier.
use vstd::prelude::*;

verus! {

/// Most deliveries queued for one side of a slot.
pub const MAX_QUEUE: usize = 64;

/// One blob queued for a side, with its per-side sequence number.
#[derive(Debug, PartialEq, Eq)]
pub struct PairingServiceDelivery {
    pub sequence: u64,
    pub message_id: u128,
    pub blob: Vec<u8>,
}

/// One open pairing slot.
#[derive(Debug, PartialEq, Eq)]
pub struct Slot {
    pub code: String,
    pub expires_at_ms: i64,
    pub creator_blob: Vec<u8>,
    pub ticket: [u8; 16],
    pub capability: u128,
    pub creator_token: u128,
    pub joiner_token: Option<u128>,
    /// Deliveries for the creator, pushed by the joiner.
    pub creator_queue: Vec<PairingServiceDelivery>,
    /// Deliveries for the joiner, pushed by the creator.
    pub joiner_queue: Vec<PairingServiceDelivery>,
    pub next_creator_sequence: u64,
    pub next_joiner_sequence: u64,
}

/// A request to the slot server.
#[derive(Debug, PartialEq, Eq)]
pub enum PairingServiceRequest {
    Open {
        operation_id: u128,
        code: String,
        expires_at_ms: i64,
        creator_blob: Vec<u8>,
        slot_capability: u128,
        creator_token: u128,
        ticket: [u8; 16],
    },
    Join {
        operation_id: u128,
        code: String,
        joiner_blob: Vec<u8>,
        joiner_token: u128,
        ticket: Option<[u8; 16]>,
    },
    Push { operation_id: u128, message_id: u128, slot_id: u128, token: u128, blob: Vec<u8> },
    Poll { slot_id: u128, token: u128, after: u64 },
    Ack { slot_id: u128, token: u128, up_to: u64 },
    Close { slot_id: u128, capability: u128 },
    Health,
    Info,
}

/// Why the slot server refused a request.
#[derive(Clone, Copy, Debug, PartialEq, Eq, Structural)]
pub enum PairingServiceProtocolError {
    SlotNotFound,
    Unauthorized,
    QueueFull,
}

/// The slot server's answer.
#[derive(Debug, PartialEq, Eq)]
pub enum PairingServiceResponse {
    Opened { slot_id: u128, expires_at_ms: i64 },
    Joined { slot_id: u128, expires_at_ms: i64, creator_blob: Vec<u8> },
    Accepted,
    Deliveries(Vec<PairingServiceDelivery>),
    Acked(u64),
    Closed,
    Healthy,
    Info(String, String, String),
    Error(PairingServiceProtocolError),
}

/// Index of the entry with key `k`, or -1.
pub open spec fn index_of(s: Seq<(u128, Slot)>, k: u128) -> int
    decreases s.len(),
{
    if s.len() == 0 {
        -1
    } else if s.last().0 == k {
        s.len() - 1
    } else {
        index_of(s.drop_last(), k)
    }
}

/// Keys strictly increase, so each key occurs once and entries are in key
/// order.
pub open spec fn keys_increasing(s: Seq<(u128, Slot)>) -> bool {
    forall|i: int, j: int| 0 <= i < j < s.len() ==> s[i].0 < s[j].0
}

/// The slots that have not expired at `now_ms`, in order.
pub open spec fn live(s: Seq<(u128, Slot)>, now_ms: i64) -> Seq<(u128, Slot)>
    decreases s.len(),
{
    if s.len() == 0 {
        s
    } else if s.last().1.expires_at_ms > now_ms {
        live(s.drop_last(), now_ms).push(s.last())
    } else {
        live(s.drop_last(), now_ms)
    }
}

/// Whether `token` belongs to one of the slot's two sides.
pub open spec fn authorized(slot: Slot, token: u128) -> bool {
    slot.creator_token == token || slot.joiner_token == Some(token)
}

/// A slot that `Join` may claim.
pub open spec fn joinable(
    slot: Slot,
    code: Seq<char>,
    ticket: Option<[u8; 16]>,
    now_ms: i64,
    max_blob_len: usize,
) -> bool {
    &&& slot.code@ == code
    &&& slot.joiner_token is None
    &&& slot.creator_blob@.len() <= max_blob_len
    &&& slot.expires_at_ms >= now_ms
    &&& match ticket {
        Some(t) => slot.ticket@ == t@,
        None => true,
    }
}

/// Index of the first slot in key order that `Join` may claim, or -1.
pub open spec fn first_joinable(
    s: Seq<(u128, Slot)>,
    code: Seq<char>,
    ticket: Option<[u8; 16]>,
    now_ms: i64,
    max_blob_len: usize,
) -> int
    decreases s.len(),
{
    if s.len() == 0 {
        -1
    } else if first_joinable(s.drop_last(), code, ticket, now_ms, max_blob_len) >= 0 {
        first_joinable(s.drop_last(), code, ticket, now_ms, max_blob_len)
    } else if joinable(s.last().1, code, ticket, now_ms, max_blob_len) {
        s.len() - 1
    } else {
        -1
    }
}

/// The deliveries of `q` with a sequence after `after`, in order.
pub open spec fn deliveries_after(q: Seq<PairingServiceDelivery>, after: u64) -> Seq<
    PairingServiceDelivery,
>
    decreases q.len(),
{
    if q.len() == 0 {
        q
    } else if q.last().sequence > after {
        deliveries_after(q.drop_last(), after).push(q.last())
    } else {
        deliveries_after(q.drop_last(), after)
    }
}

/// `q` without its leading deliveries whose sequence is at most `up_to`.
pub open spec fn drop_acked(q: Seq<PairingServiceDelivery>, up_to: u64) -> Seq<
    PairingServiceDelivery,
>
    decreases q.len(),
{
    if q.len() > 0 && q[0].sequence <= up_to {
        drop_acked(q.drop_first(), up_to)
    } else {
        q
    }
}

/// Two deliveries with the same fields.
pub open spec fn same_delivery(a: PairingServiceDelivery, b: PairingServiceDelivery) -> bool {
    a.sequence == b.sequence && a.message_id == b.message_id && a.blob@ == b.blob@
}

pub open spec fn same_deliveries(a: Seq<PairingServiceDelivery>, b: Seq<PairingServiceDelivery>) -> bool {
    a.len() == b.len() && forall|i: int| 0 <= i < a.len() ==> same_delivery(#[trigger] a[i], b[i])
}

/// `new` is `old` with only the queues and sequence counters changed as
/// given.
pub open spec fn slot_with_queues(
    old: Slot,
    new: Slot,
    joiner_token: Option<u128>,
    creator_queue: Seq<PairingServiceDelivery>,
    joiner_queue: Seq<PairingServiceDelivery>,
    next_creator_sequence: u64,
    next_joiner_sequence: u64,
) -> bool {
    &&& new.code == old.code
    &&& new.expires_at_ms == old.expires_at_ms
    &&& new.creator_blob == old.creator_blob
    &&& new.ticket == old.ticket
    &&& new.capability == old.capability
    &&& new.creator_token == old.creator_token
    &&& new.joiner_token == joiner_token
    &&& new.creator_queue@ == creator_queue
    &&& new.joiner_queue@ == joiner_queue
    &&& new.next_creator_sequence == next_creator_sequence
    &&& new.next_joiner_sequence == next_joiner_sequence
}

/// A delivery with the given fields.
pub open spec fn delivery_is(d: PairingServiceDelivery, sequence: u64, message_id: u128, blob: Seq<u8>) -> bool {
    d.sequence == sequence && d.message_id == message_id && d.blob@ == blob
}

/// A freshly opened slot.
pub open spec fn fresh_slot(
    slot: Slot,
    code: Seq<char>,
    expires_at_ms: i64,
    creator_blob: Seq<u8>,
    capability: u128,
    creator_token: u128,
    ticket: [u8; 16],
) -> bool {
    &&& slot.code@ == code
    &&& slot.expires_at_ms == expires_at_ms
    &&& slot.creator_blob@ == creator_blob
    &&& slot.ticket == ticket
    &&& slot.capability == capability
    &&& slot.creator_token == creator_token
    &&& slot.joiner_token is None
    &&& slot.creator_queue@.len() == 0
    &&& slot.joiner_queue@.len() == 0
    &&& slot.next_creator_sequence == 1
    &&& slot.next_joiner_sequence == 1
}

proof fn lemma_index_of(s: Seq<(u128, Slot)>, k: u128)
    ensures
        -1 <= index_of(s, k) < s.len(),
        index_of(s, k) >= 0 ==> s[index_of(s, k)].0 == k,
        index_of(s, k) < 0 ==> forall|i: int| 0 <= i < s.len() ==> s[i].0 != k,
    decreases s.len(),
{
    if s.len() > 0 && s.last().0 != k {
        lemma_index_of(s.drop_last(), k);
        assert forall|i: int| 0 <= i < s.len() - 1 implies s.drop_last()[i] == s[i] by {}
    }
}

proof fn lemma_index_of_unique(s: Seq<(u128, Slot)>, k: u128, i: int)
    requires
        keys_increasing(s),
        0 <= i < s.len(),
        s[i].0 == k,
    ensures
        index_of(s, k) == i,
{
    lemma_index_of(s, k);
    let j = index_of(s, k);
    assert(j >= 0);
    if j != i {
        if j < i {
            assert(s[j].0 < s[i].0);
        } else {
            assert(s[i].0 < s[j].0);
        }
    }
}

proof fn lemma_live_members(s: Seq<(u128, Slot)>, now_ms: i64)
    ensures
        live(s, now_ms).len() <= s.len(),
        forall|i: int|
            0 <= i < live(s, now_ms).len() ==> exists|j: int|
                0 <= j < s.len() && #[trigger] live(s, now_ms)[i] == s[j],
    decreases s.len(),
{
    if s.len() > 0 {
        let t = s.drop_last();
        lemma_live_members(t, now_ms);
        let l = live(s, now_ms);
        let lt = live(t, now_ms);
        assert forall|i: int| 0 <= i < l.len() implies exists|j: int|
            0 <= j < s.len() && #[trigger] l[i] == s[j] by {
            if s.last().1.expires_at_ms > now_ms && i == l.len() - 1 {
                assert(l[i] == s[s.len() - 1]);
            } else {
                assert(l[i] == lt[i]);
                let j = choose|j: int| 0 <= j < t.len() && lt[i] == t[j];
                assert(t[j] == s[j]);
            }
        }
    }
}

proof fn lemma_live_expiry(s: Seq<(u128, Slot)>, now_ms: i64)
    ensures
        all_live(live(s, now_ms), now_ms),
    decreases s.len(),
{
    if s.len() > 0 {
        let t = s.drop_last();
        lemma_live_expiry(t, now_ms);
        let l = live(s, now_ms);
        let lt = live(t, now_ms);
        if s.last().1.expires_at_ms > now_ms {
            assert forall|i: int| 0 <= i < l.len() implies #[trigger] l[i].1.expires_at_ms > now_ms by {
                assert(l == lt.push(s.last()));
                if i < lt.len() {
                    assert(l[i] == lt[i]);
                    assert(lt[i].1.expires_at_ms > now_ms);
                } else {
                    assert(l[i] == s.last());
                }
            }
        }
    }
}

proof fn lemma_live_sorted(s: Seq<(u128, Slot)>, now_ms: i64)
    requires
        keys_increasing(s),
    ensures
        keys_increasing(live(s, now_ms)),
    decreases s.len(),
{
    if s.len() > 0 {
        let t = s.drop_last();
        assert(keys_increasing(t));
        lemma_live_sorted(t, now_ms);
        lemma_live_members(t, now_ms);
        let l = live(s, now_ms);
        let lt = live(t, now_ms);
        if s.last().1.expires_at_ms > now_ms {
            assert forall|a: int, b: int| 0 <= a < b < l.len() implies l[a].0 < l[b].0 by {
                assert(l[a] == lt[a]);
                if b == l.len() - 1 {
                    let j = choose|j: int| 0 <= j < t.len() && lt[a] == t[j];
                    assert(t[j] == s[j]);
                    assert(s[j].0 < s[s.len() - 1].0);
                } else {
                    assert(l[b] == lt[b]);
                }
            }
        }
    }
}

proof fn lemma_live(s: Seq<(u128, Slot)>, now_ms: i64)
    ensures
        live(s, now_ms).len() <= s.len(),
        forall|i: int|
            0 <= i < live(s, now_ms).len() ==> exists|j: int|
                0 <= j < s.len() && #[trigger] live(s, now_ms)[i] == s[j],
        all_live(live(s, now_ms), now_ms),
        keys_increasing(s) ==> keys_increasing(live(s, now_ms)),
{
    lemma_live_members(s, now_ms);
    lemma_live_expiry(s, now_ms);
    if keys_increasing(s) {
        lemma_live_sorted(s, now_ms);
    }
}

proof fn lemma_queue_ordered_push(q: Seq<PairingServiceDelivery>, next: u64, d: PairingServiceDelivery)
    requires
        queue_ordered(q, next),
        d.sequence == next,
        next < u64::MAX,
    ensures
        queue_ordered(q.push(d), (next + 1) as u64),
{
    let n = q.push(d);
    assert forall|i: int, j: int| 0 <= i < j < n.len() implies n[i].sequence < n[j].sequence by {
        assert(n[i] == q[i]);
        if j < q.len() {
            assert(n[j] == q[j]);
        }
    }
    assert forall|i: int| 0 <= i < n.len() implies #[trigger] n[i].sequence < next + 1 by {
        if i < q.len() {
            assert(n[i] == q[i]);
        }
    }
}

proof fn lemma_queue_ordered_drop_acked(q: Seq<PairingServiceDelivery>, next: u64, up_to: u64)
    requires
        queue_ordered(q, next),
    ensures
        queue_ordered(drop_acked(q, up_to), next),
    decreases q.len(),
{
    if q.len() > 0 && q[0].sequence <= up_to {
        let t = q.drop_first();
        assert forall|i: int| 0 <= i < t.len() implies t[i] == q[i + 1] by {}
        assert(queue_ordered(t, next));
        lemma_queue_ordered_drop_acked(t, next, up_to);
    }
}

proof fn lemma_one_slot_changed(p: Seq<(u128, Slot)>, new: Seq<(u128, Slot)>, j: int, t: i64)
    requires
        0 <= j < p.len(),
        new.len() == p.len(),
        forall|k: int| 0 <= k < p.len() && k != j ==> new[k] == p[k],
        new[j].1.expires_at_ms == p[j].1.expires_at_ms,
    ensures
        queues_ordered(p) && queue_ordered(new[j].1.creator_queue@, new[j].1.next_creator_sequence)
            && queue_ordered(new[j].1.joiner_queue@, new[j].1.next_joiner_sequence)
            ==> queues_ordered(new),
        all_live(p, t) ==> all_live(new, t),
        queues_bounded(p) && new[j].1.creator_queue@.len() <= MAX_QUEUE && new[j].1.joiner_queue@.len()
            <= MAX_QUEUE ==> queues_bounded(new),
{
    assert forall|k: int| 0 <= k < new.len() && k != j implies new[k] == p[k] by {}
    if queues_bounded(p) && new[j].1.creator_queue@.len() <= MAX_QUEUE && new[j].1.joiner_queue@.len()
        <= MAX_QUEUE {
        assert forall|k: int| 0 <= k < new.len() implies (#[trigger] new[k].1.creator_queue@).len()
            <= MAX_QUEUE && new[k].1.joiner_queue@.len() <= MAX_QUEUE by {
            if k != j {
                assert(new[k] == p[k]);
                assert(p[k].1.creator_queue@.len() <= MAX_QUEUE);
            }
        }
    }
    if queues_ordered(p) && queue_ordered(new[j].1.creator_queue@, new[j].1.next_creator_sequence)
        && queue_ordered(new[j].1.joiner_queue@, new[j].1.next_joiner_sequence) {
        assert forall|k: int| 0 <= k < new.len() implies queue_ordered(
            #[trigger] new[k].1.creator_queue@,
            new[k].1.next_creator_sequence,
        ) && queue_ordered(new[k].1.joiner_queue@, new[k].1.next_joiner_sequence) by {
            if k != j {
                assert(new[k] == p[k]);
                assert(queue_ordered(p[k].1.creator_queue@, p[k].1.next_creator_sequence));
            }
        }
    }
    if all_live(p, t) {
        assert forall|k: int| 0 <= k < new.len() implies #[trigger] new[k].1.expires_at_ms > t by {
            if k != j {
                assert(new[k] == p[k]);
            }
            assert(p[k].1.expires_at_ms > t);
        }
    }
}

proof fn lemma_removed_keeps(p: Seq<(u128, Slot)>, i: int, t: i64)
    requires
        0 <= i < p.len(),
    ensures
        queues_ordered(p) ==> queues_ordered(p.remove(i)),
        all_live(p, t) ==> all_live(p.remove(i), t),
        queues_bounded(p) ==> queues_bounded(p.remove(i)),
{
    let new = p.remove(i);
    if queues_bounded(p) {
        assert forall|k: int| 0 <= k < new.len() implies (#[trigger] new[k].1.creator_queue@).len()
            <= MAX_QUEUE && new[k].1.joiner_queue@.len() <= MAX_QUEUE by {
            let m = if k < i { k } else { k + 1 };
            assert(new[k] == p[m]);
            assert(p[m].1.creator_queue@.len() <= MAX_QUEUE);
        }
    }
    assert forall|k: int| 0 <= k < new.len() implies new[k] == p[if k < i { k } else { k + 1 }] by {}
    if queues_ordered(p) {
        assert forall|k: int| 0 <= k < new.len() implies queue_ordered(
            #[trigger] new[k].1.creator_queue@,
            new[k].1.next_creator_sequence,
        ) && queue_ordered(new[k].1.joiner_queue@, new[k].1.next_joiner_sequence) by {
            let m = if k < i { k } else { k + 1 };
            assert(new[k] == p[m]);
            assert(queue_ordered(p[m].1.creator_queue@, p[m].1.next_creator_sequence));
        }
    }
    if all_live(p, t) {
        assert forall|k: int| 0 <= k < new.len() implies #[trigger] new[k].1.expires_at_ms > t by {
            let m = if k < i { k } else { k + 1 };
            assert(new[k] == p[m]);
            assert(p[m].1.expires_at_ms > t);
        }
    }
}

pub(crate) proof fn lemma_open_keeps(
    p: Seq<(u128, Slot)>,
    new: Seq<(u128, Slot)>,
    r: PairingServiceResponse,
    code: Seq<char>,
    expires_at_ms: i64,
    creator_blob: Seq<u8>,
    capability: u128,
    creator_token: u128,
    ticket: [u8; 16],
    slot_id: u128,
)
    requires
        open_post(p, new, r, code, expires_at_ms, creator_blob, capability, creator_token, ticket, slot_id),
    ensures
        queues_ordered(p) ==> queues_ordered(new),
        queues_bounded(p) ==> queues_bounded(new),
{
    if queues_bounded(p) {
        assert forall|i: int| 0 <= i < new.len() implies (#[trigger] new[i].1.creator_queue@).len()
            <= MAX_QUEUE && new[i].1.joiner_queue@.len() <= MAX_QUEUE by {
            let k = new[i].0;
            lemma_index_of_unique(new, k, i);
            if k != slot_id {
                lemma_index_of(p, k);
                assert(index_of(new, k) >= 0);
                let m = index_of(p, k);
                assert(new[index_of(new, k)] == p[m]);
                assert(p[m].1.creator_queue@.len() <= MAX_QUEUE);
            }
        }
    }
    if queues_ordered(p) {
        assert forall|i: int| 0 <= i < new.len() implies queue_ordered(
            #[trigger] new[i].1.creator_queue@,
            new[i].1.next_creator_sequence,
        ) && queue_ordered(new[i].1.joiner_queue@, new[i].1.next_joiner_sequence) by {
            let k = new[i].0;
            lemma_index_of_unique(new, k, i);
            if k != slot_id {
                lemma_index_of(p, k);
                assert(index_of(new, k) >= 0);
                let m = index_of(p, k);
                assert(new[index_of(new, k)] == p[m]);
                assert(queue_ordered(p[m].1.creator_queue@, p[m].1.next_creator_sequence));
            }
        }
    }
}

proof fn lemma_join_keeps(
    p: Seq<(u128, Slot)>,
    new: Seq<(u128, Slot)>,
    r: PairingServiceResponse,
    code: Seq<char>,
    joiner_blob: Vec<u8>,
    joiner_token: u128,
    ticket: Option<[u8; 16]>,
    now_ms: i64,
    max_blob_len: usize,
    message_id: u128,
    t: i64,
)
    requires
        join_post(p, new, r, code, joiner_blob, joiner_token, ticket, now_ms, max_blob_len, message_id),
    ensures
        queues_ordered(p) && push_sequences_available(p) ==> queues_ordered(new),
        all_live(p, t) ==> all_live(new, t),
        queues_bounded(p) ==> queues_bounded(new),
{
    lemma_first_joinable(p, code, ticket, now_ms, max_blob_len);
    let j = first_joinable(p, code, ticket, now_ms, max_blob_len);
    if j >= 0 && !(joiner_blob@.len() > max_blob_len || p[j].1.creator_queue@.len() >= MAX_QUEUE) {
        let old_slot = p[j].1;
        if queues_ordered(p) && push_sequences_available(p) {
            assert(queue_ordered(old_slot.creator_queue@, old_slot.next_creator_sequence));
            assert(old_slot.next_creator_sequence < u64::MAX);
            lemma_queue_ordered_push(
                old_slot.creator_queue@,
                old_slot.next_creator_sequence,
                PairingServiceDelivery { sequence: old_slot.next_creator_sequence, message_id, blob: joiner_blob },
            );
        }
        if queues_bounded(p) {
            assert(old_slot.joiner_queue@.len() <= MAX_QUEUE);
        }
        lemma_one_slot_changed(p, new, j, t);
    }
}

proof fn lemma_push_keeps(
    p: Seq<(u128, Slot)>,
    new: Seq<(u128, Slot)>,
    r: PairingServiceResponse,
    message_id: u128,
    slot_id: u128,
    token: u128,
    blob: Vec<u8>,
    t: i64,
)
    requires
        push_post(p, new, r, message_id, slot_id, token, blob),
        push_sequences_available(p),
    ensures
        queues_ordered(p) ==> queues_ordered(new),
        all_live(p, t) ==> all_live(new, t),
        queues_bounded(p) ==> queues_bounded(new),
{
    lemma_index_of(p, slot_id);
    let i = index_of(p, slot_id);
    if i >= 0 && authorized(p[i].1, token) {
        let old_slot = p[i].1;
        if queues_bounded(p) {
            assert(old_slot.creator_queue@.len() <= MAX_QUEUE);
        }
        let from_creator = old_slot.creator_token == token;
        let target_len = if from_creator {
            old_slot.joiner_queue@.len()
        } else {
            old_slot.creator_queue@.len()
        };
        if target_len < MAX_QUEUE {
            assert(old_slot.next_creator_sequence < u64::MAX);
            if queues_ordered(p) {
                assert(queue_ordered(old_slot.creator_queue@, old_slot.next_creator_sequence));
                if from_creator {
                    lemma_queue_ordered_push(
                        old_slot.joiner_queue@,
                        old_slot.next_joiner_sequence,
                        PairingServiceDelivery { sequence: old_slot.next_joiner_sequence, message_id, blob },
                    );
                } else {
                    lemma_queue_ordered_push(
                        old_slot.creator_queue@,
                        old_slot.next_creator_sequence,
                        PairingServiceDelivery { sequence: old_slot.next_creator_sequence, message_id, blob },
                    );
                }
            }
            lemma_one_slot_changed(p, new, i, t);
        }
    }
}

proof fn lemma_ack_keeps(
    p: Seq<(u128, Slot)>,
    new: Seq<(u128, Slot)>,
    r: PairingServiceResponse,
    slot_id: u128,
    token: u128,
    up_to: u64,
    t: i64,
)
    requires
        ack_post(p, new, r, slot_id, token, up_to),
    ensures
        queues_ordered(p) ==> queues_ordered(new),
        all_live(p, t) ==> all_live(new, t),
        queues_bounded(p) ==> queues_bounded(new),
{
    lemma_index_of(p, slot_id);
    let i = index_of(p, slot_id);
    if i >= 0 && authorized(p[i].1, token) {
        let old_slot = p[i].1;
        if queues_bounded(p) {
            assert(old_slot.creator_queue@.len() <= MAX_QUEUE);
            lemma_drop_acked_shrinks(old_slot.creator_queue@, up_to);
            lemma_drop_acked_shrinks(old_slot.joiner_queue@, up_to);
        }
        if queues_ordered(p) {
            assert(queue_ordered(old_slot.creator_queue@, old_slot.next_creator_sequence));
            lemma_queue_ordered_drop_acked(old_slot.creator_queue@, old_slot.next_creator_sequence, up_to);
            lemma_queue_ordered_drop_acked(old_slot.joiner_queue@, old_slot.next_joiner_sequence, up_to);
        }
        lemma_one_slot_changed(p, new, i, t);
    }
}

pub(crate) proof fn lemma_close_keeps(
    p: Seq<(u128, Slot)>,
    new: Seq<(u128, Slot)>,
    r: PairingServiceResponse,
    slot_id: u128,
    capability: u128,
    t: i64,
)
    requires
        close_post(p, new, r, slot_id, capability),
    ensures
        queues_ordered(p) ==> queues_ordered(new),
        all_live(p, t) ==> all_live(new, t),
        queues_bounded(p) ==> queues_bounded(new),
{
    lemma_index_of(p, slot_id);
    let i = index_of(p, slot_id);
    if i >= 0 && p[i].1.capability == capability {
        lemma_removed_keeps(p, i, t);
    }
}

/// Dropping expired slots keeps every queue within bounds.
pub(crate) proof fn lemma_live_bounded(s: Seq<(u128, Slot)>, now_ms: i64)
    ensures
        queues_bounded(s) ==> queues_bounded(live(s, now_ms)),
{
    lemma_live(s, now_ms);
    let l = live(s, now_ms);
    if queues_bounded(s) {
        assert forall|i: int| 0 <= i < l.len() implies (#[trigger] l[i].1.creator_queue@).len()
            <= MAX_QUEUE && l[i].1.joiner_queue@.len() <= MAX_QUEUE by {
            let j = choose|j: int| 0 <= j < s.len() && l[i] == s[j];
            assert(s[j].1.creator_queue@.len() <= MAX_QUEUE);
        }
    }
}

/// A local push keeps every queue within bounds.
pub(crate) proof fn lemma_local_push_bounded(
    p: Seq<(u128, Slot)>,
    new: Seq<(u128, Slot)>,
    r: Result<(), ()>,
    slot_id: u128,
    token: u128,
    message_id: u128,
    blob: Vec<u8>,
)
    requires
        local_push_post(p, new, r, slot_id, token, message_id, blob),
    ensures
        queues_bounded(p) ==> queues_bounded(new),
{
    let i = index_of(p, slot_id);
    lemma_index_of(p, slot_id);
    if i >= 0 && r is Ok {
        if queues_bounded(p) {
            assert(p[i].1.creator_queue@.len() <= MAX_QUEUE);
        }
        lemma_one_slot_changed(p, new, i, 0);
    }
}

/// A local acknowledgement keeps every queue within bounds.
pub(crate) proof fn lemma_local_ack_bounded(
    p: Seq<(u128, Slot)>,
    new: Seq<(u128, Slot)>,
    r: Result<(), ()>,
    slot_id: u128,
    token: u128,
    up_to: u64,
)
    requires
        local_ack_post(p, new, r, slot_id, token, up_to),
    ensures
        queues_bounded(p) ==> queues_bounded(new),
{
    let i = index_of(p, slot_id);
    lemma_index_of(p, slot_id);
    if i >= 0 {
        let old_slot = p[i].1;
        if queues_bounded(p) {
            assert(old_slot.creator_queue@.len() <= MAX_QUEUE);
            lemma_drop_acked_shrinks(old_slot.creator_queue@, up_to);
            lemma_drop_acked_shrinks(old_slot.joiner_queue@, up_to);
        }
        lemma_one_slot_changed(p, new, i, 0);
    }
}

proof fn lemma_drop_acked_shrinks(q: Seq<PairingServiceDelivery>, up_to: u64)
    ensures
        drop_acked(q, up_to).len() <= q.len(),
    decreases q.len(),
{
    if q.len() > 0 && q[0].sequence <= up_to {
        lemma_drop_acked_shrinks(q.drop_first(), up_to);
    }
}

proof fn lemma_absent_index(s: Seq<(u128, Slot)>, k: u128)
    requires
        forall|i: int| 0 <= i < s.len() ==> s[i].0 != k,
    ensures
        index_of(s, k) == -1,
{
    lemma_index_of(s, k);
}

proof fn lemma_sorted_insert(p: Seq<(u128, Slot)>, pos: int, e: (u128, Slot))
    requires
        keys_increasing(p),
        0 <= pos <= p.len(),
        forall|i: int| 0 <= i < pos ==> p[i].0 < e.0,
        forall|i: int| pos <= i < p.len() ==> p[i].0 > e.0,
    ensures
        keys_increasing(p.insert(pos, e)),
        index_of(p.insert(pos, e), e.0) == pos,
        index_of(p, e.0) == -1,
        same_except(p, p.insert(pos, e), e.0),
{
    let new = p.insert(pos, e);
    assert forall|a: int, b: int| 0 <= a < b < new.len() implies new[a].0 < new[b].0 by {
        if a < pos {
            assert(new[a] == p[a]);
            if b == pos {
            } else if b < pos {
                assert(new[b] == p[b]);
            } else {
                assert(new[b] == p[b - 1]);
            }
        } else if a == pos {
            assert(new[b] == p[b - 1]);
        } else {
            assert(new[a] == p[a - 1]);
            assert(new[b] == p[b - 1]);
        }
    }
    lemma_index_of_unique(new, e.0, pos);
    lemma_absent_index(p, e.0);
    assert forall|k: u128| k != e.0 implies {
        &&& (index_of(new, k) >= 0) == (index_of(p, k) >= 0)
        &&& index_of(p, k) >= 0 ==> new[index_of(new, k)] == p[index_of(p, k)]
    } by {
        lemma_index_of(p, k);
        let m = index_of(p, k);
        if m >= 0 {
            let m2 = if m < pos { m } else { m + 1 };
            assert(new[m2] == p[m]);
            lemma_index_of_unique(new, k, m2);
        } else {
            assert forall|i: int| 0 <= i < new.len() implies new[i].0 != k by {
                if i < pos {
                    assert(new[i] == p[i]);
                } else if i > pos {
                    assert(new[i] == p[i - 1]);
                }
            }
            lemma_absent_index(new, k);
        }
    }
}

proof fn lemma_sorted_replace(p: Seq<(u128, Slot)>, pos: int, e: (u128, Slot))
    requires
        keys_increasing(p),
        0 <= pos < p.len(),
        p[pos].0 == e.0,
    ensures
        keys_increasing(p.update(pos, e)),
        index_of(p.update(pos, e), e.0) == pos,
        index_of(p, e.0) == pos,
        same_except(p, p.update(pos, e), e.0),
{
    let new = p.update(pos, e);
    assert(keys_increasing(new));
    lemma_index_of_unique(new, e.0, pos);
    lemma_index_of_unique(p, e.0, pos);
    assert forall|k: u128| k != e.0 implies {
        &&& (index_of(new, k) >= 0) == (index_of(p, k) >= 0)
        &&& index_of(p, k) >= 0 ==> new[index_of(new, k)] == p[index_of(p, k)]
    } by {
        lemma_index_of(p, k);
        let m = index_of(p, k);
        if m >= 0 {
            assert(m != pos);
            assert(new[m] == p[m]);
            lemma_index_of_unique(new, k, m);
        } else {
            assert forall|i: int| 0 <= i < new.len() implies new[i].0 != k by {
                if i != pos {
                    assert(new[i] == p[i]);
                }
            }
            lemma_absent_index(new, k);
        }
    }
}

proof fn lemma_first_joinable(
    s: Seq<(u128, Slot)>,
    code: Seq<char>,
    ticket: Option<[u8; 16]>,
    now_ms: i64,
    max_blob_len: usize,
)
    ensures
        -1 <= first_joinable(s, code, ticket, now_ms, max_blob_len) < s.len(),
        first_joinable(s, code, ticket, now_ms, max_blob_len) >= 0 ==> joinable(
            s[first_joinable(s, code, ticket, now_ms, max_blob_len)].1,
            code,
            ticket,
            now_ms,
            max_blob_len,
        ),
        forall|i: int|
            0 <= i < s.len() && (first_joinable(s, code, ticket, now_ms, max_blob_len) < 0 || i
                < first_joinable(s, code, ticket, now_ms, max_blob_len)) ==> !joinable(
                #[trigger] s[i].1,
                code,
                ticket,
                now_ms,
                max_blob_len,
            ),
    decreases s.len(),
{
    if s.len() > 0 {
        lemma_first_joinable(s.drop_last(), code, ticket, now_ms, max_blob_len);
        assert forall|i: int| 0 <= i < s.len() - 1 implies s.drop_last()[i] == s[i] by {}
    }
}

proof fn lemma_deliveries_after_step(q: Seq<PairingServiceDelivery>, i: int, after: u64)
    requires
        0 <= i < q.len(),
    ensures
        deliveries_after(q.subrange(0, i + 1), after) == if q[i].sequence > after {
            deliveries_after(q.subrange(0, i), after).push(q[i])
        } else {
            deliveries_after(q.subrange(0, i), after)
        },
{
    assert(q.subrange(0, i + 1).drop_last() =~= q.subrange(0, i));
}

proof fn lemma_drop_acked_step(q: Seq<PairingServiceDelivery>, up_to: u64)
    requires
        q.len() > 0,
        q[0].sequence <= up_to,
    ensures
        drop_acked(q, up_to) == drop_acked(q.remove(0), up_to),
{
    assert(q.drop_first() =~= q.remove(0));
}

pub(crate) fn clone_bytes(v: &Vec<u8>) -> (r: Vec<u8>)
    ensures
        r@ == v@,
{
    let mut r: Vec<u8> = Vec::new();
    let mut i: usize = 0;
    while i < v.len()
        invariant
            i <= v@.len(),
            r@ == v@.subrange(0, i as int),
        decreases v@.len() - i,
    {
        r.push(v[i]);
        i = i + 1;
        assert(r@ =~= v@.subrange(0, i as int));
    }
    assert(r@ =~= v@);
    r
}

fn tickets_equal(a: &[u8; 16], b: &[u8; 16]) -> (r: bool)
    ensures
        r == (a@ == b@),
{
    let mut i: usize = 0;
    while i < 16
        invariant
            i <= 16,
            a@.len() == 16,
            b@.len() == 16,
            forall|k: int| 0 <= k < i ==> a@[k] == b@[k],
        decreases 16 - i,
    {
        if a[i] != b[i] {
            return false;
        }
        i = i + 1;
    }
    assert(a@ =~= b@);
    true
}

/// The pairing slot server.
pub struct PairingSlotServer {
    entries: Vec<(u128, Slot)>,
    max_blob_len: usize,
}

impl PairingSlotServer {
    /// The slots, in key order.
    pub closed spec fn slots(&self) -> Seq<(u128, Slot)> {
        self.entries@
    }

    /// Largest blob a creator or joiner may hand to the server.
    pub closed spec fn blob_limit(&self) -> usize {
        self.max_blob_len
    }

    pub closed spec fn wf(&self) -> bool {
        keys_increasing(self.entries@)
    }

    /// An empty server accepting blobs up to `max_blob_len` bytes.
    pub fn new(max_blob_len: usize) -> (r: Self)
        ensures
            r.wf(),
            r.slots().len() == 0,
            r.blob_limit() == max_blob_len,
    {
        PairingSlotServer { entries: Vec::new(), max_blob_len }
    }

    pub fn len(&self) -> (r: usize)
        ensures
            r == self.slots().len(),
    {
        self.entries.len()
    }

    /// Whether a slot is stored under `slot_id`.
    pub fn contains(&self, slot_id: u128) -> (r: bool)
        requires
            self.wf(),
        ensures
            r == (index_of(self.slots(), slot_id) >= 0),
    {
        self.find_slot(slot_id).is_some()
    }

    fn find_slot(&self, slot_id: u128) -> (r: Option<usize>)
        requires
            self.wf(),
        ensures
            match r {
                Some(i) => i < self.entries@.len() && index_of(self.entries@, slot_id) == i as int,
                None => index_of(self.entries@, slot_id) == -1,
            },
    {
        let mut i: usize = 0;
        while i < self.entries.len()
            invariant
                i <= self.entries@.len(),
                keys_increasing(self.entries@),
                forall|k: int| 0 <= k < i ==> self.entries@[k].0 != slot_id,
            decreases self.entries@.len() - i,
        {
            if self.entries[i].0 == slot_id {
                proof {
                    lemma_index_of_unique(self.entries@, slot_id, i as int);
                }
                return Some(i);
            }
            i = i + 1;
        }
        proof {
            lemma_absent_index(self.entries@, slot_id);
        }
        None
    }

    /// Opens a fresh slot under `slot_id`.
    pub fn open(
        &mut self,
        code: String,
        expires_at_ms: i64,
        creator_blob: Vec<u8>,
        capability: u128,
        creator_token: u128,
        ticket: [u8; 16],
        slot_id: u128,
    ) -> (r: PairingServiceResponse)
        requires
            old(self).wf(),
        ensures
            final(self).wf(),
            final(self).blob_limit() == old(self).blob_limit(),
            open_post(
                old(self).slots(),
                final(self).slots(),
                r,
                code@,
                expires_at_ms,
                creator_blob@,
                capability,
                creator_token,
                ticket,
                slot_id,
            ),
    {
        let ghost p = self.entries@;
        let mut pos: usize = 0;
        while pos < self.entries.len() && self.entries[pos].0 < slot_id
            invariant
                pos <= self.entries@.len(),
                self.entries@ == p,
                forall|i: int| 0 <= i < pos ==> p[i].0 < slot_id,
            decreases self.entries@.len() - pos,
        {
            pos = pos + 1;
        }
        let slot = Slot {
            code,
            expires_at_ms,
            creator_blob,
            ticket,
            capability,
            creator_token,
            joiner_token: None,
            creator_queue: Vec::new(),
            joiner_queue: Vec::new(),
            next_creator_sequence: 1,
            next_joiner_sequence: 1,
        };
        if pos < self.entries.len() && self.entries[pos].0 == slot_id {
            let _ = self.entries.remove(pos);
            self.entries.insert(pos, (slot_id, slot));
            proof {
                assert(self.entries@ =~= p.update(pos as int, (slot_id, self.entries@[pos as int].1)));
                lemma_sorted_replace(p, pos as int, self.entries@[pos as int]);
            }
        } else {
            self.entries.insert(pos, (slot_id, slot));
            proof {
                assert forall|i: int| pos <= i < p.len() implies p[i].0 > slot_id by {
                    assert(p[pos as int].0 >= slot_id);
                    if i > pos {
                        assert(p[pos as int].0 < p[i].0);
                    }
                }
                lemma_sorted_insert(p, pos as int, self.entries@[pos as int]);
            }
        }
        PairingServiceResponse::Opened { slot_id, expires_at_ms }
    }

    fn is_joinable(&self, i: usize, code: &String, ticket: &Option<[u8; 16]>, now_ms: i64) -> (r: bool)
        requires
            i < self.entries@.len(),
        ensures
            r == joinable(self.entries@[i as int].1, code@, *ticket, now_ms, self.max_blob_len),
    {
        let slot = &self.entries[i].1;
        if !crate::text::str_eq(slot.code.as_str(), code.as_str()) || slot.joiner_token.is_some()
            || slot.creator_blob.len() > self.max_blob_len || slot.expires_at_ms < now_ms {
            return false;
        }
        match ticket {
            Some(t) => tickets_equal(&slot.ticket, t),
            None => true,
        }
    }

    fn find_joinable(&self, code: &String, ticket: &Option<[u8; 16]>, now_ms: i64) -> (r: Option<usize>)
        ensures
            match r {
                Some(i) => i < self.entries@.len() && first_joinable(self.entries@, code@, *ticket, now_ms, self.max_blob_len) == i as int,
                None => first_joinable(self.entries@, code@, *ticket, now_ms, self.max_blob_len) == -1,
            },
    {
        let mut i: usize = 0;
        while i < self.entries.len()
            invariant
                i <= self.entries@.len(),
                forall|k: int| 0 <= k < i ==> !joinable(#[trigger] self.entries@[k].1, code@, *ticket, now_ms, self.max_blob_len),
            decreases self.entries@.len() - i,
        {
            if self.is_joinable(i, code, ticket, now_ms) {
                proof {
                    lemma_first_joinable(self.entries@, code@, *ticket, now_ms, self.max_blob_len);
                }
                return Some(i);
            }
            i = i + 1;
        }
        proof {
            lemma_first_joinable(self.entries@, code@, *ticket, now_ms, self.max_blob_len);
        }
        None
    }

    /// Claims the first joinable slot for a joiner; the joiner's blob is the
    /// creator's first delivery.
    pub fn join(
        &mut self,
        code: String,
        joiner_blob: Vec<u8>,
        joiner_token: u128,
        ticket: Option<[u8; 16]>,
        now_ms: i64,
        message_id: u128,
    ) -> (r: PairingServiceResponse)
        requires
            old(self).wf(),
        ensures
            final(self).wf(),
            final(self).blob_limit() == old(self).blob_limit(),
            join_post(
                old(self).slots(),
                final(self).slots(),
                r,
                code@,
                joiner_blob,
                joiner_token,
                ticket,
                now_ms,
                old(self).blob_limit(),
                message_id,
            ),
    {
        let ghost p = self.entries@;
        let j = match self.find_joinable(&code, &ticket, now_ms) {
            None => return PairingServiceResponse::Error(PairingServiceProtocolError::SlotNotFound),
            Some(j) => j,
        };
        if joiner_blob.len() > self.max_blob_len || self.entries[j].1.creator_queue.len() >= MAX_QUEUE {
            return PairingServiceResponse::Error(PairingServiceProtocolError::QueueFull);
        }
        let (key, mut slot) = self.entries.remove(j);
        let ghost old_slot = slot;
        slot.joiner_token = Some(joiner_token);
        let sequence = slot.next_creator_sequence;
        slot.next_creator_sequence = sequence.saturating_add(1);
        let expires_at_ms = slot.expires_at_ms;
        let creator_blob = clone_bytes(&slot.creator_blob);
        slot.creator_queue.push(PairingServiceDelivery { sequence, message_id, blob: joiner_blob });
        self.entries.insert(j, (key, slot));
        proof {
            assert(self.entries@ =~= p.update(j as int, (key, self.entries@[j as int].1)));
            assert(keys_increasing(self.entries@));
        }
        PairingServiceResponse::Joined { slot_id: key, expires_at_ms, creator_blob }
    }

    /// Queues a blob from one side of a slot for the other side.
    pub fn push(
        &mut self,
        message_id: u128,
        slot_id: u128,
        token: u128,
        blob: Vec<u8>,
    ) -> (r: PairingServiceResponse)
        requires
            old(self).wf(),
            push_sequences_available(old(self).slots()),
        ensures
            final(self).wf(),
            final(self).blob_limit() == old(self).blob_limit(),
            push_post(old(self).slots(), final(self).slots(), r, message_id, slot_id, token, blob),
    {
        let ghost p = self.entries@;
        let i = match self.find_slot(slot_id) {
            None => return PairingServiceResponse::Error(PairingServiceProtocolError::SlotNotFound),
            Some(i) => i,
        };
        let from_creator = self.entries[i].1.creator_token == token;
        let joiner_matches = match self.entries[i].1.joiner_token {
            Some(t) => t == token,
            None => false,
        };
        if !from_creator && !joiner_matches {
            return PairingServiceResponse::Error(PairingServiceProtocolError::Unauthorized);
        }
        let target_len = if from_creator {
            self.entries[i].1.joiner_queue.len()
        } else {
            self.entries[i].1.creator_queue.len()
        };
        if target_len >= MAX_QUEUE {
            return PairingServiceResponse::Error(PairingServiceProtocolError::QueueFull);
        }
        assert(p[i as int].1.next_creator_sequence < u64::MAX && p[i as int].1.next_joiner_sequence < u64::MAX);
        let (key, mut slot) = self.entries.remove(i);
        if from_creator {
            let sequence = slot.next_joiner_sequence;
            slot.next_joiner_sequence = sequence + 1;
            slot.joiner_queue.push(PairingServiceDelivery { sequence, message_id, blob });
        } else {
            let sequence = slot.next_creator_sequence;
            slot.next_creator_sequence = sequence + 1;
            slot.creator_queue.push(PairingServiceDelivery { sequence, message_id, blob });
        }
        self.entries.insert(i, (key, slot));
        proof {
            assert(self.entries@ =~= p.update(i as int, (key, self.entries@[i as int].1)));
            assert(keys_increasing(self.entries@));
        }
        PairingServiceResponse::Accepted
    }

    fn clone_deliveries_after(queue: &Vec<PairingServiceDelivery>, after: u64) -> (r: Vec<
        PairingServiceDelivery,
    >)
        ensures
            same_deliveries(r@, deliveries_after(queue@, after)),
    {
        let mut out: Vec<PairingServiceDelivery> = Vec::new();
        let mut i: usize = 0;
        while i < queue.len()
            invariant
                i <= queue@.len(),
                same_deliveries(out@, deliveries_after(queue@.subrange(0, i as int), after)),
            decreases queue@.len() - i,
        {
            proof {
                lemma_deliveries_after_step(queue@, i as int, after);
            }
            let item = &queue[i];
            if item.sequence > after {
                out.push(
                    PairingServiceDelivery {
                        sequence: item.sequence,
                        message_id: item.message_id,
                        blob: clone_bytes(&item.blob),
                    },
                );
            }
            i = i + 1;
        }
        assert(queue@.subrange(0, i as int) =~= queue@);
        out
    }

    /// The caller's own deliveries after `after`.
    pub fn poll(&self, slot_id: u128, token: u128, after: u64) -> (r: PairingServiceResponse)
        requires
            self.wf(),
        ensures
            poll_post(self.slots(), self.slots(), r, slot_id, token, after),
    {
        let i = match self.find_slot(slot_id) {
            None => return PairingServiceResponse::Error(PairingServiceProtocolError::SlotNotFound),
            Some(i) => i,
        };
        let slot = &self.entries[i].1;
        let from_creator = slot.creator_token == token;
        let joiner_matches = match slot.joiner_token {
            Some(t) => t == token,
            None => false,
        };
        if !from_creator && !joiner_matches {
            return PairingServiceResponse::Error(PairingServiceProtocolError::Unauthorized);
        }
        let queue = if from_creator {
            &slot.creator_queue
        } else {
            &slot.joiner_queue
        };
        PairingServiceResponse::Deliveries(PairingSlotServer::clone_deliveries_after(queue, after))
    }

    fn drop_acked_front(queue: &mut Vec<PairingServiceDelivery>, up_to: u64)
        ensures
            final(queue)@ == drop_acked(old(queue)@, up_to),
    {
        while queue.len() > 0 && queue[0].sequence <= up_to
            invariant
                drop_acked(queue@, up_to) == drop_acked(old(queue)@, up_to),
            decreases queue@.len(),
        {
            proof {
                lemma_drop_acked_step(queue@, up_to);
            }
            let _ = queue.remove(0);
        }
    }

    /// Removes the caller's own deliveries up to `up_to` from the front of
    /// its queue.
    pub fn ack(&mut self, slot_id: u128, token: u128, up_to: u64) -> (r: PairingServiceResponse)
        requires
            old(self).wf(),
        ensures
            final(self).wf(),
            final(self).blob_limit() == old(self).blob_limit(),
            ack_post(old(self).slots(), final(self).slots(), r, slot_id, token, up_to),
    {
        let ghost p = self.entries@;
        let i = match self.find_slot(slot_id) {
            None => return PairingServiceResponse::Error(PairingServiceProtocolError::SlotNotFound),
            Some(i) => i,
        };
        let from_creator = self.entries[i].1.creator_token == token;
        let joiner_matches = match self.entries[i].1.joiner_token {
            Some(t) => t == token,
            None => false,
        };
        if !from_creator && !joiner_matches {
            return PairingServiceResponse::Error(PairingServiceProtocolError::Unauthorized);
        }
        let (key, mut slot) = self.entries.remove(i);
        if from_creator {
            PairingSlotServer::drop_acked_front(&mut slot.creator_queue, up_to);
        } else {
            PairingSlotServer::drop_acked_front(&mut slot.joiner_queue, up_to);
        }
        self.entries.insert(i, (key, slot));
        proof {
            assert(self.entries@ =~= p.update(i as int, (key, self.entries@[i as int].1)));
            assert(keys_increasing(self.entries@));
        }
        PairingServiceResponse::Acked(up_to)
    }

    /// Removes a slot, when the capability is the slot's own.
    pub fn close(&mut self, slot_id: u128, capability: u128) -> (r: PairingServiceResponse)
        requires
            old(self).wf(),
        ensures
            final(self).wf(),
            final(self).blob_limit() == old(self).blob_limit(),
            close_post(old(self).slots(), final(self).slots(), r, slot_id, capability),
    {
        let ghost p = self.entries@;
        match self.find_slot(slot_id) {
            Some(i) => {
                if self.entries[i].1.capability == capability {
                    let _ = self.entries.remove(i);
                    proof {
                        assert forall|a: int, b: int| 0 <= a < b < self.entries@.len() implies self.entries@[a].0 < self.entries@[b].0 by {
                            let a2 = if a < i { a } else { a + 1 };
                            let b2 = if b < i { b } else { b + 1 };
                            assert(self.entries@[a] == p[a2]);
                            assert(self.entries@[b] == p[b2]);
                        }
                    }
                    PairingServiceResponse::Closed
                } else {
                    PairingServiceResponse::Error(PairingServiceProtocolError::Unauthorized)
                }
            },
            None => PairingServiceResponse::Error(PairingServiceProtocolError::Unauthorized),
        }
    }

    /// Whether no side of any slot has used up its sequence numbers.
    pub fn sequences_available(&self) -> (r: bool)
        ensures
            r == push_sequences_available(self.slots()),
    {
        let mut i: usize = 0;
        while i < self.entries.len()
            invariant
                i <= self.entries@.len(),
                forall|k: int|
                    0 <= k < i ==> #[trigger] self.entries@[k].1.next_creator_sequence < u64::MAX
                        && self.entries@[k].1.next_joiner_sequence < u64::MAX,
            decreases self.entries@.len() - i,
        {
            let slot = &self.entries[i].1;
            if slot.next_creator_sequence == u64::MAX || slot.next_joiner_sequence == u64::MAX {
                return false;
            }
            i = i + 1;
        }
        true
    }

    /// Queues a blob from this device's own side of a slot: for the joiner
    /// when `token` is the slot's creator token, else for the creator.
    /// Sequence numbers saturate.
    pub fn push_local(&mut self, slot_id: u128, token: u128, message_id: u128, blob: Vec<u8>) -> (r: Result<(), ()>)
        requires
            old(self).wf(),
        ensures
            final(self).wf(),
            final(self).blob_limit() == old(self).blob_limit(),
            local_push_post(old(self).slots(), final(self).slots(), r, slot_id, token, message_id, blob),
    {
        let ghost p = self.entries@;
        let i = match self.find_slot(slot_id) {
            None => return Err(()),
            Some(i) => i,
        };
        let from_creator = self.entries[i].1.creator_token == token;
        let target_len = if from_creator {
            self.entries[i].1.joiner_queue.len()
        } else {
            self.entries[i].1.creator_queue.len()
        };
        if target_len >= MAX_QUEUE {
            return Err(());
        }
        let (key, mut slot) = self.entries.remove(i);
        if from_creator {
            let sequence = slot.next_joiner_sequence;
            slot.next_joiner_sequence = sequence.saturating_add(1);
            slot.joiner_queue.push(PairingServiceDelivery { sequence, message_id, blob });
        } else {
            let sequence = slot.next_creator_sequence;
            slot.next_creator_sequence = sequence.saturating_add(1);
            slot.creator_queue.push(PairingServiceDelivery { sequence, message_id, blob });
        }
        self.entries.insert(i, (key, slot));
        proof {
            assert(self.entries@ =~= p.update(i as int, (key, self.entries@[i as int].1)));
            assert(keys_increasing(self.entries@));
        }
        Ok(())
    }

    /// This device's own deliveries after `after`: the creator's queue when
    /// `token` is the slot's creator token, else the joiner's.
    pub fn poll_local(&self, slot_id: u128, token: u128, after: u64) -> (r: Result<Vec<PairingSessionDelivery>, ()>)
        requires
            self.wf(),
        ensures
            local_poll_post(self.slots(), r, slot_id, token, after),
    {
        let i = match self.find_slot(slot_id) {
            None => return Err(()),
            Some(i) => i,
        };
        let slot = &self.entries[i].1;
        let queue = if slot.creator_token == token {
            &slot.creator_queue
        } else {
            &slot.joiner_queue
        };
        let mut out: Vec<PairingSessionDelivery> = Vec::new();
        let mut k: usize = 0;
        while k < queue.len()
            invariant
                k <= queue@.len(),
                session_deliveries_are(out@, deliveries_after(queue@.subrange(0, k as int), after)),
            decreases queue@.len() - k,
        {
            proof {
                lemma_deliveries_after_step(queue@, k as int, after);
            }
            let item = &queue[k];
            if item.sequence > after {
                out.push(PairingSessionDelivery { sequence: item.sequence, blob: clone_bytes(&item.blob) });
            }
            k = k + 1;
        }
        assert(queue@.subrange(0, k as int) =~= queue@);
        Ok(out)
    }

    /// Drops this device's own deliveries up to `up_to` from the front of
    /// its queue.
    pub fn ack_local(&mut self, slot_id: u128, token: u128, up_to: u64) -> (r: Result<(), ()>)
        requires
            old(self).wf(),
        ensures
            final(self).wf(),
            final(self).blob_limit() == old(self).blob_limit(),
            local_ack_post(old(self).slots(), final(self).slots(), r, slot_id, token, up_to),
    {
        let ghost p = self.entries@;
        let i = match self.find_slot(slot_id) {
            None => return Err(()),
            Some(i) => i,
        };
        let from_creator = self.entries[i].1.creator_token == token;
        let (key, mut slot) = self.entries.remove(i);
        if from_creator {
            PairingSlotServer::drop_acked_front(&mut slot.creator_queue, up_to);
        } else {
            PairingSlotServer::drop_acked_front(&mut slot.joiner_queue, up_to);
        }
        self.entries.insert(i, (key, slot));
        proof {
            assert(self.entries@ =~= p.update(i as int, (key, self.entries@[i as int].1)));
            assert(keys_increasing(self.entries@));
        }
        Ok(())
    }

    /// Serves one request: expired slots are purged first, then the request
    /// is applied to the live slots. `fresh_id` is the random identifier of
    /// an opened slot or of the delivery a join queues.
    pub fn process_request(
        &mut self,
        request: PairingServiceRequest,
        now_ms: i64,
        fresh_id: u128,
    ) -> (r: PairingServiceResponse)
        requires
            old(self).wf(),
            request is Push ==> push_sequences_available(old(self).slots()),
        ensures
            final(self).wf(),
            final(self).blob_limit() == old(self).blob_limit(),
            !(request is Open) ==> all_live(final(self).slots(), now_ms),
            queues_ordered(old(self).slots()) && push_sequences_available(old(self).slots())
                ==> queues_ordered(final(self).slots()),
            queues_bounded(old(self).slots()) ==> queues_bounded(final(self).slots()),
            request_post(
                live(old(self).slots(), now_ms),
                final(self).slots(),
                r,
                request,
                now_ms,
                old(self).blob_limit(),
                fresh_id,
            ),
    {
        let ghost before = self.entries@;
        let ghost req = request;
        self.purge_expired_slots(now_ms);
        let ghost mid = self.entries@;
        proof {
            lemma_live(before, now_ms);
            if push_sequences_available(before) {
                assert forall|i: int| 0 <= i < mid.len() implies #[trigger] mid[i].1.next_creator_sequence
                    < u64::MAX && mid[i].1.next_joiner_sequence < u64::MAX by {
                    let j = choose|j: int| 0 <= j < before.len() && mid[i] == before[j];
                    assert(before[j].1.next_creator_sequence < u64::MAX);
                }
            }
            if queues_bounded(before) {
                assert forall|i: int| 0 <= i < mid.len() implies (#[trigger] mid[i].1.creator_queue@).len()
                    <= MAX_QUEUE && mid[i].1.joiner_queue@.len() <= MAX_QUEUE by {
                    let j = choose|j: int| 0 <= j < before.len() && mid[i] == before[j];
                    assert(before[j].1.creator_queue@.len() <= MAX_QUEUE);
                }
            }
            if queues_ordered(before) {
                assert forall|i: int| 0 <= i < mid.len() implies queue_ordered(
                    #[trigger] mid[i].1.creator_queue@,
                    mid[i].1.next_creator_sequence,
                ) && queue_ordered(mid[i].1.joiner_queue@, mid[i].1.next_joiner_sequence) by {
                    let j = choose|j: int| 0 <= j < before.len() && mid[i] == before[j];
                    assert(queue_ordered(before[j].1.creator_queue@, before[j].1.next_creator_sequence));
                }
            }
        }
        let r = match request {
            PairingServiceRequest::Open {
                operation_id: _,
                code,
                expires_at_ms,
                creator_blob,
                slot_capability,
                creator_token,
                ticket,
            } => self.open(
                code,
                expires_at_ms,
                creator_blob,
                slot_capability,
                creator_token,
                ticket,
                fresh_id,
            ),
            PairingServiceRequest::Join { operation_id: _, code, joiner_blob, joiner_token, ticket } =>
                self.join(code, joiner_blob, joiner_token, ticket, now_ms, fresh_id),
            PairingServiceRequest::Push { operation_id: _, message_id, slot_id, token, blob } =>
                self.push(message_id, slot_id, token, blob),
            PairingServiceRequest::Poll { slot_id, token, after } => self.poll(slot_id, token, after),
            PairingServiceRequest::Ack { slot_id, token, up_to } => self.ack(slot_id, token, up_to),
            PairingServiceRequest::Close { slot_id, capability } => self.close(slot_id, capability),
            PairingServiceRequest::Health => PairingServiceResponse::Healthy,
            PairingServiceRequest::Info => PairingServiceResponse::Info(
                "torca-iroh".to_owned(),
                "direct".to_owned(),
                "direct".to_owned(),
            ),
        };
        proof {
            let new = self.entries@;
            match req {
                PairingServiceRequest::Open {
                    code,
                    expires_at_ms,
                    creator_blob,
                    slot_capability,
                    creator_token,
                    ticket,
                    ..
                } => lemma_open_keeps(
                    mid,
                    new,
                    r,
                    code@,
                    expires_at_ms,
                    creator_blob@,
                    slot_capability,
                    creator_token,
                    ticket,
                    fresh_id,
                ),
                PairingServiceRequest::Join { code, joiner_blob, joiner_token, ticket, .. } =>
                    lemma_join_keeps(
                    mid,
                    new,
                    r,
                    code@,
                    joiner_blob,
                    joiner_token,
                    ticket,
                    now_ms,
                    self.max_blob_len,
                    fresh_id,
                    now_ms,
                ),
                PairingServiceRequest::Push { message_id, slot_id, token, blob, .. } => {
                    if push_sequences_available(before) {
                        lemma_push_keeps(mid, new, r, message_id, slot_id, token, blob, now_ms);
                    }
                },
                PairingServiceRequest::Ack { slot_id, token, up_to } => lemma_ack_keeps(
                    mid,
                    new,
                    r,
                    slot_id,
                    token,
                    up_to,
                    now_ms,
                ),
                PairingServiceRequest::Close { slot_id, capability } => lemma_close_keeps(
                    mid,
                    new,
                    r,
                    slot_id,
                    capability,
                    now_ms,
                ),
                _ => {},
            }
        }
        r
    }

    /// Drops every slot that has expired at `now_ms`.
    pub fn purge_expired_slots(&mut self, now_ms: i64)
        requires
            old(self).wf(),
        ensures
            final(self).wf(),
            final(self).slots() == live(old(self).slots(), now_ms),
            final(self).blob_limit() == old(self).blob_limit(),
    {
        let ghost initial = self.entries@;
        assert(initial.len() == self.entries.len());
        let mut i: usize = 0;
        let mut j: usize = 0;
        assert(initial.take(0) =~= Seq::<(u128, Slot)>::empty());
        assert(initial.skip(0) =~= initial);
        assert(self.entries@ =~= live(initial.take(0), now_ms) + initial.skip(0));
        while i < self.entries.len()
            invariant
                j <= initial.len(),
                initial.len() <= usize::MAX,
                i == live(initial.take(j as int), now_ms).len(),
                self.entries@ == live(initial.take(j as int), now_ms) + initial.skip(j as int),
                self.max_blob_len == old(self).max_blob_len,
            decreases self.entries@.len() - i,
        {
            proof {
                assert(self.entries@.len() == i + (initial.len() - j));
                assert(j < initial.len());
                assert(initial.take(j as int + 1).drop_last() =~= initial.take(j as int));
                assert(initial.take(j as int + 1).last() == initial[j as int]);
                assert(self.entries@[i as int] == initial[j as int]);
            }
            if self.entries[i].1.expires_at_ms <= now_ms {
                let _ = self.entries.remove(i);
                assert(self.entries@ =~= live(initial.take(j as int + 1), now_ms) + initial.skip(
                    j as int + 1,
                ));
            } else {
                i = i + 1;
                assert(self.entries@ =~= live(initial.take(j as int + 1), now_ms) + initial.skip(
                    j as int + 1,
                ));
            }
            j = j + 1;
        }
        proof {
            assert(live(initial.take(j as int), now_ms).len() <= j) by {
                lemma_live(initial.take(j as int), now_ms);
            }
            assert(initial.skip(j as int).len() == 0);
            assert(initial.take(j as int) =~= initial);
            assert(self.entries@ =~= live(initial, now_ms));
            lemma_live(initial, now_ms);
        }
    }
}


/// Every entry other than `k0` is found in `new` exactly when it is found
/// in `old`, and unchanged.
pub open spec fn same_except(old: Seq<(u128, Slot)>, new: Seq<(u128, Slot)>, k0: u128) -> bool {
    forall|k: u128|
        k != k0 ==> {
            &&& (index_of(new, k) >= 0) == (index_of(old, k) >= 0)
            &&& index_of(old, k) >= 0 ==> new[index_of(new, k)] == old[index_of(old, k)]
        }
}

/// No side of any slot has used up its sequence numbers.
pub open spec fn push_sequences_available(s: Seq<(u128, Slot)>) -> bool {
    forall|i: int|
        0 <= i < s.len() ==> #[trigger] s[i].1.next_creator_sequence < u64::MAX
            && s[i].1.next_joiner_sequence < u64::MAX
}

/// Sequence numbers of a queue strictly increase and stay below the next
/// number to hand out.
pub open spec fn queue_ordered(q: Seq<PairingServiceDelivery>, next: u64) -> bool {
    &&& forall|i: int, j: int| 0 <= i < j < q.len() ==> q[i].sequence < q[j].sequence
    &&& forall|i: int| 0 <= i < q.len() ==> #[trigger] q[i].sequence < next
}

/// Every queue of every slot is ordered.
pub open spec fn queues_ordered(s: Seq<(u128, Slot)>) -> bool {
    forall|i: int|
        0 <= i < s.len() ==> queue_ordered(#[trigger] s[i].1.creator_queue@, s[i].1.next_creator_sequence)
            && queue_ordered(s[i].1.joiner_queue@, s[i].1.next_joiner_sequence)
}

/// Every queue of every slot holds at most `MAX_QUEUE` deliveries.
pub open spec fn queues_bounded(s: Seq<(u128, Slot)>) -> bool {
    forall|i: int|
        0 <= i < s.len() ==> (#[trigger] s[i].1.creator_queue@).len() <= MAX_QUEUE
            && s[i].1.joiner_queue@.len() <= MAX_QUEUE
}

/// Every slot is live at `now_ms`.
pub open spec fn all_live(s: Seq<(u128, Slot)>, now_ms: i64) -> bool {
    forall|i: int| 0 <= i < s.len() ==> #[trigger] s[i].1.expires_at_ms > now_ms
}

/// `Open`: a fresh slot under `slot_id`, replacing one with that id.
pub open spec fn open_post(
    p: Seq<(u128, Slot)>,
    new: Seq<(u128, Slot)>,
    r: PairingServiceResponse,
    code: Seq<char>,
    expires_at_ms: i64,
    creator_blob: Seq<u8>,
    capability: u128,
    creator_token: u128,
    ticket: [u8; 16],
    slot_id: u128,
) -> bool {
    &&& r == PairingServiceResponse::Opened { slot_id, expires_at_ms }
    &&& keys_increasing(new)
    &&& index_of(new, slot_id) >= 0
    &&& fresh_slot(new[index_of(new, slot_id)].1, code, expires_at_ms, creator_blob, capability, creator_token, ticket)
    &&& same_except(p, new, slot_id)
    &&& new.len() == p.len() + if index_of(p, slot_id) >= 0 { 0int } else { 1int }
}

/// `Join`: the first joinable slot in key order is claimed, and the
/// joiner's blob becomes the creator's next delivery.
pub open spec fn join_post(
    p: Seq<(u128, Slot)>,
    new: Seq<(u128, Slot)>,
    r: PairingServiceResponse,
    code: Seq<char>,
    joiner_blob: Vec<u8>,
    joiner_token: u128,
    ticket: Option<[u8; 16]>,
    now_ms: i64,
    max_blob_len: usize,
    message_id: u128,
) -> bool {
    let j = first_joinable(p, code, ticket, now_ms, max_blob_len);
    if j < 0 {
        r == PairingServiceResponse::Error(PairingServiceProtocolError::SlotNotFound) && new == p
    } else if joiner_blob@.len() > max_blob_len || p[j].1.creator_queue@.len() >= MAX_QUEUE {
        r == PairingServiceResponse::Error(PairingServiceProtocolError::QueueFull) && new == p
    } else {
        let old_slot = p[j].1;
        &&& r matches PairingServiceResponse::Joined { slot_id, expires_at_ms, creator_blob }
            && slot_id == p[j].0 && expires_at_ms == old_slot.expires_at_ms && creator_blob@
            == old_slot.creator_blob@
        &&& new.len() == p.len()
        &&& forall|i: int| 0 <= i < p.len() && i != j ==> new[i] == p[i]
        &&& new[j].0 == p[j].0
        &&& slot_with_queues(
            old_slot,
            new[j].1,
            Some(joiner_token),
            old_slot.creator_queue@.push(
                PairingServiceDelivery {
                    sequence: old_slot.next_creator_sequence,
                    message_id,
                    blob: joiner_blob,
                },
            ),
            old_slot.joiner_queue@,
            old_slot.next_creator_sequence.saturating_add(1),
            old_slot.next_joiner_sequence,
        )
    }
}

/// `Push`: a blob from one side queued for the other side.
pub open spec fn push_post(
    p: Seq<(u128, Slot)>,
    new: Seq<(u128, Slot)>,
    r: PairingServiceResponse,
    message_id: u128,
    slot_id: u128,
    token: u128,
    blob: Vec<u8>,
) -> bool {
    let i = index_of(p, slot_id);
    if i < 0 {
        r == PairingServiceResponse::Error(PairingServiceProtocolError::SlotNotFound) && new == p
    } else if !authorized(p[i].1, token) {
        r == PairingServiceResponse::Error(PairingServiceProtocolError::Unauthorized) && new == p
    } else {
        let old_slot = p[i].1;
        let from_creator = old_slot.creator_token == token;
        let target_len = if from_creator {
            old_slot.joiner_queue@.len()
        } else {
            old_slot.creator_queue@.len()
        };
        if target_len >= MAX_QUEUE {
            r == PairingServiceResponse::Error(PairingServiceProtocolError::QueueFull) && new == p
        } else {
            &&& r == PairingServiceResponse::Accepted
            &&& new.len() == p.len()
            &&& forall|k: int| 0 <= k < p.len() && k != i ==> new[k] == p[k]
            &&& new[i].0 == p[i].0
            &&& if from_creator {
                slot_with_queues(
                    old_slot,
                    new[i].1,
                    old_slot.joiner_token,
                    old_slot.creator_queue@,
                    old_slot.joiner_queue@.push(
                        PairingServiceDelivery {
                            sequence: old_slot.next_joiner_sequence,
                            message_id,
                            blob,
                        },
                    ),
                    old_slot.next_creator_sequence,
                    (old_slot.next_joiner_sequence + 1) as u64,
                )
            } else {
                slot_with_queues(
                    old_slot,
                    new[i].1,
                    old_slot.joiner_token,
                    old_slot.creator_queue@.push(
                        PairingServiceDelivery {
                            sequence: old_slot.next_creator_sequence,
                            message_id,
                            blob,
                        },
                    ),
                    old_slot.joiner_queue@,
                    (old_slot.next_creator_sequence + 1) as u64,
                    old_slot.next_joiner_sequence,
                )
            }
        }
    }
}

/// `Poll`: the caller's own deliveries after `after`; nothing changes.
pub open spec fn poll_post(
    p: Seq<(u128, Slot)>,
    new: Seq<(u128, Slot)>,
    r: PairingServiceResponse,
    slot_id: u128,
    token: u128,
    after: u64,
) -> bool {
    let i = index_of(p, slot_id);
    &&& new == p
    &&& if i < 0 {
        r == PairingServiceResponse::Error(PairingServiceProtocolError::SlotNotFound)
    } else if !authorized(p[i].1, token) {
        r == PairingServiceResponse::Error(PairingServiceProtocolError::Unauthorized)
    } else {
        let queue = if p[i].1.creator_token == token {
            p[i].1.creator_queue@
        } else {
            p[i].1.joiner_queue@
        };
        r matches PairingServiceResponse::Deliveries(items) && same_deliveries(
            items@,
            deliveries_after(queue, after),
        )
    }
}

/// `Ack`: the caller's own deliveries up to `up_to` leave the front of its
/// queue.
pub open spec fn ack_post(
    p: Seq<(u128, Slot)>,
    new: Seq<(u128, Slot)>,
    r: PairingServiceResponse,
    slot_id: u128,
    token: u128,
    up_to: u64,
) -> bool {
    let i = index_of(p, slot_id);
    if i < 0 {
        r == PairingServiceResponse::Error(PairingServiceProtocolError::SlotNotFound) && new == p
    } else if !authorized(p[i].1, token) {
        r == PairingServiceResponse::Error(PairingServiceProtocolError::Unauthorized) && new == p
    } else {
        let old_slot = p[i].1;
        &&& r == PairingServiceResponse::Acked(up_to)
        &&& new.len() == p.len()
        &&& forall|k: int| 0 <= k < p.len() && k != i ==> new[k] == p[k]
        &&& new[i].0 == p[i].0
        &&& if old_slot.creator_token == token {
            slot_with_queues(
                old_slot,
                new[i].1,
                old_slot.joiner_token,
                drop_acked(old_slot.creator_queue@, up_to),
                old_slot.joiner_queue@,
                old_slot.next_creator_sequence,
                old_slot.next_joiner_sequence,
            )
        } else {
            slot_with_queues(
                old_slot,
                new[i].1,
                old_slot.joiner_token,
                old_slot.creator_queue@,
                drop_acked(old_slot.joiner_queue@, up_to),
                old_slot.next_creator_sequence,
                old_slot.next_joiner_sequence,
            )
        }
    }
}

/// `Close`: only the slot's capability removes it.
pub open spec fn close_post(
    p: Seq<(u128, Slot)>,
    new: Seq<(u128, Slot)>,
    r: PairingServiceResponse,
    slot_id: u128,
    capability: u128,
) -> bool {
    let i = index_of(p, slot_id);
    if i >= 0 && p[i].1.capability == capability {
        r == PairingServiceResponse::Closed && new == p.remove(i)
    } else {
        r == PairingServiceResponse::Error(PairingServiceProtocolError::Unauthorized) && new == p
    }
}

/// What serving one request does to the live slots `p`, giving `new` and
/// the answer `r`.
pub open spec fn request_post(
    p: Seq<(u128, Slot)>,
    new: Seq<(u128, Slot)>,
    r: PairingServiceResponse,
    request: PairingServiceRequest,
    now_ms: i64,
    blob_limit: usize,
    fresh_id: u128,
) -> bool {
    match request {
        PairingServiceRequest::Open {
            code,
            expires_at_ms,
            creator_blob,
            slot_capability,
            creator_token,
            ticket,
            ..
        } => open_post(
            p,
            new,
            r,
            code@,
            expires_at_ms,
            creator_blob@,
            slot_capability,
            creator_token,
            ticket,
            fresh_id,
        ),
        PairingServiceRequest::Join { code, joiner_blob, joiner_token, ticket, .. } =>
            join_post(
            p,
            new,
            r,
            code@,
            joiner_blob,
            joiner_token,
            ticket,
            now_ms,
            blob_limit,
            fresh_id,
        ),
        PairingServiceRequest::Push { message_id, slot_id, token, blob, .. } =>
            push_post(p, new, r, message_id, slot_id, token, blob),
        PairingServiceRequest::Poll { slot_id, token, after } => poll_post(
            p,
            new,
            r,
            slot_id,
            token,
            after,
        ),
        PairingServiceRequest::Ack { slot_id, token, up_to } => ack_post(
            p,
            new,
            r,
            slot_id,
            token,
            up_to,
        ),
        PairingServiceRequest::Close { slot_id, capability } => close_post(
            p,
            new,
            r,
            slot_id,
            capability,
        ),
        PairingServiceRequest::Health => r == PairingServiceResponse::Healthy && new
            == p,
        PairingServiceRequest::Info => new == p && (r matches PairingServiceResponse::Info(
            a,
            b,
            c,
        ) && a@ == "torca-iroh"@ && b@ == "direct"@ && c@ == "direct"@),
    }
}

/// A delivery as the pairing coordinator reads it: sequence and blob.
#[derive(Debug, PartialEq, Eq)]
pub struct PairingSessionDelivery {
    pub sequence: u64,
    pub blob: Vec<u8>,
}

pub open spec fn session_deliveries_are(r: Seq<PairingSessionDelivery>, q: Seq<PairingServiceDelivery>) -> bool {
    &&& r.len() == q.len()
    &&& forall|i: int| 0 <= i < r.len() ==> (#[trigger] r[i]).sequence == q[i].sequence && r[i].blob@ == q[i].blob@
}

/// A local push: into the other side's queue, saturating its sequence.
pub open spec fn local_push_post(
    p: Seq<(u128, Slot)>,
    new: Seq<(u128, Slot)>,
    r: Result<(), ()>,
    slot_id: u128,
    token: u128,
    message_id: u128,
    blob: Vec<u8>,
) -> bool {
    let i = index_of(p, slot_id);
    if i < 0 {
        r is Err && new == p
    } else {
        let old_slot = p[i].1;
        let from_creator = old_slot.creator_token == token;
        let target_len = if from_creator {
            old_slot.joiner_queue@.len()
        } else {
            old_slot.creator_queue@.len()
        };
        if target_len >= MAX_QUEUE {
            r is Err && new == p
        } else {
            &&& r is Ok
            &&& new.len() == p.len()
            &&& forall|k: int| 0 <= k < p.len() && k != i ==> new[k] == p[k]
            &&& new[i].0 == p[i].0
            &&& if from_creator {
                slot_with_queues(
                    old_slot,
                    new[i].1,
                    old_slot.joiner_token,
                    old_slot.creator_queue@,
                    old_slot.joiner_queue@.push(
                        PairingServiceDelivery { sequence: old_slot.next_joiner_sequence, message_id, blob },
                    ),
                    old_slot.next_creator_sequence,
                    old_slot.next_joiner_sequence.saturating_add(1),
                )
            } else {
                slot_with_queues(
                    old_slot,
                    new[i].1,
                    old_slot.joiner_token,
                    old_slot.creator_queue@.push(
                        PairingServiceDelivery { sequence: old_slot.next_creator_sequence, message_id, blob },
                    ),
                    old_slot.joiner_queue@,
                    old_slot.next_creator_sequence.saturating_add(1),
                    old_slot.next_joiner_sequence,
                )
            }
        }
    }
}

/// A local poll: this side's deliveries after `after`.
pub open spec fn local_poll_post(
    p: Seq<(u128, Slot)>,
    r: Result<Vec<PairingSessionDelivery>, ()>,
    slot_id: u128,
    token: u128,
    after: u64,
) -> bool {
    let i = index_of(p, slot_id);
    if i < 0 {
        r is Err
    } else {
        let queue = if p[i].1.creator_token == token {
            p[i].1.creator_queue@
        } else {
            p[i].1.joiner_queue@
        };
        r matches Ok(items) && session_deliveries_are(items@, deliveries_after(queue, after))
    }
}

/// A local acknowledgement: this side's queue loses its acknowledged front.
pub open spec fn local_ack_post(
    p: Seq<(u128, Slot)>,
    new: Seq<(u128, Slot)>,
    r: Result<(), ()>,
    slot_id: u128,
    token: u128,
    up_to: u64,
) -> bool {
    let i = index_of(p, slot_id);
    if i < 0 {
        r is Err && new == p
    } else {
        let old_slot = p[i].1;
        &&& r is Ok
        &&& new.len() == p.len()
        &&& forall|k: int| 0 <= k < p.len() && k != i ==> new[k] == p[k]
        &&& new[i].0 == p[i].0
        &&& if old_slot.creator_token == token {
            slot_with_queues(
                old_slot,
                new[i].1,
                old_slot.joiner_token,
                drop_acked(old_slot.creator_queue@, up_to),
                old_slot.joiner_queue@,
                old_slot.next_creator_sequence,
                old_slot.next_joiner_sequence,
            )
        } else {
            slot_with_queues(
                old_slot,
                new[i].1,
                old_slot.joiner_token,
                old_slot.creator_queue@,
                drop_acked(old_slot.joiner_queue@, up_to),
                old_slot.next_creator_sequence,
                old_slot.next_joiner_sequence,
            )
        }
    }
}

} // verus!
