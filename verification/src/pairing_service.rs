//! The Iroh provider's own pairing sessions: the slot server together with
//! the record of the slots this device created. A slot of this device is
//! reached only with the creator token it was opened with; every operation
//! first drops the slots that have expired.
use vstd::prelude::*;
use crate::pairing_slots::{
    index_of, lemma_close_keeps, lemma_live_bounded, lemma_local_ack_bounded,
    lemma_local_push_bounded, lemma_open_keeps, live, local_ack_post, local_poll_post,
    local_push_post, open_post, push_sequences_available, queues_bounded, request_post,
    PairingServiceRequest, PairingServiceResponse, PairingSessionDelivery, PairingSlotServer, Slot,
};

verus! {

/// A slot that this device created, with the creator's token and the
/// slot's capability.
#[derive(Clone, Copy, Debug, PartialEq, Eq, Structural)]
pub struct LocalSlot {
    pub slot_id: u128,
    pub creator_token: u128,
    pub capability: u128,
}

/// Why a pairing session operation was refused.
#[derive(Clone, Copy, Debug, PartialEq, Eq, Structural)]
pub enum PairingCoordinatorError {
    /// The session service cannot serve the request.
    SessionService,
    /// A slot with that identifier is already open.
    SessionAlreadyExists,
}

/// The record kept for `slot_id`: the last one written.
pub open spec fn local_lookup(s: Seq<LocalSlot>, slot_id: u128) -> Option<LocalSlot>
    decreases s.len(),
{
    if s.len() == 0 {
        None
    } else if s.last().slot_id == slot_id {
        Some(s.last())
    } else {
        local_lookup(s.drop_last(), slot_id)
    }
}

/// `s` without any record for `slot_id`.
pub open spec fn without(s: Seq<LocalSlot>, slot_id: u128) -> Seq<LocalSlot>
    decreases s.len(),
{
    if s.len() == 0 {
        s
    } else if s.last().slot_id == slot_id {
        without(s.drop_last(), slot_id)
    } else {
        without(s.drop_last(), slot_id).push(s.last())
    }
}

/// `new` holds `record` for its slot and agrees with `old` on every other.
pub open spec fn recorded(old: Seq<LocalSlot>, new: Seq<LocalSlot>, record: LocalSlot) -> bool {
    &&& local_lookup(new, record.slot_id) == Some(record)
    &&& forall|k: u128| k != record.slot_id ==> local_lookup(new, k) == local_lookup(old, k)
}

/// `new` holds no record for `slot_id` and agrees with `old` on every other.
pub open spec fn forgotten(old: Seq<LocalSlot>, new: Seq<LocalSlot>, slot_id: u128) -> bool {
    &&& local_lookup(new, slot_id) is None
    &&& forall|k: u128| k != slot_id ==> local_lookup(new, k) == local_lookup(old, k)
}

/// Whether an operation went through.
pub open spec fn outcome<T>(r: Result<T, PairingCoordinatorError>) -> Result<(), ()> {
    if r is Ok {
        Ok(())
    } else {
        Err(())
    }
}

/// This device created `slot_id` and `token` is its creator token.
pub open spec fn owns(s: Seq<LocalSlot>, slot_id: u128, token: u128) -> bool {
    local_lookup(s, slot_id) matches Some(record) && record.creator_token == token
}

proof fn lemma_without(s: Seq<LocalSlot>, slot_id: u128)
    ensures
        forgotten(s, without(s, slot_id), slot_id),
    decreases s.len(),
{
    if s.len() > 0 {
        let t = s.drop_last();
        lemma_without(t, slot_id);
        let w = without(t, slot_id);
        if s.last().slot_id != slot_id {
            assert(w.push(s.last()).drop_last() =~= w);
        }
        assert forall|k: u128| k != slot_id implies local_lookup(without(s, slot_id), k)
            == local_lookup(s, k) by {
            assert(local_lookup(w, k) == local_lookup(t, k));
            if s.last().slot_id != slot_id {
                assert(w.push(s.last()).drop_last() =~= w);
                assert(without(s, slot_id) == w.push(s.last()));
            } else {
                assert(without(s, slot_id) == w);
            }
        }
    }
}

/// The slot server and the records, as one value that the operations
/// below keep well formed.
struct SessionState {
    server: PairingSlotServer,
    local: Vec<LocalSlot>,
}

impl SessionState {
    /// The slots of the server, in key order.
    pub closed spec fn slots(&self) -> Seq<(u128, Slot)> {
        self.server.slots()
    }

    /// The records of the slots this device created.
    pub closed spec fn locals(&self) -> Seq<LocalSlot> {
        self.local@
    }

    pub closed spec fn blob_limit(&self) -> usize {
        self.server.blob_limit()
    }

    pub closed spec fn wf(&self) -> bool {
        self.server.wf()
    }

    /// No slots and no records; blobs up to `max_blob_len` bytes.
    pub fn new(max_blob_len: usize) -> (r: Self)
        ensures
            r.wf(),
            r.slots().len() == 0,
            r.locals().len() == 0,
            r.blob_limit() == max_blob_len,
    {
        SessionState { server: PairingSlotServer::new(max_blob_len), local: Vec::new() }
    }

    fn lookup_local(&self, slot_id: u128) -> (r: Option<LocalSlot>)
        ensures
            r == local_lookup(self.local@, slot_id),
    {
        let mut found: Option<LocalSlot> = None;
        let mut i: usize = 0;
        while i < self.local.len()
            invariant
                i <= self.local@.len(),
                found == local_lookup(self.local@.take(i as int), slot_id),
            decreases self.local@.len() - i,
        {
            assert(self.local@.take(i as int + 1).drop_last() =~= self.local@.take(i as int));
            if self.local[i].slot_id == slot_id {
                found = Some(self.local[i]);
            }
            i = i + 1;
        }
        assert(self.local@.take(i as int) =~= self.local@);
        found
    }

    fn forget_local(&mut self, slot_id: u128)
        ensures
            forgotten(old(self).local@, final(self).local@, slot_id),
            final(self).server == old(self).server,
    {
        let mut kept: Vec<LocalSlot> = Vec::new();
        let mut i: usize = 0;
        while i < self.local.len()
            invariant
                i <= self.local@.len(),
                kept@ == without(self.local@.take(i as int), slot_id),
            decreases self.local@.len() - i,
        {
            assert(self.local@.take(i as int + 1).drop_last() =~= self.local@.take(i as int));
            if self.local[i].slot_id != slot_id {
                kept.push(self.local[i]);
            }
            i = i + 1;
        }
        assert(self.local@.take(i as int) =~= self.local@);
        proof {
            lemma_without(self.local@, slot_id);
        }
        self.local = kept;
    }

    fn record_local(&mut self, record: LocalSlot)
        ensures
            recorded(old(self).local@, final(self).local@, record),
            final(self).server == old(self).server,
    {
        self.forget_local(record.slot_id);
        let ghost w = self.local@;
        self.local.push(record);
        assert(self.local@.drop_last() =~= w);
    }

    /// Opens a slot of this device under the fresh identifier `slot_id`
    /// and records its creator token; gives back the slot and its expiry.
    pub fn open(
        &mut self,
        code: String,
        expires_at_ms: i64,
        creator_blob: Vec<u8>,
        capability: u128,
        creator_token: u128,
        ticket: [u8; 16],
        slot_id: u128,
        now_ms: i64,
    ) -> (r: (u128, i64))
        requires
            old(self).wf(),
        ensures
            final(self).wf(),
            final(self).blob_limit() == old(self).blob_limit(),
            queues_bounded(old(self).slots()) ==> queues_bounded(final(self).slots()),
            r == (slot_id, expires_at_ms),
            open_post(
                live(old(self).slots(), now_ms),
                final(self).slots(),
                PairingServiceResponse::Opened { slot_id, expires_at_ms },
                code@,
                expires_at_ms,
                creator_blob@,
                capability,
                creator_token,
                ticket,
                slot_id,
            ),
            recorded(old(self).locals(), final(self).locals(), LocalSlot { slot_id, creator_token, capability }),
    {
        let ghost before = self.server.slots();
        self.server.purge_expired_slots(now_ms);
        let ghost mid = self.server.slots();
        let answer = self.server.open(code, expires_at_ms, creator_blob, capability, creator_token, ticket, slot_id);
        proof {
            lemma_live_bounded(before, now_ms);
            lemma_open_keeps(mid, self.server.slots(), answer, code@, expires_at_ms, creator_blob@, capability, creator_token, ticket, slot_id);
        }
        self.record_local(LocalSlot { slot_id, creator_token, capability });
        (slot_id, expires_at_ms)
    }

    /// Queues a blob for the joiner of one of this device's slots.
    pub fn push(&mut self, slot_id: u128, token: u128, message_id: u128, blob: Vec<u8>, now_ms: i64) -> (r: Result<(), PairingCoordinatorError>)
        requires
            old(self).wf(),
        ensures
            final(self).wf(),
            final(self).blob_limit() == old(self).blob_limit(),
            queues_bounded(old(self).slots()) ==> queues_bounded(final(self).slots()),
            final(self).locals() == old(self).locals(),
            ({
                let p = live(old(self).slots(), now_ms);
                if owns(old(self).locals(), slot_id, token) {
                    local_push_post(p, final(self).slots(), outcome(r), slot_id, token, message_id, blob)
                } else {
                    r is Err && final(self).slots() == p
                }
            }),
            r is Err ==> r == Err::<(), PairingCoordinatorError>(PairingCoordinatorError::SessionService),
    {
        self.server.purge_expired_slots(now_ms);
        proof {
            lemma_live_bounded(old(self).server.slots(), now_ms);
        }
        if !self.owns_slot(slot_id, token) {
            return Err(PairingCoordinatorError::SessionService);
        }
        let ghost mid = self.server.slots();
        let ghost b = blob;
        let answer = self.server.push_local(slot_id, token, message_id, blob);
        proof {
            lemma_live_bounded(old(self).server.slots(), now_ms);
            lemma_local_push_bounded(mid, self.server.slots(), answer, slot_id, token, message_id, b);
        }
        match answer {
            Ok(()) => Ok(()),
            Err(()) => Err(PairingCoordinatorError::SessionService),
        }
    }

    /// This device's deliveries on one of its slots after `after`.
    pub fn poll(&mut self, slot_id: u128, token: u128, after: u64, now_ms: i64) -> (r: Result<Vec<PairingSessionDelivery>, PairingCoordinatorError>)
        requires
            old(self).wf(),
        ensures
            final(self).wf(),
            final(self).blob_limit() == old(self).blob_limit(),
            final(self).locals() == old(self).locals(),
            final(self).slots() == live(old(self).slots(), now_ms),
            if owns(old(self).locals(), slot_id, token) {
                local_poll_post(
                    final(self).slots(),
                    match r {
                        Ok(items) => Ok(items),
                        Err(_) => Err(()),
                    },
                    slot_id,
                    token,
                    after,
                )
            } else {
                r is Err
            },
            r is Err ==> r == Err::<Vec<PairingSessionDelivery>, PairingCoordinatorError>(PairingCoordinatorError::SessionService),
    {
        self.server.purge_expired_slots(now_ms);
        if !self.owns_slot(slot_id, token) {
            return Err(PairingCoordinatorError::SessionService);
        }
        match self.server.poll_local(slot_id, token, after) {
            Ok(items) => Ok(items),
            Err(()) => Err(PairingCoordinatorError::SessionService),
        }
    }

    /// Drops this device's acknowledged deliveries on one of its slots.
    pub fn ack(&mut self, slot_id: u128, token: u128, up_to: u64, now_ms: i64) -> (r: Result<(), PairingCoordinatorError>)
        requires
            old(self).wf(),
        ensures
            final(self).wf(),
            final(self).blob_limit() == old(self).blob_limit(),
            queues_bounded(old(self).slots()) ==> queues_bounded(final(self).slots()),
            final(self).locals() == old(self).locals(),
            ({
                let p = live(old(self).slots(), now_ms);
                if owns(old(self).locals(), slot_id, token) {
                    local_ack_post(p, final(self).slots(), outcome(r), slot_id, token, up_to)
                } else {
                    r is Err && final(self).slots() == p
                }
            }),
            r is Err ==> r == Err::<(), PairingCoordinatorError>(PairingCoordinatorError::SessionService),
    {
        self.server.purge_expired_slots(now_ms);
        proof {
            lemma_live_bounded(old(self).server.slots(), now_ms);
        }
        if !self.owns_slot(slot_id, token) {
            return Err(PairingCoordinatorError::SessionService);
        }
        let ghost mid = self.server.slots();
        let answer = self.server.ack_local(slot_id, token, up_to);
        proof {
            lemma_local_ack_bounded(mid, self.server.slots(), answer, slot_id, token, up_to);
        }
        match answer {
            Ok(()) => Ok(()),
            Err(()) => Err(PairingCoordinatorError::SessionService),
        }
    }

    /// Removes a live slot whose capability is `capability`, and its record.
    pub fn close(&mut self, slot_id: u128, capability: u128, now_ms: i64) -> (r: Result<(), PairingCoordinatorError>)
        requires
            old(self).wf(),
        ensures
            final(self).wf(),
            final(self).blob_limit() == old(self).blob_limit(),
            queues_bounded(old(self).slots()) ==> queues_bounded(final(self).slots()),
            ({
                let p = live(old(self).slots(), now_ms);
                let i = index_of(p, slot_id);
                if i >= 0 && p[i].1.capability == capability {
                    &&& r is Ok
                    &&& final(self).slots() == p.remove(i)
                    &&& forgotten(old(self).locals(), final(self).locals(), slot_id)
                } else {
                    &&& r == Err::<(), PairingCoordinatorError>(PairingCoordinatorError::SessionService)
                    &&& final(self).slots() == p
                    &&& final(self).locals() == old(self).locals()
                }
            }),
    {
        self.server.purge_expired_slots(now_ms);
        let ghost mid = self.server.slots();
        let answer = self.server.close(slot_id, capability);
        proof {
            lemma_live_bounded(old(self).server.slots(), now_ms);
            lemma_close_keeps(mid, self.server.slots(), answer, slot_id, capability, now_ms);
        }
        match answer {
            PairingServiceResponse::Closed => {
                self.forget_local(slot_id);
                Ok(())
            },
            _ => Err(PairingCoordinatorError::SessionService),
        }
    }

    /// Puts back a slot of this device after a restart, unless a live slot
    /// already has that identifier.
    pub fn restore_creator(
        &mut self,
        slot_id: u128,
        code: String,
        expires_at_ms: i64,
        creator_blob: Vec<u8>,
        capability: u128,
        creator_token: u128,
        ticket: [u8; 16],
        now_ms: i64,
    ) -> (r: Result<(), PairingCoordinatorError>)
        requires
            old(self).wf(),
        ensures
            final(self).wf(),
            final(self).blob_limit() == old(self).blob_limit(),
            queues_bounded(old(self).slots()) ==> queues_bounded(final(self).slots()),
            ({
                let p = live(old(self).slots(), now_ms);
                if index_of(p, slot_id) >= 0 {
                    &&& r == Err::<(), PairingCoordinatorError>(PairingCoordinatorError::SessionAlreadyExists)
                    &&& final(self).slots() == p
                    &&& final(self).locals() == old(self).locals()
                } else {
                    &&& r is Ok
                    &&& open_post(
                        p,
                        final(self).slots(),
                        PairingServiceResponse::Opened { slot_id, expires_at_ms },
                        code@,
                        expires_at_ms,
                        creator_blob@,
                        capability,
                        creator_token,
                        ticket,
                        slot_id,
                    )
                    &&& recorded(
                        old(self).locals(),
                        final(self).locals(),
                        LocalSlot { slot_id, creator_token, capability },
                    )
                }
            }),
    {
        self.server.purge_expired_slots(now_ms);
        proof {
            lemma_live_bounded(old(self).server.slots(), now_ms);
        }
        if self.server.contains(slot_id) {
            return Err(PairingCoordinatorError::SessionAlreadyExists);
        }
        let ghost mid = self.server.slots();
        let answer = self.server.open(code, expires_at_ms, creator_blob, capability, creator_token, ticket, slot_id);
        proof {
            lemma_open_keeps(mid, self.server.slots(), answer, code@, expires_at_ms, creator_blob@, capability, creator_token, ticket, slot_id);
        }
        self.record_local(LocalSlot { slot_id, creator_token, capability });
        Ok(())
    }

    /// Serves one request that reached this device's slot server; the
    /// records of this device's slots are untouched.
    pub fn serve(&mut self, request: PairingServiceRequest, now_ms: i64, fresh_id: u128) -> (r: PairingServiceResponse)
        requires
            old(self).wf(),
            request is Push ==> push_sequences_available(old(self).slots()),
        ensures
            final(self).wf(),
            final(self).blob_limit() == old(self).blob_limit(),
            final(self).locals() == old(self).locals(),
            request_post(
                live(old(self).slots(), now_ms),
                final(self).slots(),
                r,
                request,
                now_ms,
                old(self).blob_limit(),
                fresh_id,
            ),
            queues_bounded(old(self).slots()) ==> queues_bounded(final(self).slots()),
    {
        self.server.process_request(request, now_ms, fresh_id)
    }

    /// Whether no side of any slot has used up its sequence numbers.
    pub fn sequences_available(&self) -> (r: bool)
        ensures
            r == push_sequences_available(self.slots()),
    {
        self.server.sequences_available()
    }

    fn owns_slot(&self, slot_id: u128, token: u128) -> (r: bool)
        ensures
            r == owns(self.local@, slot_id, token),
    {
        match self.lookup_local(slot_id) {
            Some(record) => record.creator_token == token,
            None => false,
        }
    }
}


/// The pairing sessions of this device's own slot server.
pub struct IrohPairingService {
    state: SessionState,
}

impl IrohPairingService {
    /// The slots of the server, in key order.
    pub closed spec fn slots(&self) -> Seq<(u128, Slot)> {
        self.state.slots()
    }

    /// The records of the slots this device created.
    pub closed spec fn locals(&self) -> Seq<LocalSlot> {
        self.state.locals()
    }

    pub closed spec fn blob_limit(&self) -> usize {
        self.state.blob_limit()
    }

    #[verifier::type_invariant]
    spec fn well_formed(&self) -> bool {
        self.state.wf()
    }

    /// No slots and no records; blobs up to `max_blob_len` bytes.
    pub fn new(max_blob_len: usize) -> (r: Self)
        ensures
            r.slots().len() == 0,
            r.locals().len() == 0,
            r.blob_limit() == max_blob_len,
    {
        IrohPairingService { state: SessionState::new(max_blob_len) }
    }

    /// Opens a slot of this device under the fresh identifier `slot_id`
    /// and records its creator token; gives back the slot and its expiry.
    pub fn open(
        &mut self,
        code: String,
        expires_at_ms: i64,
        creator_blob: Vec<u8>,
        capability: u128,
        creator_token: u128,
        ticket: [u8; 16],
        slot_id: u128,
        now_ms: i64,
    ) -> (r: (u128, i64))
        ensures
            final(self).blob_limit() == old(self).blob_limit(),
            queues_bounded(old(self).slots()) ==> queues_bounded(final(self).slots()),
            r == (slot_id, expires_at_ms),
            open_post(
                live(old(self).slots(), now_ms),
                final(self).slots(),
                PairingServiceResponse::Opened { slot_id, expires_at_ms },
                code@,
                expires_at_ms,
                creator_blob@,
                capability,
                creator_token,
                ticket,
                slot_id,
            ),
            recorded(old(self).locals(), final(self).locals(), LocalSlot { slot_id, creator_token, capability }),
    {
        proof {
            use_type_invariant(&*self);
        }
        let mut state = SessionState::new(0);
        core::mem::swap(&mut state, &mut self.state);
        let r = state.open(code, expires_at_ms, creator_blob, capability, creator_token, ticket, slot_id, now_ms);
        self.state = state;
        r
    }

    /// Queues a blob for the joiner of one of this device's slots.
    pub fn push(&mut self, slot_id: u128, token: u128, message_id: u128, blob: Vec<u8>, now_ms: i64) -> (r: Result<(), PairingCoordinatorError>)
        ensures
            final(self).blob_limit() == old(self).blob_limit(),
            queues_bounded(old(self).slots()) ==> queues_bounded(final(self).slots()),
            final(self).locals() == old(self).locals(),
            ({
                let p = live(old(self).slots(), now_ms);
                if owns(old(self).locals(), slot_id, token) {
                    local_push_post(p, final(self).slots(), outcome(r), slot_id, token, message_id, blob)
                } else {
                    r is Err && final(self).slots() == p
                }
            }),
            r is Err ==> r == Err::<(), PairingCoordinatorError>(PairingCoordinatorError::SessionService),
    {
        proof {
            use_type_invariant(&*self);
        }
        let mut state = SessionState::new(0);
        core::mem::swap(&mut state, &mut self.state);
        let r = state.push(slot_id, token, message_id, blob, now_ms);
        self.state = state;
        r
    }

    /// This device's deliveries on one of its slots after `after`.
    pub fn poll(&mut self, slot_id: u128, token: u128, after: u64, now_ms: i64) -> (r: Result<Vec<PairingSessionDelivery>, PairingCoordinatorError>)
        ensures
            final(self).blob_limit() == old(self).blob_limit(),
            final(self).locals() == old(self).locals(),
            final(self).slots() == live(old(self).slots(), now_ms),
            if owns(old(self).locals(), slot_id, token) {
                local_poll_post(
                    final(self).slots(),
                    match r {
                        Ok(items) => Ok(items),
                        Err(_) => Err(()),
                    },
                    slot_id,
                    token,
                    after,
                )
            } else {
                r is Err
            },
            r is Err ==> r == Err::<Vec<PairingSessionDelivery>, PairingCoordinatorError>(PairingCoordinatorError::SessionService),
    {
        proof {
            use_type_invariant(&*self);
        }
        let mut state = SessionState::new(0);
        core::mem::swap(&mut state, &mut self.state);
        let r = state.poll(slot_id, token, after, now_ms);
        self.state = state;
        r
    }

    /// Drops this device's acknowledged deliveries on one of its slots.
    pub fn ack(&mut self, slot_id: u128, token: u128, up_to: u64, now_ms: i64) -> (r: Result<(), PairingCoordinatorError>)
        ensures
            final(self).blob_limit() == old(self).blob_limit(),
            queues_bounded(old(self).slots()) ==> queues_bounded(final(self).slots()),
            final(self).locals() == old(self).locals(),
            ({
                let p = live(old(self).slots(), now_ms);
                if owns(old(self).locals(), slot_id, token) {
                    local_ack_post(p, final(self).slots(), outcome(r), slot_id, token, up_to)
                } else {
                    r is Err && final(self).slots() == p
                }
            }),
            r is Err ==> r == Err::<(), PairingCoordinatorError>(PairingCoordinatorError::SessionService),
    {
        proof {
            use_type_invariant(&*self);
        }
        let mut state = SessionState::new(0);
        core::mem::swap(&mut state, &mut self.state);
        let r = state.ack(slot_id, token, up_to, now_ms);
        self.state = state;
        r
    }

    /// Removes a live slot whose capability is `capability`, and its record.
    pub fn close(&mut self, slot_id: u128, capability: u128, now_ms: i64) -> (r: Result<(), PairingCoordinatorError>)
        ensures
            final(self).blob_limit() == old(self).blob_limit(),
            queues_bounded(old(self).slots()) ==> queues_bounded(final(self).slots()),
            ({
                let p = live(old(self).slots(), now_ms);
                let i = index_of(p, slot_id);
                if i >= 0 && p[i].1.capability == capability {
                    &&& r is Ok
                    &&& final(self).slots() == p.remove(i)
                    &&& forgotten(old(self).locals(), final(self).locals(), slot_id)
                } else {
                    &&& r == Err::<(), PairingCoordinatorError>(PairingCoordinatorError::SessionService)
                    &&& final(self).slots() == p
                    &&& final(self).locals() == old(self).locals()
                }
            }),
    {
        proof {
            use_type_invariant(&*self);
        }
        let mut state = SessionState::new(0);
        core::mem::swap(&mut state, &mut self.state);
        let r = state.close(slot_id, capability, now_ms);
        self.state = state;
        r
    }

    /// Puts back a slot of this device after a restart, unless a live slot
    /// already has that identifier.
    pub fn restore_creator(
        &mut self,
        slot_id: u128,
        code: String,
        expires_at_ms: i64,
        creator_blob: Vec<u8>,
        capability: u128,
        creator_token: u128,
        ticket: [u8; 16],
        now_ms: i64,
    ) -> (r: Result<(), PairingCoordinatorError>)
        ensures
            final(self).blob_limit() == old(self).blob_limit(),
            queues_bounded(old(self).slots()) ==> queues_bounded(final(self).slots()),
            ({
                let p = live(old(self).slots(), now_ms);
                if index_of(p, slot_id) >= 0 {
                    &&& r == Err::<(), PairingCoordinatorError>(PairingCoordinatorError::SessionAlreadyExists)
                    &&& final(self).slots() == p
                    &&& final(self).locals() == old(self).locals()
                } else {
                    &&& r is Ok
                    &&& open_post(
                        p,
                        final(self).slots(),
                        PairingServiceResponse::Opened { slot_id, expires_at_ms },
                        code@,
                        expires_at_ms,
                        creator_blob@,
                        capability,
                        creator_token,
                        ticket,
                        slot_id,
                    )
                    &&& recorded(
                        old(self).locals(),
                        final(self).locals(),
                        LocalSlot { slot_id, creator_token, capability },
                    )
                }
            }),
    {
        proof {
            use_type_invariant(&*self);
        }
        let mut state = SessionState::new(0);
        core::mem::swap(&mut state, &mut self.state);
        let r = state.restore_creator(slot_id, code, expires_at_ms, creator_blob, capability, creator_token, ticket, now_ms);
        self.state = state;
        r
    }

    /// Serves one request that reached this device's slot server; the
    /// records of this device's slots are untouched.
    pub fn serve(&mut self, request: PairingServiceRequest, now_ms: i64, fresh_id: u128) -> (r: PairingServiceResponse)
        requires
            request is Push ==> push_sequences_available(old(self).slots()),
        ensures
            final(self).blob_limit() == old(self).blob_limit(),
            final(self).locals() == old(self).locals(),
            request_post(
                live(old(self).slots(), now_ms),
                final(self).slots(),
                r,
                request,
                now_ms,
                old(self).blob_limit(),
                fresh_id,
            ),
            queues_bounded(old(self).slots()) ==> queues_bounded(final(self).slots()),
    {
        proof {
            use_type_invariant(&*self);
        }
        let mut state = SessionState::new(0);
        core::mem::swap(&mut state, &mut self.state);
        let r = state.serve(request, now_ms, fresh_id);
        self.state = state;
        r
    }

    /// Whether no side of any slot has used up its sequence numbers.
    pub fn sequences_available(&self) -> (r: bool)
        ensures
            r == push_sequences_available(self.slots()),
    {
        proof {
            use_type_invariant(self);
        }
        self.state.sequences_available()
    }
}

} // verus!
