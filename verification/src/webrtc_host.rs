//! The registry a platform WebRTC implementation fills: the local signaling
//! hint, the commissioning facts it last published, the negotiated channel
//! of each contact and the incoming channels waiting for the runtime.
//! Channels are the platform's; here each is known by a handle, and every
//! operation that drops a channel hands its handle back to be closed.
use vstd::prelude::*;
use crate::contract::application::TransportKind;
use crate::pairing_slots::clone_bytes;
use crate::webrtc::{
    admit_incoming_channel, check_commissioning_provider, default_commissioning, is_default_commissioning, mark_route_stale, refreshed_step,
    validate_local_hint, CommissioningStep, ProviderCommissioning, MAX_LOCAL_HINT,
    MAX_PENDING_INCOMING_CHANNELS,
};
use crate::iroh_lifecycle::ProviderRouteState;

verus! {

/// The channel bound to `contact`: the last binding made.
pub open spec fn channel_of(bound: Seq<(u128, u64)>, contact: u128) -> Option<u64>
    decreases bound.len(),
{
    if bound.len() == 0 {
        None
    } else if bound.last().0 == contact {
        Some(bound.last().1)
    } else {
        channel_of(bound.drop_last(), contact)
    }
}

/// `bound` without the bindings of `contact`.
pub open spec fn unbound(bound: Seq<(u128, u64)>, contact: u128) -> Seq<(u128, u64)>
    decreases bound.len(),
{
    if bound.len() == 0 {
        bound
    } else if bound.last().0 == contact {
        unbound(bound.drop_last(), contact)
    } else {
        unbound(bound.drop_last(), contact).push(bound.last())
    }
}

/// The channel handles of the bindings, in order.
pub open spec fn handles(bound: Seq<(u128, u64)>) -> Seq<u64> {
    bound.map_values(|b: (u128, u64)| b.1)
}

/// `new` binds `contact` as `binding` says and every other contact as `old`.
pub open spec fn rebound(old: Seq<(u128, u64)>, new: Seq<(u128, u64)>, contact: u128, binding: Option<u64>) -> bool {
    &&& channel_of(new, contact) == binding
    &&& forall|k: u128| k != contact ==> channel_of(new, k) == channel_of(old, k)
}

proof fn lemma_unbound(bound: Seq<(u128, u64)>, contact: u128)
    ensures
        rebound(bound, unbound(bound, contact), contact, None),
        channel_of(bound, contact) is None ==> unbound(bound, contact) == bound,
    decreases bound.len(),
{
    if bound.len() > 0 {
        let t = bound.drop_last();
        lemma_unbound(t, contact);
        let w = unbound(t, contact);
        assert(w.push(bound.last()).drop_last() =~= w);
        assert forall|k: u128| k != contact implies channel_of(unbound(bound, contact), k)
            == channel_of(bound, k) by {
            assert(channel_of(w, k) == channel_of(t, k));
            if bound.last().0 != contact {
                assert(unbound(bound, contact) == w.push(bound.last()));
            }
        }
        if channel_of(bound, contact) is None {
            assert(bound.last().0 != contact);
            assert(t.push(bound.last()) =~= bound);
        }
    }
}

/// Two commissioning reports with the same facts.
pub open spec fn same_commissioning(a: ProviderCommissioning, b: ProviderCommissioning) -> bool {
    &&& a.provider == b.provider
    &&& a.steps@ == b.steps@
    &&& match (a.endpoint_summary, b.endpoint_summary) {
        (Some(x), Some(y)) => x@ == y@,
        (None, None) => true,
        _ => false,
    }
    &&& a.route_state == b.route_state
}

/// The platform's WebRTC registry.
pub struct WebRtcHostBridge {
    local_hint: Vec<u8>,
    commissioning: ProviderCommissioning,
    channels: Vec<(u128, u64)>,
    incoming: Vec<u64>,
}

impl WebRtcHostBridge {
    pub closed spec fn hint(&self) -> Seq<u8> {
        self.local_hint@
    }

    /// The commissioning facts last published.
    pub closed spec fn published(&self) -> ProviderCommissioning {
        self.commissioning
    }

    /// The bindings of contacts to channels.
    pub closed spec fn bound(&self) -> Seq<(u128, u64)> {
        self.channels@
    }

    /// The incoming channels waiting, oldest first.
    pub closed spec fn waiting(&self) -> Seq<u64> {
        self.incoming@
    }

    /// A registry for the local signaling hint, which must be 1 to 8192
    /// bytes; it starts with the default commissioning and no channels.
    pub fn new(local_hint: Vec<u8>) -> (r: Result<Self, String>)
        ensures
            match r {
                Ok(bridge) => {
                    &&& 1 <= local_hint@.len() <= MAX_LOCAL_HINT
                    &&& bridge.hint() == local_hint@
                    &&& is_default_commissioning(bridge.published())
                    &&& bridge.bound().len() == 0
                    &&& bridge.waiting().len() == 0
                },
                Err(e) => !(1 <= local_hint@.len() <= MAX_LOCAL_HINT) && e@
                    == "WebRTC local signaling hint must be 1..=8192 bytes"@,
            },
    {
        match validate_local_hint(local_hint.len()) {
            Err(e) => Err(e),
            Ok(()) => Ok(
                WebRtcHostBridge {
                    local_hint,
                    commissioning: default_commissioning(),
                    channels: Vec::new(),
                    incoming: Vec::new(),
                },
            ),
        }
    }

    /// The local signaling hint.
    pub fn local_endpoint_hint(&self) -> (r: Vec<u8>)
        ensures
            r@ == self.hint(),
    {
        clone_bytes(&self.local_hint)
    }

    /// Publishes commissioning facts from the host; only WebRTC facts are
    /// taken.
    pub fn set_commissioning(&mut self, commissioning: ProviderCommissioning) -> (r: Result<(), String>)
        ensures
            final(self).hint() == old(self).hint(),
            final(self).bound() == old(self).bound(),
            final(self).waiting() == old(self).waiting(),
            match r {
                Ok(()) => commissioning.provider == TransportKind::WebRtc && final(self).published()
                    == commissioning,
                Err(e) => commissioning.provider != TransportKind::WebRtc && final(self).published()
                    == old(self).published() && e@ == "commissioning snapshot belongs to another provider"@,
            },
    {
        match check_commissioning_provider(&commissioning) {
            Err(e) => Err(e),
            Ok(()) => {
                self.commissioning = commissioning;
                Ok(())
            },
        }
    }

    /// The commissioning facts last published.
    pub fn commissioning(&self) -> (r: ProviderCommissioning)
        ensures
            same_commissioning(r, self.published()),
    {
        let mut steps: Vec<CommissioningStep> = Vec::new();
        let mut i: usize = 0;
        while i < self.commissioning.steps.len()
            invariant
                i <= self.commissioning.steps@.len(),
                steps@ == self.commissioning.steps@.subrange(0, i as int),
            decreases self.commissioning.steps@.len() - i,
        {
            steps.push(self.commissioning.steps[i]);
            i = i + 1;
            assert(steps@ =~= self.commissioning.steps@.subrange(0, i as int));
        }
        assert(steps@ =~= self.commissioning.steps@);
        let endpoint_summary = match &self.commissioning.endpoint_summary {
            Some(summary) => Some(summary.clone()),
            None => None,
        };
        ProviderCommissioning {
            provider: self.commissioning.provider,
            steps,
            endpoint_summary,
            route_state: self.commissioning.route_state,
        }
    }

    /// Binds a negotiated channel to a contact; the channel it replaces, if
    /// any, is handed back to be closed.
    pub fn bind_contact(&mut self, contact: u128, channel: u64) -> (previous: Option<u64>)
        ensures
            previous == channel_of(old(self).bound(), contact),
            rebound(old(self).bound(), final(self).bound(), contact, Some(channel)),
            final(self).waiting() == old(self).waiting(),
            final(self).published() == old(self).published(),
            final(self).hint() == old(self).hint(),
    {
        let previous = self.unbind_contact(contact);
        let ghost w = self.channels@;
        self.channels.push((contact, channel));
        assert(self.channels@.drop_last() =~= w);
        previous
    }

    /// Removes a contact's channel, handed back to be closed, so that a
    /// later dial cannot reach it.
    pub fn unbind_contact(&mut self, contact: u128) -> (removed: Option<u64>)
        ensures
            removed == channel_of(old(self).bound(), contact),
            rebound(old(self).bound(), final(self).bound(), contact, None),
            final(self).waiting() == old(self).waiting(),
            final(self).published() == old(self).published(),
            final(self).hint() == old(self).hint(),
    {
        let removed = self.connect(contact);
        let mut kept: Vec<(u128, u64)> = Vec::new();
        let mut i: usize = 0;
        while i < self.channels.len()
            invariant
                i <= self.channels@.len(),
                kept@ == unbound(self.channels@.take(i as int), contact),
            decreases self.channels@.len() - i,
        {
            assert(self.channels@.take(i as int + 1).drop_last() =~= self.channels@.take(i as int));
            if self.channels[i].0 != contact {
                kept.push(self.channels[i]);
            }
            i = i + 1;
        }
        assert(self.channels@.take(i as int) =~= self.channels@);
        proof {
            lemma_unbound(self.channels@, contact);
        }
        self.channels = kept;
        removed
    }

    /// The channel negotiated for a contact.
    pub fn connect(&self, contact: u128) -> (r: Option<u64>)
        ensures
            r == channel_of(self.bound(), contact),
    {
        let mut found: Option<u64> = None;
        let mut i: usize = 0;
        while i < self.channels.len()
            invariant
                i <= self.channels@.len(),
                found == channel_of(self.channels@.take(i as int), contact),
            decreases self.channels@.len() - i,
        {
            assert(self.channels@.take(i as int + 1).drop_last() =~= self.channels@.take(i as int));
            if self.channels[i].0 == contact {
                found = Some(self.channels[i].1);
            }
            i = i + 1;
        }
        assert(self.channels@.take(i as int) =~= self.channels@);
        found
    }

    /// Queues an incoming channel for the runtime, unless 64 already wait;
    /// a refused channel is for the caller to close.
    pub fn push_incoming(&mut self, channel: u64) -> (r: Result<(), String>)
        ensures
            final(self).bound() == old(self).bound(),
            final(self).published() == old(self).published(),
            final(self).hint() == old(self).hint(),
            if old(self).waiting().len() < MAX_PENDING_INCOMING_CHANNELS {
                r is Ok && final(self).waiting() == old(self).waiting().push(channel)
            } else {
                &&& final(self).waiting() == old(self).waiting()
                &&& r matches Err(e) && e@ == "WebRTC incoming channel queue is full"@
            },
            old(self).waiting().len() <= MAX_PENDING_INCOMING_CHANNELS ==> final(self).waiting().len()
                <= MAX_PENDING_INCOMING_CHANNELS,
    {
        admit_incoming_channel(self.incoming.len())?;
        self.incoming.push(channel);
        Ok(())
    }

    /// The oldest waiting incoming channel.
    pub fn accept(&mut self) -> (r: Option<u64>)
        ensures
            final(self).bound() == old(self).bound(),
            final(self).published() == old(self).published(),
            final(self).hint() == old(self).hint(),
            if old(self).waiting().len() == 0 {
                r is None && final(self).waiting() == old(self).waiting()
            } else {
                r == Some(old(self).waiting()[0]) && final(self).waiting() == old(self).waiting().drop_first()
            },
    {
        if self.incoming.len() == 0 {
            return None;
        }
        let first = self.incoming.remove(0);
        assert(self.incoming@ =~= old(self).incoming@.drop_first());
        Some(first)
    }

    /// Drops every bound and waiting channel; their handles come back, the
    /// bound ones first, to be closed.
    pub fn clear_channels(&mut self) -> (r: Vec<u64>)
        ensures
            r@ == handles(old(self).bound()) + old(self).waiting(),
            final(self).bound().len() == 0,
            final(self).waiting().len() == 0,
            final(self).published() == old(self).published(),
            final(self).hint() == old(self).hint(),
    {
        let mut out: Vec<u64> = Vec::new();
        let mut i: usize = 0;
        while i < self.channels.len()
            invariant
                i <= self.channels@.len(),
                out@ == handles(self.channels@.take(i as int)),
            decreases self.channels@.len() - i,
        {
            out.push(self.channels[i].1);
            i = i + 1;
            assert(out@ =~= handles(self.channels@.take(i as int)));
        }
        assert(self.channels@.take(i as int) =~= self.channels@);
        let mut k: usize = 0;
        while k < self.incoming.len()
            invariant
                k <= self.incoming@.len(),
                out@ == handles(self.channels@) + self.incoming@.take(k as int),
            decreases self.incoming@.len() - k,
        {
            out.push(self.incoming[k]);
            k = k + 1;
            assert(out@ =~= handles(self.channels@) + self.incoming@.take(k as int));
        }
        assert(self.incoming@.take(k as int) =~= self.incoming@);
        self.channels = Vec::new();
        self.incoming = Vec::new();
        out
    }

    /// Before renegotiation: every channel is dropped (handed back to be
    /// closed) and the route is stale, with incoming reachability pending.
    pub fn refresh_route(&mut self) -> (r: Vec<u64>)
        ensures
            r@ == handles(old(self).bound()) + old(self).waiting(),
            final(self).bound().len() == 0,
            final(self).waiting().len() == 0,
            final(self).hint() == old(self).hint(),
            final(self).published().route_state == ProviderRouteState::Stale,
            final(self).published().provider == old(self).published().provider,
            final(self).published().endpoint_summary == old(self).published().endpoint_summary,
            final(self).published().steps@ == old(self).published().steps@.map_values(
                |s: CommissioningStep| refreshed_step(s),
            ),
    {
        let closed = self.clear_channels();
        mark_route_stale(&mut self.commissioning);
        assert(self.commissioning.steps@ =~= old(self).commissioning.steps@.map_values(
            |s: CommissioningStep| refreshed_step(s),
        ));
        closed
    }
}

} // verus!
