//! The queues of the Iroh incoming router: accepted connections wait here,
//! one bounded queue per route, until the peer runtime, the radio worker or
//! the pairing server takes them. Connections are the provider's; here each
//! is known by a handle, and every connection the router drops is handed
//! back to be closed. Connections accepted on an earlier endpoint are
//! dropped before the next endpoint's are served.
use vstd::prelude::*;
use crate::iroh_lifecycle::{
    admission, close_reason, generation_changed, spec_admission, Admission, IncomingRoute,
    MAX_PENDING_INCOMING_STREAMS, MAX_PENDING_PAIRING_CONNECTIONS,
};

verus! {

/// The bound of a route's queue.
pub open spec fn queue_bound(route: IncomingRoute) -> int {
    if route == IncomingRoute::Pairing {
        MAX_PENDING_PAIRING_CONNECTIONS as int
    } else {
        MAX_PENDING_INCOMING_STREAMS as int
    }
}

fn pop_front(queue: &mut Vec<u64>) -> (r: Option<u64>)
    ensures
        old(queue)@.len() == 0 ==> r is None && final(queue)@ == old(queue)@,
        old(queue)@.len() > 0 ==> r == Some(old(queue)@[0]) && final(queue)@ == old(queue)@.drop_first(),
{
    if queue.len() == 0 {
        return None;
    }
    let first = queue.remove(0);
    assert(queue@ =~= old(queue)@.drop_first());
    Some(first)
}

/// The accepted connections waiting on each route.
pub struct IncomingQueues {
    peer: Vec<u64>,
    radio: Vec<u64>,
    pairing: Vec<u64>,
    observed_generation: Option<u64>,
}

impl IncomingQueues {
    /// The connections waiting on `route`, oldest first; none on an
    /// unsupported route.
    pub closed spec fn waiting(&self, route: IncomingRoute) -> Seq<u64> {
        match route {
            IncomingRoute::Peer => self.peer@,
            IncomingRoute::Radio => self.radio@,
            IncomingRoute::Pairing => self.pairing@,
            IncomingRoute::Unsupported => Seq::empty(),
        }
    }

    /// The endpoint generation whose connections are being served.
    pub closed spec fn observed(&self) -> Option<u64> {
        self.observed_generation
    }

    /// Every queue is within its bound.
    pub open spec fn bounded(&self) -> bool {
        &&& self.waiting(IncomingRoute::Peer).len() <= queue_bound(IncomingRoute::Peer)
        &&& self.waiting(IncomingRoute::Radio).len() <= queue_bound(IncomingRoute::Radio)
        &&& self.waiting(IncomingRoute::Pairing).len() <= queue_bound(IncomingRoute::Pairing)
    }

    /// No connection waits and no endpoint has been served yet.
    pub fn new() -> (r: Self)
        ensures
            r.waiting(IncomingRoute::Peer).len() == 0,
            r.waiting(IncomingRoute::Radio).len() == 0,
            r.waiting(IncomingRoute::Pairing).len() == 0,
            r.observed() is None,
            r.bounded(),
    {
        IncomingQueues { peer: Vec::new(), radio: Vec::new(), pairing: Vec::new(), observed_generation: None }
    }

    fn len_of(&self, route: IncomingRoute) -> (r: usize)
        ensures
            r == self.waiting(route).len(),
    {
        match route {
            IncomingRoute::Peer => self.peer.len(),
            IncomingRoute::Radio => self.radio.len(),
            IncomingRoute::Pairing => self.pairing.len(),
            IncomingRoute::Unsupported => 0,
        }
    }

    /// An accepted connection on `route`: queued (`None`) while its queue
    /// has room, else refused with the reason to close it with.
    pub fn offer(&mut self, route: IncomingRoute, connection: u64) -> (refused: Option<&'static str>)
        ensures
            final(self).observed() == old(self).observed(),
            spec_admission(route, old(self).waiting(route).len() as usize) == Admission::Queue ==> {
                &&& refused is None
                &&& final(self).waiting(route) == old(self).waiting(route).push(connection)
                &&& forall|other: IncomingRoute| other != route ==> final(self).waiting(other)
                    == old(self).waiting(other)
            },
            spec_admission(route, old(self).waiting(route).len() as usize) == Admission::Close ==> {
                &&& refused matches Some(reason) && reason@ == match route {
                    IncomingRoute::Pairing => "pairing queue full"@,
                    IncomingRoute::Peer => "peer queue full"@,
                    IncomingRoute::Radio => "radio queue full"@,
                    IncomingRoute::Unsupported => "unsupported ALPN"@,
                }
                &&& forall|other: IncomingRoute| final(self).waiting(other) == old(self).waiting(other)
            },
            old(self).bounded() ==> final(self).bounded(),
    {
        let waiting = self.len_of(route);
        match admission(route, waiting) {
            Admission::Close => Some(close_reason(route)),
            Admission::Queue => {
                match route {
                    IncomingRoute::Peer => self.peer.push(connection),
                    IncomingRoute::Radio => self.radio.push(connection),
                    IncomingRoute::Pairing => self.pairing.push(connection),
                    IncomingRoute::Unsupported => {},
                }
                None
            },
        }
    }

    /// The oldest connection waiting on `route`.
    pub fn take(&mut self, route: IncomingRoute) -> (r: Option<u64>)
        ensures
            final(self).observed() == old(self).observed(),
            old(self).waiting(route).len() == 0 ==> r is None && forall|other: IncomingRoute|
                final(self).waiting(other) == old(self).waiting(other),
            old(self).waiting(route).len() > 0 ==> {
                &&& r == Some(old(self).waiting(route)[0])
                &&& final(self).waiting(route) == old(self).waiting(route).drop_first()
                &&& forall|other: IncomingRoute| other != route ==> final(self).waiting(other)
                    == old(self).waiting(other)
            },
            old(self).bounded() ==> final(self).bounded(),
    {
        match route {
            IncomingRoute::Peer => pop_front(&mut self.peer),
            IncomingRoute::Radio => pop_front(&mut self.radio),
            IncomingRoute::Pairing => pop_front(&mut self.pairing),
            IncomingRoute::Unsupported => None,
        }
    }

    /// Whether a radio connection is already waiting, so that a newly
    /// installed radio wake callback must be called at once.
    pub fn radio_pending(&self) -> (r: bool)
        ensures
            r == (self.waiting(IncomingRoute::Radio).len() > 0),
    {
        self.radio.len() > 0
    }

    /// Drops every waiting connection; they come back, peer streams first,
    /// then radio streams, then pairing connections, to be closed.
    pub fn clear_pending(&mut self) -> (closed: Vec<u64>)
        ensures
            closed@ == old(self).waiting(IncomingRoute::Peer) + old(self).waiting(IncomingRoute::Radio)
                + old(self).waiting(IncomingRoute::Pairing),
            forall|route: IncomingRoute| final(self).waiting(route).len() == 0,
            final(self).observed() == old(self).observed(),
            final(self).bounded(),
    {
        let mut closed: Vec<u64> = Vec::new();
        closed.append(&mut self.peer);
        closed.append(&mut self.radio);
        closed.append(&mut self.pairing);
        proof {
            assert forall|route: IncomingRoute| self.waiting(route).len() == 0 by {}
        }
        closed
    }

    /// Serving the endpoint of `generation`: connections accepted on an
    /// earlier endpoint are dropped and handed back to be closed.
    pub fn observe_generation(&mut self, generation: u64) -> (closed: Vec<u64>)
        ensures
            final(self).observed() == Some(generation),
            if old(self).observed() matches Some(previous) && previous != generation {
                &&& closed@ == old(self).waiting(IncomingRoute::Peer) + old(self).waiting(
                    IncomingRoute::Radio,
                ) + old(self).waiting(IncomingRoute::Pairing)
                &&& forall|route: IncomingRoute| final(self).waiting(route).len() == 0
            } else {
                &&& closed@.len() == 0
                &&& forall|route: IncomingRoute| final(self).waiting(route) == old(self).waiting(route)
            },
            old(self).bounded() ==> final(self).bounded(),
    {
        let closed = if generation_changed(self.observed_generation, generation) {
            self.clear_pending()
        } else {
            Vec::new()
        };
        self.observed_generation = Some(generation);
        closed
    }
}

} // verus!
