//! Deterministic in-memory transport for provider contract and soak tests:
//! two connected ends exchange byte frames through shared lanes, and a
//! shared network lets factories find each other by opaque endpoint bytes.
use vstd::prelude::*;
use std::collections::{BTreeMap, VecDeque};
use std::sync::{Arc, Mutex, MutexGuard};

verus! {

/// Error reported by a peer transport.
#[derive(Clone, Debug, PartialEq, Eq)]
pub struct PeerTransportError(pub String);

/// Error reported by a transport factory.
#[derive(Clone, Copy, Debug, PartialEq, Eq, Structural)]
pub enum TransportFactoryError {
    /// The endpoint is not acceptable to this provider.
    Protocol,
    /// The listener registry is unusable or the endpoint is taken.
    Listener,
    /// The local route is stale and must be refreshed before dialling.
    RouteStale,
    /// No listener is bound at the contact's endpoint.
    ContactNotFound,
}

/// A one-way frame queue shared by the two ends of a pair, with the
/// receiver's wake callback. Its contents live behind a lock.
#[verifier::external_body]
pub struct SharedLane {
    queue: Mutex<VecDeque<Vec<u8>>>,
    wake: Mutex<Option<Arc<dyn Fn() + Send + Sync>>>,
}

/// `Mutex::new` of an empty queue and an empty wake slot.
#[verifier::external_body]
fn lane_new() -> Arc<SharedLane> {
    Arc::new(SharedLane { queue: Mutex::new(VecDeque::new()), wake: Mutex::new(None) })
}

/// The frames in the queue that a lane guard holds, oldest first.
pub uninterp spec fn guarded_frames(guard: &MutexGuard<'_, VecDeque<Vec<u8>>>) -> Seq<Seq<u8>>;

/// `Mutex::lock` on a lane's queue: the guard, or `None` when the lock is
/// poisoned. The queue stays locked until the guard is dropped.
#[verifier::external_body]
fn lane_lock(lane: &SharedLane) -> (r: Option<MutexGuard<'_, VecDeque<Vec<u8>>>>) {
    lane.queue.lock().ok()
}

/// `VecDeque::push_back` through the guard: the frame joins the back.
#[verifier::external_body]
fn queue_push(guard: &mut MutexGuard<'_, VecDeque<Vec<u8>>>, payload: Vec<u8>)
    ensures
        guarded_frames(final(guard)) == guarded_frames(old(guard)).push(payload@),
{
    guard.push_back(payload);
}

/// `VecDeque::pop_front` through the guard: the oldest frame, removed;
/// `None` exactly when the queue is empty.
#[verifier::external_body]
fn queue_pop(guard: &mut MutexGuard<'_, VecDeque<Vec<u8>>>) -> (r: Option<Vec<u8>>)
    ensures
        match r {
            None => guarded_frames(old(guard)).len() == 0 && guarded_frames(final(guard)) == guarded_frames(
                old(guard),
            ),
            Some(frame) => guarded_frames(old(guard)).len() > 0 && frame@ == guarded_frames(old(guard))[0]
                && guarded_frames(final(guard)) == guarded_frames(old(guard)).drop_first(),
        },
{
    guard.pop_front()
}

/// `Mutex::lock` then stores the wake callback.
#[verifier::external_body]
fn lane_set_waker<F: Fn() + Send + Sync + 'static>(lane: &SharedLane, waker: Arc<F>) {
    if let Ok(mut slot) = lane.wake.lock() {
        *slot = Some(waker);
    }
}

/// `Mutex::lock` then calls the stored wake callback, if any.
#[verifier::external_body]
fn lane_wake(lane: &SharedLane) {
    if let Some(waker) = lane.wake.lock().ok().and_then(|slot| slot.clone()) {
        waker();
    }
}

proof fn lemma_messages_differ()
    ensures
        "memory transport queue poisoned"@ != "memory transport is not connected"@,
{
    reveal_strlit("memory transport queue poisoned");
    reveal_strlit("memory transport is not connected");
    assert("memory transport queue poisoned"@.len() != "memory transport is not connected"@.len());
}

/// One end of an in-memory pair.
pub struct MemoryTransport {
    inbound: Arc<SharedLane>,
    outbound: Arc<SharedLane>,
    connected: bool,
}

impl MemoryTransport {
    /// Two connected-to-each-other ends, both not yet connected: what one
    /// end sends, the other receives.
    pub fn pair() -> (r: (Self, Self))
        ensures
            !r.0.is_connected(),
            !r.1.is_connected(),
            r.0.inbound_lane() == r.1.outbound_lane(),
            r.0.outbound_lane() == r.1.inbound_lane(),
    {
        let left = lane_new();
        let right = lane_new();
        (MemoryTransport::new(left.clone(), right.clone()), MemoryTransport::new(right, left))
    }

    fn new(inbound: Arc<SharedLane>, outbound: Arc<SharedLane>) -> (r: Self)
        ensures
            !r.is_connected(),
            r.inbound_lane() == inbound,
            r.outbound_lane() == outbound,
    {
        MemoryTransport { inbound, outbound, connected: false }
    }

    /// The lane this end receives from.
    pub closed spec fn inbound_lane(&self) -> Arc<SharedLane> {
        self.inbound
    }

    /// The lane this end sends into.
    pub closed spec fn outbound_lane(&self) -> Arc<SharedLane> {
        self.outbound
    }

    pub closed spec fn is_connected(&self) -> bool {
        self.connected
    }

    pub fn connected(&self) -> (r: bool)
        ensures
            r == self.is_connected(),
    {
        self.connected
    }

    fn error(message: &str) -> (r: PeerTransportError)
        ensures
            r.0@ == message@,
    {
        PeerTransportError(message.to_owned())
    }

    pub fn connect(&mut self) -> (r: Result<(), PeerTransportError>)
        ensures
            r is Ok,
            final(self).is_connected(),
    {
        self.connected = true;
        Ok(())
    }

    /// Queues one frame for the other end and wakes it. A transport that is
    /// not connected refuses.
    pub fn send(&mut self, payload: Vec<u8>) -> (r: Result<(), PeerTransportError>)
        ensures
            final(self).is_connected() == old(self).is_connected(),
            (r matches Err(e) && e.0@ == "memory transport is not connected"@) <==> !old(
                self,
            ).is_connected(),
            r matches Err(e) ==> (e.0@ == "memory transport is not connected"@ || e.0@
                == "memory transport queue poisoned"@),
    {
        if !self.connected {
            return Err(MemoryTransport::error("memory transport is not connected"));
        }
        let pushed = match lane_lock(&self.outbound) {
            Some(mut queue) => {
                queue_push(&mut queue, payload);
                true
            },
            None => false,
        };
        if !pushed {
            proof {
                lemma_messages_differ();
            }
            return Err(MemoryTransport::error("memory transport queue poisoned"));
        }
        lane_wake(&self.outbound);
        Ok(())
    }

    /// Takes the oldest frame the other end sent, if any. A transport that
    /// is not connected refuses.
    pub fn try_receive(&mut self) -> (r: Result<Option<Vec<u8>>, PeerTransportError>)
        ensures
            final(self).is_connected() == old(self).is_connected(),
            (r matches Err(e) && e.0@ == "memory transport is not connected"@) <==> !old(
                self,
            ).is_connected(),
            r matches Err(e) ==> (e.0@ == "memory transport is not connected"@ || e.0@
                == "memory transport queue poisoned"@),
    {
        if !self.connected {
            return Err(MemoryTransport::error("memory transport is not connected"));
        }
        match lane_lock(&self.inbound) {
            Some(mut queue) => Ok(queue_pop(&mut queue)),
            None => {
                proof {
                    lemma_messages_differ();
                }
                Err(MemoryTransport::error("memory transport queue poisoned"))
            },
        }
    }

    /// Same as `try_receive`: the memory transport never waits.
    pub fn receive_timeout(&mut self, _timeout_ms: u64) -> (r: Result<
        Option<Vec<u8>>,
        PeerTransportError,
    >)
        ensures
            final(self).is_connected() == old(self).is_connected(),
            (r matches Err(e) && e.0@ == "memory transport is not connected"@) <==> !old(
                self,
            ).is_connected(),
            r matches Err(e) ==> (e.0@ == "memory transport is not connected"@ || e.0@
                == "memory transport queue poisoned"@),
    {
        self.try_receive()
    }

    pub fn close(&mut self) -> (r: Result<(), PeerTransportError>)
        ensures
            r is Ok,
            !final(self).is_connected(),
    {
        self.connected = false;
        Ok(())
    }

    /// Installs the callback run when the other end sends a frame.
    pub fn set_waker<F: Fn() + Send + Sync + 'static>(&mut self, waker: Arc<F>)
        ensures
            final(self).is_connected() == old(self).is_connected(),
            final(self).inbound_lane() == old(self).inbound_lane(),
            final(self).outbound_lane() == old(self).outbound_lane(),
    {
        lane_set_waker(&self.inbound, waker);
    }

    /// The provider id of this transport.
    pub fn provider_id(&self) -> (r: &'static str)
        ensures
            r@ == "memory"@,
    {
        "memory"
    }
}

/// Pending incoming transports of one bound endpoint, and its wake callback.
#[verifier::external_body]
pub struct SharedListener {
    pending: Mutex<VecDeque<MemoryTransport>>,
    wake: Mutex<Option<Arc<dyn Fn() + Send + Sync>>>,
}

/// The endpoint registry of one network, keyed by endpoint bytes.
#[verifier::external_body]
pub struct SharedRegistry {
    listeners: Mutex<BTreeMap<Vec<u8>, Arc<SharedListener>>>,
}

/// `Mutex::new` of an empty listener.
#[verifier::external_body]
fn listener_new() -> Arc<SharedListener> {
    Arc::new(SharedListener { pending: Mutex::new(VecDeque::new()), wake: Mutex::new(None) })
}

/// `Mutex::new` of an empty registry.
#[verifier::external_body]
fn registry_new() -> Arc<SharedRegistry> {
    Arc::new(SharedRegistry { listeners: Mutex::new(BTreeMap::new()) })
}

/// The lock guard of the registry's map, as `std` declares it.
#[verifier::external_type_specification]
#[verifier::external_body]
#[verifier::reject_recursive_types(T)]
pub struct ExMutexGuard<'a, T: ?Sized + 'a>(MutexGuard<'a, T>);

/// The endpoints bound in the map that a registry guard holds.
pub uninterp spec fn guarded_endpoints(guard: &MutexGuard<'_, BTreeMap<Vec<u8>, Arc<SharedListener>>>) -> Set<Seq<u8>>;

/// `Mutex::lock` on the registry's map: the guard, or `None` when the lock
/// is poisoned. The map stays locked until the guard is dropped. The
/// contract claims the call does not unwind: `std` documents a panic only
/// for a thread that already holds this same lock, and no function of this
/// module returns while holding it.
#[verifier::external_body]
fn registry_lock(registry: &SharedRegistry) -> (r: Option<MutexGuard<'_, BTreeMap<Vec<u8>, Arc<SharedListener>>>>)
    opens_invariants none
    no_unwind
{
    registry.listeners.lock().ok()
}

/// `BTreeMap::insert` through the guard: the endpoint is bound to the new
/// listener; says whether it was bound before (the old binding is
/// replaced).
#[verifier::external_body]
fn guard_insert(
    guard: &mut MutexGuard<'_, BTreeMap<Vec<u8>, Arc<SharedListener>>>,
    endpoint: Vec<u8>,
    listener: Arc<SharedListener>,
) -> (was_bound: bool)
    ensures
        was_bound == guarded_endpoints(old(guard)).contains(endpoint@),
        guarded_endpoints(final(guard)) == guarded_endpoints(old(guard)).insert(endpoint@),
{
    guard.insert(endpoint, listener).is_some()
}

/// `BTreeMap::get` through the guard, cloning the listener handle: `Some`
/// exactly when the endpoint is bound.
#[verifier::external_body]
fn guard_get(
    guard: &MutexGuard<'_, BTreeMap<Vec<u8>, Arc<SharedListener>>>,
    endpoint: &Vec<u8>,
) -> (r: Option<Arc<SharedListener>>)
    ensures
        r is Some <==> guarded_endpoints(guard).contains(endpoint@),
    opens_invariants none
    no_unwind
{
    guard.get(endpoint).cloned()
}

/// `BTreeMap::remove` through the guard: the endpoint is no longer bound.
#[verifier::external_body]
fn guard_remove(guard: &mut MutexGuard<'_, BTreeMap<Vec<u8>, Arc<SharedListener>>>, endpoint: &Vec<u8>)
    ensures
        guarded_endpoints(final(guard)) == guarded_endpoints(old(guard)).remove(endpoint@),
    opens_invariants none
    no_unwind
{
    guard.remove(endpoint);
}

/// `Arc::ptr_eq`: whether the two handles share one allocation, which
/// then holds one listener.
#[verifier::external_body]
fn same_listener(a: &Arc<SharedListener>, b: &Arc<SharedListener>) -> (r: bool)
    ensures
        r ==> a == b,
    opens_invariants none
    no_unwind
{
    Arc::ptr_eq(a, b)
}

/// `Mutex::lock` then `VecDeque::push_back` of an accepted transport.
#[verifier::external_body]
fn listener_push(listener: &SharedListener, transport: MemoryTransport) -> (ok: bool) {
    match listener.pending.lock() {
        Ok(mut pending) => {
            pending.push_back(transport);
            true
        },
        Err(_) => false,
    }
}

/// `Mutex::lock` then `VecDeque::pop_front` of a pending transport.
#[verifier::external_body]
fn listener_pop(listener: &SharedListener) -> (r: Result<Option<MemoryTransport>, ()>) {
    match listener.pending.lock() {
        Ok(mut pending) => Ok(pending.pop_front()),
        Err(_) => Err(()),
    }
}

/// `Mutex::lock` then stores the listener's wake callback.
#[verifier::external_body]
fn listener_set_waker<F: Fn() + Send + Sync + 'static>(listener: &SharedListener, waker: Arc<F>) -> (ok: bool) {
    match listener.wake.lock() {
        Ok(mut slot) => {
            *slot = Some(waker);
            true
        },
        Err(_) => false,
    }
}

/// `Mutex::lock` then calls the listener's wake callback, if any.
#[verifier::external_body]
fn listener_wake(listener: &SharedListener) {
    if let Some(waker) = listener.wake.lock().ok().and_then(|slot| slot.clone()) {
        waker();
    }
}

/// Largest endpoint a memory network accepts, in bytes.
pub const MAX_MEMORY_ENDPOINT_LEN: usize = 8192;

/// Shared deterministic network used by provider conformance tests.
/// Endpoint bytes are opaque to the peer layer and meaningful only here.
#[derive(Clone)]
pub struct MemoryNetwork {
    listeners: Arc<SharedRegistry>,
}

impl MemoryNetwork {
    /// The endpoint registry this network's factories share.
    pub closed spec fn registry(&self) -> Arc<SharedRegistry> {
        self.listeners
    }

    pub fn new() -> (r: Self) {
        MemoryNetwork { listeners: registry_new() }
    }

    /// Binds a factory at `endpoint`. Empty or oversized endpoints are a
    /// protocol error; an endpoint that is already bound is a listener
    /// error.
    pub fn bind(&self, endpoint: Vec<u8>) -> (r: Result<MemoryTransportFactory, TransportFactoryError>)
        ensures
            r == Err::<MemoryTransportFactory, TransportFactoryError>(TransportFactoryError::Protocol) <==> (
            endpoint@.len() == 0 || endpoint@.len() > MAX_MEMORY_ENDPOINT_LEN),
            r matches Err(e) ==> (e == TransportFactoryError::Protocol || e
                == TransportFactoryError::Listener),
            r matches Ok(f) ==> (f.endpoint_bytes() == endpoint@ && !f.is_route_stale() && f.registry_handle()
                == self.registry()),
    {
        if endpoint.len() == 0 || endpoint.len() > MAX_MEMORY_ENDPOINT_LEN {
            return Err(TransportFactoryError::Protocol);
        }
        let listener = listener_new();
        let mut listeners = match registry_lock(&self.listeners) {
            Some(guard) => guard,
            None => {
                return Err(TransportFactoryError::Listener);
            },
        };
        match guard_insert(&mut listeners, endpoint.clone(), listener.clone()) {
            true => Err(TransportFactoryError::Listener),
            false => Ok(
                MemoryTransportFactory {
                    network: MemoryNetwork { listeners: self.listeners.clone() },
                    endpoint,
                    listener,
                    route_stale: false,
                },
            ),
        }
    }
}

/// Factory-backed memory provider. It dials contact endpoints just like a
/// network provider, while keeping conformance scenarios deterministic.
/// Its endpoint stays bound until the factory is dropped.
pub struct MemoryTransportFactory {
    network: MemoryNetwork,
    endpoint: Vec<u8>,
    listener: Arc<SharedListener>,
    route_stale: bool,
}

impl MemoryTransportFactory {
    pub closed spec fn endpoint_bytes(&self) -> Seq<u8> {
        self.endpoint@
    }

    pub closed spec fn is_route_stale(&self) -> bool {
        self.route_stale
    }

    /// The listener that receives the transports dialled to this endpoint.
    pub closed spec fn listener_handle(&self) -> Arc<SharedListener> {
        self.listener
    }

    /// The registry of the network this factory is bound in.
    pub closed spec fn registry_handle(&self) -> Arc<SharedRegistry> {
        self.network.listeners
    }

    /// The factory's endpoint, listener and network are those of `other`.
    pub open spec fn same_binding(&self, other: &Self) -> bool {
        &&& self.endpoint_bytes() == other.endpoint_bytes()
        &&& self.listener_handle() == other.listener_handle()
        &&& self.registry_handle() == other.registry_handle()
    }

    pub fn endpoint(&self) -> (r: &[u8])
        ensures
            r@ == self.endpoint_bytes(),
    {
        self.endpoint.as_slice()
    }

    /// Marks the local route stale: dialling is refused until refreshed.
    pub fn mark_route_stale(&mut self)
        ensures
            final(self).is_route_stale(),
            final(self).same_binding(old(self)),
    {
        self.route_stale = true;
    }

    /// Marks the local route fresh again and wakes the listener.
    pub fn mark_route_refreshed(&mut self)
        ensures
            !final(self).is_route_stale(),
            final(self).same_binding(old(self)),
    {
        self.route_stale = false;
        listener_wake(&self.listener);
    }

    pub fn provider_id(&self) -> (r: &'static str)
        ensures
            r@ == "memory"@,
    {
        "memory"
    }

    /// The oldest transport another factory dialled to this endpoint.
    pub fn accept(&mut self) -> (r: Result<Option<MemoryTransport>, TransportFactoryError>)
        ensures
            r matches Err(e) ==> e == TransportFactoryError::Listener,
            final(self).same_binding(old(self)),
            final(self).is_route_stale() == old(self).is_route_stale(),
    {
        match listener_pop(&self.listener) {
            Ok(transport) => Ok(transport),
            Err(()) => Err(TransportFactoryError::Listener),
        }
    }

    /// Dials the contact's memory endpoint: queues the remote end, already
    /// connected, at that endpoint's listener and returns the local end.
    pub fn connect(&mut self, contact_endpoint: Option<&[u8]>) -> (r: Result<
        MemoryTransport,
        TransportFactoryError,
    >)
        ensures
            r == Err::<MemoryTransport, TransportFactoryError>(TransportFactoryError::RouteStale) <==> old(
                self,
            ).is_route_stale(),
            !old(self).is_route_stale() && contact_endpoint is None ==> r == Err::<
                MemoryTransport,
                TransportFactoryError,
            >(TransportFactoryError::ContactNotFound),
            r matches Ok(t) ==> !t.is_connected(),
            r is Ok ==> contact_endpoint is Some,
            r matches Err(e) ==> e != TransportFactoryError::Protocol,
            final(self).same_binding(old(self)),
            final(self).is_route_stale() == old(self).is_route_stale(),
    {
        if self.route_stale {
            return Err(TransportFactoryError::RouteStale);
        }
        let endpoint = match contact_endpoint {
            None => return Err(TransportFactoryError::ContactNotFound),
            Some(endpoint) => endpoint,
        };
        let listener = match registry_lock(&self.network.listeners) {
            None => return Err(TransportFactoryError::Listener),
            Some(listeners) => match guard_get(&listeners, &vstd::slice::slice_to_vec(endpoint)) {
                None => return Err(TransportFactoryError::ContactNotFound),
                Some(listener) => listener,
            },
        };
        let (local, mut remote) = MemoryTransport::pair();
        let _ = remote.connect();
        if !listener_push(&listener, remote) {
            return Err(TransportFactoryError::Listener);
        }
        listener_wake(&listener);
        Ok(local)
    }

    /// Installs the callback run when a transport is dialled to this
    /// endpoint.
    pub fn set_waker<F: Fn() + Send + Sync + 'static>(&self, waker: Arc<F>) -> (r: Result<
        (),
        TransportFactoryError,
    >)
        ensures
            r matches Err(e) ==> e == TransportFactoryError::Listener,
    {
        if listener_set_waker(&self.listener, waker) {
            Ok(())
        } else {
            Err(TransportFactoryError::Listener)
        }
    }

    /// Releases the endpoint, if it is still bound to this factory: the
    /// check and the removal happen under one hold of the registry lock,
    /// and an endpoint that another factory has bound since stays bound.
    fn release(&self)
        opens_invariants none
        no_unwind
    {
        if let Some(mut guard) = registry_lock(&self.network.listeners) {
            let bound_here = match guard_get(&guard, &self.endpoint) {
                Some(registered) => same_listener(&registered, &self.listener),
                None => false,
            };
            if bound_here {
                guard_remove(&mut guard, &self.endpoint);
            }
        }
    }
}

impl Drop for MemoryTransportFactory {
    fn drop(&mut self)
        opens_invariants none
        no_unwind
    {
        self.release();
    }
}

} // verus!
