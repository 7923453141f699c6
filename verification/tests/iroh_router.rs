use torca::iroh_lifecycle::{IncomingRoute, MAX_PENDING_INCOMING_STREAMS, MAX_PENDING_PAIRING_CONNECTIONS};
use torca::iroh_router::IncomingQueues;

#[test]
fn connections_wait_on_their_route_in_order() {
    let mut queues = IncomingQueues::new();
    assert_eq!(queues.offer(IncomingRoute::Peer, 1), None);
    assert_eq!(queues.offer(IncomingRoute::Radio, 2), None);
    assert_eq!(queues.offer(IncomingRoute::Peer, 3), None);
    assert!(queues.radio_pending());
    assert_eq!(queues.take(IncomingRoute::Peer), Some(1));
    assert_eq!(queues.take(IncomingRoute::Peer), Some(3));
    assert_eq!(queues.take(IncomingRoute::Peer), None);
    assert_eq!(queues.take(IncomingRoute::Pairing), None);
    assert_eq!(queues.take(IncomingRoute::Radio), Some(2));
    assert!(!queues.radio_pending());
}

#[test]
fn full_queues_and_unknown_protocols_are_refused() {
    let mut queues = IncomingQueues::new();
    assert_eq!(queues.offer(IncomingRoute::Unsupported, 9), Some("unsupported ALPN"));
    for handle in 0..MAX_PENDING_PAIRING_CONNECTIONS as u64 {
        assert_eq!(queues.offer(IncomingRoute::Pairing, handle), None);
    }
    assert_eq!(queues.offer(IncomingRoute::Pairing, 99), Some("pairing queue full"));
    for handle in 0..MAX_PENDING_INCOMING_STREAMS as u64 {
        assert_eq!(queues.offer(IncomingRoute::Radio, handle), None);
    }
    assert_eq!(queues.offer(IncomingRoute::Radio, 99), Some("radio queue full"));
    assert_eq!(queues.offer(IncomingRoute::Peer, 5), None);
}

#[test]
fn a_new_endpoint_generation_drops_connections_of_the_old_one() {
    let mut queues = IncomingQueues::new();
    assert!(queues.observe_generation(0).is_empty());
    queues.offer(IncomingRoute::Pairing, 7);
    queues.offer(IncomingRoute::Peer, 8);
    queues.offer(IncomingRoute::Radio, 9);
    // The same endpoint again keeps what waits.
    assert!(queues.observe_generation(0).is_empty());
    assert_eq!(queues.observe_generation(1), vec![8, 9, 7]);
    assert_eq!(queues.take(IncomingRoute::Pairing), None);
    queues.offer(IncomingRoute::Peer, 10);
    assert_eq!(queues.clear_pending(), vec![10]);
}
