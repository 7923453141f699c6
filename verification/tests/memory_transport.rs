use torca::memory_transport::{
    MemoryNetwork, MemoryTransport, PeerTransportError, TransportFactoryError, MAX_MEMORY_ENDPOINT_LEN,
};

#[test]
fn pair_transfers_bytes_and_notifies_receiver() {
    let (mut left, mut right) = MemoryTransport::pair();
    left.connect().expect("left connect");
    right.connect().expect("right connect");
    right.set_waker(std::sync::Arc::new(|| {}));
    left.send(vec![1, 2, 3]).expect("send");
    assert_eq!(right.try_receive().expect("receive"), Some(vec![1, 2, 3]));
}

#[test]
fn disconnected_transport_rejects_io() {
    let (mut left, _) = MemoryTransport::pair();
    assert!(left.send(vec![1]).is_err());
}

#[test]
fn transport_refuses_only_while_not_connected() {
    let not_connected = PeerTransportError("memory transport is not connected".to_owned());
    let (mut left, mut right) = MemoryTransport::pair();
    assert_eq!(left.try_receive(), Err(not_connected.clone()));
    assert_eq!(left.receive_timeout(10), Err(not_connected.clone()));
    left.connect().expect("connect");
    right.connect().expect("connect");
    assert_eq!(left.try_receive(), Ok(None));
    assert_eq!(left.send(vec![7]), Ok(()));
    assert_eq!(right.receive_timeout(10), Ok(Some(vec![7])));
    right.close().expect("close");
    assert_eq!(right.send(vec![1]), Err(not_connected));
}

#[test]
fn network_binds_dials_and_releases_endpoints() {
    let network = MemoryNetwork::new();
    assert_eq!(network.bind(Vec::new()).err(), Some(TransportFactoryError::Protocol));
    assert_eq!(
        network.bind(vec![0; MAX_MEMORY_ENDPOINT_LEN + 1]).err(),
        Some(TransportFactoryError::Protocol)
    );
    let mut alice = network.bind(b"alice".to_vec()).expect("bind alice");
    let mut bob = network.bind(b"bob".to_vec()).expect("bind bob");
    let _taken = network.bind(b"taken".to_vec()).expect("bind taken");
    assert_eq!(network.bind(b"taken".to_vec()).err(), Some(TransportFactoryError::Listener));
    assert_eq!(alice.connect(None).err(), Some(TransportFactoryError::ContactNotFound));
    assert_eq!(alice.connect(Some(b"carol")).err(), Some(TransportFactoryError::ContactNotFound));
    alice.mark_route_stale();
    assert_eq!(alice.connect(Some(b"bob")).err(), Some(TransportFactoryError::RouteStale));
    alice.mark_route_refreshed();
    let mut local = alice.connect(Some(b"bob")).expect("dial bob");
    local.connect().expect("connect");
    let mut remote = bob.accept().expect("accept").expect("pending transport");
    assert!(remote.connected());
    local.send(vec![4, 2]).expect("send");
    assert_eq!(remote.try_receive().expect("receive"), Some(vec![4, 2]));
    assert!(bob.accept().expect("accept").is_none());
    drop(alice);
    assert_eq!(bob.connect(Some(b"alice")).err(), Some(TransportFactoryError::ContactNotFound));
    let again = network.bind(b"alice".to_vec()).expect("rebind alice");
    assert_eq!(again.endpoint(), b"alice");
}

#[test]
fn dropping_a_factory_frees_its_endpoint_but_not_a_newer_binding() {
    let network = MemoryNetwork::new();
    {
        let _scoped = network.bind(b"carol".to_vec()).expect("bind carol");
        assert_eq!(network.bind(b"carol".to_vec()).err(), Some(TransportFactoryError::Listener));
    }
    let first = network.bind(b"dave".to_vec()).expect("bind dave");
    drop(first);
    let mut second = network.bind(b"dave".to_vec()).expect("rebind dave");
    let mut dialer = network.bind(b"erin".to_vec()).expect("bind erin");
    assert!(dialer.connect(Some(b"dave")).is_ok());
    assert!(second.accept().expect("accept").is_some());
}
