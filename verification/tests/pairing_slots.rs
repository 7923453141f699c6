use torca::pairing_slots::{
    PairingServiceProtocolError, PairingServiceRequest, PairingServiceResponse, PairingSlotServer,
    MAX_QUEUE,
};

const NOW: i64 = 1_700_000_000_000;

fn id(byte: u8) -> u128 {
    u128::from_be_bytes([byte; 16])
}

fn open_request(code: &str, expires_at_ms: i64) -> PairingServiceRequest {
    PairingServiceRequest::Open {
        operation_id: id(9),
        code: code.to_owned(),
        expires_at_ms,
        creator_blob: b"creator".to_vec(),
        slot_capability: id(3),
        creator_token: id(1),
        ticket: [4; 16],
    }
}

fn join_request(code: &str, ticket: Option<[u8; 16]>) -> PairingServiceRequest {
    PairingServiceRequest::Join {
        operation_id: id(8),
        code: code.to_owned(),
        joiner_blob: b"joiner".to_vec(),
        joiner_token: id(2),
        ticket,
    }
}

fn push_request(slot_id: u128, token: u128, blob: &[u8]) -> PairingServiceRequest {
    PairingServiceRequest::Push {
        operation_id: id(7),
        message_id: id(6),
        slot_id,
        token,
        blob: blob.to_vec(),
    }
}

fn opened_slot(server: &mut PairingSlotServer, slot_id: u128) -> u128 {
    match server.process_request(open_request("ABC123", NOW + 60_000), NOW, slot_id) {
        PairingServiceResponse::Opened { slot_id, expires_at_ms } => {
            assert_eq!(expires_at_ms, NOW + 60_000);
            slot_id
        }
        other => panic!("open response: {other:?}"),
    }
}

#[test]
fn direct_slot_server_preserves_bidirectional_queue_semantics() {
    let mut server = PairingSlotServer::new(64 * 1024);
    let slot_id = opened_slot(&mut server, id(5));
    let joined = server.process_request(join_request("ABC123", Some([4; 16])), NOW, id(10));
    assert!(
        matches!(joined, PairingServiceResponse::Joined { slot_id: joined_id, .. } if joined_id == slot_id)
    );
    let pushed = server.process_request(push_request(slot_id, id(2), b"hello"), NOW, id(11));
    assert_eq!(pushed, PairingServiceResponse::Accepted);
    let polled =
        server.process_request(PairingServiceRequest::Poll { slot_id, token: id(1), after: 0 }, NOW, id(12));
    assert!(matches!(polled, PairingServiceResponse::Deliveries(ref items) if items.len() == 2
            && items[0].blob == b"joiner"
            && items[1].blob == b"hello"));
}

#[test]
fn expired_slots_are_purged_before_requests_are_served() {
    let mut server = PairingSlotServer::new(64 * 1024);
    let slot_id = id(7);
    let token = id(8);
    server.open("EXPIRED".to_owned(), NOW - 1, Vec::new(), id(9), token, [0; 16], slot_id);
    assert_eq!(server.len(), 1);

    let response =
        server.process_request(PairingServiceRequest::Poll { slot_id, token, after: 0 }, NOW, id(1));
    assert!(matches!(
        response,
        PairingServiceResponse::Error(PairingServiceProtocolError::SlotNotFound)
    ));
    assert_eq!(server.len(), 0);
}

#[test]
fn joined_slot_returns_the_creator_blob_and_sequences_from_one() {
    let mut server = PairingSlotServer::new(64 * 1024);
    let slot_id = opened_slot(&mut server, id(5));
    match server.process_request(join_request("ABC123", None), NOW, id(10)) {
        PairingServiceResponse::Joined { slot_id: joined, expires_at_ms, creator_blob } => {
            assert_eq!(joined, slot_id);
            assert_eq!(expires_at_ms, NOW + 60_000);
            assert_eq!(creator_blob, b"creator".to_vec());
        }
        other => panic!("join response: {other:?}"),
    }
    let polled =
        server.process_request(PairingServiceRequest::Poll { slot_id, token: id(1), after: 0 }, NOW, id(12));
    match polled {
        PairingServiceResponse::Deliveries(items) => {
            assert_eq!(items.len(), 1);
            assert_eq!(items[0].sequence, 1);
            assert_eq!(items[0].message_id, id(10));
        }
        other => panic!("poll response: {other:?}"),
    }
    // A claimed slot cannot be joined a second time.
    let again = server.process_request(join_request("ABC123", None), NOW, id(13));
    assert_eq!(again, PairingServiceResponse::Error(PairingServiceProtocolError::SlotNotFound));
}

#[test]
fn join_with_wrong_code_or_ticket_finds_no_slot() {
    let mut server = PairingSlotServer::new(64 * 1024);
    opened_slot(&mut server, id(5));
    let wrong_code = server.process_request(join_request("XYZ999", None), NOW, id(10));
    assert_eq!(wrong_code, PairingServiceResponse::Error(PairingServiceProtocolError::SlotNotFound));
    let wrong_ticket = server.process_request(join_request("ABC123", Some([5; 16])), NOW, id(10));
    assert_eq!(wrong_ticket, PairingServiceResponse::Error(PairingServiceProtocolError::SlotNotFound));
}

#[test]
fn oversized_joiner_blob_is_refused_as_queue_full() {
    let mut server = PairingSlotServer::new(4);
    server.open("ABC123".to_owned(), NOW + 60_000, b"tiny".to_vec(), id(3), id(1), [4; 16], id(5));
    let joined = server.process_request(join_request("ABC123", None), NOW, id(10));
    assert_eq!(joined, PairingServiceResponse::Error(PairingServiceProtocolError::QueueFull));
}

#[test]
fn push_from_a_stranger_is_unauthorized_and_unknown_slot_is_not_found() {
    let mut server = PairingSlotServer::new(64 * 1024);
    let slot_id = opened_slot(&mut server, id(5));
    let stranger = server.process_request(push_request(slot_id, id(2), b"x"), NOW, id(1));
    assert_eq!(stranger, PairingServiceResponse::Error(PairingServiceProtocolError::Unauthorized));
    let missing = server.process_request(push_request(id(77), id(1), b"x"), NOW, id(1));
    assert_eq!(missing, PairingServiceResponse::Error(PairingServiceProtocolError::SlotNotFound));
}

#[test]
fn queue_is_bounded_and_ack_frees_it() {
    let mut server = PairingSlotServer::new(64 * 1024);
    let slot_id = opened_slot(&mut server, id(5));
    for _ in 0..MAX_QUEUE {
        let pushed = server.process_request(push_request(slot_id, id(1), b"m"), NOW, id(1));
        assert_eq!(pushed, PairingServiceResponse::Accepted);
    }
    let full = server.process_request(push_request(slot_id, id(1), b"m"), NOW, id(1));
    assert_eq!(full, PairingServiceResponse::Error(PairingServiceProtocolError::QueueFull));
    server.process_request(join_request("ABC123", None), NOW, id(10));
    let acked = server.process_request(PairingServiceRequest::Ack { slot_id, token: id(2), up_to: 10 }, NOW, id(1));
    assert_eq!(acked, PairingServiceResponse::Acked(10));
    match server.process_request(PairingServiceRequest::Poll { slot_id, token: id(2), after: 0 }, NOW, id(1)) {
        PairingServiceResponse::Deliveries(items) => {
            assert_eq!(items.len(), MAX_QUEUE - 10);
            assert_eq!(items[0].sequence, 11);
        }
        other => panic!("poll response: {other:?}"),
    }
    let pushed = server.process_request(push_request(slot_id, id(1), b"m"), NOW, id(1));
    assert_eq!(pushed, PairingServiceResponse::Accepted);
}

#[test]
fn poll_after_skips_older_deliveries() {
    let mut server = PairingSlotServer::new(64 * 1024);
    let slot_id = opened_slot(&mut server, id(5));
    for blob in [b"a", b"b", b"c"] {
        server.process_request(push_request(slot_id, id(1), blob), NOW, id(1));
    }
    server.process_request(join_request("ABC123", None), NOW, id(10));
    match server.process_request(PairingServiceRequest::Poll { slot_id, token: id(2), after: 2 }, NOW, id(1)) {
        PairingServiceResponse::Deliveries(items) => {
            assert_eq!(items.len(), 1);
            assert_eq!(items[0].blob, b"c".to_vec());
            assert_eq!(items[0].sequence, 3);
        }
        other => panic!("poll response: {other:?}"),
    }
}

#[test]
fn close_needs_the_slot_capability() {
    let mut server = PairingSlotServer::new(64 * 1024);
    let slot_id = opened_slot(&mut server, id(5));
    let refused = server.process_request(PairingServiceRequest::Close { slot_id, capability: id(4) }, NOW, id(1));
    assert_eq!(refused, PairingServiceResponse::Error(PairingServiceProtocolError::Unauthorized));
    assert_eq!(server.len(), 1);
    let closed = server.process_request(PairingServiceRequest::Close { slot_id, capability: id(3) }, NOW, id(1));
    assert_eq!(closed, PairingServiceResponse::Closed);
    assert_eq!(server.len(), 0);
    let unknown = server.process_request(PairingServiceRequest::Close { slot_id, capability: id(3) }, NOW, id(1));
    assert_eq!(unknown, PairingServiceResponse::Error(PairingServiceProtocolError::Unauthorized));
}

#[test]
fn health_and_info_describe_the_direct_server() {
    let mut server = PairingSlotServer::new(64 * 1024);
    assert_eq!(server.process_request(PairingServiceRequest::Health, NOW, id(1)), PairingServiceResponse::Healthy);
    assert_eq!(
        server.process_request(PairingServiceRequest::Info, NOW, id(1)),
        PairingServiceResponse::Info("torca-iroh".to_owned(), "direct".to_owned(), "direct".to_owned())
    );
}
