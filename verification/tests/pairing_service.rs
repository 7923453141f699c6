use torca::pairing_service::{IrohPairingService, PairingCoordinatorError};
use torca::pairing_slots::{PairingServiceRequest, PairingServiceResponse, MAX_QUEUE};

const NOW: i64 = 1_700_000_000_000;

fn id(byte: u8) -> u128 {
    u128::from_be_bytes([byte; 16])
}

fn opened(service: &mut IrohPairingService) -> u128 {
    let (slot, expires) = service.open(
        "ABC123".to_owned(),
        NOW + 60_000,
        b"creator".to_vec(),
        id(3),
        id(1),
        [4; 16],
        id(5),
        NOW,
    );
    assert_eq!(expires, NOW + 60_000);
    slot
}

fn join(service: &mut IrohPairingService) -> PairingServiceResponse {
    service.serve(
        PairingServiceRequest::Join {
            operation_id: id(8),
            code: "ABC123".to_owned(),
            joiner_blob: b"joiner".to_vec(),
            joiner_token: id(2),
            ticket: Some([4; 16]),
        },
        NOW,
        id(10),
    )
}

#[test]
fn creator_side_exchanges_blobs_with_a_remote_joiner() {
    let mut service = IrohPairingService::new(64 * 1024);
    let slot = opened(&mut service);
    assert_eq!(slot, id(5));
    assert!(matches!(join(&mut service), PairingServiceResponse::Joined { slot_id, .. } if slot_id == slot));

    // The joiner's blob is the creator's first delivery.
    let deliveries = service.poll(slot, id(1), 0, NOW).unwrap();
    assert_eq!(deliveries.len(), 1);
    assert_eq!(deliveries[0].sequence, 1);
    assert_eq!(deliveries[0].blob, b"joiner".to_vec());

    // The creator's push reaches the joiner's queue.
    assert_eq!(service.push(slot, id(1), id(6), b"hello".to_vec(), NOW), Ok(()));
    let polled = service.serve(PairingServiceRequest::Poll { slot_id: slot, token: id(2), after: 0 }, NOW, id(11));
    match polled {
        PairingServiceResponse::Deliveries(items) => {
            assert_eq!(items.len(), 1);
            assert_eq!(items[0].sequence, 1);
            assert_eq!(items[0].blob, b"hello".to_vec());
        }
        other => panic!("poll response: {other:?}"),
    }

    assert_eq!(service.ack(slot, id(1), 1, NOW), Ok(()));
    assert!(service.poll(slot, id(1), 0, NOW).unwrap().is_empty());
}

#[test]
fn only_the_recorded_creator_token_reaches_a_local_slot() {
    let mut service = IrohPairingService::new(1024);
    let slot = opened(&mut service);
    assert_eq!(service.push(slot, id(2), id(6), b"x".to_vec(), NOW), Err(PairingCoordinatorError::SessionService));
    assert_eq!(service.poll(slot, id(2), 0, NOW), Err(PairingCoordinatorError::SessionService));
    assert_eq!(service.ack(slot, id(2), 0, NOW), Err(PairingCoordinatorError::SessionService));
    assert_eq!(service.push(id(77), id(1), id(6), b"x".to_vec(), NOW), Err(PairingCoordinatorError::SessionService));
}

#[test]
fn local_queue_toward_the_joiner_is_bounded() {
    let mut service = IrohPairingService::new(1024);
    let slot = opened(&mut service);
    for _ in 0..MAX_QUEUE {
        assert_eq!(service.push(slot, id(1), id(6), b"x".to_vec(), NOW), Ok(()));
    }
    assert_eq!(service.push(slot, id(1), id(6), b"x".to_vec(), NOW), Err(PairingCoordinatorError::SessionService));
}

#[test]
fn close_needs_the_capability_and_forgets_the_slot() {
    let mut service = IrohPairingService::new(1024);
    let slot = opened(&mut service);
    assert_eq!(service.close(slot, id(9), NOW), Err(PairingCoordinatorError::SessionService));
    assert_eq!(service.close(slot, id(3), NOW), Ok(()));
    assert_eq!(service.push(slot, id(1), id(6), b"x".to_vec(), NOW), Err(PairingCoordinatorError::SessionService));
    assert_eq!(service.close(slot, id(3), NOW), Err(PairingCoordinatorError::SessionService));
}

#[test]
fn restore_creator_refuses_a_live_slot_and_reopens_an_expired_one() {
    let mut service = IrohPairingService::new(1024);
    let slot = opened(&mut service);
    assert_eq!(
        service.restore_creator(slot, "ABC123".to_owned(), NOW + 60_000, b"creator".to_vec(), id(3), id(1), [4; 16], NOW),
        Err(PairingCoordinatorError::SessionAlreadyExists)
    );
    // Once the slot has expired it can be restored, with a new creator token.
    let later = NOW + 60_000;
    assert_eq!(
        service.restore_creator(slot, "ABC123".to_owned(), later + 60_000, b"creator".to_vec(), id(3), id(12), [4; 16], later),
        Ok(())
    );
    assert_eq!(service.push(slot, id(1), id(6), b"x".to_vec(), later), Err(PairingCoordinatorError::SessionService));
    assert_eq!(service.push(slot, id(12), id(6), b"x".to_vec(), later), Ok(()));
}

#[test]
fn expired_local_slot_is_gone_before_an_operation() {
    let mut service = IrohPairingService::new(1024);
    let slot = opened(&mut service);
    assert!(service.sequences_available());
    assert_eq!(service.poll(slot, id(1), 0, NOW + 60_000), Err(PairingCoordinatorError::SessionService));
}
