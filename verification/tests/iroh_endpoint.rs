use torca::iroh_config::IrohIdentityError;
use torca::iroh_endpoint::{EndpointSlotState, WaitStep};

#[test]
fn dormancy_closes_and_rebinding_moves_both_generations() {
    let mut slot = EndpointSlotState::new();
    assert!(slot.route_is_fresh());
    assert_eq!(slot.activation(), Ok(false));
    assert_eq!(slot.wait_step(), WaitStep::Ready);

    assert!(slot.deactivate());
    assert!(!slot.route_is_fresh());
    assert_eq!((slot.generation, slot.route_generation), (1, 1));
    assert_eq!(slot.wait_step(), WaitStep::Wait);
    // A second close finds nothing to close and changes nothing.
    assert!(!slot.deactivate());
    assert_eq!((slot.generation, slot.route_generation), (1, 1));

    assert_eq!(slot.activation(), Ok(true));
    slot.activated();
    assert!(slot.route_is_fresh());
    assert_eq!((slot.generation, slot.route_generation), (2, 2));
}

#[test]
fn terminated_slot_refuses_activation_and_releases_waiters() {
    let mut slot = EndpointSlotState::new();
    assert!(slot.terminate());
    assert_eq!(slot.generation, 1);
    assert_eq!(
        slot.activation(),
        Err(IrohIdentityError::Bind("endpoint slot is terminated".to_owned()))
    );
    assert_eq!(slot.wait_step(), WaitStep::Gone);
    assert!(!slot.terminate());
    assert_eq!(slot.generation, 1);
}

#[test]
fn generation_wraps_like_an_atomic_counter() {
    let mut slot = EndpointSlotState::new();
    slot.generation = u64::MAX;
    assert!(slot.deactivate());
    assert_eq!(slot.generation, 0);
}

#[test]
fn identity_errors_read_without_store_details() {
    assert_eq!(
        IrohIdentityError::Store("keystore path /secret".to_owned()).message(),
        "protected Iroh endpoint identity store failed"
    );
    assert_eq!(IrohIdentityError::InvalidStoredKey.message(), "protected Iroh endpoint identity is invalid");
    assert_eq!(
        IrohIdentityError::Bind("endpoint slot is terminated".to_owned()).message(),
        "Iroh endpoint bind failed: endpoint slot is terminated"
    );
}
