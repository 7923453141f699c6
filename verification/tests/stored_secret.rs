use torca::iroh_config::IrohIdentityError;
use torca::stored_secret::{load_or_create_endpoint_secret, stored_database_key, stored_endpoint_secret, take_secret, wipe};

#[test]
fn a_stored_secret_is_read_once_and_wiped() {
    let original: Vec<u8> = (1..=32).collect();
    let mut stored = original.clone();
    let key = take_secret(&mut stored).unwrap();
    assert_eq!(key.to_vec(), original);
    assert_eq!(stored, vec![0; 32]);
}

#[test]
fn a_stored_secret_of_another_length_is_refused_and_wiped() {
    let mut stored = vec![7; 31];
    assert_eq!(stored_endpoint_secret(&mut stored), Err(IrohIdentityError::InvalidStoredKey));
    assert_eq!(stored, vec![0; 31]);
    let mut stored = vec![7; 33];
    match stored_database_key(&mut stored) {
        Err(error) => assert_eq!(error.message, "protected database key has an invalid length"),
        Ok(_) => panic!("a 33-byte key was accepted"),
    }
    assert_eq!(stored, vec![0; 33]);
}

#[test]
fn a_valid_database_key_is_returned() {
    let mut stored = vec![9; 32];
    assert_eq!(stored_database_key(&mut stored).unwrap(), [9; 32]);
    assert_eq!(stored_endpoint_secret(&mut vec![3; 32]).unwrap(), [3; 32]);
    let mut bytes = vec![1, 2, 3];
    wipe(&mut bytes);
    assert_eq!(bytes, vec![0, 0, 0]);
}

#[test]
fn endpoint_identity_is_stable_in_the_protected_store() {
    let generated = [7u8; 32];
    let (created, persist) = load_or_create_endpoint_secret(None, generated).expect("create");
    assert_eq!(created, generated);
    assert!(persist);
    let (loaded, persist) =
        load_or_create_endpoint_secret(Some(created.to_vec()), [9u8; 32]).expect("load");
    assert_eq!(loaded, generated);
    assert!(!persist);
    assert_eq!(
        load_or_create_endpoint_secret(Some(vec![1; 31]), [9u8; 32]),
        Err(IrohIdentityError::InvalidStoredKey)
    );
}
