use torca::native_ids::{id_hex, nonzero_id, secure_id_hex};

#[test]
fn identifiers_are_lowercase_hex_and_never_zero() {
    let mut bytes = [0_u8; 16];
    bytes[0] = 0xab;
    bytes[15] = 0x09;
    assert_eq!(secure_id_hex(bytes), "ab000000000000000000000000000009");
    assert_eq!(secure_id_hex([0; 16]), "00000000000000000000000000000001");
    assert_eq!(nonzero_id([0; 16])[15], 1);
    assert_eq!(nonzero_id(bytes), bytes);
    assert_eq!(id_hex(&[0xff; 16]), "f".repeat(32));
}
