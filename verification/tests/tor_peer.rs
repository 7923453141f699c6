use torca::memory_transport::PeerTransportError;
use torca::tor_peer::{next_wire_id, validate_peer_endpoint, validate_v3_onion};

fn onion() -> String {
    format!("{}.onion", "a".repeat(56))
}

#[test]
fn peer_endpoints_need_a_v3_onion_and_a_port() {
    assert_eq!(validate_v3_onion(&onion()), Ok(()));
    assert_eq!(validate_peer_endpoint(&onion(), 443), Ok(()));
    let invalid = Err(PeerTransportError("peer onion address is invalid".to_owned()));
    assert_eq!(validate_v3_onion("example.com"), invalid);
    assert_eq!(validate_v3_onion(&format!("{}.onion", "a".repeat(55))), invalid);
    assert_eq!(validate_v3_onion(&format!("{}.onion", "A".repeat(56))), invalid);
    assert_eq!(validate_v3_onion(&format!("{}.onion", "8".repeat(56))), invalid);
    assert_eq!(validate_v3_onion(&format!("{}.oniom", "a".repeat(56))), invalid);
    assert_eq!(
        validate_peer_endpoint(&onion(), 0),
        Err(PeerTransportError("peer port is invalid".to_owned()))
    );
    assert_eq!(validate_peer_endpoint("bad", 0), invalid);
}

#[test]
fn wire_ids_count_up_and_never_wrap() {
    assert_eq!(next_wire_id(1), Ok((1, 2)));
    assert_eq!(
        next_wire_id(u128::MAX),
        Err(PeerTransportError("peer wire sequence exhausted".to_owned()))
    );
}
