use torca::onion_endpoint::{parse_relay_endpoint, parse_rendezvous_endpoint};

#[test]
fn tor_endpoint_validation_is_contained_in_tor_composition() {
    let host = format!("{}.onion", "a".repeat(56));
    assert_eq!(
        parse_rendezvous_endpoint(&format!("{host}:443")).expect("valid onion endpoint"),
        (host, 443)
    );
    assert!(parse_rendezvous_endpoint("example.com:443").is_err());
}

#[test]
fn accepts_v3_onion_endpoint() {
    let host = format!("{}.onion", "a".repeat(56));
    assert_eq!(parse_relay_endpoint(&format!("{host}:443")).expect("valid endpoint"), (host, 443));
}

#[test]
fn rejects_clearnet_and_zero_port() {
    assert!(parse_relay_endpoint("example.com:443").is_err());
    let host = format!("{}.onion", "a".repeat(56));
    assert!(parse_relay_endpoint(&format!("{host}:0")).is_err());
}
