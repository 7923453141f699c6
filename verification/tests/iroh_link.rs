use torca::iroh_link::{frame_header, inbound_frame_length, IrohLink};
use torca::memory_transport::PeerTransportError;

fn error(message: &str) -> PeerTransportError {
    PeerTransportError(message.to_owned())
}

#[test]
fn a_live_connection_is_reused_and_a_stale_route_refuses_to_dial() {
    let mut link = IrohLink::new();
    assert_eq!(link.begin_connect(false, true, true), Err(error("Iroh local route is stale; waiting for provider migration")));
    assert_eq!(link.begin_connect(false, false, false), Err(error("Iroh remote address is missing")));
    assert_eq!(link.begin_connect(false, false, true), Ok(true));
    assert_eq!(link.finish_connect(false), Ok(()));
    assert!(link.connected && link.has_stream);
    assert_eq!(link.begin_connect(true, true, true), Ok(false));
    // A dead stream is dialled again.
    assert_eq!(link.begin_connect(false, false, true), Ok(true));
    assert!(!link.connected && !link.has_stream);
}

#[test]
fn a_route_change_during_the_dial_spoils_it() {
    let mut link = IrohLink::new();
    assert_eq!(link.begin_connect(false, false, true), Ok(true));
    assert_eq!(link.finish_connect(true), Err(error("Iroh local route changed during dial")));
    assert!(!link.connected);
}

#[test]
fn writes_need_a_live_stream_and_bounded_frames() {
    let mut link = IrohLink::new();
    assert_eq!(link.check_send(&[], 16, true), Ok(false));
    assert_eq!(link.check_send(&[4], 16, true), Err(error("Iroh transport is not connected")));
    link.begin_connect(false, false, true).unwrap();
    link.finish_connect(false).unwrap();
    assert_eq!(link.check_send(&[4, 17], 16, true), Err(error("Iroh payload exceeds peer limit")));
    assert_eq!(link.check_send(&[4, 16], 16, true), Ok(true));
    assert_eq!(link.check_send(&[4], 16, false), Err(error("Iroh peer stream is no longer alive")));
    assert!(!link.connected && !link.has_stream);
}

#[test]
fn a_failed_write_forces_a_reconnect() {
    let mut link = IrohLink::new();
    link.begin_connect(false, false, true).unwrap();
    link.finish_connect(false).unwrap();
    link.write_failed();
    assert_eq!(link.begin_connect(true, false, true), Ok(true));
}

#[test]
fn frames_carry_a_big_endian_length() {
    assert_eq!(frame_header(0x0102_0304), [1, 2, 3, 4]);
    assert_eq!(frame_header(5), [0, 0, 0, 5]);
    assert_eq!(inbound_frame_length([0, 0, 1, 0], 1024), Ok(256));
    assert_eq!(inbound_frame_length([0, 0, 4, 1], 1024), Err(error("Iroh frame exceeds peer limit")));
}
