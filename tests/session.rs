use socks5_proxy::address::{Destination, Endpoint};
use socks5_proxy::error::{AddressNotAllowed, CommandNotAllowedError, RequestError};
use socks5_proxy::reply::ReplyCode;
use socks5_proxy::session::{HandshakeStep, Phase, Session};

/// Drives a fresh session through method negotiation with `methods`.
fn negotiated(methods: &[u8]) -> Session {
    let mut s = Session::new();
    let mut req = vec![0x05, methods.len() as u8];
    req.extend_from_slice(methods);
    assert!(matches!(s.on_bytes(&req[..1]), HandshakeStep::Need(2)));
    match s.on_bytes(&req) {
        HandshakeStep::Reply { bytes, consumed } => {
            assert_eq!(bytes, vec![0x05, 0x00]);
            assert_eq!(consumed, req.len());
        }
        other => panic!("unexpected {:?}", other),
    }
    assert_eq!(s.phase(), Phase::AwaitingRequest);
    s
}

#[test]
fn session_connects_and_relays() {
    let mut s = negotiated(&[0x00]);
    let req = [0x05, 0x01, 0x00, 0x01, 0x7F, 0x00, 0x00, 0x01, 0x00, 0x50];
    assert!(matches!(s.on_bytes(&req[..4]), HandshakeStep::Need(10)));
    assert_eq!(s.phase(), Phase::AwaitingRequest);
    let ep = match s.on_bytes(&req) {
        HandshakeStep::Connect { dest: Destination::Ipv4(ep), consumed: 10 } => ep,
        other => panic!("unexpected {:?}", other),
    };
    assert_eq!(s.phase(), Phase::AwaitingDial);
    let reply = s.on_dial(&Ok(ep), true);
    assert_eq!(reply, vec![0x05, 0x00, 0x00, 0x01, 0x7F, 0x00, 0x00, 0x01, 0x00, 0x50]);
    assert_eq!(s.phase(), Phase::Relaying);
    s.close();
    assert_eq!(s.phase(), Phase::Closed);
}

#[test]
fn session_reports_failed_dial() {
    let mut s = negotiated(&[0x00, 0x02]);
    let ep = Endpoint { octets: [10, 0, 0, 9], port: 22 };
    let req = [0x05, 0x01, 0x00, 0x01, 10, 0, 0, 9, 0, 22];
    assert!(matches!(s.on_bytes(&req), HandshakeStep::Connect { .. }));
    let reply = s.on_dial(&Ok(ep), false);
    assert_eq!(reply, vec![0x05, 0x01, 0x00, 0x01, 10, 0, 0, 9, 0, 22]);
    assert_eq!(s.phase(), Phase::Closed);
}

#[test]
fn session_reports_unresolved_name() {
    let mut s = negotiated(&[]);
    let mut req = vec![0x05, 0x01, 0x00, 0x03, 19];
    req.extend_from_slice(b"nonexistent.invalid");
    req.extend_from_slice(&[0x00, 0x50]);
    assert!(matches!(s.on_bytes(&req), HandshakeStep::Connect { dest: Destination::Domain { .. }, .. }));
    let reply = s.on_dial(&Err(ReplyCode::GeneralFailure), false);
    assert_eq!(reply, vec![0x05, 0x01, 0x00, 0x01, 0, 0, 0, 0, 0, 0]);
    assert_eq!(s.phase(), Phase::Closed);
}

#[test]
fn session_refuses_bind_and_udp_associate() {
    for cmd in [0x02u8, 0x03] {
        let mut s = negotiated(&[0x00]);
        let req = [0x05, cmd, 0x00, 0x01, 0x7F, 0x00, 0x00, 0x01, 0x00, 0x50];
        match s.on_bytes(&req) {
            HandshakeStep::Abort(e) => {
                assert_eq!(e, RequestError::CommandNotAllowed(CommandNotAllowedError()))
            }
            other => panic!("unexpected {:?}", other),
        }
        assert_eq!(s.phase(), Phase::Closed);
    }
}

#[test]
fn session_refuses_unsupported_address_type() {
    let mut s = negotiated(&[0x00]);
    match s.on_bytes(&[0x05, 0x01, 0x00, 0x04]) {
        HandshakeStep::Abort(e) => assert_eq!(e, RequestError::AddressNotAllowed(AddressNotAllowed())),
        other => panic!("unexpected {:?}", other),
    }
    assert_eq!(s.phase(), Phase::Closed);
}
