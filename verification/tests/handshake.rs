use bolt_proto::client::error::ConnectionError;
use bolt_proto::client::handshake::{handshake_request, handshake_response, PREAMBLE};
use bolt_proto::client::session::Session;
use bolt_proto::state::ServerState;
use bolt_proto::version::{V1_0, V2_0, V3_0, V4_0, V4_1};

#[test]
fn request_is_preamble_and_four_versions() {
    assert_eq!(PREAMBLE, [0x60, 0x60, 0xB0, 0x17]);
    assert_eq!(
        handshake_request(&[3, 0, 0, 0]),
        vec![0x60, 0x60, 0xB0, 0x17, 0, 0, 0, 3, 0, 0, 0, 0, 0, 0, 0, 0, 0, 0, 0, 0]
    );
    assert_eq!(
        handshake_request(&[V4_1, V4_0, V3_0, V2_0]),
        vec![0x60, 0x60, 0xB0, 0x17, 0, 0, 1, 4, 0, 0, 0, 4, 0, 0, 0, 3, 0, 0, 0, 2]
    );
    assert_eq!(
        handshake_request(&[0xDEADBEEF, 0x01020304, 0, 1]),
        vec![0x60, 0x60, 0xB0, 0x17, 0xDE, 0xAD, 0xBE, 0xEF, 1, 2, 3, 4, 0, 0, 0, 0, 0, 0, 0, 1]
    );
}

#[test]
fn handshake_selects_version_three() {
    let session = Session::connect(&[3, 0, 0, 0], &[0, 0, 0, 3]).unwrap();
    assert_eq!(session.version(), V3_0);
    assert_eq!(session.server_state(), ServerState::Connected);
    assert_eq!(session.outstanding(), 0);
}

#[test]
fn handshake_takes_any_of_the_offered_versions() {
    let offered = [V4_1, V4_0, V3_0, V1_0];
    assert_eq!(handshake_response(&offered, &[0, 0, 1, 4]).unwrap(), V4_1);
    assert_eq!(handshake_response(&offered, &[0, 0, 0, 4]).unwrap(), V4_0);
    assert_eq!(handshake_response(&offered, &[0, 0, 0, 3]).unwrap(), V3_0);
    assert_eq!(handshake_response(&offered, &[0, 0, 0, 1]).unwrap(), V1_0);
}

#[test]
fn handshake_with_unsupported_version_fails() {
    match handshake_response(&[3, 2, 1, 0], &[0, 0, 0, 0]) {
        Err(ConnectionError::HandshakeFailed(offered)) => assert_eq!(offered, [3, 2, 1, 0]),
        other => panic!("{:?}", other),
    }
}

#[test]
fn handshake_with_a_version_that_was_not_offered_fails() {
    match handshake_response(&[3, 0, 0, 0], &[0, 0, 0, 4]) {
        Err(ConnectionError::HandshakeFailed(offered)) => assert_eq!(offered, [3, 0, 0, 0]),
        other => panic!("{:?}", other),
    }
    assert!(matches!(
        Session::connect(&[V1_0, V2_0, 0, 0], &[0, 0, 1, 4]),
        Err(ConnectionError::HandshakeFailed(_))
    ));
    assert!(matches!(
        handshake_response(&[3, 0, 0, 0], &[3, 0, 0, 0]),
        Err(ConnectionError::HandshakeFailed(_))
    ));
}

#[test]
fn padding_is_never_the_chosen_version() {
    assert!(handshake_response(&[0, 0, 0, 0], &[0, 0, 0, 0]).is_err());
}
