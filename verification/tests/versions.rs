use bolt_proto::client::error::{handshake_failed_message, ConnectionError};
use bolt_proto::version::{
    format_version, format_versions, known_version, V1_0, V2_0, V3_0, V4_0, V4_1,
};

#[test]
fn known_versions_are_shown_by_major_and_minor() {
    assert_eq!(format_version(V1_0), "1.0");
    assert_eq!(format_version(V2_0), "2.0");
    assert_eq!(format_version(V3_0), "3.0");
    assert_eq!(format_version(V4_0), "4.0");
    assert_eq!(format_version(V4_1), "4.1");
}

#[test]
fn other_versions_are_shown_in_base_sixteen() {
    assert_eq!(format_version(0), "0x0");
    assert_eq!(format_version(5), "0x5");
    assert_eq!(format_version(15), "0xf");
    assert_eq!(format_version(16), "0x10");
    assert_eq!(format_version(255), "0xff");
    assert_eq!(format_version(0x0204), "0x204");
    assert_eq!(format_version(0xDEADBEEF), "0xdeadbeef");
    assert_eq!(format_version(u32::MAX), "0xffffffff");
    for v in [6u32, 17, 0x1234, 0x0abc_def0, 0x1000_0000] {
        assert_eq!(format_version(v), format!("{:#x}", v));
    }
}

#[test]
fn versions_are_joined_with_comma_and_space() {
    assert_eq!(format_versions(&[]), "");
    assert_eq!(format_versions(&[V3_0]), "3.0");
    assert_eq!(format_versions(&[V4_1, V4_0, V3_0, 0]), "4.1, 4.0, 3.0, 0x0");
    assert_eq!(format_versions(&[1, 2, 3, 4, 0x104, 9]), "1.0, 2.0, 3.0, 4.0, 4.1, 0x9");
}

#[test]
fn versions_that_this_library_speaks() {
    for v in [V1_0, V2_0, V3_0, V4_0, V4_1] {
        assert!(known_version(v));
    }
    for v in [0u32, 5, 0x0204, 0x0100, u32::MAX] {
        assert!(!known_version(v));
    }
}

#[test]
fn connection_errors_say_what_went_wrong() {
    assert_eq!(
        ConnectionError::HandshakeFailed([3, 2, 1, 0]).message(),
        "handshake with server failed for versions [3.0, 2.0, 1.0, 0x0]"
    );
    assert_eq!(
        handshake_failed_message(&[0x104, 7, 0, 0]),
        "handshake with server failed for versions [4.1, 0x7, 0x0, 0x0]"
    );
    assert_eq!(
        ConnectionError::InvalidDNSName("no name".to_string()).message(),
        "invalid DNS name: no name"
    );
    let io = std::io::Error::new(std::io::ErrorKind::Other, "the stream broke");
    assert_eq!(ConnectionError::IoError(io).message(), "the stream broke");
}

#[test]
fn codec_errors_say_what_went_wrong() {
    let e = bolt_proto::error::Error::InvalidMarker(0xC4);
    assert_eq!(e.message(), "invalid marker byte: 0xc4");
    let e = bolt_proto::error::Error::InvalidSignature(0x05);
    assert_eq!(e.message(), "invalid signature byte: 0x5");
    assert_eq!(bolt_proto::error::Error::InvalidStructure.message(), "invalid structure");
    assert_eq!(bolt_proto::error::Error::Truncated.message(), "input ends before the value does");
    assert_eq!(bolt_proto::error::Error::InvalidUtf8.message(), "string is not UTF-8");
    assert_eq!(
        bolt_proto::error::Error::IntegerOverflow.message(),
        "integer does not fit the type asked for"
    );
    assert_eq!(bolt_proto::error::Error::ValueTooLarge.message(), "value too large");
    assert_eq!(bolt_proto::error::Error::InvalidConversion.message(), "invalid conversion");
}

#[test]
fn session_errors_say_what_went_wrong() {
    let e = bolt_proto::client::error::Error::UnsupportedOperation(V2_0);
    assert_eq!(e.message(), "unsupported operation for client with version = 2.0");
    let e = bolt_proto::client::error::Error::UnsupportedOperation(9);
    assert_eq!(e.message(), "unsupported operation for client with version = 0x9");
    let e = bolt_proto::client::error::Error::HandshakeFailed([4, 3, 0, 0]);
    assert_eq!(e.message(), "handshake with server failed for versions [4.0, 3.0, 0x0, 0x0]");
    let e = bolt_proto::client::error::Error::InvalidState {
        state: bolt_proto::state::ServerState::Ready,
        message: bolt_proto::message::Message::PullAll,
    };
    assert_eq!(e.message(), "unsupported operation for server in Ready state: PullAll");
    let e = bolt_proto::client::error::Error::InvalidResponse {
        state: bolt_proto::state::ServerState::TxStreaming,
        request: None,
        response: bolt_proto::message::Message::Ignored,
    };
    assert_eq!(e.message(), "server gave unexpected response while in TxStreaming state: Ignored");
    let e = bolt_proto::client::error::Error::ProtocolError(bolt_proto::error::Error::Truncated);
    assert_eq!(e.message(), "input ends before the value does");
    let e = bolt_proto::client::error::Error::ConnectionError(
        ConnectionError::InvalidDNSName("x y".to_string()),
    );
    assert_eq!(e.message(), "invalid DNS name: x y");
    let e = bolt_proto::client::error::Error::InvalidDNSName("z".to_string());
    assert_eq!(e.message(), "invalid DNS name: z");
    let io = std::io::Error::new(std::io::ErrorKind::Other, "gone");
    assert_eq!(bolt_proto::client::error::Error::IOError(io).message(), "gone");
}

#[test]
fn pool_errors_say_what_went_wrong() {
    assert_eq!(bolt_proto::pool::Error::InvalidAddress.message(), "invalid host address");
    let e = bolt_proto::pool::Error::InvalidMetadata("must contain a user_agent".to_string());
    assert_eq!(e.message(), "invalid metadata: must contain a user_agent");
    let e = bolt_proto::pool::Error::ClientInitFailed(bolt_proto::message::Message::Ignored);
    assert_eq!(e.message(), "client initialization failed: received Ignored");
    assert_eq!(
        bolt_proto::pool::Error::InvalidClientVersion(3).message(),
        "invalid client version: 0x3",
    );
    assert_eq!(
        bolt_proto::pool::Error::InvalidClientVersion(0x104).message(),
        "invalid client version: 0x104",
    );
    let e = bolt_proto::pool::Error::ProtocolError(bolt_proto::error::Error::InvalidConversion);
    assert_eq!(e.message(), "invalid conversion");
    let e = bolt_proto::pool::Error::ClientError(
        bolt_proto::client::error::Error::UnsupportedOperation(1),
    );
    assert_eq!(e.message(), "unsupported operation for client with version = 1.0");
}

#[test]
fn names_of_states_and_messages() {
    assert_eq!(
        bolt_proto::state::state_name(bolt_proto::state::ServerState::Interrupted),
        "Interrupted",
    );
    assert_eq!(
        bolt_proto::state::state_name(bolt_proto::state::ServerState::Disconnected),
        "Disconnected",
    );
    assert_eq!(bolt_proto::state::message_name(&bolt_proto::message::Message::Goodbye), "Goodbye");
    assert_eq!(bolt_proto::version::format_hex(0), "0x0");
    assert_eq!(bolt_proto::version::format_hex(0xabc), "0xabc");
}
