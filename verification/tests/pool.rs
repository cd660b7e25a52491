use bolt_proto::client::session::{Delivery, Session};
use bolt_proto::message::{Failure, Message, Success};
use bolt_proto::pool::{broken, first_request, initialized, validated, BoltConnectionManager, Error};
use bolt_proto::state::ServerState;
use bolt_proto::value::{Dictionary, Value};
use bolt_proto::version::{V1_0, V2_0, V3_0, V4_0, V4_1};

fn metadata() -> Dictionary {
    let mut d = Dictionary::new();
    d.insert("user_agent".to_string(), Value::string("bolt-client/X.Y.Z"));
    d.insert("scheme".to_string(), Value::string("basic"));
    d.insert("principal".to_string(), Value::string("neo4j"));
    d.insert("credentials".to_string(), Value::string("invalid"));
    d
}

#[test]
fn early_versions_take_the_user_agent_out_of_the_metadata() {
    for version in [V1_0, V2_0] {
        match first_request(version, metadata()).unwrap() {
            Message::Init(init) => {
                assert_eq!(init.client_name(), "bolt-client/X.Y.Z");
                assert_eq!(init.auth_token().len(), 3);
                assert!(!init.auth_token().contains_key("user_agent"));
                assert_eq!(init.auth_token().get("scheme"), Some(&Value::string("basic")));
                assert_eq!(init.auth_token().get("principal"), Some(&Value::string("neo4j")));
                assert_eq!(init.auth_token().get("credentials"), Some(&Value::string("invalid")));
            }
            other => panic!("{:?}", other),
        }
    }
}

#[test]
fn later_versions_send_the_metadata_whole() {
    for version in [V3_0, V4_0, V4_1] {
        match first_request(version, metadata()).unwrap() {
            Message::Hello(hello) => assert_eq!(hello.metadata(), &metadata()),
            other => panic!("{:?}", other),
        }
    }
    assert!(matches!(first_request(V3_0, Dictionary::new()), Ok(Message::Hello(_))));
}

#[test]
fn metadata_without_a_user_agent_are_invalid() {
    let mut d = metadata();
    d.remove("user_agent");
    match first_request(V1_0, d) {
        Err(Error::InvalidMetadata(text)) => assert_eq!(text, "must contain a user_agent"),
        other => panic!("{:?}", other),
    }
    assert!(matches!(first_request(V2_0, Dictionary::new()), Err(Error::InvalidMetadata(_))));
}

#[test]
fn user_agent_that_is_no_string_is_invalid() {
    let mut d = metadata();
    d.insert("user_agent".to_string(), Value::Integer(1));
    match first_request(V2_0, d) {
        Err(Error::InvalidMetadata(text)) => assert_eq!(text, "user_agent must be a string"),
        other => panic!("{:?}", other),
    }
}

#[test]
fn unknown_version_has_no_first_request() {
    for version in [0u32, 5, 0x0204, u32::MAX] {
        assert!(matches!(
            first_request(version, metadata()),
            Err(Error::InvalidClientVersion(v)) if v == version
        ));
    }
}

#[test]
fn invalid_init_fails() {
    let failure = Message::Failure(Failure::new(Dictionary::new()));
    match initialized(failure) {
        Err(Error::ClientInitFailed(Message::Failure(_))) => {}
        other => panic!("{:?}", other),
    }
    assert!(
        matches!(initialized(Message::Ignored), Err(Error::ClientInitFailed(Message::Ignored))),
    );
    assert!(initialized(Message::Success(Success::new(Dictionary::new()))).is_ok());
}

#[test]
fn connection_is_valid_where_the_reset_succeeds() {
    assert!(validated(&Message::Success(Success::new(Dictionary::new()))).is_ok());
    assert!(matches!(
        validated(&Message::Failure(Failure::new(Dictionary::new()))),
        Err(Error::ProtocolError(bolt_proto::error::Error::InvalidConversion))
    ));
    assert!(validated(&Message::Ignored).is_err());
}

#[test]
fn connection_is_broken_where_the_session_is_defunct() {
    assert!(broken(ServerState::Defunct));
    for state in [
        ServerState::Disconnected,
        ServerState::Connected,
        ServerState::Ready,
        ServerState::Streaming,
        ServerState::TxReady,
        ServerState::TxStreaming,
        ServerState::Failed,
        ServerState::Interrupted,
    ] {
        assert!(!broken(state));
    }
}

#[test]
fn manager_needs_an_address() {
    assert!(matches!(
        BoltConnectionManager::new(vec![], None, [V3_0, 0, 0, 0], metadata()),
        Err(Error::InvalidAddress)
    ));
    let manager = BoltConnectionManager::new(
        vec!["127.0.0.1:7687".to_string(), "[::1]:7687".to_string()],
        Some("localhost".to_string()),
        [V4_1, V3_0, 0, 0],
        metadata(),
    )
    .unwrap();
    assert_eq!(manager.address, "127.0.0.1:7687");
    assert_eq!(manager.domain, Some("localhost".to_string()));
    assert_eq!(manager.preferred_versions, [V4_1, V3_0, 0, 0]);
    assert_eq!(
        manager.handshake(),
        vec![0x60, 0x60, 0xB0, 0x17, 0, 0, 1, 4, 0, 0, 0, 3, 0, 0, 0, 0, 0, 0, 0, 0]
    );
    assert!(matches!(manager.first_request(V3_0), Ok(Message::Hello(_))));
    assert!(matches!(manager.first_request(V1_0), Ok(Message::Init(_))));
    assert!(matches!(manager.first_request(V1_0), Ok(Message::Init(_))));
    assert!(matches!(manager.first_request(9), Err(Error::InvalidClientVersion(9))));
    assert!(manager.has_broken(ServerState::Defunct));
    assert!(!manager.has_broken(ServerState::Ready));
}

#[test]
fn hello_with_bad_credentials_fails_the_connection() {
    let manager = BoltConnectionManager::new(
        vec!["127.0.0.1:7687".to_string()],
        None,
        [V3_0, 0, 0, 0],
        metadata(),
    )
    .unwrap();
    let mut session = Session::connect(&manager.preferred_versions, &[0, 0, 0, 3]).unwrap();
    let hello = manager.first_request(session.version()).unwrap();
    assert!(matches!(hello, Message::Hello(_)));
    session.send(hello).unwrap();
    let mut code = Dictionary::new();
    code.insert("code".to_string(), Value::string("Neo.ClientError.Security.Unauthorized"));
    let refused = Message::Failure(Failure::new(code)).encode().unwrap();
    let response = match session.receive_bytes(&refused).unwrap() {
        Delivery::Terminal(response) => response,
        other => panic!("{:?}", other),
    };
    assert!(matches!(initialized(response), Err(Error::ClientInitFailed(Message::Failure(_)))));
    assert!(manager.has_broken(session.server_state()));
}
