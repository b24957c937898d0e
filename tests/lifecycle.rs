use neeml::prelude::{
    Client, Exchange2016, Exchange2019, ExchangeConnection, ExchangeOnline, ExchangeServerState,
    HandshakeError, ProtocolError, TeardownError,
};

#[test]
fn new_connection_is_disconnected_and_unauthenticated() {
    let c = ExchangeConnection::new(Exchange2019);
    assert!(!c.connected());
    assert!(c.disconnected());
    assert!(!c.authenticated());
    assert!(c.unauthenticated());
}

#[test]
fn default_state_is_disconnected() {
    assert_eq!(ExchangeServerState::default(), ExchangeServerState::Disconnected);
}

#[test]
fn new_client_wraps_disconnected_connection() {
    let client = Client::new(ExchangeOnline);
    assert!(client.connection().disconnected());
    assert!(!client.connection().connected());
}

#[test]
fn full_session_with_both_protocols() {
    let client = Client::new(Exchange2016);
    assert!(client.connection().disconnected());
    let client = client.connect(Ok(())).expect("handshake succeeded");
    assert!(client.connection().connected());
    let legacy: Result<String, ProtocolError> = client.ews_operation(Ok("folder list".to_string()));
    assert_eq!(legacy, Ok("folder list".to_string()));
    assert!(client.connection().connected());
    let modern: Result<u32, ProtocolError> = client.graph_operation(Ok(7));
    assert_eq!(modern, Ok(7));
    assert!(client.connection().connected());
    let (client, report) = client.disconnect(Ok(()));
    assert!(client.connection().disconnected());
    assert_eq!(report, None);
}

#[test]
fn modern_only_edition_runs_graph_operations() {
    let client = Client::new(ExchangeOnline).connect(Ok(())).expect("handshake succeeded");
    assert_eq!(client.graph_operation(Ok(())), Ok::<(), ProtocolError>(()));
    let (client, report) = client.disconnect(Ok(()));
    assert!(client.connection().disconnected());
    assert!(report.is_none());
}

#[test]
fn failed_handshake_yields_only_the_error_then_fresh_client_connects() {
    let attempt = Client::new(Exchange2019).connect(Err(HandshakeError));
    assert!(matches!(attempt, Err(HandshakeError)));
    let retry = Client::new(Exchange2019).connect(Ok(()));
    let client = retry.expect("second handshake succeeded");
    assert!(client.connection().connected());
}

#[test]
fn disconnect_reaches_disconnected_even_when_teardown_fails() {
    let client = Client::new(Exchange2016).connect(Ok(())).expect("handshake succeeded");
    let (client, report) = client.disconnect(Err(TeardownError));
    assert!(client.connection().disconnected());
    assert_eq!(report, Some(TeardownError));
}

#[test]
fn connect_then_disconnect_matches_fresh_client() {
    let fresh = Client::new(Exchange2019);
    let up = Client::new(Exchange2019).connect(Ok(())).expect("handshake succeeded");
    let (down, _) = up.disconnect(Ok(()));
    assert_eq!(down.connection().connected(), fresh.connection().connected());
    assert_eq!(down.connection().authenticated(), fresh.connection().authenticated());
    assert!(down.connection().disconnected());
    let again = down.connect(Ok(())).expect("reconnect succeeded");
    assert!(again.connection().connected());
}

#[test]
fn protocol_errors_are_passed_through() {
    let client = Client::new(Exchange2016).connect(Ok(())).expect("handshake succeeded");
    let legacy: Result<(), ProtocolError> = client.ews_operation(Err(ProtocolError::Rejected));
    assert_eq!(legacy, Err(ProtocolError::Rejected));
    let modern: Result<(), ProtocolError> = client.graph_operation(Err(ProtocolError::Network));
    assert_eq!(modern, Err(ProtocolError::Network));
    assert!(client.connection().connected());
}

#[test]
fn connection_operations_pass_reply_through() {
    let c = ExchangeConnection::new(Exchange2016);
    assert_eq!(c.ews_operation(Ok(5u8)), Ok::<u8, ProtocolError>(5));
    assert_eq!(
        c.graph_operation::<u8>(Err(ProtocolError::MalformedResponse)),
        Err(ProtocolError::MalformedResponse)
    );
    assert!(c.disconnected());
}
