use serde_json::Value;
use tyo_mq_client::{Action, Client, ConnectError, Incoming, Options, Progress, SubscribeRequest};

fn json(text: &str) -> Value {
    serde_json::from_str(text).unwrap()
}

fn connect(options: Options) -> Client<u8> {
    Client::connect(options)
}

fn in_time() -> Progress {
    Progress::Waited { timed_out: false }
}

fn in_vain() -> Progress {
    Progress::Waited { timed_out: true }
}

/// A client with a token that awaits the answer of the server.
fn awaiting_reply() -> Client<u8> {
    let mut client = connect(Options::new().auth_token("t"));
    client.advance(Progress::Dialed);
    client.open();
    client.advance(in_time());
    client.advance(Progress::Sent);
    client
}

#[test]
fn without_a_token() {
    let mut client = connect(Options::new().host("h").port(80));
    assert!(matches!(client.action(), Action::Dial(url) if url == "http://h:80"));
    assert!(!client.is_waiting());
    client.advance(Progress::Dialed);
    assert!(matches!(client.action(), Action::Wait { seconds: 10 }));
    assert!(client.is_waiting());
    client.open();
    assert!(!client.is_waiting());
    client.advance(in_time());
    assert!(matches!(client.action(), Action::Proceed));
}

#[test]
fn with_a_token() {
    let mut client = connect(Options::new().auth_token("secret"));
    client.advance(Progress::Dialed);
    client.open();
    client.advance(in_time());
    match client.action() {
        Action::Send(sent) => {
            assert_eq!(sent.event, "AUTHENTICATION");
            assert_eq!(sent.payload, json(r#"{"token": "secret"}"#));
        }
        other => panic!("{:?}", other),
    }
    client.advance(Progress::Sent);
    assert!(matches!(client.action(), Action::Wait { seconds: 5 }));
    assert!(client.is_waiting());
    assert!(client.notice("AUTH_OK"));
    assert!(!client.is_waiting());
    client.advance(in_time());
    assert!(matches!(client.action(), Action::Proceed));
}

#[test]
fn the_connection_does_not_open() {
    let mut client = connect(Options::new().auth_token("t"));
    client.advance(Progress::Dialed);
    client.advance(in_vain());
    match client.action() {
        Action::GiveUp(error) => {
            assert_eq!(error, ConnectError::OpenTimedOut);
            assert_eq!(error.message(), "timed out waiting for the connection to open");
        }
        other => panic!("{:?}", other),
    }
}

#[test]
fn the_server_does_not_answer() {
    let mut client = awaiting_reply();
    client.advance(in_vain());
    match client.action() {
        Action::GiveUp(error) => {
            assert_eq!(error, ConnectError::AuthTimedOut);
            assert_eq!(error.message(), "authentication timed out");
        }
        other => panic!("{:?}", other),
    }
}

#[test]
fn the_server_rejects_the_token() {
    let mut client = awaiting_reply();
    assert!(client.notice("AUTH_FAIL"));
    assert!(!client.is_waiting());
    client.advance(in_time());
    match client.action() {
        Action::GiveUp(error) => {
            assert_eq!(error, ConnectError::AuthFailed);
            assert_eq!(error.message(), "authentication failed");
        }
        other => panic!("{:?}", other),
    }
}

#[test]
fn the_latest_answer_counts() {
    let mut client = awaiting_reply();
    client.notice("AUTH_OK");
    client.notice("AUTH_FAIL");
    client.advance(in_time());
    assert!(matches!(client.action(), Action::GiveUp(ConnectError::AuthFailed)));
}

#[test]
fn other_events_are_no_answers() {
    let mut client = awaiting_reply();
    assert!(!client.notice("auth_ok"));
    assert!(!client.notice("CONSUME-p-e"));
    assert!(!client.notice(""));
    assert!(client.is_waiting());
}

#[test]
fn the_outcome_is_final() {
    let mut client = awaiting_reply();
    client.notice("AUTH_OK");
    client.advance(in_time());
    client.notice("AUTH_FAIL");
    client.advance(in_vain());
    client.advance(Progress::Dialed);
    client.advance(Progress::Sent);
    assert!(matches!(client.action(), Action::Proceed));
}

#[test]
fn what_does_not_belong_to_a_stage_changes_nothing() {
    let mut client = connect(Options::new());
    client.advance(Progress::Sent);
    client.advance(in_vain());
    assert!(matches!(client.action(), Action::Dial(_)));
    client.advance(Progress::Dialed);
    client.advance(Progress::Dialed);
    client.advance(Progress::Sent);
    assert!(matches!(client.action(), Action::Wait { seconds: 10 }));
}

#[test]
fn answers_are_never_deliveries() {
    let mut client = awaiting_reply();
    client.subscribe(SubscribeRequest::new("AUTH", "OK", "c"), 1);
    let incoming = Incoming::Text("{}".to_string());
    assert!(client.dispatch("AUTH_OK", &incoming).is_none());
    assert!(client.dispatch("AUTH_FAIL", &incoming).is_none());
    assert!(client.dispatch("CONSUME-auth-ok", &incoming).is_some());
    client.notice("AUTH_OK");
    client.advance(in_time());
    assert!(client.dispatch("CONSUME-auth-ok", &incoming).is_some());
}
