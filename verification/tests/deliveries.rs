use serde_json::Value;
use tyo_mq_client::delivery::{decode, receive};
use tyo_mq_client::{
    consume_event_name, Client, Incoming, Options, PendingAck, SubscribeRequest,
};

fn json(text: &str) -> Value {
    serde_json::from_str(text).unwrap()
}

fn values(texts: &[&str]) -> Incoming {
    Incoming::Values(texts.iter().map(|t| json(t)).collect())
}

fn client() -> Client<&'static str> {
    Client::connect(Options::new())
}

#[test]
fn a_delivery_carries_the_message() {
    let message = decode(&json(
        r#"{"event": "order-placed", "message": {"orderId": 1001}, "from": "orders",
            "msgId": "m-1"}"#,
    ))
    .unwrap();
    assert_eq!(message.event, "order-placed");
    assert_eq!(message.message, json(r#"{"orderId": 1001}"#));
    assert_eq!(message.from, "orders");
    assert_eq!(message.msg_id, Some("m-1".to_string()));
    let copy = message.clone();
    assert_eq!(copy.message, message.message);
    assert_eq!(copy.msg_id, message.msg_id);
}

#[test]
fn missing_and_odd_members_have_defaults() {
    let empty = decode(&json("{}")).unwrap();
    assert_eq!(empty.event, "");
    assert_eq!(empty.message, Value::Null);
    assert_eq!(empty.from, "");
    assert_eq!(empty.msg_id, None);
    let odd = decode(&json(r#"{"event": 1, "message": "m", "from": ["x"], "msgId": 5}"#)).unwrap();
    assert_eq!(odd.event, "");
    assert_eq!(odd.message, json(r#""m""#));
    assert_eq!(odd.from, "");
    assert_eq!(odd.msg_id, None);
}

#[test]
fn the_identifier_stands_under_either_key() {
    let id = |text: &str| decode(&json(text)).unwrap().msg_id;
    assert_eq!(id(r#"{"msgId": "a"}"#), Some("a".to_string()));
    assert_eq!(id(r#"{"msg_id": "b"}"#), Some("b".to_string()));
    assert_eq!(id(r#"{"msgId": "a", "msg_id": "b"}"#), Some("a".to_string()));
    assert_eq!(id(r#"{"msgId": null, "msg_id": "b"}"#), None);
    assert_eq!(id(r#"{"msgid": "c"}"#), None);
}

#[test]
fn only_objects_are_messages() {
    assert!(decode(&json("null")).is_none());
    assert!(decode(&json("[]")).is_none());
    assert!(decode(&json(r#""text""#)).is_none());
    assert!(decode(&json("3")).is_none());
    assert!(decode(&json("true")).is_none());
    assert!(decode(&json("{}")).is_some());
}

#[test]
fn what_events_arrive_with() {
    let message = receive(&values(&[r#"{"event": "first"}"#, r#"{"event": "second"}"#])).unwrap();
    assert_eq!(message.event, "first");
    assert!(receive(&values(&["1", r#"{"event": "second"}"#])).is_none());
    assert!(receive(&values(&[])).is_none());
    let message = receive(&Incoming::Text(r#" {"event": "text", "message": [1]} "#.to_string()));
    assert_eq!(message.clone().unwrap().event, "text");
    assert_eq!(message.unwrap().message, json("[1]"));
    assert!(receive(&Incoming::Text(r#"{"event": "#.to_string())).is_none());
    assert!(receive(&Incoming::Text("".to_string())).is_none());
    assert!(receive(&Incoming::Text("[]".to_string())).is_none());
    assert!(receive(&Incoming::Binary).is_none());
}

#[test]
fn what_is_published_is_what_is_consumed() {
    let content = json(r#"{"a": [1, 2.5, "x"], "b": null}"#);
    let sent = client().produce("from", "event", content.clone());
    let message = decode(&sent.payload).unwrap();
    assert_eq!(message.event, "event");
    assert_eq!(message.message, content);
    assert_eq!(message.from, "from");
    assert_eq!(message.msg_id, None);
    let sent = client().broadcast("from", "event", content.clone(), "group", Some("g"));
    let message = decode(&sent.payload).unwrap();
    assert_eq!(message.event, "event");
    assert_eq!(message.message, content);
    assert_eq!(message.from, "from");
    assert_eq!(message.msg_id, None);
}

#[test]
fn a_subscriber_gets_its_event() {
    let mut client = client();
    client.subscribe(SubscribeRequest::new("Orders", "Placed", "mail").ack(), "mail");
    let event = consume_event_name("orders", "placed", "");
    let incoming = values(&[r#"{"event": "Placed", "msgId": "m-9"}"#]);
    let delivery = client.dispatch(&event, &incoming).unwrap();
    assert_eq!(*delivery.handler, "mail");
    assert_eq!(delivery.message.event, "Placed");
    assert_eq!(delivery.message.msg_id, Some("m-9".to_string()));
    let sent = delivery.pending.handler_returned().unwrap();
    assert_eq!(sent.event, "ACK");
    assert_eq!(sent.payload, json(r#"{"msgId": "m-9"}"#));
}

#[test]
fn other_events_are_not_delivered() {
    let mut client = client();
    let incoming = values(&["{}"]);
    assert!(client.dispatch("CONSUME-p-e", &incoming).is_none());
    client.subscribe(SubscribeRequest::new("p", "e", "c"), "one");
    assert!(client.dispatch("CONSUME-p-e", &incoming).is_some());
    assert!(client.dispatch("CONSUME-P-E", &incoming).is_none());
    assert!(client.dispatch("CONSUME-p-f", &incoming).is_none());
    assert!(client.dispatch("AUTH_OK", &incoming).is_none());
    assert!(client.dispatch("", &incoming).is_none());
    assert!(client.dispatch("CONSUME-p-e", &Incoming::Binary).is_none());
    assert!(client.dispatch("CONSUME-p-e", &values(&["[]"])).is_none());
}

#[test]
fn the_later_subscription_counts() {
    let mut client = client();
    let incoming = values(&[r#"{"msgId": "m"}"#]);
    client.subscribe(SubscribeRequest::new("p", "e", "c").ack(), "first");
    client.subscribe(SubscribeRequest::new("p", "f", "c"), "other");
    client.subscribe(SubscribeRequest::new("P", "E", "c").manual_ack(), "second");
    let delivery = client.dispatch("CONSUME-p-e", &incoming).unwrap();
    assert_eq!(*delivery.handler, "second");
    assert!(delivery.pending.handler_returned().is_none());
    let delivery = client.dispatch("CONSUME-p-f", &incoming).unwrap();
    assert_eq!(*delivery.handler, "other");
}

#[test]
fn the_order_of_subscriptions_to_different_events_is_free() {
    let incoming = values(&["{}"]);
    let a = || SubscribeRequest::new("p", "a", "c");
    let b = || SubscribeRequest::new("p", "b", "c");
    let mut one = client();
    one.subscribe(a(), "a");
    one.subscribe(b(), "b");
    let mut two = client();
    two.subscribe(b(), "b");
    two.subscribe(a(), "a");
    for client in [&one, &two] {
        assert_eq!(*client.dispatch("CONSUME-p-a", &incoming).unwrap().handler, "a");
        assert_eq!(*client.dispatch("CONSUME-p-b", &incoming).unwrap().handler, "b");
    }
}

/// How many acknowledgements go out while a handler asks `asks` times, and after.
fn acks(mut pending: PendingAck, asks: usize) -> (usize, usize) {
    let mut during = 0;
    for _ in 0..asks {
        if let Some(sent) = pending.ack() {
            assert_eq!(sent.event, "ACK");
            assert_eq!(sent.payload, json(r#"{"msgId": "m"}"#));
            during += 1;
        }
    }
    (during, pending.handler_returned().into_iter().count())
}

#[test]
fn automatic_acknowledgement_is_sent_once() {
    let pending = || PendingAck::new(Some("m".to_string()), true);
    assert_eq!(acks(pending(), 0), (0, 1));
    assert_eq!(acks(pending(), 1), (1, 0));
    assert_eq!(acks(pending(), 3), (1, 0));
}

#[test]
fn manual_acknowledgement_is_sent_if_asked_for() {
    let pending = || PendingAck::new(Some("m".to_string()), false);
    assert_eq!(acks(pending(), 0), (0, 0));
    assert_eq!(acks(pending(), 1), (1, 0));
    assert_eq!(acks(pending(), 3), (1, 0));
}

#[test]
fn a_delivery_without_identifier_is_not_acknowledged() {
    assert_eq!(acks(PendingAck::new(None, true), 2), (0, 0));
    assert_eq!(acks(PendingAck::new(None, false), 2), (0, 0));
}

#[test]
fn when_acknowledgement_is_automatic() {
    let automatic = |request: SubscribeRequest| {
        let mut client = client();
        client.subscribe(request, "h");
        let delivery = client.dispatch("CONSUME-p-e", &values(&[r#"{"msgId": "m"}"#])).unwrap();
        acks(delivery.pending, 0) == (0, 1)
    };
    let plain = || SubscribeRequest::new("p", "e", "c");
    assert!(!automatic(plain()));
    assert!(automatic(plain().ack()));
    assert!(!automatic(plain().manual_ack()));
    assert!(!automatic(plain().manual_ack().ack()));
    assert!(!automatic(plain().ack().manual_ack()));
}

#[test]
fn all_events_names_are_never_delivered() {
    let mut client = client();
    client.subscribe(SubscribeRequest::new("p", "TM-ALL", "c"), "h");
    let incoming = values(&["{}"]);
    assert!(client.dispatch(&consume_event_name("p", "", "all"), &incoming).is_none());
    assert!(client.dispatch(&consume_event_name("p", "tm-all", ""), &incoming).is_some());
}
