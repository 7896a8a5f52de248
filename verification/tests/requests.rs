use serde_json::Value;
use tyo_mq_client::names::consume_event_of_lowered;
use tyo_mq_client::{
    consume_event_name, Client, Options, RetryPolicy, SubscribeRequest, ALL_PRODUCERS, DEFAULT_PORT,
};

fn json(text: &str) -> Value {
    serde_json::from_str(text).unwrap()
}

fn client() -> Client<u8> {
    Client::connect(Options::new())
}

#[test]
fn default_options() {
    let options = Options::new();
    assert_eq!(options.host, "localhost");
    assert_eq!(options.port, 17352);
    assert_eq!(options.port, DEFAULT_PORT);
    assert_eq!(options.protocol, "http");
    assert_eq!(options.auth_token, None);
    let default = Options::default();
    assert_eq!(default.host, options.host);
    assert_eq!(default.port, options.port);
    assert_eq!(default.protocol, options.protocol);
    assert_eq!(default.auth_token, options.auth_token);
}

#[test]
fn options_are_set_one_by_one() {
    let options = Options::new().host("mq.example").port(8080).protocol("https").auth_token("t-1");
    assert_eq!(options.host, "mq.example");
    assert_eq!(options.port, 8080);
    assert_eq!(options.protocol, "https");
    assert_eq!(options.auth_token, Some("t-1".to_string()));
    let copy = options.clone().host("other");
    assert_eq!(copy.host, "other");
    assert_eq!(copy.port, 8080);
    assert_eq!(copy.protocol, "https");
    assert_eq!(copy.auth_token, Some("t-1".to_string()));
}

#[test]
fn url_has_the_port_in_decimal() {
    assert_eq!(Options::new().url(), "http://localhost:17352");
    assert_eq!(Options::new().port(0).url(), "http://localhost:0");
    assert_eq!(Options::new().port(9).url(), "http://localhost:9");
    assert_eq!(Options::new().port(10).url(), "http://localhost:10");
    assert_eq!(Options::new().port(65535).url(), "http://localhost:65535");
    assert_eq!(
        Options::new().protocol("https").host("127.0.0.1").port(4020).url(),
        "https://127.0.0.1:4020"
    );
}

#[test]
fn every_port_reads_as_it_prints() {
    let mut port: u16 = 0;
    while port < 65535 {
        assert_eq!(Options::new().port(port).url(), format!("http://localhost:{}", port));
        port += 1;
    }
}

#[test]
fn consume_events() {
    assert_eq!(
        consume_event_name("order-service", "order-placed", ""),
        "CONSUME-order-service-order-placed"
    );
    assert_eq!(consume_event_name("Order", "PLACED", "default"), "CONSUME-order-placed");
    assert_eq!(consume_event_name("Order", "PLACED", "all"), "CONSUME-order-TM-ALL");
    assert_eq!(consume_event_name("Order", "PLACED", "ALL"), "CONSUME-order-placed");
    assert_eq!(consume_event_name("", "", ""), "CONSUME--");
    assert_eq!(consume_event_name("Größe", "ÄNDERUNG", ""), "CONSUME-größe-änderung");
    assert_eq!(
        consume_event_name(ALL_PRODUCERS, "orders/+/status", ""),
        "CONSUME-tyo-mq-all-orders/+/status"
    );
}

#[test]
fn consume_events_ignore_case_and_the_event_in_all_scope() {
    assert_eq!(consume_event_name("A", "b", ""), consume_event_name("a", "B", ""));
    assert_eq!(consume_event_name("a-b", "c", ""), consume_event_name("a", "b-c", ""));
    assert_ne!(consume_event_name("a", "b", ""), consume_event_name("a", "c", ""));
    assert_eq!(consume_event_name("a", "b", "all"), consume_event_name("a", "c", "all"));
}

#[test]
fn consume_event_for_lowered_names() {
    assert_eq!(consume_event_of_lowered("a-b", false), "CONSUME-a-b");
    assert_eq!(consume_event_of_lowered("a", true), "CONSUME-a-TM-ALL");
}

#[test]
fn registrations() {
    let producer = client().register_producer("order-service");
    assert_eq!(producer.event, "PRODUCER");
    assert_eq!(producer.payload, json(r#"{"name": "order-service"}"#));
    let consumer = client().register_consumer("email-service");
    assert_eq!(consumer.event, "CONSUMER");
    assert_eq!(
        consumer.payload,
        json(
            r#"{"name": "email-service", "id": "email-service", "consumer_id": "email-service"}"#
        )
    );
}

#[test]
fn production() {
    let produced = client().produce(
        "order-service",
        "order-placed",
        json(r#"{"orderId": 1001, "total": 129.5, "tags": [null, false, -3]}"#),
    );
    assert_eq!(produced.event, "PRODUCE");
    assert_eq!(
        produced.payload,
        json(
            r#"{"event": "order-placed", "from": "order-service",
                "message": {"orderId": 1001, "total": 129.5, "tags": [null, false, -3]}}"#
        )
    );
}

#[test]
fn broadcasts() {
    let realm =
        client().broadcast("control", "announcement", json(r#"{"notice": 1}"#), "realm", None);
    assert_eq!(realm.event, "PRODUCE");
    assert_eq!(
        realm.payload,
        json(
            r#"{"event": "announcement", "from": "control", "message": {"notice": 1},
                "method": "broadcast", "broadcast": "realm"}"#
        )
    );
    let group = client().broadcast("control", "reload", json("{}"), "group", Some("workers"));
    assert_eq!(group.event, "PRODUCE");
    assert_eq!(
        group.payload,
        json(
            r#"{"event": "reload", "from": "control", "message": {},
                "method": "broadcast", "broadcast": "group", "group": "workers"}"#
        )
    );
    let odd = client().broadcast("control", "reload", json("7"), "Group", Some("workers"));
    assert_eq!(
        odd.payload,
        json(
            r#"{"event": "reload", "from": "control", "message": 7,
                "method": "broadcast", "broadcast": "realm", "group": "workers"}"#
        )
    );
}

#[test]
fn acknowledgement() {
    let ack = client().ack("m-17");
    assert_eq!(ack.event, "ACK");
    assert_eq!(ack.payload, json(r#"{"msgId": "m-17"}"#));
}

#[test]
fn plain_subscription() {
    let mut client = client();
    let sent = client.subscribe(SubscribeRequest::new("p", "e", "c"), 1);
    assert_eq!(sent.event, "SUBSCRIBE");
    assert_eq!(
        sent.payload,
        json(
            r#"{"event": "e", "producer": "p", "consumer": "c", "scope": "default",
                "consumer_id": "c"}"#
        )
    );
}

#[test]
fn full_subscription() {
    let request = SubscribeRequest::new("order-service", "order-placed", "email-service")
        .durable()
        .manual_ack()
        .ack_timeout("30s")
        .retry(4294967295, "5s", "exponential")
        .group("workers");
    assert_eq!(
        request.emission().payload,
        json(
            r#"{"event": "order-placed", "producer": "order-service",
                "consumer": "email-service", "scope": "default",
                "consumer_id": "email-service", "durable": true, "ack": true,
                "manual_ack": true, "ack_timeout": "30s",
                "retry": {"max_attempts": 4294967295, "delay": "5s", "backoff": "exponential"},
                "group": "workers"}"#
        )
    );
}

#[test]
fn topic_subscription() {
    let request = SubscribeRequest::topic("orders/+/status", "dashboard");
    assert_eq!(request.producer, "TYO-MQ-ALL");
    assert_eq!(request.mode, Some("topic".to_string()));
    assert_eq!(
        request.emission().payload,
        json(
            r#"{"event": "orders/+/status", "producer": "TYO-MQ-ALL", "consumer": "dashboard",
                "scope": "default", "consumer_id": "dashboard", "mode": "topic"}"#
        )
    );
}

#[test]
fn each_feature_adds_its_member() {
    let plain = || SubscribeRequest::new("p", "e", "c");
    let keys = |request: SubscribeRequest| {
        let payload = request.emission().payload;
        let mut keys: Vec<String> = payload.as_object().unwrap().keys().cloned().collect();
        keys.retain(|k| plain().emission().payload.get(k).is_none());
        keys.sort();
        keys.join(",")
    };
    assert_eq!(keys(plain()), "");
    assert_eq!(keys(plain().durable()), "durable");
    assert_eq!(keys(plain().ack()), "ack");
    assert_eq!(keys(plain().manual_ack()), "ack,manual_ack");
    assert_eq!(keys(plain().ack_timeout("")), "ack_timeout");
    assert_eq!(keys(plain().retry(0, "", "")), "retry");
    assert_eq!(keys(plain().group("")), "group");
}

#[test]
fn requests_can_be_written_out() {
    let request = SubscribeRequest {
        producer: "p".to_string(),
        event: "e".to_string(),
        consumer: "c".to_string(),
        durable: false,
        ack: false,
        manual_ack: true,
        ack_timeout: None,
        retry: Some(RetryPolicy {
            max_attempts: 0,
            delay: "200ms".to_string(),
            backoff: "".to_string(),
        }),
        mode: Some("queue".to_string()),
        group: None,
    };
    assert_eq!(
        request.emission().payload,
        json(
            r#"{"event": "e", "producer": "p", "consumer": "c", "scope": "default",
                "consumer_id": "c", "manual_ack": true, "mode": "queue",
                "retry": {"max_attempts": 0, "delay": "200ms", "backoff": ""}}"#
        )
    );
}

#[test]
fn requests_that_differ_are_sent_differently() {
    let plain = || SubscribeRequest::new("p", "e", "c");
    let first = plain().retry(3, "5s", "exponential").emission().payload;
    assert_ne!(first, plain().retry(4, "5s", "exponential").emission().payload);
    assert_ne!(first, plain().retry(3, "6s", "exponential").emission().payload);
    assert_ne!(first, plain().retry(3, "5s", "").emission().payload);
    assert_ne!(first, plain().emission().payload);
    assert_eq!(first, plain().retry(3, "5s", "exponential").clone().emission().payload);
}

#[test]
fn a_copy_of_a_request_asks_for_the_same() {
    let request = SubscribeRequest::topic("a/#", "c")
        .durable()
        .ack()
        .ack_timeout("1s")
        .retry(2, "3s", "exponential")
        .group("g");
    let copy = request.clone();
    assert_eq!(copy.emission().payload, request.emission().payload);
    assert_eq!(copy.retry.unwrap().max_attempts, 2);
    assert_eq!(copy.ack_timeout, Some("1s".to_string()));
}

#[test]
fn every_ascii_character_is_lowered_by_itself() {
    for byte in 0u8..128 {
        let name = (byte as char).to_string();
        let lowered = (byte.to_ascii_lowercase() as char).to_string();
        assert_eq!(
            consume_event_name(&name, &name, ""),
            format!("CONSUME-{}-{}", lowered, lowered)
        );
        assert_eq!(consume_event_name(&name, "e", "all"), format!("CONSUME-{}-TM-ALL", lowered));
        assert_eq!(
            consume_event_name(&lowered, &lowered, ""),
            consume_event_name(&name, &name, "")
        );
    }
}

#[test]
fn no_capital_letter_of_ascii_is_left() {
    for c in '\0'..=char::MAX {
        let name = consume_event_name(&c.to_string(), "E", "");
        assert!(!name["CONSUME-".len()..].contains(|l: char| l.is_ascii_uppercase()), "{:?}", c);
    }
}

#[test]
fn all_events_names_are_apart() {
    assert_eq!(consume_event_name("p", "TM-ALL", ""), "CONSUME-p-tm-all");
    assert_eq!(consume_event_name("p", "e", "all"), "CONSUME-p-TM-ALL");
    assert_ne!(consume_event_name("p", "TM-ALL", ""), consume_event_name("p", "e", "all"));
    assert_eq!(consume_event_name("p", "e", "default"), consume_event_name("p", "e", ""));
    assert_eq!(consume_event_name("P", "\u{c4}", "all"), consume_event_name("p", "e", "all"));
}

#[test]
fn a_broadcast_is_a_production_with_its_members() {
    for (kind, audience) in [("group", "group"), ("realm", "realm"), ("", "realm")] {
        for group in [None, Some("g")] {
            let mut expected = client().produce("f", "e", json("[1]")).payload;
            let members = expected.as_object_mut().unwrap();
            members.insert("method".to_string(), Value::from("broadcast"));
            members.insert("broadcast".to_string(), Value::from(audience));
            if let Some(g) = group {
                members.insert("group".to_string(), Value::from(g));
            }
            let sent = client().broadcast("f", "e", json("[1]"), kind, group);
            assert_eq!(sent.event, "PRODUCE");
            assert_eq!(sent.payload, expected);
        }
    }
}
