# tyo-mq-client

A Rust client for [tyo-mq](https://github.com/tyolab/tyo-mq), the distributed
pub/sub messaging service, with a protocol core that is verified with Verus.

- `src/` is the core. It does no I/O: it says what to send and takes what arrived.
  - `client`: the state of one connection — how it is established and
    authenticated, its subscriptions, and what each call sends.
  - `delivery`: what a handler is given, and when a delivery is acknowledged.
  - `request`, `options`: subscription requests and connection options.
  - `emission`: the messages to the server.
  - `names`, `text`: event names, and strings.
  - `json`: JSON values of `serde_json` and what their contents are.
  - `laws`: what holds of the core as a whole.
- `app/` is the Socket.IO side: it owns the socket and its threads, and does what
  the core says. `app/pubsub.rs` is a complete round trip.
- `tests/` runs the core.

## Use

```rust
let consumer = Client::connect(Options::new().host("localhost").port(17352))?;
// with auth enabled on the server: Options::new().auth_token("my-token")
consumer.register_consumer("email-service")?;
consumer.subscribe(
    SubscribeRequest::new("order-service", "order-placed", "email-service")
        .durable()
        .ack()
        .retry(3, "5s", "exponential"),
    |msg, _ack| println!("order event: {} (msgId {:?})", msg.message, msg.msg_id),
)?;

let producer = Client::connect(Options::new())?;
producer.register_producer("order-service")?;
producer.produce("order-service", "order-placed", json!({"orderId": 1001}))?;
```

What is taken on trust is stated where it is called: the functions of
`serde_json` in `src/json.rs`, and `str::to_lowercase` in `src/text.rs`.
