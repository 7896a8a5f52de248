//! Subscription requests.

use crate::emission;
use crate::emission::{Emission, EmissionView};
use crate::json;
use crate::json::{Json, Members};
use crate::names;
use crate::names::ALL_PRODUCERS;
use vstd::prelude::*;

verus! {

/// Retry schedule for ACK-enabled durable subscriptions.
#[derive(Debug)]
pub struct RetryPolicy {
    pub max_attempts: u32,
    /// Duration string, e.g. "5s" or "200ms".
    pub delay: String,
    /// "" or "exponential".
    pub backoff: String,
}

/// A subscription request. The default is plain fire-and-forget delivery;
/// the builder methods opt in to guaranteed delivery and routing features.
#[derive(Debug)]
pub struct SubscribeRequest {
    pub producer: String,
    pub event: String,
    pub consumer: String,
    pub durable: bool,
    pub ack: bool,
    pub manual_ack: bool,
    pub ack_timeout: Option<String>,
    pub retry: Option<RetryPolicy>,
    pub mode: Option<String>,
    pub group: Option<String>,
}

impl Clone for RetryPolicy {
    fn clone(&self) -> (res: Self)
        ensures
            res == *self,
    {
        RetryPolicy {
            max_attempts: self.max_attempts,
            delay: self.delay.clone(),
            backoff: self.backoff.clone(),
        }
    }
}

impl Clone for SubscribeRequest {
    fn clone(&self) -> (res: Self)
        ensures
            res == *self,
    {
        SubscribeRequest {
            producer: self.producer.clone(),
            event: self.event.clone(),
            consumer: self.consumer.clone(),
            durable: self.durable,
            ack: self.ack,
            manual_ack: self.manual_ack,
            ack_timeout: self.ack_timeout.clone(),
            retry: self.retry.clone(),
            mode: self.mode.clone(),
            group: self.group.clone(),
        }
    }
}

/// A retry schedule as a JSON object.
pub open spec fn retry_json(policy: RetryPolicy) -> Json {
    Json::Record(
        map![
            "max_attempts"@ => Json::Unsigned(policy.max_attempts as nat),
            "delay"@ => Json::Text(policy.delay@),
            "backoff"@ => Json::Text(policy.backoff@),
        ],
    )
}

/// A flag that is sent only when it is set.
pub open spec fn flag_json(set: bool) -> Option<Json> {
    if set {
        Some(Json::Bool(true))
    } else {
        None
    }
}

/// A string that is sent only when there is one.
pub open spec fn text_json(s: Option<String>) -> Option<Json> {
    match s {
        Some(t) => Some(Json::Text(t@)),
        None => None,
    }
}

/// Members that every subscription request has.
pub open spec fn plain_fields(req: SubscribeRequest) -> Members {
    map![
        "event"@ => Json::Text(req.event@),
        "producer"@ => Json::Text(req.producer@),
        "consumer"@ => Json::Text(req.consumer@),
        "scope"@ => Json::Text("default"@),
        "consumer_id"@ => Json::Text(req.consumer@),
    ]
}

/// The members of a subscription request: the plain ones, and one for each
/// feature that the request asks for.
pub open spec fn request_fields(req: SubscribeRequest) -> Members {
    let m = plain_fields(req);
    let m = emission::with_optional(m, "durable"@, flag_json(req.durable));
    let m = emission::with_optional(m, "ack"@, flag_json(req.ack));
    let m = emission::with_optional(m, "manual_ack"@, flag_json(req.manual_ack));
    let m = emission::with_optional(m, "ack_timeout"@, text_json(req.ack_timeout));
    let m = emission::with_optional(
        m,
        "retry"@,
        match req.retry {
            Some(r) => Some(retry_json(r)),
            None => None,
        },
    );
    let m = emission::with_optional(m, "mode"@, text_json(req.mode));
    emission::with_optional(m, "group"@, text_json(req.group))
}

/// The message that asks the server for a subscription.
pub open spec fn subscription(req: SubscribeRequest) -> EmissionView {
    emission::message("SUBSCRIBE"@, request_fields(req))
}

/// Plain fire-and-forget delivery of one event to one consumer.
pub open spec fn is_plain(
    req: SubscribeRequest,
    producer: Seq<char>,
    event: Seq<char>,
    consumer: Seq<char>,
) -> bool {
    &&& req.producer@ == producer
    &&& req.event@ == event
    &&& req.consumer@ == consumer
    &&& !req.durable
    &&& !req.ack
    &&& !req.manual_ack
    &&& req.ack_timeout is None
    &&& req.retry is None
    &&& req.mode is None
    &&& req.group is None
}

impl SubscribeRequest {
    /// Plain fire-and-forget delivery of one event to one consumer.
    pub fn new(producer: &str, event: &str, consumer: &str) -> (res: Self)
        ensures
            is_plain(res, producer@, event@, consumer@),
            res.producer@ == producer@,
            res.event@ == event@,
            res.consumer@ == consumer@,
    {
        SubscribeRequest {
            producer: producer.to_owned(),
            event: event.to_owned(),
            consumer: consumer.to_owned(),
            durable: false,
            ack: false,
            manual_ack: false,
            ack_timeout: None,
            retry: None,
            mode: None,
            group: None,
        }
    }

    /// An MQTT-style topic pattern (`+` one level, `#` the rest) matched
    /// against events from any producer.
    pub fn topic(pattern: &str, consumer: &str) -> (res: Self)
        ensures
            res.mode matches Some(m) && m@ == "topic"@,
            res.producer@ == ALL_PRODUCERS@,
            res.event@ == pattern@,
            res.consumer@ == consumer@,
            is_plain(
                (SubscribeRequest { mode: None, ..res }),
                ALL_PRODUCERS@,
                pattern@,
                consumer@,
            ),
    {
        let req = Self::new(ALL_PRODUCERS, pattern, consumer);
        SubscribeRequest { mode: Some("topic".to_owned()), ..req }
    }

    /// The same request with deliveries kept until they are consumed.
    pub fn durable(self) -> (res: Self)
        ensures
            res == (SubscribeRequest { durable: true, ..self }),
    {
        SubscribeRequest { durable: true, ..self }
    }

    /// Auto-ACK after the handler returns.
    pub fn ack(self) -> (res: Self)
        ensures
            res == (SubscribeRequest { ack: true, ..self }),
    {
        SubscribeRequest { ack: true, ..self }
    }

    /// The handler must call its ack argument itself.
    pub fn manual_ack(self) -> (res: Self)
        ensures
            res == (SubscribeRequest { ack: true, manual_ack: true, ..self }),
    {
        SubscribeRequest { ack: true, manual_ack: true, ..self }
    }

    /// The same request with a limit on the time until a delivery is
    /// acknowledged.
    pub fn ack_timeout(self, timeout: &str) -> (res: Self)
        ensures
            res.ack_timeout matches Some(t) && t@ == timeout@,
            res == (SubscribeRequest { ack_timeout: res.ack_timeout, ..self }),
    {
        SubscribeRequest { ack_timeout: Some(timeout.to_owned()), ..self }
    }

    /// The same request with a retry schedule.
    pub fn retry(self, max_attempts: u32, delay: &str, backoff: &str) -> (res: Self)
        ensures
            res.retry matches Some(r) && r.max_attempts == max_attempts && r.delay@ == delay@
                && r.backoff@ == backoff@,
            res == (SubscribeRequest { retry: res.retry, ..self }),
    {
        let policy = RetryPolicy {
            max_attempts,
            delay: delay.to_owned(),
            backoff: backoff.to_owned(),
        };
        SubscribeRequest { retry: Some(policy), ..self }
    }

    /// The same request on behalf of a consumer group.
    pub fn group(self, group: &str) -> (res: Self)
        ensures
            res.group matches Some(g) && g@ == group@,
            res == (SubscribeRequest { group: res.group, ..self }),
    {
        SubscribeRequest { group: Some(group.to_owned()), ..self }
    }

    /// Whether a delivery is acknowledged without the handler's doing.
    pub open spec fn auto_acked(self) -> bool {
        self.ack && !self.manual_ack
    }

    /// The event on which the deliveries of this request arrive.
    pub open spec fn consume_event(self) -> Seq<char> {
        names::consume_event(self.producer@, self.event@, ""@)
    }

    /// The message that asks the server for this subscription.
    pub fn emission(&self) -> (res: Emission)
        ensures
            res@ == subscription(*self),
            res.event@ == "SUBSCRIBE"@,
    {
        let mut fields = json::no_members();
        json::put(&mut fields, "event", json::text(self.event.as_str()));
        json::put(&mut fields, "producer", json::text(self.producer.as_str()));
        json::put(&mut fields, "consumer", json::text(self.consumer.as_str()));
        json::put(&mut fields, "scope", json::text("default"));
        json::put(&mut fields, "consumer_id", json::text(self.consumer.as_str()));
        if self.durable {
            json::put(&mut fields, "durable", json::boolean(true));
        }
        if self.ack {
            json::put(&mut fields, "ack", json::boolean(true));
        }
        if self.manual_ack {
            json::put(&mut fields, "manual_ack", json::boolean(true));
        }
        if let Some(timeout) = &self.ack_timeout {
            json::put(&mut fields, "ack_timeout", json::text(timeout.as_str()));
        }
        if let Some(policy) = &self.retry {
            let mut retry = json::no_members();
            json::put(&mut retry, "max_attempts", json::unsigned(policy.max_attempts));
            json::put(&mut retry, "delay", json::text(policy.delay.as_str()));
            json::put(&mut retry, "backoff", json::text(policy.backoff.as_str()));
            json::put(&mut fields, "retry", json::record(retry));
        }
        if let Some(mode) = &self.mode {
            json::put(&mut fields, "mode", json::text(mode.as_str()));
        }
        if let Some(group) = &self.group {
            json::put(&mut fields, "group", json::text(group.as_str()));
        }
        emission::emission("SUBSCRIBE", fields)
    }
}

} // verus!
