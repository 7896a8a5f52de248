//! Messages to the server.

use crate::json;
use crate::json::{Json, Members};
use serde_json::Value;
use vstd::prelude::*;

verus! {

/// One Socket.IO message for the server: an event name and its JSON payload.
#[derive(Debug)]
pub struct Emission {
    pub event: String,
    pub payload: Value,
}

/// What an [`Emission`] sends.
pub struct EmissionView {
    pub event: Seq<char>,
    pub payload: Json,
}

impl View for Emission {
    type V = EmissionView;

    open spec fn view(&self) -> EmissionView {
        EmissionView { event: self.event@, payload: json::json(self.payload) }
    }
}

/// A message whose payload is an object with the given members.
pub open spec fn message(event: Seq<char>, fields: Members) -> EmissionView {
    EmissionView { event, payload: Json::Record(fields) }
}

/// `fields`, with `value` under `key` if there is a value.
pub open spec fn with_optional(fields: Members, key: Seq<char>, value: Option<Json>) -> Members {
    match value {
        Some(v) => fields.insert(key, v),
        None => fields,
    }
}

/// The request that presents the token of an account.
pub open spec fn authentication(token: Seq<char>) -> EmissionView {
    message("AUTHENTICATION"@, map!["token"@ => Json::Text(token)])
}

/// The announcement of a producer.
pub open spec fn producer_registration(name: Seq<char>) -> EmissionView {
    message("PRODUCER"@, map!["name"@ => Json::Text(name)])
}

/// The announcement of a consumer: its name is also its identity.
pub open spec fn consumer_registration(name: Seq<char>) -> EmissionView {
    message(
        "CONSUMER"@,
        map![
            "name"@ => Json::Text(name),
            "id"@ => Json::Text(name),
            "consumer_id"@ => Json::Text(name),
        ],
    )
}

/// The members of every published message.
pub open spec fn published(from: Seq<char>, event: Seq<char>, content: Json) -> Members {
    map!["event"@ => Json::Text(event), "message"@ => content, "from"@ => Json::Text(from)]
}

/// A fire-and-forget message.
pub open spec fn production(from: Seq<char>, event: Seq<char>, content: Json) -> EmissionView {
    message("PRODUCE"@, published(from, event, content))
}

/// Whom a broadcast of a kind reaches: the members of a consumer group for the
/// kind "group", those of the realm for any other.
pub open spec fn audience(kind: Seq<char>) -> Seq<char> {
    if kind == "group"@ {
        "group"@
    } else {
        "realm"@
    }
}

/// A message of which every member of a realm or of a consumer group gets a copy.
pub open spec fn broadcasting(
    from: Seq<char>,
    event: Seq<char>,
    content: Json,
    kind: Seq<char>,
    group: Option<Seq<char>>,
) -> EmissionView {
    let fields = published(from, event, content).insert("method"@, Json::Text("broadcast"@)).insert(
        "broadcast"@,
        Json::Text(audience(kind)),
    );
    let group = match group {
        Some(g) => Some(Json::Text(g)),
        None => None,
    };
    message("PRODUCE"@, with_optional(fields, "group"@, group))
}

/// The acknowledgement of one delivery.
pub open spec fn acknowledgement(msg_id: Seq<char>) -> EmissionView {
    message("ACK"@, map!["msgId"@ => Json::Text(msg_id)])
}

/// The message for `event` with the members of `fields`.
pub(crate) fn emission(event: &str, fields: serde_json::Map<String, Value>) -> (res: Emission)
    ensures
        res@ == message(event@, json::members(fields)),
        res.event@ == event@,
        json::json(res.payload) == Json::Record(json::members(fields)),
{
    Emission { event: event.to_owned(), payload: json::record(fields) }
}

/// The request that presents the token of an account.
pub(crate) fn authenticate(token: &str) -> (res: Emission)
    ensures
        res@ == authentication(token@),
        res.event@ == "AUTHENTICATION"@,
        json::json(res.payload) == Json::Record(map!["token"@ => Json::Text(token@)]),
{
    let mut fields = json::no_members();
    json::put(&mut fields, "token", json::text(token));
    emission("AUTHENTICATION", fields)
}

/// The acknowledgement of one delivery.
pub(crate) fn acknowledge(msg_id: &str) -> (res: Emission)
    ensures
        res@ == acknowledgement(msg_id@),
        res.event@ == "ACK"@,
        json::json(res.payload) == Json::Record(map!["msgId"@ => Json::Text(msg_id@)]),
{
    let mut fields = json::no_members();
    json::put(&mut fields, "msgId", json::text(msg_id));
    emission("ACK", fields)
}

} // verus!
