//! Deliveries: what arrives, what a handler is given, and when the delivery is
//! acknowledged.

use crate::emission;
use crate::emission::{Emission, EmissionView};
use crate::json;
use crate::json::{Json, Members};
use serde_json::Value;
use vstd::prelude::*;

verus! {

/// One delivered message.
#[derive(Debug)]
pub struct ConsumedMessage {
    pub event: String,
    pub message: Value,
    pub from: String,
    /// Present only on ACK-enabled deliveries.
    pub msg_id: Option<String>,
}

/// What a [`ConsumedMessage`] says.
pub struct MessageView {
    pub event: Seq<char>,
    pub message: Json,
    pub from: Seq<char>,
    pub msg_id: Option<Seq<char>>,
}

impl View for ConsumedMessage {
    type V = MessageView;

    open spec fn view(&self) -> MessageView {
        MessageView {
            event: self.event@,
            message: json::json(self.message),
            from: self.from@,
            msg_id: match self.msg_id {
                Some(id) => Some(id@),
                None => None,
            },
        }
    }
}

impl Clone for ConsumedMessage {
    fn clone(&self) -> (res: Self)
        ensures
            res@ == self@,
            res.event == self.event,
            json::json(res.message) == json::json(self.message),
            res.from == self.from,
            res.msg_id == self.msg_id,
    {
        ConsumedMessage {
            event: self.event.clone(),
            message: self.message.clone(),
            from: self.from.clone(),
            msg_id: self.msg_id.clone(),
        }
    }
}

/// What a Socket.IO event arrived with.
#[derive(Debug)]
pub enum Incoming {
    /// The arguments of the event, as JSON values.
    Values(Vec<Value>),
    /// One argument, as JSON text.
    Text(String),
    /// Bytes, which no delivery consists of.
    Binary,
}

/// The JSON value that an event arrived with: the first argument, or the text
/// if it is JSON.
pub open spec fn arrived(incoming: Incoming) -> Option<Json> {
    match incoming {
        Incoming::Values(values) => if values@.len() > 0 {
            Some(json::json(values@[0]))
        } else {
            None
        },
        Incoming::Text(text) => json::parsed(text@),
        Incoming::Binary => None,
    }
}

/// The string under a key, if there is a member and it is a string.
pub open spec fn text_at(fields: Members, key: Seq<char>) -> Option<Seq<char>> {
    if fields.contains_key(key) {
        match fields[key] {
            Json::Text(s) => Some(s),
            _ => None,
        }
    } else {
        None
    }
}

/// The string under a key, or the empty string.
pub open spec fn text_or_empty(fields: Members, key: Seq<char>) -> Seq<char> {
    match text_at(fields, key) {
        Some(s) => s,
        None => Seq::empty(),
    }
}

/// The message that the members of a delivered object make up. The identifier
/// stands under "msgId" or, where there is no such member, under "msg_id".
pub open spec fn message_of(fields: Members) -> MessageView {
    MessageView {
        event: text_or_empty(fields, "event"@),
        message: if fields.contains_key("message"@) {
            fields["message"@]
        } else {
            Json::Null
        },
        from: text_or_empty(fields, "from"@),
        msg_id: if fields.contains_key("msgId"@) {
            text_at(fields, "msgId"@)
        } else {
            text_at(fields, "msg_id"@)
        },
    }
}

/// The message that a JSON value delivers: only an object does.
pub open spec fn decoded(value: Json) -> Option<MessageView> {
    match value {
        Json::Record(fields) => Some(message_of(fields)),
        _ => None,
    }
}

/// The message that an event delivers.
pub open spec fn received(incoming: Incoming) -> Option<MessageView> {
    match arrived(incoming) {
        Some(value) => decoded(value),
        None => None,
    }
}

/// The string under a key, if there is a member and it is a string.
fn read_text(fields: &serde_json::Map<String, Value>, key: &str) -> (res: Option<String>)
    ensures
        res is Some <==> text_at(json::members(*fields), key@) is Some,
        res matches Some(s) ==> text_at(json::members(*fields), key@) == Some(s@),
{
    match json::member(fields, key) {
        Some(value) => match json::as_text(value) {
            Some(s) => Some(s.to_owned()),
            None => None,
        },
        None => None,
    }
}

/// The string under a key, or the empty string.
fn read_text_or_empty(fields: &serde_json::Map<String, Value>, key: &str) -> (res: String)
    ensures
        res@ == text_or_empty(json::members(*fields), key@),
{
    match read_text(fields, key) {
        Some(s) => s,
        None => String::new(),
    }
}

/// The message that a JSON value delivers, if it is an object.
pub fn decode(value: &Value) -> (res: Option<ConsumedMessage>)
    ensures
        res is Some <==> json::json(*value) is Record,
        res matches Some(m) ==> ({
            let fields = json::json(*value)->Record_0;
            &&& fields.contains_key("message"@) ==> json::json(m.message) == fields["message"@]
            &&& !fields.contains_key("message"@) ==> json::json(m.message) is Null
        }),
        res is Some <==> decoded(json::json(*value)) is Some,
        res matches Some(m) ==> decoded(json::json(*value)) == Some(m@),
{
    let fields = match json::as_record(value) {
        Some(fields) => fields,
        None => return None,
    };
    let message = match json::member(fields, "message") {
        Some(content) => content.clone(),
        None => json::null(),
    };
    let msg_id = match json::member(fields, "msgId") {
        Some(_) => read_text(fields, "msgId"),
        None => read_text(fields, "msg_id"),
    };
    Some(
        ConsumedMessage {
            event: read_text_or_empty(fields, "event"),
            message,
            from: read_text_or_empty(fields, "from"),
            msg_id,
        },
    )
}

/// The message that an event delivers, if it delivers one.
pub fn receive(incoming: &Incoming) -> (res: Option<ConsumedMessage>)
    ensures
        incoming matches Incoming::Values(values) ==> (res is Some <==> values@.len() > 0
            && json::json(values@[0]) is Record),
        res is Some <==> received(*incoming) is Some,
        res matches Some(m) ==> received(*incoming) == Some(m@),
{
    match incoming {
        Incoming::Values(values) => if values.len() > 0 {
            decode(&values[0])
        } else {
            None
        },
        Incoming::Text(text) => match json::parse(text.as_str()) {
            Some(value) => decode(&value),
            None => None,
        },
        Incoming::Binary => None,
    }
}

/// The acknowledgement that a delivery is owed.
#[derive(Debug)]
pub struct PendingAck {
    msg_id: Option<String>,
    auto_ack: bool,
    acked: bool,
}

/// What a [`PendingAck`] knows: the identifier of the delivery, whether it is
/// acknowledged without the handler's doing, and whether it was already.
pub struct PendingAckView {
    pub msg_id: Option<Seq<char>>,
    pub auto_ack: bool,
    pub acked: bool,
}

impl View for PendingAck {
    type V = PendingAckView;

    closed spec fn view(&self) -> PendingAckView {
        PendingAckView {
            msg_id: match self.msg_id {
                Some(id) => Some(id@),
                None => None,
            },
            auto_ack: self.auto_ack,
            acked: self.acked,
        }
    }
}

impl PendingAckView {
    /// The acknowledgement that is sent if one is asked for now: none for a
    /// delivery without identifier, nor for one that was acknowledged before.
    pub open spec fn on_ack(self) -> Option<EmissionView> {
        match self.msg_id {
            Some(id) => if self.acked {
                None
            } else {
                Some(emission::acknowledgement(id))
            },
            None => None,
        }
    }

    /// After an acknowledgement was asked for.
    pub open spec fn after_ack(self) -> PendingAckView {
        PendingAckView { acked: self.acked || self.msg_id is Some, ..self }
    }

    /// The acknowledgement that is sent when the handler has returned.
    pub open spec fn on_return(self) -> Option<EmissionView> {
        if self.auto_ack {
            self.on_ack()
        } else {
            None
        }
    }
}

/// Whether what is sent is what is said to be.
pub open spec fn sends(sent: Option<Emission>, said: Option<EmissionView>) -> bool {
    match sent {
        Some(e) => said == Some(e@),
        None => said is None,
    }
}

impl PendingAck {
    /// The acknowledgement owed to a delivery with this identifier.
    pub fn new(msg_id: Option<String>, auto_ack: bool) -> (res: Self)
        ensures
            res@.msg_id == (match msg_id {
                Some(id) => Some(id@),
                None => None,
            }),
            res@.auto_ack == auto_ack,
            !res@.acked,
    {
        PendingAck { msg_id, auto_ack, acked: false }
    }

    /// Asks for an acknowledgement, as the handler may at any time: what is to
    /// be sent, if anything.
    pub fn ack(&mut self) -> (res: Option<Emission>)
        ensures
            sends(res, old(self)@.on_ack()),
            res is Some <==> old(self)@.msg_id is Some && !old(self)@.acked,
            res matches Some(e) ==> e.event@ == "ACK"@ && json::json(e.payload) == Json::Record(
                map!["msgId"@ => Json::Text(old(self)@.msg_id->0)],
            ),
            final(self)@ == old(self)@.after_ack(),
    {
        match &self.msg_id {
            Some(id) => if self.acked {
                None
            } else {
                let res = emission::acknowledge(id.as_str());
                self.acked = true;
                Some(res)
            },
            None => None,
        }
    }

    /// Ends the delivery once the handler has returned: what is to be sent, if
    /// anything.
    pub fn handler_returned(self) -> (res: Option<Emission>)
        ensures
            sends(res, self@.on_return()),
            res is Some <==> self@.auto_ack && self@.msg_id is Some && !self@.acked,
            res matches Some(e) ==> e.event@ == "ACK"@ && json::json(e.payload) == Json::Record(
                map!["msgId"@ => Json::Text(self@.msg_id->0)],
            ),
    {
        let mut pending = self;
        if pending.auto_ack {
            pending.ack()
        } else {
            None
        }
    }
}

} // verus!
