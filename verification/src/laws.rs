//! What holds of the library as a whole.
//!
//! The laws are stated over the specification functions that the executable
//! functions are specified with.

use crate::client;
use crate::client::{Action, ActionView, ClientView, ConnectError, Delivery, DeliveryView};
use crate::client::{Progress, Stage};
use crate::delivery;
use crate::delivery::{ConsumedMessage, Incoming, MessageView, PendingAckView};
use crate::emission;
use crate::emission::{Emission, EmissionView};
use crate::json;
use crate::json::{Json, Members};
use crate::names;
use crate::options;
use crate::options::Options;
use crate::request;
use crate::request::SubscribeRequest;
use crate::text;
use serde_json::Value;
use vstd::prelude::*;

verus! {

/// An event for a subscription is delivered to its handler, with the message
/// that the event carries, and is acknowledged as the request asked for.
pub proof fn law_subscriber_gets_its_event<H>(
    client: ClientView<H>,
    req: SubscribeRequest,
    handler: H,
    incoming: Incoming,
    message: MessageView,
)
    requires
        delivery::received(incoming) == Some(message),
    ensures
        client.subscribed(req, handler).dispatched(req.consume_event(), incoming) == Some(
            DeliveryView {
                handler,
                message,
                pending: PendingAckView {
                    msg_id: message.msg_id,
                    auto_ack: req.ack && !req.manual_ack,
                    acked: false,
                },
            },
        ),
{
}

/// A subscription changes nothing for any other event.
pub proof fn law_subscription_leaves_other_events<H>(
    client: ClientView<H>,
    req: SubscribeRequest,
    handler: H,
    name: Seq<char>,
    incoming: Incoming,
)
    requires
        name != req.consume_event(),
    ensures
        client.subscribed(req, handler).dispatched(name, incoming) == client.dispatched(
            name,
            incoming,
        ),
{
}

/// A connection after a sequence of subscriptions, each with its handler.
pub open spec fn after_subscriptions<H>(
    client: ClientView<H>,
    made: Seq<(SubscribeRequest, H)>,
) -> ClientView<H>
    decreases made.len(),
{
    if made.len() == 0 {
        client
    } else {
        after_subscriptions(client, made.drop_last()).subscribed(made.last().0, made.last().1)
    }
}

/// Nothing is delivered on an event that no subscription was made to.
pub proof fn law_no_delivery_without_subscription<H>(
    options: Options,
    made: Seq<(SubscribeRequest, H)>,
    name: Seq<char>,
    incoming: Incoming,
)
    requires
        forall|i: int| 0 <= i < made.len() ==> (#[trigger] made[i]).0.consume_event() != name,
    ensures
        after_subscriptions(ClientView::<H>::starting(options), made).dispatched(
            name,
            incoming,
        ) is None,
    decreases made.len(),
{
    if made.len() > 0 {
        let before = made.drop_last();
        assert forall|i: int| 0 <= i < before.len() implies (#[trigger] before[i]).0.consume_event()
            != name by {
            assert(before[i] == made[i]);
        }
        law_no_delivery_without_subscription(options, before, name, incoming);
        assert(made[made.len() - 1].0.consume_event() != name);
    }
}

/// Of all subscriptions that were made to an event, the latest gets what arrives.
pub proof fn law_latest_subscriber_gets_the_event<H>(
    client: ClientView<H>,
    made: Seq<(SubscribeRequest, H)>,
    latest: int,
    incoming: Incoming,
    message: MessageView,
)
    requires
        0 <= latest < made.len(),
        forall|i: int|
            latest < i < made.len() ==> (#[trigger] made[i]).0.consume_event()
                != made[latest].0.consume_event(),
        delivery::received(incoming) == Some(message),
    ensures
        after_subscriptions(client, made).dispatched(made[latest].0.consume_event(), incoming)
            == Some(
            DeliveryView {
                handler: made[latest].1,
                message,
                pending: PendingAckView {
                    msg_id: message.msg_id,
                    auto_ack: made[latest].0.auto_acked(),
                    acked: false,
                },
            },
        ),
    decreases made.len(),
{
    let before = made.drop_last();
    if latest == made.len() - 1 {
        law_subscriber_gets_its_event(
            after_subscriptions(client, before),
            made[latest].0,
            made[latest].1,
            incoming,
            message,
        );
    } else {
        assert forall|i: int| latest < i < before.len() implies (
        #[trigger] before[i]).0.consume_event() != before[latest].0.consume_event() by {
            assert(before[i] == made[i]);
        }
        law_latest_subscriber_gets_the_event(client, before, latest, incoming, message);
        assert(made[made.len() - 1].0.consume_event() != made[latest].0.consume_event());
    }
}

/// Of two subscriptions to one event, the later one counts.
pub proof fn law_later_subscription_replaces<H>(
    client: ClientView<H>,
    first: SubscribeRequest,
    first_handler: H,
    second: SubscribeRequest,
    second_handler: H,
)
    requires
        first.consume_event() == second.consume_event(),
    ensures
        client.subscribed(first, first_handler).subscribed(second, second_handler)
            == client.subscribed(second, second_handler),
{
    assert(client.subscribed(first, first_handler).subscribed(
        second,
        second_handler,
    ).subscriptions =~= client.subscribed(second, second_handler).subscriptions);
}

/// Two subscriptions to different events can be made in either order.
pub proof fn law_subscriptions_commute<H>(
    client: ClientView<H>,
    a: SubscribeRequest,
    a_handler: H,
    b: SubscribeRequest,
    b_handler: H,
)
    requires
        a.consume_event() != b.consume_event(),
    ensures
        client.subscribed(a, a_handler).subscribed(b, b_handler) == client.subscribed(
            b,
            b_handler,
        ).subscribed(a, a_handler),
{
    assert(client.subscribed(a, a_handler).subscribed(b, b_handler).subscriptions
        =~= client.subscribed(b, b_handler).subscribed(a, a_handler).subscriptions);
}

/// Two requests arrive on one event exactly when producer and event, joined by a
/// dash, are the same in lower case.
pub proof fn law_requests_share_an_event(a: SubscribeRequest, b: SubscribeRequest)
    ensures
        a.consume_event() == b.consume_event() <==> text::lowercase(a.producer@ + "-"@ + a.event@)
            == text::lowercase(b.producer@ + "-"@ + b.event@),
{
    reveal_strlit("");
    reveal_strlit("all");
    reveal_strlit("CONSUME-");
    let x = text::lowercase(a.producer@ + "-"@ + a.event@);
    let y = text::lowercase(b.producer@ + "-"@ + b.event@);
    assert(""@.len() != "all"@.len());
    assert(a.consume_event() == "CONSUME-"@ + x);
    assert(b.consume_event() == "CONSUME-"@ + y);
    if "CONSUME-"@ + x == "CONSUME-"@ + y {
        let n = "CONSUME-"@.len() as int;
        assert(x =~= ("CONSUME-"@ + x).skip(n));
        assert(y =~= ("CONSUME-"@ + y).skip(n));
    }
}

/// In the scope of all events of a producer, the event makes no difference.
pub proof fn law_all_scope_ignores_the_event(producer: Seq<char>, a: Seq<char>, b: Seq<char>)
    ensures
        names::consume_event(producer, a, "all"@) == names::consume_event(producer, b, "all"@),
{
}

/// All scopes but "all" are alike.
pub proof fn law_other_scopes_are_alike(
    producer: Seq<char>,
    event: Seq<char>,
    a: Seq<char>,
    b: Seq<char>,
)
    requires
        a != "all"@,
        b != "all"@,
    ensures
        names::consume_event(producer, event, a) == names::consume_event(producer, event, b),
{
}

/// The letter case of a producer and an event makes no difference to the consume
/// event, for names in ASCII: the lowered names are in ASCII too, and have the
/// same event, as have any other two that differ in letter case only. In scope
/// "all" this asks nothing of the event.
pub proof fn law_letter_case_is_irrelevant(
    producer: Seq<char>,
    event: Seq<char>,
    other_producer: Seq<char>,
    other_event: Seq<char>,
    scope: Seq<char>,
)
    requires
        names::is_named_in_ascii(producer, event, scope),
        text::ascii_lowered(producer) == text::ascii_lowered(other_producer),
        scope != "all"@ ==> text::ascii_lowered(event) == text::ascii_lowered(other_event),
    ensures
        names::is_named_in_ascii(
            text::ascii_lowered(producer),
            text::ascii_lowered(event),
            scope,
        ),
        names::ascii_consume_event(
            text::ascii_lowered(producer),
            text::ascii_lowered(event),
            scope,
        ) == names::ascii_consume_event(producer, event, scope),
        names::ascii_consume_event(other_producer, other_event, scope)
            == names::ascii_consume_event(producer, event, scope),
{
    text::lemma_ascii_lowered_again(producer);
    text::lemma_ascii_lowered_again(event);
}

/// The name of a single event is not that of all events of any producer.
pub proof fn law_all_events_names_are_apart(
    name: Seq<char>,
    producer: Seq<char>,
    event: Seq<char>,
)
    requires
        names::is_single_event(name),
    ensures
        name != names::consume_event(producer, event, "all"@),
{
    names::lemma_all_events_name_is_no_single_event(text::lowercase(producer));
}

/// Nothing is delivered on the name of all events of a producer: no subscription
/// is ever made to one.
pub proof fn law_all_events_names_are_never_delivered<H>(
    client: ClientView<H>,
    producer: Seq<char>,
    event: Seq<char>,
    incoming: Incoming,
)
    requires
        client.well_formed(),
    ensures
        client.dispatched(names::consume_event(producer, event, "all"@), incoming) is None,
{
    names::lemma_all_events_name_is_no_single_event(text::lowercase(producer));
}

/// Every event for deliveries is told from the answers to an authentication.
pub proof fn law_consume_events_are_not_auth_events(
    producer: Seq<char>,
    event: Seq<char>,
    scope: Seq<char>,
)
    ensures
        names::is_consume_event(names::consume_event(producer, event, scope)),
        !client::is_auth_event(names::consume_event(producer, event, scope)),
{
    lemma_auth_events_are_not_consume_events();
}

proof fn lemma_auth_events_are_not_consume_events()
    ensures
        !names::is_consume_event("AUTH_OK"@),
        !names::is_consume_event("AUTH_FAIL"@),
{
    reveal_strlit("CONSUME-");
    reveal_strlit("AUTH_OK");
    reveal_strlit("AUTH_FAIL");
    assert("CONSUME-"@[0] == 'C');
    assert("AUTH_OK"@[0] == 'A');
    assert("AUTH_FAIL"@[0] == 'A');
}

/// No subscription takes the answers to an authentication away: none is ever
/// made to their events.
pub proof fn law_auth_events_are_never_delivered<H>(
    client: ClientView<H>,
    name: Seq<char>,
    incoming: Incoming,
)
    requires
        client.well_formed(),
        client::is_auth_event(name),
    ensures
        client.dispatched(name, incoming) is None,
{
    lemma_auth_events_are_not_consume_events();
}

/// A delivery after its handler has asked `asks` times for an acknowledgement.
pub open spec fn after_asks(pending: PendingAckView, asks: nat) -> PendingAckView
    decreases asks,
{
    if asks == 0 {
        pending
    } else {
        after_asks(pending, (asks - 1) as nat).after_ack()
    }
}

/// Nothing or one message, as a sequence.
pub open spec fn at_most_one(sent: Option<EmissionView>) -> Seq<EmissionView> {
    match sent {
        Some(e) => seq![e],
        None => Seq::empty(),
    }
}

/// What is sent while a handler asks `asks` times for an acknowledgement.
pub open spec fn sent_on_asks(pending: PendingAckView, asks: nat) -> Seq<EmissionView>
    decreases asks,
{
    if asks == 0 {
        Seq::empty()
    } else {
        let before = (asks - 1) as nat;
        sent_on_asks(pending, before) + at_most_one(after_asks(pending, before).on_ack())
    }
}

/// What is sent for a delivery in all: while its handler runs, and after.
pub open spec fn sent_in_all(pending: PendingAckView, asks: nat) -> Seq<EmissionView> {
    sent_on_asks(pending, asks) + at_most_one(after_asks(pending, asks).on_return())
}

proof fn lemma_asks(pending: PendingAckView, asks: nat)
    requires
        !pending.acked,
    ensures
        after_asks(pending, asks) == (PendingAckView {
            acked: asks > 0 && pending.msg_id is Some,
            ..pending
        }),
        sent_on_asks(pending, asks) == at_most_one(
            if asks > 0 {
                pending.on_ack()
            } else {
                None
            },
        ),
    decreases asks,
{
    if asks > 0 {
        lemma_asks(pending, (asks - 1) as nat);
        assert(sent_on_asks(pending, asks) =~= at_most_one(pending.on_ack()));
    }
}

/// A delivery with an identifier is acknowledged once, by that identifier, if its
/// handler asks for it, however often, or if it is acknowledged automatically.
/// No other delivery is acknowledged at all.
pub proof fn law_acknowledged_at_most_once(pending: PendingAckView, asks: nat)
    requires
        !pending.acked,
    ensures
        sent_in_all(pending, asks) == (match pending.msg_id {
            Some(id) => if asks > 0 || pending.auto_ack {
                seq![emission::acknowledgement(id)]
            } else {
                Seq::empty()
            },
            None => Seq::empty(),
        }),
{
    lemma_asks(pending, asks);
    assert(sent_in_all(pending, asks) =~= (match pending.msg_id {
        Some(id) => if asks > 0 || pending.auto_ack {
            seq![emission::acknowledgement(id)]
        } else {
            Seq::empty()
        },
        None => Seq::empty(),
    }));
}

/// A delivery with an identifier, for a subscription with `ack` and without
/// `manual_ack`, is acknowledged exactly once, whatever its handler does.
pub proof fn law_auto_ack<H>(
    client: ClientView<H>,
    req: SubscribeRequest,
    handler: H,
    incoming: Incoming,
    message: MessageView,
    id: Seq<char>,
    asks: nat,
)
    requires
        delivery::received(incoming) == Some(message),
        message.msg_id == Some(id),
        req.ack,
        !req.manual_ack,
    ensures
        client.subscribed(req, handler).dispatched(req.consume_event(), incoming) matches Some(d)
            && sent_in_all(d.pending, asks) == seq![emission::acknowledgement(id)],
{
    let delivered = client.subscribed(req, handler).dispatched(req.consume_event(), incoming);
    law_acknowledged_at_most_once(delivered->0.pending, asks);
}

/// A delivery with an identifier, for a subscription with `manual_ack` or without
/// `ack`, is acknowledged exactly if its handler asks for it.
pub proof fn law_manual_ack<H>(
    client: ClientView<H>,
    req: SubscribeRequest,
    handler: H,
    incoming: Incoming,
    message: MessageView,
    id: Seq<char>,
    asks: nat,
)
    requires
        delivery::received(incoming) == Some(message),
        message.msg_id == Some(id),
        req.manual_ack || !req.ack,
    ensures
        client.subscribed(req, handler).dispatched(req.consume_event(), incoming) matches Some(d)
            && sent_in_all(d.pending, asks) == (if asks > 0 {
            seq![emission::acknowledgement(id)]
        } else {
            Seq::empty()
        }),
{
    let delivered = client.subscribed(req, handler).dispatched(req.consume_event(), incoming);
    law_acknowledged_at_most_once(delivered->0.pending, asks);
}

/// The keys of published messages are told apart by their lengths and by their
/// first and fourth characters.
proof fn lemma_message_keys()
    ensures
        "event"@.len() == 5 && "event"@[0] == 'e',
        "message"@.len() == 7,
        "from"@.len() == 4,
        "method"@.len() == 6 && "method"@[3] == 'h',
        "broadcast"@.len() == 9,
        "group"@.len() == 5 && "group"@[0] == 'g',
        "msgId"@.len() == 5 && "msgId"@[0] == 'm',
        "msg_id"@.len() == 6 && "msg_id"@[3] == '_',
{
    reveal_strlit("event");
    reveal_strlit("message");
    reveal_strlit("from");
    reveal_strlit("method");
    reveal_strlit("broadcast");
    reveal_strlit("group");
    reveal_strlit("msgId");
    reveal_strlit("msg_id");
}

/// What is published is what a consumer is given: a message that reaches a
/// handler as it was sent has the content, the event and the sender of the call.
pub proof fn law_published_message_is_consumed(from: Seq<char>, event: Seq<char>, content: Json)
    ensures
        delivery::decoded(emission::production(from, event, content).payload) == Some(
            MessageView { event, message: content, from, msg_id: None },
        ),
{
    lemma_message_keys();
}

/// The same holds of a broadcast, of either kind.
pub proof fn law_broadcast_message_is_consumed(
    from: Seq<char>,
    event: Seq<char>,
    content: Json,
    kind: Seq<char>,
    group: Option<Seq<char>>,
)
    ensures
        delivery::decoded(emission::broadcasting(from, event, content, kind, group).payload)
            == Some(MessageView { event, message: content, from, msg_id: None }),
{
    lemma_message_keys();
}

/// An identifier that is added to a message, under either key, is the one that
/// the consumer is given; the rest of the message stays.
pub proof fn law_identified_message_is_consumed(fields: Members, id: Seq<char>)
    ensures
        delivery::message_of(fields.insert("msgId"@, Json::Text(id))) == (MessageView {
            msg_id: Some(id),
            ..delivery::message_of(fields)
        }),
        !fields.contains_key("msgId"@) ==> delivery::message_of(
            fields.insert("msg_id"@, Json::Text(id)),
        ) == (MessageView { msg_id: Some(id), ..delivery::message_of(fields) }),
{
    lemma_message_keys();
}

/// The value under a key, if there is one.
pub open spec fn value_at(fields: Members, key: Seq<char>) -> Option<Json> {
    if fields.contains_key(key) {
        Some(fields[key])
    } else {
        None
    }
}

/// A broadcast is sent as the message that is produced with the same arguments,
/// and with its own members besides: the method, the audience, and the group
/// exactly if there is one, whatever the kind.
pub proof fn law_broadcast_is_production_with_its_members(
    from: Seq<char>,
    event: Seq<char>,
    content: Json,
    kind: Seq<char>,
    group: Option<Seq<char>>,
)
    ensures
        ({
            let produced = emission::production(from, event, content);
            let sent = emission::broadcasting(from, event, content, kind, group);
            let q = produced.payload->Record_0;
            let p = sent.payload->Record_0;
            let own = set!["method"@, "broadcast"@, "group"@];
            &&& sent.event == produced.event
            &&& sent.payload is Record && produced.payload is Record
            &&& q.dom().disjoint(own)
            &&& p.remove_keys(own) == q
            &&& value_at(p, "method"@) == Some(Json::Text("broadcast"@))
            &&& value_at(p, "broadcast"@) == Some(
                Json::Text(
                    if kind == "group"@ {
                        "group"@
                    } else {
                        "realm"@
                    },
                ),
            )
            &&& value_at(p, "group"@) == (match group {
                Some(g) => Some(Json::Text(g)),
                None => None,
            })
        }),
{
    lemma_message_keys();
    let q = emission::production(from, event, content).payload->Record_0;
    let p = emission::broadcasting(from, event, content, kind, group).payload->Record_0;
    assert(p.remove_keys(set!["method"@, "broadcast"@, "group"@]) =~= q);
}

/// A broadcast goes to a group or to the realm, and to a group exactly if its
/// kind is "group".
pub proof fn law_broadcast_audience(
    from: Seq<char>,
    event: Seq<char>,
    content: Json,
    kind: Seq<char>,
    group: Option<Seq<char>>,
)
    ensures
        ({
            let fields = emission::broadcasting(
                from,
                event,
                content,
                kind,
                group,
            ).payload->Record_0;
            let audience = delivery::text_at(fields, "broadcast"@);
            &&& audience == Some("group"@) || audience == Some("realm"@)
            &&& audience == Some("group"@) <==> kind == "group"@
            &&& delivery::text_at(fields, "group"@) == group
        }),
{
    lemma_message_keys();
    reveal_strlit("realm");
    assert("realm"@[0] == 'r');
}

/// The keys of a subscription request are told apart by their lengths and their
/// first characters.
proof fn lemma_request_keys()
    ensures
        "event"@.len() == 5 && "event"@[0] == 'e',
        "producer"@.len() == 8 && "producer"@[0] == 'p',
        "consumer"@.len() == 8 && "consumer"@[0] == 'c',
        "scope"@.len() == 5 && "scope"@[0] == 's',
        "consumer_id"@.len() == 11 && "consumer_id"@[0] == 'c',
        "durable"@.len() == 7,
        "ack"@.len() == 3,
        "manual_ack"@.len() == 10,
        "ack_timeout"@.len() == 11 && "ack_timeout"@[0] == 'a',
        "retry"@.len() == 5 && "retry"@[0] == 'r',
        "mode"@.len() == 4,
        "group"@.len() == 5 && "group"@[0] == 'g',
{
    reveal_strlit("event");
    reveal_strlit("producer");
    reveal_strlit("consumer");
    reveal_strlit("scope");
    reveal_strlit("consumer_id");
    reveal_strlit("durable");
    reveal_strlit("ack");
    reveal_strlit("manual_ack");
    reveal_strlit("ack_timeout");
    reveal_strlit("retry");
    reveal_strlit("mode");
    reveal_strlit("group");
}

/// A subscription request always names its event, producer and consumer; each
/// feature has a member exactly if the request asks for it, with what it asks.
pub proof fn law_request_says_what_it_asks_for(req: SubscribeRequest)
    ensures
        ({
            let fields = request::request_fields(req);
            &&& value_at(fields, "event"@) == Some(Json::Text(req.event@))
            &&& value_at(fields, "producer"@) == Some(Json::Text(req.producer@))
            &&& value_at(fields, "consumer"@) == Some(Json::Text(req.consumer@))
            &&& value_at(fields, "scope"@) == Some(Json::Text("default"@))
            &&& value_at(fields, "consumer_id"@) == Some(Json::Text(req.consumer@))
            &&& value_at(fields, "durable"@) == request::flag_json(req.durable)
            &&& value_at(fields, "ack"@) == request::flag_json(req.ack)
            &&& value_at(fields, "manual_ack"@) == request::flag_json(req.manual_ack)
            &&& value_at(fields, "ack_timeout"@) == request::text_json(req.ack_timeout)
            &&& value_at(fields, "retry"@) == (match req.retry {
                Some(r) => Some(request::retry_json(r)),
                None => None,
            })
            &&& value_at(fields, "mode"@) == request::text_json(req.mode)
            &&& value_at(fields, "group"@) == request::text_json(req.group)
        }),
{
    lemma_request_keys();
}

/// A request for plain fire-and-forget delivery has the plain members only.
pub proof fn law_plain_request_is_plain(
    req: SubscribeRequest,
    producer: Seq<char>,
    event: Seq<char>,
    consumer: Seq<char>,
)
    requires
        request::is_plain(req, producer, event, consumer),
    ensures
        request::request_fields(req) == request::plain_fields(req),
        !req.auto_acked(),
{
}

/// Two requests that are sent alike ask for the same.
pub proof fn law_requests_are_told_apart(a: SubscribeRequest, b: SubscribeRequest)
    requires
        request::subscription(a) == request::subscription(b),
    ensures
        a.event@ == b.event@,
        a.producer@ == b.producer@,
        a.consumer@ == b.consumer@,
        a.durable == b.durable,
        a.ack == b.ack,
        a.manual_ack == b.manual_ack,
        request::text_json(a.ack_timeout) == request::text_json(b.ack_timeout),
        a.retry is Some <==> b.retry is Some,
        a.retry matches Some(r) ==> r.max_attempts == b.retry->0.max_attempts && r.delay@
            == b.retry->0.delay@ && r.backoff@ == b.retry->0.backoff@,
        request::text_json(a.mode) == request::text_json(b.mode),
        request::text_json(a.group) == request::text_json(b.group),
        a.consume_event() == b.consume_event(),
        a.auto_acked() == b.auto_acked(),
{
    law_request_says_what_it_asks_for(a);
    law_request_says_what_it_asks_for(b);
    if a.retry is Some {
        reveal_strlit("max_attempts");
        reveal_strlit("delay");
        reveal_strlit("backoff");
        assert("delay"@.len() == 5 && "backoff"@.len() == 7 && "max_attempts"@.len() == 12);
        let x = request::retry_json(a.retry->0)->Record_0;
        let y = request::retry_json(b.retry->0)->Record_0;
        assert(x["max_attempts"@] == y["max_attempts"@]);
        assert(x["delay"@] == y["delay"@]);
        assert(x["backoff"@] == y["backoff"@]);
    }
}

/// Once a handler is to acknowledge by itself, asking for acknowledgements again
/// does not make them automatic.
pub proof fn law_manual_ack_prevails(req: SubscribeRequest)
    ensures
        ({
            let manual = SubscribeRequest { ack: true, manual_ack: true, ..req };
            let again = SubscribeRequest { ack: true, ..manual };
            !manual.auto_acked() && again == manual
        }),
{
}

/// What can happen to a connection while it is being established.
pub enum Happening {
    /// The transport has done something.
    Progress(Progress),
    /// The transport has reported to be open.
    Opened,
    /// An event with this name has arrived.
    Event(Seq<char>),
}

/// A connection after something has happened.
pub open spec fn after<H>(client: ClientView<H>, happening: Happening) -> ClientView<H> {
    match happening {
        Happening::Progress(progress) => client.advanced(progress),
        Happening::Opened => ClientView { opened: true, ..client },
        Happening::Event(name) => client.noticed(name),
    }
}

/// A connection after a course of happenings.
pub open spec fn after_all<H>(client: ClientView<H>, course: Seq<Happening>) -> ClientView<H>
    decreases course.len(),
{
    if course.len() == 0 {
        client
    } else {
        after(after_all(client, course.drop_last()), course.last())
    }
}

/// Whether a wait is reported to have ended in time only when there was nothing
/// left to wait for.
pub open spec fn faithful<H>(client: ClientView<H>, course: Seq<Happening>) -> bool
    decreases course.len(),
{
    course.len() > 0 ==> {
        &&& faithful(client, course.drop_last())
        &&& course.last() == Happening::Progress(Progress::Waited { timed_out: false })
            ==> !after_all(client, course.drop_last()).is_waiting()
    }
}

/// What is behind the state of a connection that is being established; some of it
/// only if the course is faithful.
spec fn accounted_for<H>(client: ClientView<H>, course: Seq<Happening>, faithful: bool) -> bool {
    &&& client.opened ==> course.contains(Happening::Opened)
    &&& client.auth is Accepted ==> course.contains(Happening::Event("AUTH_OK"@))
    &&& client.auth is Rejected ==> course.contains(Happening::Event("AUTH_FAIL"@))
    &&& match client.stage {
        Stage::Dialing | Stage::Opening => true,
        Stage::Authenticating => {
            &&& client.token is Some
            &&& faithful ==> course.contains(Happening::Opened)
        },
        Stage::AwaitingReply => {
            &&& client.token is Some
            &&& course.contains(Happening::Progress(Progress::Sent))
            &&& faithful ==> course.contains(Happening::Opened)
        },
        Stage::Connected => {
            &&& client.token is Some ==> course.contains(Happening::Event("AUTH_OK"@))
                && course.contains(Happening::Progress(Progress::Sent))
            &&& faithful ==> course.contains(Happening::Opened)
        },
        Stage::Failed(ConnectError::AuthFailed) => {
            &&& client.token is Some
            &&& course.contains(Happening::Progress(Progress::Sent))
            &&& faithful ==> course.contains(Happening::Event("AUTH_FAIL"@))
        },
        Stage::Failed(error) => {
            &&& error is AuthTimedOut ==> client.token is Some && course.contains(
                Happening::Progress(Progress::Sent),
            )
            &&& course.contains(Happening::Progress(Progress::Waited { timed_out: true }))
        },
    }
}

proof fn lemma_course<H>(options: Options, course: Seq<Happening>)
    ensures
        ({
            let start = ClientView::<H>::starting(options);
            let client = after_all(start, course);
            &&& client.token == start.token
            &&& accounted_for(client, course, faithful(start, course))
        }),
    decreases course.len(),
{
    if course.len() > 0 {
        let before = course.drop_last();
        lemma_course::<H>(options, before);
        assert forall|h: Happening| before.contains(h) implies course.contains(h) by {
            let i = choose|i: int| 0 <= i < before.len() && before[i] == h;
            assert(course[i] == h);
        }
        assert(course.contains(course.last())) by {
            assert(course[course.len() - 1] == course.last());
        }
    }
}

/// However a connection is established, with a token it was sent, and the server
/// has accepted it; and the transport has opened, if waits are reported faithfully.
pub proof fn law_connected_only_when_accepted<H>(options: Options, course: Seq<Happening>)
    requires
        after_all(ClientView::<H>::starting(options), course).stage is Connected,
    ensures
        options.auth_token is Some ==> course.contains(Happening::Event("AUTH_OK"@)),
        options.auth_token is Some ==> course.contains(Happening::Progress(Progress::Sent)),
        faithful(ClientView::<H>::starting(options), course) ==> course.contains(
            Happening::Opened,
        ),
{
    lemma_course::<H>(options, course);
}

/// A connection is given up for a reason: a wait in vain, or a token that the
/// server has rejected, if waits are reported faithfully. Authentication is a
/// reason only with a token, which was sent.
pub proof fn law_failure_has_its_cause<H>(
    options: Options,
    course: Seq<Happening>,
    error: ConnectError,
)
    requires
        after_all(ClientView::<H>::starting(options), course).stage == Stage::Failed(error),
    ensures
        error is AuthFailed && faithful(ClientView::<H>::starting(options), course)
            ==> course.contains(Happening::Event("AUTH_FAIL"@)),
        error !is AuthFailed ==> course.contains(
            Happening::Progress(Progress::Waited { timed_out: true }),
        ),
        error !is OpenTimedOut ==> options.auth_token is Some && course.contains(
            Happening::Progress(Progress::Sent),
        ),
{
    lemma_course::<H>(options, course);
}

/// While a connection is established, nothing but its token is sent, only if it
/// has one, and only once the transport is open, if waits are reported faithfully.
pub proof fn law_token_is_sent_once_open<H>(options: Options, course: Seq<Happening>)
    requires
        after_all(ClientView::<H>::starting(options), course).action() is Send,
    ensures
        options.auth_token matches Some(t) && after_all(
            ClientView::<H>::starting(options),
            course,
        ).action() == ActionView::Send(emission::authentication(t@)),
        faithful(ClientView::<H>::starting(options), course) ==> course.contains(
            Happening::Opened,
        ),
{
    lemma_course::<H>(options, course);
}

/// Nothing that happens to a connection that is established, or that was given
/// up, changes its stage.
pub proof fn law_outcome_is_final<H>(client: ClientView<H>, course: Seq<Happening>)
    requires
        client.stage is Connected || client.stage is Failed,
    ensures
        after_all(client, course).stage == client.stage,
    decreases course.len(),
{
    if course.len() > 0 {
        law_outcome_is_final(client, course.drop_last());
    }
}

/// A course in which the transport does what it is asked to: it is set up, waits
/// for the opening, sends the token and waits for the server's answer.
pub open spec fn full_course(open_timed_out: bool, answer: Seq<char>, reply_timed_out: bool) -> Seq<
    Happening,
> {
    seq![
        Happening::Progress(Progress::Dialed),
        Happening::Progress(Progress::Waited { timed_out: open_timed_out }),
        Happening::Progress(Progress::Sent),
        Happening::Event(answer),
        Happening::Progress(Progress::Waited { timed_out: reply_timed_out }),
    ]
}

/// What establishing a connection leads to: it fails if the transport does not
/// open in time; without a token it succeeds otherwise; with one it fails if the
/// server does not answer in time, or does not accept the token.
pub proof fn law_connect_outcome<H>(
    options: Options,
    open_timed_out: bool,
    answer: Seq<char>,
    reply_timed_out: bool,
)
    ensures
        after_all(
            ClientView::<H>::starting(options),
            full_course(open_timed_out, answer, reply_timed_out),
        ).stage == (if open_timed_out {
            Stage::Failed(ConnectError::OpenTimedOut)
        } else if options.auth_token is None {
            Stage::Connected
        } else if reply_timed_out {
            Stage::Failed(ConnectError::AuthTimedOut)
        } else if answer == "AUTH_OK"@ {
            Stage::Connected
        } else {
            Stage::Failed(ConnectError::AuthFailed)
        }),
{
    let course = full_course(open_timed_out, answer, reply_timed_out);
    let c1 = course.drop_last();
    let c2 = c1.drop_last();
    let c3 = c2.drop_last();
    let c4 = c3.drop_last();
    assert(c4.drop_last().len() == 0);
    reveal_with_fuel(after_all, 6);
}

/// What is sent to authenticate carries the token itself, character by
/// character, and nothing else.
pub proof fn law_authentication_presents_the_token(token: Seq<char>)
    ensures
        emission::authentication(token).event == "AUTHENTICATION"@,
        emission::authentication(token).payload matches Json::Record(fields) && fields.dom()
            == set!["token"@] && fields["token"@] == Json::Text(token),
{
    assert(emission::authentication(token).payload->Record_0.dom() =~= set!["token"@]);
}

/// An acknowledgement carries the identifier itself, character by character, and
/// nothing else.
pub proof fn law_acknowledgement_names_the_delivery(id: Seq<char>)
    ensures
        emission::acknowledgement(id).event == "ACK"@,
        emission::acknowledgement(id).payload matches Json::Record(fields) && fields.dom()
            == set!["msgId"@] && fields["msgId"@] == Json::Text(id),
{
    assert(emission::acknowledgement(id).payload->Record_0.dom() =~= set!["msgId"@]);
}

/// A producer is announced by its name itself, and by nothing else.
pub proof fn law_producer_is_announced_by_name(name: Seq<char>)
    ensures
        emission::producer_registration(name).event == "PRODUCER"@,
        emission::producer_registration(name).payload matches Json::Record(fields) && fields.dom()
            == set!["name"@] && fields["name"@] == Json::Text(name),
{
    assert(emission::producer_registration(name).payload->Record_0.dom() =~= set!["name"@]);
}

/// A consumer is announced by its name itself, which is its identity too, and by
/// nothing else.
pub proof fn law_consumer_is_announced_by_name(name: Seq<char>)
    ensures
        emission::consumer_registration(name).event == "CONSUMER"@,
        emission::consumer_registration(name).payload matches Json::Record(fields) && fields.dom()
            == set!["name"@, "id"@, "consumer_id"@] && fields["name"@] == Json::Text(name)
            && fields["id"@] == Json::Text(name) && fields["consumer_id"@] == Json::Text(name),
{
    reveal_strlit("name");
    reveal_strlit("id");
    reveal_strlit("consumer_id");
    assert("name"@.len() == 4 && "id"@.len() == 2 && "consumer_id"@.len() == 11);
    assert(emission::consumer_registration(name).payload->Record_0.dom() =~= set![
        "name"@,
        "id"@,
        "consumer_id"@,
    ]);
}

/// Whatever is published, by whom and for which event, is sent on "PRODUCE", with
/// the event, the content and the sender that were given, and nothing else.
pub proof fn law_publication_is_sent_as_given(from: Seq<char>, event: Seq<char>, content: Json)
    ensures
        emission::production(from, event, content).event == "PRODUCE"@,
        emission::production(from, event, content).payload matches Json::Record(fields)
            && fields.dom() == set!["event"@, "message"@, "from"@] && fields["event"@]
            == Json::Text(event) && fields["message"@] == content && fields["from"@]
            == Json::Text(from),
{
    lemma_message_keys();
    assert(emission::production(from, event, content).payload->Record_0.dom() =~= set![
        "event"@,
        "message"@,
        "from"@,
    ]);
}

/// Whatever is broadcast, by whom, for which event and to whom, is sent on
/// "PRODUCE" as a broadcast of what was given, to a group exactly for the kind
/// "group", and with the group exactly as it was given, if one was.
pub proof fn law_broadcast_is_sent_as_given(
    from: Seq<char>,
    event: Seq<char>,
    content: Json,
    kind: Seq<char>,
    group: Option<Seq<char>>,
)
    ensures
        emission::broadcasting(from, event, content, kind, group).event == "PRODUCE"@,
        emission::broadcasting(from, event, content, kind, group).payload matches Json::Record(p)
            && {
            &&& p.contains_key("event"@) && p["event"@] == Json::Text(event)
            &&& p.contains_key("message"@) && p["message"@] == content
            &&& p.contains_key("from"@) && p["from"@] == Json::Text(from)
            &&& p.contains_key("method"@) && p["method"@] == Json::Text("broadcast"@)
            &&& p.contains_key("broadcast"@)
            &&& kind == "group"@ ==> p["broadcast"@] == Json::Text("group"@)
            &&& kind != "group"@ ==> p["broadcast"@] == Json::Text("realm"@)
            &&& p.contains_key("group"@) <==> group is Some
            &&& group matches Some(g) ==> p["group"@] == Json::Text(g)
            &&& forall|key: Seq<char>| #[trigger]
                p.contains_key(key) ==> key == "event"@ || key == "message"@ || key == "from"@
                    || key == "method"@ || key == "broadcast"@ || key == "group"@
        },
{
    lemma_message_keys();
}

/// Whatever a request asks for, it is sent on "SUBSCRIBE", as an object that has
/// the event, the producer and the consumer as they were given, a member for each
/// feature exactly if the request asks for it, with what it asks, and nothing
/// else.
pub proof fn law_subscription_is_sent_as_given(req: SubscribeRequest)
    ensures
        request::subscription(req).event == "SUBSCRIBE"@,
        request::subscription(req).payload matches Json::Record(p) && {
            &&& p.contains_key("event"@) && p["event"@] == Json::Text(req.event@)
            &&& p.contains_key("producer"@) && p["producer"@] == Json::Text(req.producer@)
            &&& p.contains_key("consumer"@) && p["consumer"@] == Json::Text(req.consumer@)
            &&& p.contains_key("consumer_id"@) && p["consumer_id"@] == Json::Text(req.consumer@)
            &&& p.contains_key("scope"@) && p["scope"@] == Json::Text("default"@)
            &&& p.contains_key("durable"@) <==> req.durable
            &&& req.durable ==> p["durable"@] == Json::Bool(true)
            &&& p.contains_key("ack"@) <==> req.ack
            &&& req.ack ==> p["ack"@] == Json::Bool(true)
            &&& p.contains_key("manual_ack"@) <==> req.manual_ack
            &&& req.manual_ack ==> p["manual_ack"@] == Json::Bool(true)
            &&& p.contains_key("ack_timeout"@) <==> req.ack_timeout is Some
            &&& req.ack_timeout matches Some(t) ==> p["ack_timeout"@] == Json::Text(t@)
            &&& p.contains_key("retry"@) <==> req.retry is Some
            &&& req.retry matches Some(r) ==> (p["retry"@] matches Json::Record(q) && q.dom()
                == set!["max_attempts"@, "delay"@, "backoff"@] && q["max_attempts"@]
                == Json::Unsigned(r.max_attempts as nat) && q["delay"@] == Json::Text(r.delay@)
                && q["backoff"@] == Json::Text(r.backoff@))
            &&& p.contains_key("mode"@) <==> req.mode is Some
            &&& req.mode matches Some(m) ==> p["mode"@] == Json::Text(m@)
            &&& p.contains_key("group"@) <==> req.group is Some
            &&& req.group matches Some(g) ==> p["group"@] == Json::Text(g@)
            &&& forall|key: Seq<char>| #[trigger]
                p.contains_key(key) ==> key == "event"@ || key == "producer"@ || key
                    == "consumer"@ || key == "consumer_id"@ || key == "scope"@ || key
                    == "durable"@ || key == "ack"@ || key == "manual_ack"@ || key
                    == "ack_timeout"@ || key == "retry"@ || key == "mode"@ || key == "group"@
        },
{
    lemma_request_keys();
    if req.retry is Some {
        reveal_strlit("max_attempts");
        reveal_strlit("delay");
        reveal_strlit("backoff");
        assert("delay"@.len() == 5 && "backoff"@.len() == 7 && "max_attempts"@.len() == 12);
        assert(request::retry_json(req.retry->0)->Record_0.dom() =~= set![
            "max_attempts"@,
            "delay"@,
            "backoff"@,
        ]);
    }
}

/// The handler of a subscription stands under the event of the producer and the
/// event that the server is told; it is acknowledged for automatically exactly
/// where the server is told to expect acknowledgements, and not that they are
/// manual.
pub proof fn law_registration_agrees_with_the_request<H>(
    client: ClientView<H>,
    req: SubscribeRequest,
    handler: H,
    producer: Seq<char>,
    event: Seq<char>,
)
    requires
        request::subscription(req).payload matches Json::Record(p) && p.contains_key("producer"@)
            && p["producer"@] == Json::Text(producer) && p.contains_key("event"@) && p["event"@]
            == Json::Text(event),
    ensures
        ({
            let p = request::subscription(req).payload->Record_0;
            let name = "CONSUME-"@ + text::lowercase(producer + "-"@ + event);
            let subscriptions = client.subscribed(req, handler).subscriptions;
            &&& subscriptions.contains_key(name)
            &&& subscriptions[name].handler == handler
            &&& subscriptions[name].auto_ack <==> p.contains_key("ack"@) && !p.contains_key(
                "manual_ack"@,
            )
            &&& forall|other: Seq<char>|
                other != name ==> (#[trigger] subscriptions.contains_key(other)
                    <==> client.subscriptions.contains_key(other))
            &&& forall|other: Seq<char>|
                other != name ==> #[trigger] subscriptions[other] == client.subscriptions[other]
        }),
{
    law_subscription_is_sent_as_given(req);
    reveal_strlit("");
    reveal_strlit("all");
    assert(""@.len() != "all"@.len());
}

/// The consume event of any producer and event is their lower case behind the
/// prefix; in scope "all", that of the producer between prefix and suffix.
pub proof fn law_consume_event_is_made_of_the_names(
    producer: Seq<char>,
    event: Seq<char>,
    scope: Seq<char>,
)
    ensures
        ({
            let name = names::consume_event(producer, event, scope);
            &&& name.take(8) == "CONSUME-"@
            &&& scope != "all"@ ==> name.skip(8) == text::lowercase(producer + "-"@ + event)
            &&& scope == "all"@ ==> name.skip(8) == text::lowercase(producer) + "-TM-ALL"@
        }),
{
    reveal_strlit("CONSUME-");
    let name = names::consume_event(producer, event, scope);
    assert(name.take(8) =~= "CONSUME-"@);
    if scope == "all"@ {
        assert(name.skip(8) =~= text::lowercase(producer) + "-TM-ALL"@);
    } else {
        assert(name.skip(8) =~= text::lowercase(producer + "-"@ + event));
    }
}

/// The same of names that are lowered already.
pub proof fn law_lowered_names_are_kept(lowered: Seq<char>)
    ensures
        names::lowered_event(lowered, false) == "CONSUME-"@ + lowered,
        names::lowered_event(lowered, true) == "CONSUME-"@ + lowered + "-TM-ALL"@,
{
}

/// The consume event of ASCII names has each of their characters at its place, a
/// capital as the small letter and any other as it is.
pub proof fn law_ascii_names_keep_their_characters(producer: Seq<char>, event: Seq<char>)
    ensures
        ({
            let single = names::ascii_consume_event(producer, event, ""@);
            let all = names::ascii_consume_event(producer, event, "all"@);
            &&& single.len() == 8 + producer.len() + 1 + event.len()
            &&& all.len() == 8 + producer.len() + 7
            &&& forall|i: int|
                #![trigger producer[i]]
                0 <= i < producer.len() ==> single[8 + i] == all[8 + i] && (if 'A' <= producer[i]
                    <= 'Z' {
                    single[8 + i] as u32 == producer[i] as u32 + 32
                } else {
                    single[8 + i] == producer[i]
                })
            &&& forall|i: int|
                #![trigger event[i]]
                0 <= i < event.len() ==> (if 'A' <= event[i] <= 'Z' {
                    single[9 + producer.len() + i] as u32 == event[i] as u32 + 32
                } else {
                    single[9 + producer.len() + i] == event[i]
                })
            &&& single[8 + producer.len() as int] == '-'
            &&& single.take(8) == "CONSUME-"@ && all.take(8) == "CONSUME-"@
            &&& all.skip(8 + producer.len() as int) == "-TM-ALL"@
        }),
{
    reveal_strlit("");
    reveal_strlit("all");
    reveal_strlit("CONSUME-");
    reveal_strlit("-");
    reveal_strlit("-TM-ALL");
    assert(""@.len() != "all"@.len());
    let single = names::ascii_consume_event(producer, event, ""@);
    let all = names::ascii_consume_event(producer, event, "all"@);
    assert(single.take(8) =~= "CONSUME-"@);
    assert(all.take(8) =~= "CONSUME-"@);
    assert(all.skip(8 + producer.len() as int) =~= "-TM-ALL"@);
    assert forall|i: int|
        #![trigger producer[i]]
        0 <= i < producer.len() implies single[8 + i] == all[8 + i] && (if 'A' <= producer[i]
        <= 'Z' {
        single[8 + i] as u32 == producer[i] as u32 + 32
    } else {
        single[8 + i] == producer[i]
    }) by {
        assert(single[8 + i] == text::ascii_lowered(producer)[i]);
        assert(all[8 + i] == text::ascii_lowered(producer)[i]);
    }
    assert forall|i: int|
        #![trigger event[i]]
        0 <= i < event.len() implies (if 'A' <= event[i] <= 'Z' {
        single[9 + producer.len() + i] as u32 == event[i] as u32 + 32
    } else {
        single[9 + producer.len() + i] == event[i]
    }) by {
        assert(single[9 + producer.len() + i] == text::ascii_lowered(event)[i]);
    }
}

/// What an object arrives as, as an argument of an event or as its text, is what
/// the handler gets: each string under its key, the empty string where there is
/// none, the content whatever it is, and the identifier under "msgId", or under
/// "msg_id" where there is no "msgId".
pub proof fn law_arrival_is_received_as_sent(incoming: Incoming, fields: Members)
    requires
        match incoming {
            Incoming::Values(values) => values@.len() > 0 && json::json(values@[0])
                == Json::Record(fields),
            Incoming::Text(text) => json::parsed(text@) == Some(Json::Record(fields)),
            Incoming::Binary => false,
        },
    ensures
        delivery::received(incoming) matches Some(m) && {
            &&& fields.contains_key("message"@) ==> m.message == fields["message"@]
            &&& !fields.contains_key("message"@) ==> m.message == Json::Null
            &&& if fields.contains_key("event"@) && fields["event"@] is Text {
                fields["event"@] == Json::Text(m.event)
            } else {
                m.event.len() == 0
            }
            &&& if fields.contains_key("from"@) && fields["from"@] is Text {
                fields["from"@] == Json::Text(m.from)
            } else {
                m.from.len() == 0
            }
            &&& fields.contains_key("msgId"@) ==> (m.msg_id is Some <==> fields["msgId"@] is Text)
                && (m.msg_id matches Some(id) ==> fields["msgId"@] == Json::Text(id))
            &&& !fields.contains_key("msgId"@) ==> (m.msg_id is Some <==> fields.contains_key(
                "msg_id"@,
            ) && fields["msg_id"@] is Text) && (m.msg_id matches Some(id) ==> fields["msg_id"@]
                == Json::Text(id))
        },
{
}

/// What arrives without an object delivers nothing: no argument, a first argument
/// or a text that is none, or bytes.
pub proof fn law_only_objects_are_received(incoming: Incoming)
    requires
        match incoming {
            Incoming::Values(values) => values@.len() > 0 ==> !(json::json(values@[0]) is Record),
            Incoming::Text(text) => !(json::parsed(text@) matches Some(Json::Record(_))),
            Incoming::Binary => true,
        },
    ensures
        delivery::received(incoming) is None,
{
}

/// A value is read alike as the first argument of an event and by itself.
pub proof fn law_first_argument_counts(incoming: Incoming, values: Vec<Value>)
    requires
        incoming == Incoming::Values(values),
        values@.len() > 0,
    ensures
        delivery::received(incoming) == delivery::decoded(json::json(values@[0])),
{
}

/// A text is read as the value that it denotes.
pub proof fn law_text_is_read_as_its_value(incoming: Incoming, text: String, value: Json)
    requires
        incoming == Incoming::Text(text),
        json::parsed(text@) == Some(value),
    ensures
        delivery::received(incoming) == delivery::decoded(value),
{
}

/// From the producer to the handler: when what was produced arrives, with an
/// identifier or without, the latest subscription to the event gets the event,
/// the content, the sender and the identifier as they were given.
pub proof fn law_produced_message_reaches_the_handler<H>(
    client: ClientView<H>,
    req: SubscribeRequest,
    handler: H,
    from: Seq<char>,
    event: Seq<char>,
    content: Json,
    msg_id: Option<Seq<char>>,
    incoming: Incoming,
)
    requires
        ({
            let produced = emission::production(from, event, content).payload->Record_0;
            let arriving = Json::Record(
                match msg_id {
                    Some(id) => produced.insert("msgId"@, Json::Text(id)),
                    None => produced,
                },
            );
            match incoming {
                Incoming::Values(values) => values@.len() > 0 && json::json(values@[0]) == arriving,
                Incoming::Text(text) => json::parsed(text@) == Some(arriving),
                Incoming::Binary => false,
            }
        }),
    ensures
        client.subscribed(req, handler).dispatched(
            "CONSUME-"@ + text::lowercase(req.producer@ + "-"@ + req.event@),
            incoming,
        ) matches Some(d) && {
            &&& d.handler == handler
            &&& d.message.event == event
            &&& d.message.message == content
            &&& d.message.from == from
            &&& d.message.msg_id == msg_id
            &&& d.pending.msg_id == msg_id
            &&& d.pending.auto_ack <==> req.ack && !req.manual_ack
            &&& !d.pending.acked
        },
{
    lemma_message_keys();
    reveal_strlit("");
    reveal_strlit("all");
    assert(""@.len() != "all"@.len());
}

/// The acknowledgement of a delivery carries the very identifier that the
/// delivery arrived with.
pub proof fn law_acknowledgement_returns_the_identifier<H>(
    client: ClientView<H>,
    name: Seq<char>,
    incoming: Incoming,
    fields: Members,
    asks: nat,
)
    requires
        client.subscriptions.contains_key(name),
        match incoming {
            Incoming::Values(values) => values@.len() > 0 && json::json(values@[0])
                == Json::Record(fields),
            Incoming::Text(text) => json::parsed(text@) == Some(Json::Record(fields)),
            Incoming::Binary => false,
        },
        fields.contains_key("msgId"@),
        fields["msgId"@] is Text,
    ensures
        client.dispatched(name, incoming) matches Some(d) && {
            let sent = sent_in_all(d.pending, asks);
            &&& sent.len() == (if asks > 0 || client.subscriptions[name].auto_ack {
                1int
            } else {
                0
            })
            &&& sent.len() > 0 ==> sent[0].event == "ACK"@ && (
            sent[0].payload matches Json::Record(p) && p.dom() == set!["msgId"@] && p["msgId"@]
                == fields["msgId"@])
        },
{
    let d = client.dispatched(name, incoming)->0;
    let id = fields["msgId"@]->Text_0;
    law_acknowledged_at_most_once(d.pending, asks);
    law_acknowledgement_names_the_delivery(id);
}

/// Each step of an acknowledgement: asking sends one exactly for a delivery with
/// an identifier that was not acknowledged yet, by that identifier, and from then
/// on it was; the return of the handler sends what asking would, if
/// acknowledgement is automatic, and else nothing.
pub proof fn law_acknowledgement_step(pending: PendingAckView)
    ensures
        pending.on_ack() is Some <==> pending.msg_id is Some && !pending.acked,
        pending.on_ack() matches Some(e) ==> e.event == "ACK"@ && (
        e.payload matches Json::Record(p) && p.dom() == set!["msgId"@] && p["msgId"@]
            == Json::Text(pending.msg_id->0)),
        pending.after_ack().msg_id == pending.msg_id,
        pending.after_ack().auto_ack == pending.auto_ack,
        pending.after_ack().acked <==> pending.acked || pending.msg_id is Some,
        pending.auto_ack ==> pending.on_return() == pending.on_ack(),
        !pending.auto_ack ==> pending.on_return() is None,
{
    if pending.msg_id is Some {
        law_acknowledgement_names_the_delivery(pending.msg_id->0);
    }
}

/// What is handed out is what is spoken of: an emission by its event and its
/// payload, a message by its four parts, a delivery by its three.
pub proof fn law_views_show_what_is_handed_out<'a, H>(
    sent: Emission,
    received: ConsumedMessage,
    delivered: Delivery<'a, H>,
)
    ensures
        sent@.event == sent.event@,
        sent@.payload == json::json(sent.payload),
        delivery::sends(Some(sent), Some(sent@)),
        forall|said: Option<EmissionView>|
            #![trigger delivery::sends(Some(sent), said)]
            delivery::sends(Some(sent), said) ==> said == Some(sent@),
        forall|said: Option<EmissionView>|
            #![trigger delivery::sends(None, said)]
            delivery::sends(None, said) <==> said is None,
        received@.event == received.event@,
        received@.message == json::json(received.message),
        received@.from == received.from@,
        received@.msg_id is Some <==> received.msg_id is Some,
        received.msg_id matches Some(id) ==> received@.msg_id == Some(id@),
        delivered@.handler == *delivered.handler,
        delivered@.message == delivered.message@,
        delivered@.pending == delivered.pending@,
{
}

/// The same of what the transport is to do.
pub proof fn law_actions_show_what_is_to_be_done(
    url: String,
    seconds: u64,
    sent: Emission,
    error: ConnectError,
)
    ensures
        Action::Dial(url)@ == ActionView::Dial(url@),
        (Action::Wait { seconds })@ == ActionView::Wait(seconds),
        Action::Send(sent)@ == ActionView::Send(sent@),
        Action::Proceed@ == ActionView::Proceed,
        Action::GiveUp(error)@ == ActionView::GiveUp(error),
{
}

/// A connection starts from the options as they were given: their address and
/// their token, if there is one, be it empty, and nothing has happened yet.
pub proof fn law_connection_starts_from_its_options<H>(options: Options)
    ensures
        ({
            let client = ClientView::<H>::starting(options);
            &&& client.url == options.protocol@ + "://"@ + options.host@ + ":"@ + text::decimal(
                options.port as nat,
            )
            &&& client.token is Some <==> options.auth_token is Some
            &&& options.auth_token matches Some(t) ==> client.token == Some(t@)
            &&& client.stage is Dialing
            &&& !client.opened
            &&& client.auth is Pending
            &&& client.subscriptions.dom().is_empty()
        }),
{
    assert(ClientView::<H>::starting(options).subscriptions.dom() =~= Set::empty());
}

/// What the transport is to do at each stage, and for what it waits: to dial the
/// address; for the opening; to send the token itself; for the answer.
pub proof fn law_each_stage_has_its_action<H>(client: ClientView<H>)
    ensures
        client.stage is Dialing ==> client.action() == ActionView::Dial(client.url)
            && !client.is_waiting(),
        client.stage is Opening ==> client.action() == ActionView::Wait(10) && (client.is_waiting()
            <==> !client.opened),
        client.stage is Authenticating ==> !client.is_waiting() && (
        client.action() matches ActionView::Send(e) && e.event == "AUTHENTICATION"@ && (
        e.payload matches Json::Record(p) && p.dom() == set!["token"@] && (
        client.token matches Some(t) ==> p["token"@] == Json::Text(t)))),
        client.stage is AwaitingReply ==> client.action() == ActionView::Wait(5) && (
        client.is_waiting() <==> client.auth is Pending),
        client.stage is Connected ==> client.action() is Proceed && !client.is_waiting(),
        client.stage matches Stage::Failed(error) ==> client.action() == ActionView::GiveUp(error)
            && !client.is_waiting(),
{
    if client.stage is Authenticating {
        law_authentication_presents_the_token(client.token->0);
    }
}

/// What leads from each stage to the next, whatever else is known of the
/// connection; and that nothing else does, nor changes anything besides.
pub proof fn law_each_stage_has_its_successor<H>(client: ClientView<H>, progress: Progress)
    ensures
        ({
            let next = client.advanced(progress);
            let in_time = progress == (Progress::Waited { timed_out: false });
            let in_vain = progress == (Progress::Waited { timed_out: true });
            &&& next.url == client.url
            &&& next.token == client.token
            &&& next.opened == client.opened
            &&& next.auth == client.auth
            &&& next.subscriptions == client.subscriptions
            &&& client.stage is Dialing ==> next.stage == (if progress is Dialed {
                Stage::Opening
            } else {
                Stage::Dialing
            })
            &&& client.stage is Opening && in_vain ==> next.stage == Stage::Failed(
                ConnectError::OpenTimedOut,
            )
            &&& client.stage is Opening && in_time && client.token is Some
                ==> next.stage is Authenticating
            &&& client.stage is Opening && in_time && client.token is None
                ==> next.stage is Connected
            &&& client.stage is Authenticating ==> next.stage == (if progress is Sent {
                Stage::AwaitingReply
            } else {
                Stage::Authenticating
            })
            &&& client.stage is AwaitingReply && in_vain ==> next.stage == Stage::Failed(
                ConnectError::AuthTimedOut,
            )
            &&& client.stage is AwaitingReply && in_time && client.auth is Accepted
                ==> next.stage is Connected
            &&& client.stage is AwaitingReply && in_time && !(client.auth is Accepted)
                ==> next.stage == Stage::Failed(ConnectError::AuthFailed)
            &&& (client.stage is Opening || client.stage is AwaitingReply) && !in_vain && !in_time
                ==> next.stage == client.stage
            &&& client.stage is Connected || client.stage is Failed ==> next.stage == client.stage
        }),
{
}

/// Exactly the events "AUTH_OK" and "AUTH_FAIL" are answers to an authentication,
/// the one accepting and the other rejecting; no event changes anything besides.
pub proof fn law_answers_are_noticed<H>(client: ClientView<H>, name: Seq<char>)
    ensures
        ({
            let next = client.noticed(name);
            &&& client::is_auth_event(name) <==> name == "AUTH_OK"@ || name == "AUTH_FAIL"@
            &&& name == "AUTH_OK"@ ==> next.auth is Accepted
            &&& name == "AUTH_FAIL"@ ==> next.auth is Rejected
            &&& name != "AUTH_OK"@ && name != "AUTH_FAIL"@ ==> next.auth == client.auth
            &&& next.url == client.url
            &&& next.token == client.token
            &&& next.stage == client.stage
            &&& next.opened == client.opened
            &&& next.subscriptions == client.subscriptions
        }),
{
    reveal_strlit("AUTH_OK");
    reveal_strlit("AUTH_FAIL");
    assert("AUTH_OK"@.len() != "AUTH_FAIL"@.len());
}

/// A subscription changes nothing of a connection but its subscriptions.
pub proof fn law_subscription_keeps_the_connection<H>(
    client: ClientView<H>,
    req: SubscribeRequest,
    handler: H,
)
    ensures
        ({
            let next = client.subscribed(req, handler);
            &&& next.url == client.url
            &&& next.token == client.token
            &&& next.stage == client.stage
            &&& next.opened == client.opened
            &&& next.auth == client.auth
        }),
{
}

/// An event makes a delivery exactly if it is subscribed to and carries a
/// message; the delivery has the handler and the acknowledgement of the
/// subscription, and the message as it was received.
pub proof fn law_delivery_is_made_for_the_subscription<H>(
    client: ClientView<H>,
    name: Seq<char>,
    incoming: Incoming,
)
    ensures
        client.dispatched(name, incoming) is Some <==> client.subscriptions.contains_key(name)
            && delivery::received(incoming) is Some,
        client.dispatched(name, incoming) matches Some(d) ==> {
            &&& d.handler == client.subscriptions[name].handler
            &&& delivery::received(incoming) == Some(d.message)
            &&& d.pending.msg_id == d.message.msg_id
            &&& d.pending.auto_ack == client.subscriptions[name].auto_ack
            &&& !d.pending.acked
        },
{
}

/// A token that was given is what the server is presented once the transport is
/// open, character by character, be it empty.
pub proof fn law_given_token_is_presented<H>(options: Options)
    requires
        options.auth_token is Some,
    ensures
        after_all(
            ClientView::<H>::starting(options),
            seq![
                Happening::Progress(Progress::Dialed),
                Happening::Opened,
                Happening::Progress(Progress::Waited { timed_out: false }),
            ],
        ).action() matches ActionView::Send(e) && e.event == "AUTHENTICATION"@ && (
        e.payload matches Json::Record(p) && p.dom() == set!["token"@] && p["token"@] == Json::Text(
            options.auth_token->0@,
        )),
{
    let course = seq![
        Happening::Progress(Progress::Dialed),
        Happening::Opened,
        Happening::Progress(Progress::Waited { timed_out: false }),
    ];
    assert(course.drop_last().drop_last().drop_last().len() == 0);
    reveal_with_fuel(after_all, 4);
    law_authentication_presents_the_token(options.auth_token->0@);
}

/// The number that a sequence of decimal digits denotes.
pub open spec fn number(digits: Seq<char>) -> int
    decreases digits.len(),
{
    if digits.len() == 0 {
        0
    } else {
        number(digits.drop_last()) * 10 + (digits.last() as u32 - '0' as u32)
    }
}

/// A number in decimal notation consists of digits, denotes the number, and has
/// no leading zero.
pub proof fn law_decimal_denotes_the_number(n: nat)
    ensures
        number(text::decimal(n)) == n,
        text::decimal(n).len() > 0,
        forall|i: int|
            0 <= i < text::decimal(n).len() ==> '0' <= #[trigger] text::decimal(n)[i] <= '9',
        text::decimal(n).len() > 1 ==> text::decimal(n)[0] != '0',
        n > 0 ==> text::decimal(n)[0] != '0',
    decreases n,
{
    if n < 10 {
        reveal_with_fuel(number, 2);
        assert(text::decimal(n).drop_last().len() == 0);
        assert(text::decimal(n).last() == text::digit(n));
    } else {
        law_decimal_denotes_the_number(n / 10);
        assert(text::decimal(n).drop_last() =~= text::decimal(n / 10));
        assert(text::decimal(n).last() == text::digit(n % 10));
    }
}

/// The address of a server has the protocol, the host and the port as they were
/// given, the port in decimal notation.
pub proof fn law_address_is_made_of_the_options(options: Options)
    ensures
        ({
            let url = options.spec_url();
            let host_at = options.protocol@.len() + 3;
            let port_at = host_at + options.host@.len() + 1;
            &&& url.len() > port_at
            &&& url.take(options.protocol@.len() as int) == options.protocol@
            &&& url.subrange(options.protocol@.len() as int, host_at as int) == "://"@
            &&& url.subrange(host_at as int, port_at - 1) == options.host@
            &&& url[port_at - 1] == ':'
            &&& number(url.skip(port_at as int)) == options.port
            &&& forall|i: int| port_at <= i < url.len() ==> '0' <= #[trigger] url[i] <= '9'
            &&& options.port > 0 ==> url[port_at as int] != '0'
            &&& options.port == 0 ==> url.len() == port_at + 1
        }),
{
    reveal_strlit("://");
    reveal_strlit(":");
    law_decimal_denotes_the_number(options.port as nat);
    let url = options.spec_url();
    let host_at = (options.protocol@.len() + 3) as int;
    let port_at = (host_at + options.host@.len() + 1) as int;
    let port = text::decimal(options.port as nat);
    assert(url.take(options.protocol@.len() as int) =~= options.protocol@);
    assert(url.subrange(options.protocol@.len() as int, host_at) =~= "://"@);
    assert(url.subrange(host_at, port_at - 1) =~= options.host@);
    assert(url.skip(port_at) =~= port);
    assert forall|i: int| port_at <= i < url.len() implies '0' <= #[trigger] url[i] <= '9' by {
        assert(url[i] == port[i - port_at]);
    }
    assert(url[port_at] == port[0]);
}

/// A plain request has the names that it was made with, and asks for nothing
/// else; default options have no token.
pub proof fn law_plain_means_as_given(
    req: SubscribeRequest,
    producer: Seq<char>,
    event: Seq<char>,
    consumer: Seq<char>,
    options: Options,
)
    ensures
        request::is_plain(req, producer, event, consumer) <==> req.producer@ == producer
            && req.event@ == event && req.consumer@ == consumer && !req.durable && !req.ack
            && !req.manual_ack && req.ack_timeout is None && req.retry is None && req.mode is None
            && req.group is None,
        options::is_default(options) <==> options.host@ == "localhost"@ && options.port == 17352
            && options.protocol@ == "http"@ && options.auth_token is None,
{
}

} // verus!
