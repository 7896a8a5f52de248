//! The state of one connection, and what each call on it sends.

use crate::delivery;
use crate::delivery::{ConsumedMessage, Incoming, MessageView, PendingAck, PendingAckView};
use crate::emission;
use crate::emission::{Emission, EmissionView};
use crate::json;
use crate::json::Json;
use crate::names;
use crate::options::Options;
use crate::request;
use crate::request::SubscribeRequest;
use crate::text;
use serde_json::Value;
use vstd::hash_map::StringHashMap;
use vstd::prelude::*;

verus! {

/// How long to wait for the connection to open.
pub const OPEN_TIMEOUT_SECS: u64 = 10;

/// How long to wait for the answer to an authentication.
pub const AUTH_TIMEOUT_SECS: u64 = 5;

/// What the server has answered to an authentication.
#[derive(Debug, Clone, Copy, PartialEq, Eq, Structural)]
pub enum AuthState {
    Pending,
    Accepted,
    Rejected,
}

/// Why a connection was not established.
#[derive(Debug, Clone, Copy, PartialEq, Eq, Structural)]
pub enum ConnectError {
    OpenTimedOut,
    AuthTimedOut,
    AuthFailed,
}

impl ConnectError {
    /// The error in words.
    pub open spec fn spec_message(self) -> Seq<char> {
        match self {
            ConnectError::OpenTimedOut => "timed out waiting for the connection to open"@,
            ConnectError::AuthTimedOut => "authentication timed out"@,
            ConnectError::AuthFailed => "authentication failed"@,
        }
    }

    /// The error in words.
    pub fn message(&self) -> (res: String)
        ensures
            res@ == self.spec_message(),
            self is OpenTimedOut ==> res@ == "timed out waiting for the connection to open"@,
            self is AuthTimedOut ==> res@ == "authentication timed out"@,
            self is AuthFailed ==> res@ == "authentication failed"@,
    {
        match self {
            ConnectError::OpenTimedOut => "timed out waiting for the connection to open".to_owned(),
            ConnectError::AuthTimedOut => "authentication timed out".to_owned(),
            ConnectError::AuthFailed => "authentication failed".to_owned(),
        }
    }
}

/// How far a connection has come.
#[derive(Debug, Clone, Copy, PartialEq, Eq, Structural)]
pub enum Stage {
    /// The transport is to be set up.
    Dialing,
    /// The transport is set up, but has yet to open.
    Opening,
    /// The token is to be sent.
    Authenticating,
    /// The token was sent; the server has yet to answer.
    AwaitingReply,
    Connected,
    Failed(ConnectError),
}

/// What the transport has done.
#[derive(Debug, Clone, Copy, PartialEq, Eq, Structural)]
pub enum Progress {
    /// It was set up.
    Dialed,
    /// It sent what it was given.
    Sent,
    /// It waited until [`Client::is_waiting`] ceased, or in vain.
    Waited { timed_out: bool },
}

/// What the transport is to do next.
#[derive(Debug)]
pub enum Action {
    /// Set up a connection to this address, to be re-established when lost.
    Dial(String),
    /// Wait, at most for this time, until [`Client::is_waiting`] ceases.
    Wait { seconds: u64 },
    Send(Emission),
    /// Nothing: the connection is established.
    Proceed,
    /// Nothing: there is no connection.
    GiveUp(ConnectError),
}

/// What an [`Action`] asks for.
pub enum ActionView {
    Dial(Seq<char>),
    Wait(u64),
    Send(EmissionView),
    Proceed,
    GiveUp(ConnectError),
}

impl View for Action {
    type V = ActionView;

    open spec fn view(&self) -> ActionView {
        match self {
            Action::Dial(url) => ActionView::Dial(url@),
            Action::Wait { seconds } => ActionView::Wait(*seconds),
            Action::Send(emission) => ActionView::Send(emission@),
            Action::Proceed => ActionView::Proceed,
            Action::GiveUp(error) => ActionView::GiveUp(*error),
        }
    }
}

/// The handler of a subscription, and whether its deliveries are acknowledged
/// without its doing.
#[derive(Debug)]
pub struct Subscription<H> {
    pub handler: H,
    pub auto_ack: bool,
}

/// A message for a handler, and the acknowledgement that is owed for it.
#[derive(Debug)]
pub struct Delivery<'a, H> {
    pub handler: &'a H,
    pub message: ConsumedMessage,
    pub pending: PendingAck,
}

/// What a [`Delivery`] consists of.
pub struct DeliveryView<H> {
    pub handler: H,
    pub message: MessageView,
    pub pending: PendingAckView,
}

impl<'a, H> View for Delivery<'a, H> {
    type V = DeliveryView<H>;

    open spec fn view(&self) -> DeliveryView<H> {
        DeliveryView {
            handler: *self.handler,
            message: self.message@,
            pending: self.pending@,
        }
    }
}

/// A tyo-mq connection. One `Client` can act as a producer, a consumer, or
/// both; create one per logical service identity.
///
/// `H` is the type of the handlers that subscriptions come with.
#[verifier::reject_recursive_types(H)]
pub struct Client<H> {
    url: String,
    token: Option<String>,
    stage: Stage,
    opened: bool,
    auth: AuthState,
    registry: StringHashMap<Subscription<H>>,
}

/// What a [`Client`] knows.
#[verifier::reject_recursive_types(H)]
pub struct ClientView<H> {
    pub url: Seq<char>,
    pub token: Option<Seq<char>>,
    pub stage: Stage,
    /// Whether the transport has reported to be open.
    pub opened: bool,
    /// The latest answer to an authentication.
    pub auth: AuthState,
    /// The subscriptions, by the event on which their deliveries arrive.
    pub subscriptions: Map<Seq<char>, Subscription<H>>,
}

impl<H> View for Client<H> {
    type V = ClientView<H>;

    closed spec fn view(&self) -> ClientView<H> {
        ClientView {
            url: self.url@,
            token: match self.token {
                Some(t) => Some(t@),
                None => None,
            },
            stage: self.stage,
            opened: self.opened,
            auth: self.auth,
            subscriptions: self.registry@,
        }
    }
}

impl<H> ClientView<H> {
    /// A connection that is to be established.
    pub open spec fn starting(options: Options) -> ClientView<H> {
        ClientView {
            url: options.spec_url(),
            token: match options.auth_token {
                Some(t) => Some(t@),
                None => None,
            },
            stage: Stage::Dialing,
            opened: false,
            auth: AuthState::Pending,
            subscriptions: Map::empty(),
        }
    }

    /// A token is sent only where there is one, and deliveries arrive only on
    /// events that a request can be made for.
    pub open spec fn well_formed(self) -> bool {
        &&& self.stage is Authenticating ==> self.token is Some
        &&& forall|name: Seq<char>| #[trigger]
            self.subscriptions.contains_key(name) ==> names::is_single_event(name)
    }

    /// What the transport is to do next.
    pub open spec fn action(self) -> ActionView {
        match self.stage {
            Stage::Dialing => ActionView::Dial(self.url),
            Stage::Opening => ActionView::Wait(OPEN_TIMEOUT_SECS),
            Stage::Authenticating => ActionView::Send(emission::authentication(self.token->0)),
            Stage::AwaitingReply => ActionView::Wait(AUTH_TIMEOUT_SECS),
            Stage::Connected => ActionView::Proceed,
            Stage::Failed(error) => ActionView::GiveUp(error),
        }
    }

    /// Whether there is something to wait for: the opening of the transport, or
    /// the answer to an authentication.
    pub open spec fn is_waiting(self) -> bool {
        match self.stage {
            Stage::Opening => !self.opened,
            Stage::AwaitingReply => self.auth is Pending,
            _ => false,
        }
    }

    /// The stage after the transport has done something. What does not belong
    /// to a stage does not change it.
    pub open spec fn next_stage(self, progress: Progress) -> Stage {
        match (self.stage, progress) {
            (Stage::Dialing, Progress::Dialed) => Stage::Opening,
            (Stage::Opening, Progress::Waited { timed_out }) => if timed_out {
                Stage::Failed(ConnectError::OpenTimedOut)
            } else if self.token is Some {
                Stage::Authenticating
            } else {
                Stage::Connected
            },
            (Stage::Authenticating, Progress::Sent) => Stage::AwaitingReply,
            (Stage::AwaitingReply, Progress::Waited { timed_out }) => if timed_out {
                Stage::Failed(ConnectError::AuthTimedOut)
            } else if self.auth is Accepted {
                Stage::Connected
            } else {
                Stage::Failed(ConnectError::AuthFailed)
            },
            _ => self.stage,
        }
    }

    /// After the transport has done something.
    pub open spec fn advanced(self, progress: Progress) -> ClientView<H> {
        ClientView { stage: self.next_stage(progress), ..self }
    }

    /// After an event with this name: those of an authentication are answers to
    /// it.
    pub open spec fn noticed(self, name: Seq<char>) -> ClientView<H> {
        if name == "AUTH_OK"@ {
            ClientView { auth: AuthState::Accepted, ..self }
        } else if name == "AUTH_FAIL"@ {
            ClientView { auth: AuthState::Rejected, ..self }
        } else {
            self
        }
    }

    /// After a subscription with a handler.
    pub open spec fn subscribed(self, req: SubscribeRequest, handler: H) -> ClientView<H> {
        ClientView {
            subscriptions: self.subscriptions.insert(
                req.consume_event(),
                Subscription { handler, auto_ack: req.auto_acked() },
            ),
            ..self
        }
    }

    /// The delivery that an event makes: none where nothing is subscribed to it,
    /// or where it carries no message.
    pub open spec fn dispatched(self, name: Seq<char>, incoming: Incoming) -> Option<
        DeliveryView<H>,
    > {
        match delivery::received(incoming) {
            Some(message) => if self.subscriptions.contains_key(name) {
                let subscription = self.subscriptions[name];
                Some(
                    DeliveryView {
                        handler: subscription.handler,
                        message,
                        pending: PendingAckView {
                            msg_id: message.msg_id,
                            auto_ack: subscription.auto_ack,
                            acked: false,
                        },
                    },
                )
            } else {
                None
            },
            None => None,
        }
    }
}

/// Whether an event with this name answers an authentication.
pub open spec fn is_auth_event(name: Seq<char>) -> bool {
    name == "AUTH_OK"@ || name == "AUTH_FAIL"@
}

impl<H> Client<H> {
    /// A connection that is to be established: [`Client::action`] says how.
    pub fn connect(options: Options) -> (res: Self)
        ensures
            res@ == ClientView::<H>::starting(options),
            res@.well_formed(),
    {
        let url = options.url();
        let res = Client {
            url,
            token: options.auth_token,
            stage: Stage::Dialing,
            opened: false,
            auth: AuthState::Pending,
            registry: StringHashMap::new(),
        };
        res
    }

    /// What the transport is to do next.
    pub fn action(&self) -> (res: Action)
        requires
            self@.well_formed(),
        ensures
            res@ == self@.action(),
    {
        match self.stage {
            Stage::Dialing => Action::Dial(self.url.clone()),
            Stage::Opening => Action::Wait { seconds: OPEN_TIMEOUT_SECS },
            Stage::Authenticating => match &self.token {
                Some(token) => Action::Send(emission::authenticate(token.as_str())),
                None => Action::Proceed,
            },
            Stage::AwaitingReply => Action::Wait { seconds: AUTH_TIMEOUT_SECS },
            Stage::Connected => Action::Proceed,
            Stage::Failed(error) => Action::GiveUp(error),
        }
    }

    /// Whether there is something to wait for: the opening of the transport, or
    /// the answer to an authentication.
    pub fn is_waiting(&self) -> (res: bool)
        ensures
            res == self@.is_waiting(),
    {
        match self.stage {
            Stage::Opening => !self.opened,
            Stage::AwaitingReply => match self.auth {
                AuthState::Pending => true,
                _ => false,
            },
            _ => false,
        }
    }

    /// Takes note of what the transport has done.
    pub fn advance(&mut self, progress: Progress)
        ensures
            final(self)@ == old(self)@.advanced(progress),
            old(self)@.well_formed() ==> final(self)@.well_formed(),
    {
        self.stage = match (self.stage, progress) {
            (Stage::Dialing, Progress::Dialed) => Stage::Opening,
            (Stage::Opening, Progress::Waited { timed_out }) => if timed_out {
                Stage::Failed(ConnectError::OpenTimedOut)
            } else if self.token.is_some() {
                Stage::Authenticating
            } else {
                Stage::Connected
            },
            (Stage::Authenticating, Progress::Sent) => Stage::AwaitingReply,
            (Stage::AwaitingReply, Progress::Waited { timed_out }) => if timed_out {
                Stage::Failed(ConnectError::AuthTimedOut)
            } else {
                match self.auth {
                    AuthState::Accepted => Stage::Connected,
                    _ => Stage::Failed(ConnectError::AuthFailed),
                }
            },
            _ => self.stage,
        };
    }

    /// Takes note that the transport is open.
    pub fn open(&mut self)
        ensures
            final(self)@ == (ClientView { opened: true, ..old(self)@ }),
            old(self)@.well_formed() ==> final(self)@.well_formed(),
    {
        self.opened = true;
    }

    /// Takes note of an event, and says whether it was an answer to an
    /// authentication. Any other is for [`Client::dispatch`].
    pub fn notice(&mut self, name: &str) -> (res: bool)
        ensures
            res == is_auth_event(name@),
            final(self)@ == old(self)@.noticed(name@),
            old(self)@.well_formed() ==> final(self)@.well_formed(),
    {
        if text::same(name, "AUTH_OK") {
            self.auth = AuthState::Accepted;
            true
        } else if text::same(name, "AUTH_FAIL") {
            self.auth = AuthState::Rejected;
            true
        } else {
            false
        }
    }

    /// Announces this connection as a producer.
    pub fn register_producer(&self, name: &str) -> (res: Emission)
        ensures
            res@ == emission::producer_registration(name@),
            res.event@ == "PRODUCER"@,
            json::json(res.payload) == Json::Record(map!["name"@ => Json::Text(name@)]),
    {
        let mut fields = json::no_members();
        json::put(&mut fields, "name", json::text(name));
        emission::emission("PRODUCER", fields)
    }

    /// Announces this connection as a consumer. The name doubles as the
    /// durable consumer identity: reconnect with the same name to replay
    /// queued messages of a durable subscription.
    pub fn register_consumer(&self, name: &str) -> (res: Emission)
        ensures
            res@ == emission::consumer_registration(name@),
            res.event@ == "CONSUMER"@,
            json::json(res.payload) == Json::Record(
                map![
                    "name"@ => Json::Text(name@),
                    "id"@ => Json::Text(name@),
                    "consumer_id"@ => Json::Text(name@),
                ],
            ),
    {
        let mut fields = json::no_members();
        json::put(&mut fields, "name", json::text(name));
        json::put(&mut fields, "id", json::text(name));
        json::put(&mut fields, "consumer_id", json::text(name));
        emission::emission("CONSUMER", fields)
    }

    /// Publishes one fire-and-forget message.
    pub fn produce(&self, from: &str, event: &str, message: Value) -> (res: Emission)
        ensures
            res.event@ == "PRODUCE"@,
            json::json(res.payload) == Json::Record(
                map![
                    "event"@ => Json::Text(event@),
                    "message"@ => json::json(message),
                    "from"@ => Json::Text(from@),
                ],
            ),
            res@ == emission::production(from@, event@, json::json(message)),
    {
        let mut fields = json::no_members();
        json::put(&mut fields, "event", json::text(event));
        json::put(&mut fields, "message", message);
        json::put(&mut fields, "from", json::text(from));
        emission::emission("PRODUCE", fields)
    }

    /// Broadcasts one copy to every realm member (`kind` = "realm") or every
    /// member of a consumer group (`kind` = "group").
    pub fn broadcast(
        &self,
        from: &str,
        event: &str,
        message: Value,
        kind: &str,
        group: Option<&str>,
    ) -> (res: Emission)
        ensures
            res.event@ == "PRODUCE"@,
            res@ == emission::broadcasting(
                from@,
                event@,
                json::json(message),
                kind@,
                match group {
                    Some(g) => Some(g@),
                    None => None,
                },
            ),
    {
        let mut fields = json::no_members();
        json::put(&mut fields, "event", json::text(event));
        json::put(&mut fields, "message", message);
        json::put(&mut fields, "from", json::text(from));
        json::put(&mut fields, "method", json::text("broadcast"));
        let audience = if text::same(kind, "group") {
            "group"
        } else {
            "realm"
        };
        json::put(&mut fields, "broadcast", json::text(audience));
        if let Some(g) = group {
            json::put(&mut fields, "group", json::text(g));
        }
        emission::emission("PRODUCE", fields)
    }

    /// Acknowledges one ACK-enabled delivery.
    pub fn ack(&self, msg_id: &str) -> (res: Emission)
        ensures
            res@ == emission::acknowledgement(msg_id@),
            res.event@ == "ACK"@,
            json::json(res.payload) == Json::Record(map!["msgId"@ => Json::Text(msg_id@)]),
    {
        emission::acknowledge(msg_id)
    }

    /// Sends a SUBSCRIBE request and has [`Client::dispatch`] hand matching
    /// deliveries to `handler`. With `req.ack` and not `req.manual_ack`,
    /// deliveries are acknowledged automatically after the handler returns.
    pub fn subscribe(&mut self, req: SubscribeRequest, handler: H) -> (res: Emission)
        ensures
            res@ == request::subscription(req),
            res.event@ == "SUBSCRIBE"@,
            final(self)@ == old(self)@.subscribed(req, handler),
            old(self)@.well_formed() ==> final(self)@.well_formed(),
    {
        proof {
            reveal_strlit("");
            reveal_strlit("all");
            assert(""@.len() != "all"@.len());
        }
        let res = req.emission();
        let name = names::consume_event_name(req.producer.as_str(), req.event.as_str(), "");
        let subscription = Subscription { handler, auto_ack: req.ack && !req.manual_ack };
        self.registry.insert(name, subscription);
        res
    }

    /// The delivery that an event makes: `None` where nothing is subscribed to
    /// it, or where it carries no message.
    pub fn dispatch(&self, name: &str, incoming: &Incoming) -> (res: Option<Delivery<'_, H>>)
        ensures
            match res {
                Some(d) => self@.dispatched(name@, *incoming) == Some(d@),
                None => self@.dispatched(name@, *incoming) is None,
            },
    {
        let subscription = match self.registry.get(name) {
            Some(subscription) => subscription,
            None => return None,
        };
        let message = match delivery::receive(incoming) {
            Some(message) => message,
            None => return None,
        };
        let pending = PendingAck::new(message.msg_id.clone(), subscription.auto_ack);
        Some(Delivery { handler: &subscription.handler, message, pending })
    }
}

} // verus!
