//! The protocol core of a client for tyo-mq, the distributed pub/sub messaging
//! service: which event is sent with which JSON payload, how a connection is
//! brought up and authenticated, which subscription a delivery belongs to, what
//! its handler is given, and when the delivery is acknowledged.
//!
//! Nothing here touches a socket. [`client::Client`] says what to send and takes
//! what arrived; the crate around it owns the transport.

pub mod client;
pub mod delivery;
pub mod emission;
pub mod json;
pub mod laws;
pub mod names;
pub mod options;
pub mod request;
pub mod text;

pub use client::{Action, AuthState, Client, ConnectError, Delivery, Progress, Stage, Subscription};
pub use delivery::{ConsumedMessage, Incoming, PendingAck};
pub use emission::Emission;
pub use names::{consume_event_name, ALL_PRODUCERS, DEFAULT_PORT};
pub use options::Options;
pub use request::{RetryPolicy, SubscribeRequest};
