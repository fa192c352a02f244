//! A thin adaptation layer over an asynchronous MQTT client, exposing a
//! simplified publish/subscribe interface for the v3.x and v5.0 protocol
//! versions.
//!
//! Quality of service (QoS) at this boundary is a plain integer:
//! - `0`: at most once (the message is sent once and may be lost),
//! - `1`: at least once (the message may be duplicated),
//! - `2`: exactly once.
//!
//! A retained message is kept by the broker on its topic and handed to
//! every later subscriber of that topic; a topic keeps at most one.

pub mod client;
pub mod error;
pub mod options;
pub mod qos;
pub mod request;

use vstd::prelude::*;
use crate::error::MqttError;

verus! {

/// A simplified client interface.
///
/// The full underlying client is reachable through `get_client`.
///
/// Each operation enqueues a request onto the bounded channel that the
/// underlying event loop drains; when that queue is full the operation
/// fails at once rather than blocking. The caller drives the event loop
/// that comes with the client at construction time.
pub trait Client {
    /// The full underlying client type.
    type Client;

    /// Sends a message to a topic without the retain flag.
    ///
    /// A quality-of-service level outside `{0, 1, 2}` is rejected with an
    /// invalid-QoS error carrying it, and nothing is enqueued; otherwise
    /// the request either is enqueued or fails at once.
    fn publish(&self, topic: &str, qos: u8, payload: Vec<u8>) -> (r: Result<(), MqttError>)
        ensures
            qos > 2 ==> r == Err::<(), MqttError>(MqttError::InvalidQos(qos)),
            qos <= 2 ==> (r is Ok || r == Err::<(), MqttError>(MqttError::RequestFailed)),
    ;

    /// Sends a message to a topic with the retain flag set, so the broker
    /// keeps it for later subscribers. Otherwise exactly as `publish`.
    fn publish_retain(&self, topic: &str, qos: u8, payload: Vec<u8>) -> (r: Result<(), MqttError>)
        ensures
            qos > 2 ==> r == Err::<(), MqttError>(MqttError::InvalidQos(qos)),
            qos <= 2 ==> (r is Ok || r == Err::<(), MqttError>(MqttError::RequestFailed)),
    ;

    /// Requests a subscription to a topic.
    ///
    /// The quality-of-service level is checked exactly as in `publish`.
    fn subscribe(&self, topic: &str, qos: u8) -> (r: Result<(), MqttError>)
        ensures
            qos > 2 ==> r == Err::<(), MqttError>(MqttError::InvalidQos(qos)),
            qos <= 2 ==> (r is Ok || r == Err::<(), MqttError>(MqttError::RequestFailed)),
    ;

    /// Requests the end of a subscription to a topic.
    fn unsubscribe(&self, topic: &str) -> (r: Result<(), MqttError>)
        ensures
            r is Ok || r == Err::<(), MqttError>(MqttError::RequestFailed),
    ;

    /// The full underlying client, for operations the simplified
    /// interface does not cover.
    fn get_client(&self) -> &Self::Client;
}

} // verus!
