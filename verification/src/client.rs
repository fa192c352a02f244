//! The two client wrappers, one per protocol version.
//!
//! Each wrapper holds a handle to the underlying asynchronous client and
//! adapts the simplified interface onto it. The connection options are
//! built as plain data in [`crate::options`] and carried over to the
//! underlying library setting by setting; each operation is a
//! non-blocking enqueue onto the bounded request queue that the event
//! loop, returned beside the client at construction time, drains.

use vstd::prelude::*;
use crate::Client;
use crate::error::MqttError;
use crate::options::{
    v3_standard_model, v3_with_credentials_model, v5_standard_model, v5_with_credentials_model,
    V3Options, V3OptionsModel, V5Options, V5OptionsModel,
};
use crate::qos::{qos_from_u8, wire_qos_v3, wire_qos_v5};
use crate::request::PublishRequest;

verus! {

/// Capacity of the bounded queue between a client and its event loop:
/// once this many requests wait unprocessed, further operations fail at
/// once instead of blocking.
pub const QUEUE_CAPACITY: usize = 30;

/// Declares the underlying library's v3.x options type; its values are
/// opaque here and only carried through.
#[verifier::external_type_specification]
#[verifier::external_body]
pub struct ExV3MqttOptions(rumqttc::MqttOptions);

/// Declares the underlying library's v3.x client handle, opaque here.
#[verifier::external_type_specification]
#[verifier::external_body]
pub struct ExV3AsyncClient(rumqttc::AsyncClient);

/// Declares the underlying library's v3.x event loop, opaque here; the
/// caller drives it.
#[verifier::external_type_specification]
#[verifier::external_body]
pub struct ExV3EventLoop(rumqttc::EventLoop);

/// Declares the underlying library's v3.x request error, opaque here; it
/// is mapped to [`MqttError::RequestFailed`] in verified code.
#[verifier::external_type_specification]
#[verifier::external_body]
pub struct ExV3ClientError(rumqttc::ClientError);

/// Declares the underlying library's v5.0 options type, opaque here.
#[verifier::external_type_specification]
#[verifier::external_body]
pub struct ExV5MqttOptions(rumqttc::v5::MqttOptions);

/// Declares the underlying library's v5.0 client handle, opaque here.
#[verifier::external_type_specification]
#[verifier::external_body]
pub struct ExV5AsyncClient(rumqttc::v5::AsyncClient);

/// Declares the underlying library's v5.0 event loop, opaque here; the
/// caller drives it.
#[verifier::external_type_specification]
#[verifier::external_body]
pub struct ExV5EventLoop(rumqttc::v5::EventLoop);

/// Declares the underlying library's v5.0 request error, opaque here; it
/// is mapped to [`MqttError::RequestFailed`] in verified code.
#[verifier::external_type_specification]
#[verifier::external_body]
pub struct ExV5ClientError(rumqttc::v5::ClientError);

/// Relies on rumqttc::MqttOptions::new: builds v3.x options for the given
/// identifier, host and port, every other setting at its default.
#[verifier::external_body]
fn v3_options_raw(id: &str, host: &str, port: u16) -> rumqttc::MqttOptions {
    rumqttc::MqttOptions::new(id, host, port)
}

/// Relies on rumqttc::MqttOptions::set_keep_alive, which panics only on a
/// duration strictly between zero and one second; a whole number of
/// seconds never is.
#[verifier::external_body]
fn v3_set_keep_alive(raw: &mut rumqttc::MqttOptions, secs: u64) {
    raw.set_keep_alive(std::time::Duration::from_secs(secs));
}

/// Relies on rumqttc::MqttOptions::set_clean_session, which panics only
/// when the flag is cleared while the client identifier is empty.
#[verifier::external_body]
fn v3_set_clean_session(raw: &mut rumqttc::MqttOptions, clean: bool)
    requires
        clean,
{
    raw.set_clean_session(clean);
}

/// Relies on rumqttc::MqttOptions::set_max_packet_size: sets the byte
/// limits for incoming and outgoing packets.
#[verifier::external_body]
fn v3_set_max_packet_size(raw: &mut rumqttc::MqttOptions, incoming: usize, outgoing: usize) {
    raw.set_max_packet_size(incoming, outgoing);
}

/// Relies on rumqttc::MqttOptions::set_credentials: attaches the username
/// and password.
#[verifier::external_body]
fn v3_set_credentials(raw: &mut rumqttc::MqttOptions, username: &str, password: &str) {
    raw.set_credentials(username, password);
}

/// Relies on rumqttc::AsyncClient::new: consumes the options and returns
/// the client beside the event loop that drains its bounded request
/// queue of the given capacity.
#[verifier::external_body]
fn v3_client_new(raw: rumqttc::MqttOptions, cap: usize) -> (rumqttc::AsyncClient, rumqttc::EventLoop) {
    rumqttc::AsyncClient::new(raw, cap)
}

/// Relies on rumqttc::AsyncClient::try_publish: attempts a non-blocking
/// enqueue of a publish packet with exactly the given topic, delivery
/// level, retain flag and payload; an invalid topic or a refused enqueue
/// is reported as the error.
#[verifier::external_body]
fn v3_try_publish(
    client: &rumqttc::AsyncClient,
    topic: &str,
    qos: rumqttc::mqttbytes::QoS,
    retain: bool,
    payload: Vec<u8>,
) -> Result<(), rumqttc::ClientError> {
    client.try_publish(topic, qos, retain, payload)
}

/// Relies on rumqttc::AsyncClient::try_subscribe: attempts a non-blocking
/// enqueue of a subscription request for the topic at the given delivery
/// level; an invalid filter or a refused enqueue is reported as the
/// error.
#[verifier::external_body]
fn v3_try_subscribe(
    client: &rumqttc::AsyncClient,
    topic: &str,
    qos: rumqttc::mqttbytes::QoS,
) -> Result<(), rumqttc::ClientError> {
    client.try_subscribe(topic, qos)
}

/// Relies on rumqttc::AsyncClient::try_unsubscribe: attempts a
/// non-blocking enqueue of an unsubscription request for the topic; a
/// refused enqueue is reported as the error.
#[verifier::external_body]
fn v3_try_unsubscribe(
    client: &rumqttc::AsyncClient,
    topic: &str,
) -> Result<(), rumqttc::ClientError> {
    client.try_unsubscribe(topic)
}

/// Relies on rumqttc::v5::MqttOptions::new: builds v5.0 options for the
/// given identifier, host and port, every other setting at its default.
#[verifier::external_body]
fn v5_options_raw(id: &str, host: &str, port: u16) -> rumqttc::v5::MqttOptions {
    rumqttc::v5::MqttOptions::new(id, host, port)
}

/// Relies on rumqttc::v5::MqttOptions::set_keep_alive, which panics on a
/// duration under five seconds.
#[verifier::external_body]
fn v5_set_keep_alive(raw: &mut rumqttc::v5::MqttOptions, secs: u64)
    requires
        secs >= 5,
{
    raw.set_keep_alive(std::time::Duration::from_secs(secs));
}

/// Relies on rumqttc::v5::MqttOptions::set_clean_start: sets the flag.
#[verifier::external_body]
fn v5_set_clean_start(raw: &mut rumqttc::v5::MqttOptions, clean: bool) {
    raw.set_clean_start(clean);
}

/// Relies on rumqttc::v5::MqttOptions::set_connection_timeout: sets the
/// timeout, in seconds.
#[verifier::external_body]
fn v5_set_connection_timeout(raw: &mut rumqttc::v5::MqttOptions, secs: u64) {
    raw.set_connection_timeout(secs);
}

/// Relies on rumqttc::v5::MqttOptions::set_max_packet_size: sets the byte
/// limit in the version-5 optional form, on the connect properties.
#[verifier::external_body]
fn v5_set_max_packet_size(raw: &mut rumqttc::v5::MqttOptions, max: Option<u32>) {
    raw.set_max_packet_size(max);
}

/// Relies on rumqttc::v5::MqttOptions::set_credentials: attaches the
/// username and password.
#[verifier::external_body]
fn v5_set_credentials(raw: &mut rumqttc::v5::MqttOptions, username: &str, password: &str) {
    raw.set_credentials(username, password);
}

/// Relies on rumqttc::v5::AsyncClient::new: consumes the options and
/// returns the client beside the event loop that drains its bounded
/// request queue of the given capacity.
#[verifier::external_body]
fn v5_client_new(
    raw: rumqttc::v5::MqttOptions,
    cap: usize,
) -> (rumqttc::v5::AsyncClient, rumqttc::v5::EventLoop) {
    rumqttc::v5::AsyncClient::new(raw, cap)
}

/// Relies on rumqttc::v5::AsyncClient::try_publish: attempts a
/// non-blocking enqueue of a publish packet with exactly the given topic,
/// delivery level, retain flag and payload; an invalid topic or a refused
/// enqueue is reported as the error.
#[verifier::external_body]
fn v5_try_publish(
    client: &rumqttc::v5::AsyncClient,
    topic: &str,
    qos: rumqttc::v5::mqttbytes::QoS,
    retain: bool,
    payload: Vec<u8>,
) -> Result<(), rumqttc::v5::ClientError> {
    client.try_publish(topic, qos, retain, payload)
}

/// Relies on rumqttc::v5::AsyncClient::try_subscribe: attempts a
/// non-blocking enqueue of a subscription request for the topic at the
/// given delivery level; an invalid filter or a refused enqueue is
/// reported as the error.
#[verifier::external_body]
fn v5_try_subscribe(
    client: &rumqttc::v5::AsyncClient,
    topic: &str,
    qos: rumqttc::v5::mqttbytes::QoS,
) -> Result<(), rumqttc::v5::ClientError> {
    client.try_subscribe(topic, qos)
}

/// Relies on rumqttc::v5::AsyncClient::try_unsubscribe: attempts a
/// non-blocking enqueue of an unsubscription request for the topic; a
/// refused enqueue is reported as the error.
#[verifier::external_body]
fn v5_try_unsubscribe(
    client: &rumqttc::v5::AsyncClient,
    topic: &str,
) -> Result<(), rumqttc::v5::ClientError> {
    client.try_unsubscribe(topic)
}

/// Carries a v3.x options value over to the underlying library, setting
/// by setting.
fn realize_v3(options: &V3Options) -> rumqttc::MqttOptions
    requires
        options.clean_session,
{
    let mut raw = v3_options_raw(options.id.as_str(), options.host.as_str(), options.port);
    v3_set_keep_alive(&mut raw, options.keep_alive_secs);
    v3_set_clean_session(&mut raw, options.clean_session);
    v3_set_max_packet_size(
        &mut raw,
        options.max_incoming_packet_size,
        options.max_outgoing_packet_size,
    );
    match &options.credentials {
        Some(c) => {
            v3_set_credentials(&mut raw, c.username.as_str(), c.password.as_str());
        },
        None => {},
    }
    raw
}

/// Carries a v5.0 options value over to the underlying library, setting
/// by setting.
fn realize_v5(options: &V5Options) -> rumqttc::v5::MqttOptions
    requires
        options.keep_alive_secs >= 5,
{
    let mut raw = v5_options_raw(options.id.as_str(), options.host.as_str(), options.port);
    v5_set_keep_alive(&mut raw, options.keep_alive_secs);
    v5_set_clean_start(&mut raw, options.clean_start);
    v5_set_connection_timeout(&mut raw, options.connection_timeout_secs);
    v5_set_max_packet_size(&mut raw, options.max_packet_size);
    match &options.credentials {
        Some(c) => {
            v5_set_credentials(&mut raw, c.username.as_str(), c.password.as_str());
        },
        None => {},
    }
    raw
}

/// Hands a fully determined publish request to a v3.x client as a
/// non-blocking enqueue.
fn send_publish_v3(client: &rumqttc::AsyncClient, request: PublishRequest) -> (r: Result<
    (),
    MqttError,
>)
    ensures
        r is Ok || r == Err::<(), MqttError>(MqttError::RequestFailed),
{
    let PublishRequest { topic, qos, retain, payload } = request;
    let wire = wire_qos_v3(qos);
    match v3_try_publish(client, topic.as_str(), wire, retain, payload) {
        Ok(()) => Ok(()),
        Err(_) => Err(MqttError::RequestFailed),
    }
}

/// Hands a fully determined publish request to a v5.0 client as a
/// non-blocking enqueue.
fn send_publish_v5(client: &rumqttc::v5::AsyncClient, request: PublishRequest) -> (r: Result<
    (),
    MqttError,
>)
    ensures
        r is Ok || r == Err::<(), MqttError>(MqttError::RequestFailed),
{
    let PublishRequest { topic, qos, retain, payload } = request;
    let wire = wire_qos_v5(qos);
    match v5_try_publish(client, topic.as_str(), wire, retain, payload) {
        Ok(()) => Ok(()),
        Err(_) => Err(MqttError::RequestFailed),
    }
}

/// The default v3.x client.
pub struct DefaultClient {
    client: rumqttc::AsyncClient,
    options: Ghost<V3OptionsModel>,
}

impl DefaultClient {
    /// The connection options this client was created from.
    pub closed spec fn options_model(self) -> V3OptionsModel {
        self.options@
    }

    /// Creates a v3.x client for the given identifier and address, with
    /// the standard options and no credentials, beside the event loop
    /// that the caller must drive.
    pub fn new(id: &str, host: &str, port: u16) -> (r: (DefaultClient, rumqttc::EventLoop))
        ensures
            r.0.options_model() == v3_standard_model(id@, host@, port),
    {
        let options = V3Options::standard(id, host, port);
        let raw = realize_v3(&options);
        let (client, event_loop) = v3_client_new(raw, QUEUE_CAPACITY);
        (DefaultClient { client, options: Ghost(options@) }, event_loop)
    }

    /// Creates a v3.x client as `new` does, with exactly the given
    /// username and password attached to the options.
    pub fn new_username_password(
        id: &str,
        host: &str,
        port: u16,
        user_name: &str,
        pass_word: &str,
    ) -> (r: (DefaultClient, rumqttc::EventLoop))
        ensures
            r.0.options_model() == v3_with_credentials_model(
                v3_standard_model(id@, host@, port),
                user_name@,
                pass_word@,
            ),
    {
        let options = V3Options::standard(id, host, port).with_credentials(user_name, pass_word);
        let raw = realize_v3(&options);
        let (client, event_loop) = v3_client_new(raw, QUEUE_CAPACITY);
        (DefaultClient { client, options: Ghost(options@) }, event_loop)
    }
}

impl Client for DefaultClient {
    type Client = rumqttc::AsyncClient;

    fn publish(&self, topic: &str, qos: u8, payload: Vec<u8>) -> (r: Result<(), MqttError>) {
        let level = match qos_from_u8(qos) {
            Ok(level) => level,
            Err(e) => {
                return Err(e);
            },
        };
        send_publish_v3(&self.client, PublishRequest::plain(topic, level, payload))
    }

    fn publish_retain(&self, topic: &str, qos: u8, payload: Vec<u8>) -> (r: Result<
        (),
        MqttError,
    >) {
        let level = match qos_from_u8(qos) {
            Ok(level) => level,
            Err(e) => {
                return Err(e);
            },
        };
        send_publish_v3(&self.client, PublishRequest::retained(topic, level, payload))
    }

    fn subscribe(&self, topic: &str, qos: u8) -> (r: Result<(), MqttError>) {
        let level = match qos_from_u8(qos) {
            Ok(level) => level,
            Err(e) => {
                return Err(e);
            },
        };
        match v3_try_subscribe(&self.client, topic, wire_qos_v3(level)) {
            Ok(()) => Ok(()),
            Err(_) => Err(MqttError::RequestFailed),
        }
    }

    fn unsubscribe(&self, topic: &str) -> (r: Result<(), MqttError>) {
        match v3_try_unsubscribe(&self.client, topic) {
            Ok(()) => Ok(()),
            Err(_) => Err(MqttError::RequestFailed),
        }
    }

    fn get_client(&self) -> &Self::Client {
        &self.client
    }
}

/// The default v5.0 client.
pub struct DefaultV5Client {
    client: rumqttc::v5::AsyncClient,
    options: Ghost<V5OptionsModel>,
}

impl DefaultV5Client {
    /// The connection options this client was created from.
    pub closed spec fn options_model(self) -> V5OptionsModel {
        self.options@
    }

    /// Creates a v5.0 client for the given identifier and address, with
    /// the standard options and no credentials, beside the event loop
    /// that the caller must drive.
    pub fn new(id: &str, host: &str, port: u16) -> (r: (DefaultV5Client, rumqttc::v5::EventLoop))
        ensures
            r.0.options_model() == v5_standard_model(id@, host@, port),
    {
        let options = V5Options::standard(id, host, port);
        let raw = realize_v5(&options);
        let (client, event_loop) = v5_client_new(raw, QUEUE_CAPACITY);
        (DefaultV5Client { client, options: Ghost(options@) }, event_loop)
    }

    /// Creates a v5.0 client as `new` does, with exactly the given
    /// username and password attached to the options.
    pub fn new_username_password(
        id: &str,
        host: &str,
        port: u16,
        user_name: &str,
        pass_word: &str,
    ) -> (r: (DefaultV5Client, rumqttc::v5::EventLoop))
        ensures
            r.0.options_model() == v5_with_credentials_model(
                v5_standard_model(id@, host@, port),
                user_name@,
                pass_word@,
            ),
    {
        let options = V5Options::standard(id, host, port).with_credentials(user_name, pass_word);
        let raw = realize_v5(&options);
        let (client, event_loop) = v5_client_new(raw, QUEUE_CAPACITY);
        (DefaultV5Client { client, options: Ghost(options@) }, event_loop)
    }
}

impl Client for DefaultV5Client {
    type Client = rumqttc::v5::AsyncClient;

    fn publish(&self, topic: &str, qos: u8, payload: Vec<u8>) -> (r: Result<(), MqttError>) {
        let level = match qos_from_u8(qos) {
            Ok(level) => level,
            Err(e) => {
                return Err(e);
            },
        };
        send_publish_v5(&self.client, PublishRequest::plain(topic, level, payload))
    }

    fn publish_retain(&self, topic: &str, qos: u8, payload: Vec<u8>) -> (r: Result<
        (),
        MqttError,
    >) {
        let level = match qos_from_u8(qos) {
            Ok(level) => level,
            Err(e) => {
                return Err(e);
            },
        };
        send_publish_v5(&self.client, PublishRequest::retained(topic, level, payload))
    }

    fn subscribe(&self, topic: &str, qos: u8) -> (r: Result<(), MqttError>) {
        let level = match qos_from_u8(qos) {
            Ok(level) => level,
            Err(e) => {
                return Err(e);
            },
        };
        match v5_try_subscribe(&self.client, topic, wire_qos_v5(level)) {
            Ok(()) => Ok(()),
            Err(_) => Err(MqttError::RequestFailed),
        }
    }

    fn unsubscribe(&self, topic: &str) -> (r: Result<(), MqttError>) {
        match v5_try_unsubscribe(&self.client, topic) {
            Ok(()) => Ok(()),
            Err(_) => Err(MqttError::RequestFailed),
        }
    }

    fn get_client(&self) -> &Self::Client {
        &self.client
    }
}

} // verus!
