//! Connection options for the two protocol versions.
//!
//! Each options value is built here as plain data with an exact contract,
//! then handed to the underlying client at construction time. The fixed
//! settings are: keep-alive of 15 seconds, a clean session (v3.x) or clean
//! start (v5.0), a maximum packet size of 1 MiB, and, for v5.0 only, a
//! connection timeout of 30 seconds.

use vstd::prelude::*;

verus! {

/// Keep-alive interval, in seconds, for both protocol versions.
pub const KEEP_ALIVE_SECS: u64 = 15;

/// Maximum packet size, in bytes: 1 MiB.
pub const MAX_PACKET_SIZE: u32 = 1048576;

/// Connection timeout, in seconds, for the v5.0 options only.
pub const CONNECTION_TIMEOUT_SECS: u64 = 30;

/// A username/password pair to authenticate with the broker.
pub struct Credentials {
    /// The username sent to the broker.
    pub username: String,
    /// The password sent to the broker.
    pub password: String,
}

/// The mathematical content of a `Credentials` value.
pub ghost struct CredentialsModel {
    /// The username sent to the broker.
    pub username: Seq<char>,
    /// The password sent to the broker.
    pub password: Seq<char>,
}

impl View for Credentials {
    type V = CredentialsModel;

    open spec fn view(&self) -> CredentialsModel {
        CredentialsModel { username: self.username@, password: self.password@ }
    }
}

/// Connection options for a v3.x client.
pub struct V3Options {
    /// The client identifier.
    pub id: String,
    /// The broker's domain name or address.
    pub host: String,
    /// The broker's port.
    pub port: u16,
    /// Seconds of silence after which the client pings the broker.
    pub keep_alive_secs: u64,
    /// Whether the broker discards the session state on connect.
    pub clean_session: bool,
    /// Size limit, in bytes, for incoming packets.
    pub max_incoming_packet_size: usize,
    /// Size limit, in bytes, for outgoing packets.
    pub max_outgoing_packet_size: usize,
    /// The credentials sent to the broker, if any.
    pub credentials: Option<Credentials>,
}

/// The mathematical content of a `V3Options` value.
pub ghost struct V3OptionsModel {
    /// The client identifier.
    pub id: Seq<char>,
    /// The broker's domain name or address.
    pub host: Seq<char>,
    /// The broker's port.
    pub port: u16,
    /// Seconds of silence after which the client pings the broker.
    pub keep_alive_secs: u64,
    /// Whether the broker discards the session state on connect.
    pub clean_session: bool,
    /// Size limit, in bytes, for incoming packets.
    pub max_incoming_packet_size: usize,
    /// Size limit, in bytes, for outgoing packets.
    pub max_outgoing_packet_size: usize,
    /// The credentials sent to the broker, if any.
    pub credentials: Option<CredentialsModel>,
}

impl View for V3Options {
    type V = V3OptionsModel;

    open spec fn view(&self) -> V3OptionsModel {
        V3OptionsModel {
            id: self.id@,
            host: self.host@,
            port: self.port,
            keep_alive_secs: self.keep_alive_secs,
            clean_session: self.clean_session,
            max_incoming_packet_size: self.max_incoming_packet_size,
            max_outgoing_packet_size: self.max_outgoing_packet_size,
            credentials: match self.credentials {
                Some(c) => Some(c@),
                None => None,
            },
        }
    }
}

/// The v3.x options for the given identifier and address: the fixed
/// settings, and no credentials.
pub open spec fn v3_standard_model(id: Seq<char>, host: Seq<char>, port: u16) -> V3OptionsModel {
    V3OptionsModel {
        id: id,
        host: host,
        port: port,
        keep_alive_secs: KEEP_ALIVE_SECS,
        clean_session: true,
        max_incoming_packet_size: MAX_PACKET_SIZE as usize,
        max_outgoing_packet_size: MAX_PACKET_SIZE as usize,
        credentials: None,
    }
}

/// The same options with exactly the given credentials attached.
pub open spec fn v3_with_credentials_model(
    m: V3OptionsModel,
    username: Seq<char>,
    password: Seq<char>,
) -> V3OptionsModel {
    V3OptionsModel {
        credentials: Some(CredentialsModel { username: username, password: password }),
        ..m
    }
}

impl V3Options {
    /// Builds the v3.x options for the given identifier and address:
    /// keep-alive of 15 seconds, a clean session, a packet size limit of
    /// 1 MiB in both directions, and no credentials.
    pub fn standard(id: &str, host: &str, port: u16) -> (r: V3Options)
        ensures
            r@ == v3_standard_model(id@, host@, port),
    {
        V3Options {
            id: id.to_string(),
            host: host.to_string(),
            port: port,
            keep_alive_secs: KEEP_ALIVE_SECS,
            clean_session: true,
            max_incoming_packet_size: MAX_PACKET_SIZE as usize,
            max_outgoing_packet_size: MAX_PACKET_SIZE as usize,
            credentials: None,
        }
    }

    /// Attaches exactly the given username and password, leaving every
    /// other setting as it was.
    pub fn with_credentials(self, username: &str, password: &str) -> (r: V3Options)
        ensures
            r@ == v3_with_credentials_model(self@, username@, password@),
    {
        V3Options {
            credentials: Some(
                Credentials { username: username.to_string(), password: password.to_string() },
            ),
            ..self
        }
    }
}

/// Connection options for a v5.0 client.
pub struct V5Options {
    /// The client identifier.
    pub id: String,
    /// The broker's domain name or address.
    pub host: String,
    /// The broker's port.
    pub port: u16,
    /// Seconds of silence after which the client pings the broker.
    pub keep_alive_secs: u64,
    /// Whether the broker discards the session state on connect.
    pub clean_start: bool,
    /// Seconds allowed for establishing the connection.
    pub connection_timeout_secs: u64,
    /// Size limit, in bytes, in the version-5 optional form.
    pub max_packet_size: Option<u32>,
    /// The credentials sent to the broker, if any.
    pub credentials: Option<Credentials>,
}

/// The mathematical content of a `V5Options` value.
pub ghost struct V5OptionsModel {
    /// The client identifier.
    pub id: Seq<char>,
    /// The broker's domain name or address.
    pub host: Seq<char>,
    /// The broker's port.
    pub port: u16,
    /// Seconds of silence after which the client pings the broker.
    pub keep_alive_secs: u64,
    /// Whether the broker discards the session state on connect.
    pub clean_start: bool,
    /// Seconds allowed for establishing the connection.
    pub connection_timeout_secs: u64,
    /// Size limit, in bytes, in the version-5 optional form.
    pub max_packet_size: Option<u32>,
    /// The credentials sent to the broker, if any.
    pub credentials: Option<CredentialsModel>,
}

impl View for V5Options {
    type V = V5OptionsModel;

    open spec fn view(&self) -> V5OptionsModel {
        V5OptionsModel {
            id: self.id@,
            host: self.host@,
            port: self.port,
            keep_alive_secs: self.keep_alive_secs,
            clean_start: self.clean_start,
            connection_timeout_secs: self.connection_timeout_secs,
            max_packet_size: self.max_packet_size,
            credentials: match self.credentials {
                Some(c) => Some(c@),
                None => None,
            },
        }
    }
}

/// The v5.0 options for the given identifier and address: the fixed
/// settings, and no credentials.
pub open spec fn v5_standard_model(id: Seq<char>, host: Seq<char>, port: u16) -> V5OptionsModel {
    V5OptionsModel {
        id: id,
        host: host,
        port: port,
        keep_alive_secs: KEEP_ALIVE_SECS,
        clean_start: true,
        connection_timeout_secs: CONNECTION_TIMEOUT_SECS,
        max_packet_size: Some(MAX_PACKET_SIZE as u32),
        credentials: None,
    }
}

/// The same options with exactly the given credentials attached.
pub open spec fn v5_with_credentials_model(
    m: V5OptionsModel,
    username: Seq<char>,
    password: Seq<char>,
) -> V5OptionsModel {
    V5OptionsModel {
        credentials: Some(CredentialsModel { username: username, password: password }),
        ..m
    }
}

impl V5Options {
    /// Builds the v5.0 options for the given identifier and address:
    /// keep-alive of 15 seconds, a clean start, a connection timeout of
    /// 30 seconds, a packet size limit of 1 MiB in the version-5 optional
    /// form, and no credentials.
    pub fn standard(id: &str, host: &str, port: u16) -> (r: V5Options)
        ensures
            r@ == v5_standard_model(id@, host@, port),
    {
        V5Options {
            id: id.to_string(),
            host: host.to_string(),
            port: port,
            keep_alive_secs: KEEP_ALIVE_SECS,
            clean_start: true,
            connection_timeout_secs: CONNECTION_TIMEOUT_SECS,
            max_packet_size: Some(MAX_PACKET_SIZE),
            credentials: None,
        }
    }

    /// Attaches exactly the given username and password, leaving every
    /// other setting as it was.
    pub fn with_credentials(self, username: &str, password: &str) -> (r: V5Options)
        ensures
            r@ == v5_with_credentials_model(self@, username@, password@),
    {
        V5Options {
            credentials: Some(
                Credentials { username: username.to_string(), password: password.to_string() },
            ),
            ..self
        }
    }
}

/// Law: the standard options of either version carry the fixed settings —
/// keep-alive of 15 seconds, a clean session or clean start, a packet size
/// limit of 1 MiB — and the v5.0 options additionally a connection timeout
/// of 30 seconds and the limit in the version-5 optional form.
pub proof fn lemma_standard_options_fixed_settings(id: Seq<char>, host: Seq<char>, port: u16)
    ensures
        v3_standard_model(id, host, port).keep_alive_secs == 15,
        v3_standard_model(id, host, port).clean_session,
        v3_standard_model(id, host, port).max_incoming_packet_size == 1048576,
        v3_standard_model(id, host, port).max_outgoing_packet_size == 1048576,
        v5_standard_model(id, host, port).keep_alive_secs == 15,
        v5_standard_model(id, host, port).clean_start,
        v5_standard_model(id, host, port).connection_timeout_secs == 30,
        v5_standard_model(id, host, port).max_packet_size == Some(1048576u32),
{
}

/// Law: building options without credentials omits them, and attaching
/// credentials attaches exactly the given username and password while
/// every other setting keeps its value.
pub proof fn lemma_credentials_exact(
    id: Seq<char>,
    host: Seq<char>,
    port: u16,
    username: Seq<char>,
    password: Seq<char>,
)
    ensures
        v3_standard_model(id, host, port).credentials is None,
        v5_standard_model(id, host, port).credentials is None,
        ({
            let plain = v3_standard_model(id, host, port);
            let with = v3_with_credentials_model(plain, username, password);
            &&& with.credentials == Some(CredentialsModel { username, password })
            &&& with == (V3OptionsModel { credentials: with.credentials, ..plain })
        }),
        ({
            let plain = v5_standard_model(id, host, port);
            let with = v5_with_credentials_model(plain, username, password);
            &&& with.credentials == Some(CredentialsModel { username, password })
            &&& with == (V5OptionsModel { credentials: with.credentials, ..plain })
        }),
{
}

} // verus!
