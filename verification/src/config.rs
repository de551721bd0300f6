//! The settings of a connection, and how they are read from the values an application passes.

use vstd::prelude::*;
use vstd::string::*;

use crate::text::{join, skip_chars, starts_with};

verus! {

/// How hard the two ends try to deliver a message.
#[derive(Clone, Copy, Debug, PartialEq, Eq, Structural)]
pub enum QoS {
    /// At most once: the message may be lost.
    AtMostOnce,
    /// At least once: the message arrives, perhaps more than once.
    AtLeastOnce,
    /// Exactly once.
    ExactlyOnce,
}

/// The level that the number `code` stands for. Any number but 1 and 2 stands for the lowest.
pub open spec fn qos_of(code: int) -> QoS {
    if code == 1 {
        QoS::AtLeastOnce
    } else if code == 2 {
        QoS::ExactlyOnce
    } else {
        QoS::AtMostOnce
    }
}

impl QoS {
    /// Reads a level from its number.
    pub fn from_code(code: i32) -> (r: QoS)
        ensures
            r == qos_of(code as int),
    {
        match code {
            0 => QoS::AtMostOnce,
            1 => QoS::AtLeastOnce,
            2 => QoS::ExactlyOnce,
            _ => QoS::AtMostOnce,
        }
    }
}

/// The broker's port where none is given.
pub const DEFAULT_PORT: u16 = 1883;

/// Seconds between two pings where no positive number is given.
pub const DEFAULT_KEEP_ALIVE_SECS: u64 = 10;

/// Seconds before another attempt to connect where no positive number is given.
pub const DEFAULT_RECONNECT_INTERVAL_SECS: u64 = 10;

/// Room in the queue of received messages where no positive number is given.
pub const DEFAULT_MESSAGE_BUFFER_SIZE: usize = 10000;

/// Seconds that an attempt to connect may take where no positive number is given.
pub const DEFAULT_CONNECTION_TIMEOUT_SECS: u64 = 5;

/// Everything that is needed to connect to a broker.
pub struct MqttConfig {
    /// The broker's address or host name, without a scheme.
    pub host: String,
    /// The broker's port.
    pub port: u16,
    /// The name under which the broker knows this client.
    pub client_id: String,
    /// The user to log in as; empty where the broker asks for no login.
    pub username: String,
    /// The user's password; ignored where `username` is empty.
    pub password: String,
    /// The topics to subscribe to after each successful connection.
    pub topics: Vec<String>,
    /// The level of those subscriptions.
    pub qos: QoS,
    /// Seconds without traffic before a ping is sent.
    pub keep_alive_secs: u64,
    /// Seconds to wait after a failure before the next attempt to connect.
    pub reconnect_interval_secs: u64,
    /// Whether each connection starts a fresh session.
    pub clean_session: bool,
    /// Room in the queue of received messages.
    pub message_buffer_size: usize,
    /// Seconds that an attempt to connect may take.
    pub connection_timeout_secs: u64,
}

/// The mathematical form of an [`MqttConfig`].
#[verifier::ext_equal]
pub struct ConfigView {
    pub host: Seq<char>,
    pub port: nat,
    pub client_id: Seq<char>,
    pub username: Seq<char>,
    pub password: Seq<char>,
    pub topics: Seq<Seq<char>>,
    pub qos: QoS,
    pub keep_alive_secs: nat,
    pub reconnect_interval_secs: nat,
    pub clean_session: bool,
    pub message_buffer_size: nat,
    pub connection_timeout_secs: nat,
}

/// The texts that a vector of strings holds.
pub open spec fn texts(strings: Seq<String>) -> Seq<Seq<char>> {
    strings.map_values(|s: String| s@)
}

impl View for MqttConfig {
    type V = ConfigView;

    open spec fn view(&self) -> ConfigView {
        ConfigView {
            host: self.host@,
            port: self.port as nat,
            client_id: self.client_id@,
            username: self.username@,
            password: self.password@,
            topics: texts(self.topics@),
            qos: self.qos,
            keep_alive_secs: self.keep_alive_secs as nat,
            reconnect_interval_secs: self.reconnect_interval_secs as nat,
            clean_session: self.clean_session,
            message_buffer_size: self.message_buffer_size as nat,
            connection_timeout_secs: self.connection_timeout_secs as nat,
        }
    }
}

/// The settings before anything is filled in.
pub open spec fn default_config() -> ConfigView {
    ConfigView {
        host: Seq::empty(),
        port: 1883,
        client_id: Seq::empty(),
        username: Seq::empty(),
        password: Seq::empty(),
        topics: Seq::empty(),
        qos: QoS::AtMostOnce,
        keep_alive_secs: 10,
        reconnect_interval_secs: 10,
        clean_session: true,
        message_buffer_size: 10000,
        connection_timeout_secs: 5,
    }
}

impl Default for MqttConfig {
    fn default() -> (r: MqttConfig)
        ensures
            r@ == default_config(),
    {
        MqttConfig {
            host: String::new(),
            port: DEFAULT_PORT,
            client_id: String::new(),
            username: String::new(),
            password: String::new(),
            topics: Vec::new(),
            qos: QoS::AtMostOnce,
            keep_alive_secs: DEFAULT_KEEP_ALIVE_SECS,
            reconnect_interval_secs: DEFAULT_RECONNECT_INTERVAL_SECS,
            clean_session: true,
            message_buffer_size: DEFAULT_MESSAGE_BUFFER_SIZE,
            connection_timeout_secs: DEFAULT_CONNECTION_TIMEOUT_SECS,
        }
    }
}

/// The values that an application passes when it asks for a connection.
pub struct ConnectParams {
    pub host: String,
    pub port: i32,
    pub client_id: String,
    pub username: String,
    pub password: String,
    pub qos: i32,
    pub keep_alive_secs: i32,
    pub reconnect_interval_secs: i32,
    pub message_buffer_size: i32,
    pub clean_session: bool,
    pub connection_timeout_secs: i32,
    pub topics: Vec<String>,
}

/// The mathematical form of [`ConnectParams`].
#[verifier::ext_equal]
pub struct ParamsView {
    pub host: Seq<char>,
    pub port: int,
    pub client_id: Seq<char>,
    pub username: Seq<char>,
    pub password: Seq<char>,
    pub qos: int,
    pub keep_alive_secs: int,
    pub reconnect_interval_secs: int,
    pub message_buffer_size: int,
    pub clean_session: bool,
    pub connection_timeout_secs: int,
    pub topics: Seq<Seq<char>>,
}

impl View for ConnectParams {
    type V = ParamsView;

    open spec fn view(&self) -> ParamsView {
        ParamsView {
            host: self.host@,
            port: self.port as int,
            client_id: self.client_id@,
            username: self.username@,
            password: self.password@,
            qos: self.qos as int,
            keep_alive_secs: self.keep_alive_secs as int,
            reconnect_interval_secs: self.reconnect_interval_secs as int,
            message_buffer_size: self.message_buffer_size as int,
            clean_session: self.clean_session,
            connection_timeout_secs: self.connection_timeout_secs as int,
            topics: texts(self.topics@),
        }
    }
}

/// Does `host` begin with one of the two schemes that may stand before it?
pub open spec fn has_scheme(host: Seq<char>) -> bool {
    "tcp://"@.is_prefix_of(host) || "ssl://"@.is_prefix_of(host)
}

/// `host` without the scheme before it. Only one scheme is taken away.
pub open spec fn bare_host(host: Seq<char>) -> Seq<char> {
    if has_scheme(host) {
        host.skip(6)
    } else {
        host
    }
}

/// `value` where it is positive, and `fallback` otherwise.
pub open spec fn positive_or(value: int, fallback: nat) -> nat {
    if value > 0 {
        value as nat
    } else {
        fallback
    }
}

/// The port that a Java `int` stands for: its low sixteen bits.
pub open spec fn port_of(port: int) -> nat {
    (port % 65536) as nat
}

/// The settings that the application's values stand for.
pub open spec fn config_of(params: ParamsView) -> ConfigView {
    ConfigView {
        host: bare_host(params.host),
        port: port_of(params.port),
        client_id: params.client_id,
        username: params.username,
        password: params.password,
        topics: params.topics,
        qos: qos_of(params.qos),
        keep_alive_secs: positive_or(params.keep_alive_secs, 10),
        reconnect_interval_secs: positive_or(params.reconnect_interval_secs, 10),
        clean_session: params.clean_session,
        message_buffer_size: positive_or(params.message_buffer_size, 10000),
        connection_timeout_secs: positive_or(params.connection_timeout_secs, 5),
    }
}

/// Are the application's values enough to connect with?
pub open spec fn params_suffice(params: ParamsView) -> bool {
    bare_host(params.host).len() > 0 && params.client_id.len() > 0
}

/// What is reported where they are not.
pub open spec fn missing_params_message(params: ParamsView) -> Seq<char> {
    "host 或 clientId 为空，无法连接 (host='"@ + bare_host(params.host) + "', clientId='"@
        + params.client_id + "')"@
}

/// Takes the scheme away from a host, where there is one.
pub fn strip_scheme(host: String) -> (r: String)
    ensures
        r@ == bare_host(host@),
{
    proof {
        reveal_strlit("tcp://");
        reveal_strlit("ssl://");
    }
    if starts_with(host.as_str(), "tcp://") || starts_with(host.as_str(), "ssl://") {
        skip_chars(host.as_str(), 6)
    } else {
        host
    }
}

/// Reads a port from a Java `int`.
pub fn port_from_int(port: i32) -> (r: u16)
    ensures
        r == port_of(port as int),
{
    let r: u16 = #[verifier::truncate] (port as u16);
    assert(r == port_of(port as int)) by {
        assert(#[verifier::truncate] (port as u16) == port % 65536) by (bit_vector);
    }
    r
}

/// Reads a number of seconds.
pub fn secs_or(value: i32, fallback: u64) -> (r: u64)
    ensures
        r == positive_or(value as int, fallback as nat),
{
    if value > 0 {
        value as u64
    } else {
        fallback
    }
}

/// Reads the room of a queue.
pub fn size_or(value: i32, fallback: usize) -> (r: usize)
    ensures
        r == positive_or(value as int, fallback as nat),
{
    if value > 0 {
        value as usize
    } else {
        fallback
    }
}

/// The report for values that are not enough to connect with.
fn describe_missing(host: &str, client_id: &str) -> (r: String)
    ensures
        r@ == "host 或 clientId 为空，无法连接 (host='"@ + host@ + "', clientId='"@ + client_id@
            + "')"@,
{
    let mut message = join("host 或 clientId 为空，无法连接 (host='", host);
    message.append("', clientId='");
    message.append(client_id);
    message.append("')");
    message
}

impl MqttConfig {
    /// Reads the settings from the application's values. Where the host or the client's name is
    /// empty, the result is the report for the application instead.
    pub fn from_params(params: ConnectParams) -> (r: Result<MqttConfig, String>)
        ensures
            r is Ok <==> params_suffice(params@),
            r matches Ok(config) ==> config@ == config_of(params@),
            r matches Err(message) ==> message@ == missing_params_message(params@),
    {
        let config = MqttConfig {
            host: strip_scheme(params.host),
            port: port_from_int(params.port),
            client_id: params.client_id,
            username: params.username,
            password: params.password,
            topics: params.topics,
            qos: QoS::from_code(params.qos),
            keep_alive_secs: secs_or(params.keep_alive_secs, DEFAULT_KEEP_ALIVE_SECS),
            reconnect_interval_secs: secs_or(
                params.reconnect_interval_secs,
                DEFAULT_RECONNECT_INTERVAL_SECS,
            ),
            clean_session: params.clean_session,
            message_buffer_size: size_or(
                params.message_buffer_size,
                DEFAULT_MESSAGE_BUFFER_SIZE,
            ),
            connection_timeout_secs: secs_or(
                params.connection_timeout_secs,
                DEFAULT_CONNECTION_TIMEOUT_SECS,
            ),
        };
        if config.host.as_str().is_empty() || config.client_id.as_str().is_empty() {
            Err(describe_missing(config.host.as_str(), config.client_id.as_str()))
        } else {
            Ok(config)
        }
    }
}

/// Either scheme before a host is taken away again, so that a host which carries none of its own
/// is the same host with and without one.
pub proof fn scheme_makes_no_difference(host: Seq<char>)
    ensures
        bare_host("tcp://"@ + host) == host,
        bare_host("ssl://"@ + host) == host,
        !has_scheme(host) ==> bare_host("tcp://"@ + host) == bare_host(host),
        !has_scheme(host) ==> bare_host("ssl://"@ + host) == bare_host(host),
{
    reveal_strlit("tcp://");
    reveal_strlit("ssl://");
    assert(("tcp://"@ + host).subrange(0, 6) =~= "tcp://"@);
    assert(("ssl://"@ + host).subrange(0, 6) =~= "ssl://"@);
    assert(("tcp://"@ + host).skip(6) =~= host);
    assert(("ssl://"@ + host).skip(6) =~= host);
}

/// A connection is asked for in the same way with and without a scheme before the host: the settings
/// are the same, and so is whether they are enough.
pub proof fn scheme_gives_same_settings(params: ParamsView)
    requires
        !has_scheme(params.host),
    ensures
        config_of(ParamsView { host: "tcp://"@ + params.host, ..params }) == config_of(params),
        config_of(ParamsView { host: "ssl://"@ + params.host, ..params }) == config_of(params),
        params_suffice(ParamsView { host: "tcp://"@ + params.host, ..params }) == params_suffice(
            params,
        ),
        params_suffice(ParamsView { host: "ssl://"@ + params.host, ..params }) == params_suffice(
            params,
        ),
{
    scheme_makes_no_difference(params.host);
}

/// Numbers that are not positive stand for the defaults.
pub proof fn unset_numbers_are_defaults(params: ParamsView)
    ensures
        params.keep_alive_secs <= 0 ==> config_of(params).keep_alive_secs
            == default_config().keep_alive_secs,
        params.reconnect_interval_secs <= 0 ==> config_of(params).reconnect_interval_secs
            == default_config().reconnect_interval_secs,
        params.message_buffer_size <= 0 ==> config_of(params).message_buffer_size
            == default_config().message_buffer_size,
        params.connection_timeout_secs <= 0 ==> config_of(params).connection_timeout_secs
            == default_config().connection_timeout_secs,
{
}

/// A vector of strings holds the text of each of its strings, in order.
pub proof fn texts_are_the_strings(strings: Seq<String>)
    ensures
        texts(strings).len() == strings.len(),
        forall|i: int| 0 <= i < strings.len() ==> #[trigger] texts(strings)[i] == strings[i]@,
{
}

/// What is said of settings is said of their fields.
pub proof fn settings_show_their_fields(config: MqttConfig)
    ensures
        config@.host == config.host@,
        config@.port == config.port,
        config@.client_id == config.client_id@,
        config@.username == config.username@,
        config@.password == config.password@,
        config@.topics == texts(config.topics@),
        config@.qos == config.qos,
        config@.keep_alive_secs == config.keep_alive_secs,
        config@.reconnect_interval_secs == config.reconnect_interval_secs,
        config@.clean_session == config.clean_session,
        config@.message_buffer_size == config.message_buffer_size,
        config@.connection_timeout_secs == config.connection_timeout_secs,
{
}

/// What is said of the application's values is said of the values themselves.
pub proof fn params_show_their_fields(params: ConnectParams)
    ensures
        params@.host == params.host@,
        params@.port == params.port,
        params@.client_id == params.client_id@,
        params@.username == params.username@,
        params@.password == params.password@,
        params@.qos == params.qos,
        params@.keep_alive_secs == params.keep_alive_secs,
        params@.reconnect_interval_secs == params.reconnect_interval_secs,
        params@.message_buffer_size == params.message_buffer_size,
        params@.clean_session == params.clean_session,
        params@.connection_timeout_secs == params.connection_timeout_secs,
        params@.topics == texts(params.topics@),
{
}

/// Each level has its number, and every other number stands for the lowest level.
pub proof fn each_level_has_its_number(code: int)
    ensures
        qos_of(code) == QoS::AtLeastOnce <==> code == 1,
        qos_of(code) == QoS::ExactlyOnce <==> code == 2,
        qos_of(code) == QoS::AtMostOnce <==> code != 1 && code != 2,
{
}

/// The host of the settings is what the application passed, or what follows one scheme in it; and it
/// is what the application passed wherever that has no scheme.
pub proof fn host_is_passed_host(params: ParamsView)
    ensures
        ({
            let host = config_of(params).host;
            ||| params.host == host
            ||| params.host == "tcp://"@ + host
            ||| params.host == "ssl://"@ + host
        }),
        !"tcp://"@.is_prefix_of(params.host) && !"ssl://"@.is_prefix_of(params.host) ==> config_of(
            params,
        ).host == params.host,
        "tcp://"@.is_prefix_of(params.host) ==> params.host == "tcp://"@ + config_of(params).host,
        "ssl://"@.is_prefix_of(params.host) ==> params.host == "ssl://"@ + config_of(params).host,
{
    reveal_strlit("tcp://");
    reveal_strlit("ssl://");
    let host = params.host;
    if "tcp://"@.is_prefix_of(host) {
        assert(host =~= "tcp://"@ + host.skip(6));
    }
    if "ssl://"@.is_prefix_of(host) {
        assert(host =~= "ssl://"@ + host.skip(6));
    }
}

/// A port that there is, is taken over as it was passed; any other number stands for the port that it
/// differs from by a multiple of the number of ports.
pub proof fn port_is_passed_port(params: ParamsView)
    ensures
        0 <= params.port <= 65535 ==> config_of(params).port == params.port,
        0 <= config_of(params).port <= 65535,
        (params.port - config_of(params).port) % 65536 == 0,
{
}

/// Everything else that the application passed is taken over as it was passed: the client's name, the
/// login, the topics, whether the session is fresh, and every number of seconds or messages that is
/// positive. A number that is not stands for 10 seconds between pings, 10 seconds between attempts,
/// 10000 messages, and 5 seconds for an attempt.
pub proof fn passed_values_are_taken_over(params: ParamsView)
    ensures
        ({
            let config = config_of(params);
            &&& config.client_id == params.client_id
            &&& config.username == params.username
            &&& config.password == params.password
            &&& config.topics == params.topics
            &&& config.clean_session == params.clean_session
            &&& config.keep_alive_secs == if params.keep_alive_secs > 0 {
                params.keep_alive_secs
            } else {
                10
            }
            &&& config.reconnect_interval_secs == if params.reconnect_interval_secs > 0 {
                params.reconnect_interval_secs
            } else {
                10
            }
            &&& config.message_buffer_size == if params.message_buffer_size > 0 {
                params.message_buffer_size
            } else {
                10000
            }
            &&& config.connection_timeout_secs == if params.connection_timeout_secs > 0 {
                params.connection_timeout_secs
            } else {
                5
            }
            &&& params.qos == 1 ==> config.qos == QoS::AtLeastOnce
            &&& params.qos == 2 ==> config.qos == QoS::ExactlyOnce
            &&& params.qos != 1 && params.qos != 2 ==> config.qos == QoS::AtMostOnce
        }),
{
}

/// Settings are refused exactly where their host or the client's name is empty, and the report quotes
/// both.
pub proof fn refusal_is_for_empty_names(params: ParamsView)
    ensures
        params_suffice(params) <==> config_of(params).host.len() > 0 && config_of(
            params,
        ).client_id.len() > 0,
        missing_params_message(params) == "host 或 clientId 为空，无法连接 (host='"@ + config_of(
            params,
        ).host + "', clientId='"@ + config_of(params).client_id + "')"@,
{
}

/// Before anything is filled in, nothing is named, the port is 1883, messages go out at most once, and
/// each connection is to be a fresh session.
pub proof fn defaults_name_nothing()
    ensures
        ({
            let config = default_config();
            &&& config.host.len() == 0
            &&& config.client_id.len() == 0
            &&& config.username.len() == 0
            &&& config.password.len() == 0
            &&& config.topics.len() == 0
            &&& config.port == 1883
            &&& config.qos == QoS::AtMostOnce
            &&& config.clean_session
            &&& config.keep_alive_secs == 10
            &&& config.reconnect_interval_secs == 10
            &&& config.message_buffer_size == 10000
            &&& config.connection_timeout_secs == 5
        }),
{
}

} // verus!
