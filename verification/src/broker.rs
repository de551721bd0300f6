//! Setting up the connection to a broker with the `rumqttc` crate.

use rumqttc::{AsyncClient, EventLoop, MqttOptions, NetworkOptions};
use vstd::prelude::*;

use crate::config::MqttConfig;

verus! {

use crate::config::ConfigView;

/// Room in the queue between the client's handle and its event loop.
pub const REQUEST_CAPACITY: usize = 1000;

/// What a connection is made with.
#[verifier::external_type_specification]
#[verifier::external_body]
pub struct ExMqttOptions(MqttOptions);

/// What the network under a connection is used with.
#[verifier::external_type_specification]
#[verifier::external_body]
pub struct ExNetworkOptions(NetworkOptions);

/// The handle that subscribes and publishes.
#[verifier::external_type_specification]
#[verifier::external_body]
pub struct ExAsyncClient(AsyncClient);

/// What makes the connection, keeps it and reports its events.
#[verifier::external_type_specification]
#[verifier::external_body]
pub struct ExEventLoop(EventLoop);

/// The settings that a connection is made with.
#[verifier::ext_equal]
pub struct OptionsView {
    pub client_id: Seq<char>,
    pub host: Seq<char>,
    pub port: nat,
    pub keep_alive_secs: nat,
    pub clean_session: bool,
    pub credentials: Option<(Seq<char>, Seq<char>)>,
}

/// The settings of an event loop.
#[verifier::ext_equal]
pub struct EventLoopView {
    pub options: OptionsView,
    /// Room in the queue between the client's handle and the event loop.
    pub request_capacity: nat,
    /// Seconds that an attempt to connect may take.
    pub connection_timeout_secs: nat,
}

/// The settings that these options hold.
pub uninterp spec fn options_view(options: MqttOptions) -> OptionsView;

/// The seconds that an attempt to connect may take under these options.
pub uninterp spec fn network_timeout(options: NetworkOptions) -> nat;

/// The settings that this event loop works with.
pub uninterp spec fn event_loop_view(event_loop: EventLoop) -> EventLoopView;

/// The handle whose requests this event loop serves.
pub uninterp spec fn served_client(event_loop: EventLoop) -> AsyncClient;

/// `MqttOptions::new`: options for a client and a broker, with a ping after 60 seconds, a fresh
/// session each time, and no login.
#[verifier::external_body]
fn new_options(client_id: &str, host: &str, port: u16) -> (r: MqttOptions)
    ensures
        options_view(r) == (OptionsView {
            client_id: client_id@,
            host: host@,
            port: port as nat,
            keep_alive_secs: 60,
            clean_session: true,
            credentials: None,
        }),
{
    MqttOptions::new(client_id, host, port)
}

/// `MqttOptions::set_keep_alive`: sets the time without traffic before a ping. It takes no time
/// between nothing and one second; a whole number of seconds is never in between.
#[verifier::external_body]
fn set_keep_alive(options: &mut MqttOptions, secs: u64)
    ensures
        options_view(*final(options)) == (OptionsView {
            keep_alive_secs: secs as nat,
            ..options_view(*old(options))
        }),
{
    options.set_keep_alive(std::time::Duration::from_secs(secs));
}

/// `MqttOptions::set_clean_session`: sets whether each connection starts a fresh session. It panics
/// where a session is to be kept for a client without a name.
#[verifier::external_body]
fn set_clean_session(options: &mut MqttOptions, clean_session: bool)
    requires
        clean_session || options_view(*old(options)).client_id.len() > 0,
    ensures
        options_view(*final(options)) == (OptionsView {
            clean_session,
            ..options_view(*old(options))
        }),
{
    options.set_clean_session(clean_session);
}

/// `MqttOptions::set_credentials`: sets the user and the password to log in with.
#[verifier::external_body]
fn set_credentials(options: &mut MqttOptions, username: &str, password: &str)
    ensures
        options_view(*final(options)) == (OptionsView {
            credentials: Some((username@, password@)),
            ..options_view(*old(options))
        }),
{
    options.set_credentials(username, password);
}

/// `NetworkOptions::new`: network options under which an attempt to connect may take 5 seconds.
#[verifier::external_body]
fn new_network_options() -> (r: NetworkOptions)
    ensures
        network_timeout(r) == 5,
{
    NetworkOptions::new()
}

/// `NetworkOptions::set_connection_timeout`: sets how long an attempt to connect may take.
#[verifier::external_body]
fn set_connection_timeout(options: &mut NetworkOptions, secs: u64)
    ensures
        network_timeout(*final(options)) == secs,
{
    options.set_connection_timeout(secs);
}

/// `AsyncClient::new`: a client's handle and the event loop that serves it, with the options, with
/// room for `capacity` requests between the two, and with 5 seconds for an attempt to connect.
#[verifier::external_body]
fn new_client(options: MqttOptions, capacity: usize) -> (r: (AsyncClient, EventLoop))
    ensures
        event_loop_view(r.1) == (EventLoopView {
            options: options_view(options),
            request_capacity: capacity as nat,
            connection_timeout_secs: 5,
        }),
        served_client(r.1) == r.0,
{
    AsyncClient::new(options, capacity)
}

/// `<AsyncClient as Clone>::clone`: another handle on the same client.
#[verifier::external_body]
pub(crate) fn clone_client(client: &AsyncClient) -> (r: AsyncClient)
    ensures
        r == *client,
{
    client.clone()
}

/// `EventLoop::set_network_options`: replaces the network options that an event loop works with.
#[verifier::external_body]
fn set_network_options(event_loop: &mut EventLoop, options: NetworkOptions)
    ensures
        event_loop_view(*final(event_loop)) == (EventLoopView {
            connection_timeout_secs: network_timeout(options),
            ..event_loop_view(*old(event_loop))
        }),
        served_client(*final(event_loop)) == served_client(*old(event_loop)),
{
    event_loop.set_network_options(options);
}

/// The login that the settings ask for: none where no user is named.
pub open spec fn credentials_of(config: ConfigView) -> Option<(Seq<char>, Seq<char>)> {
    if config.username.len() == 0 {
        None
    } else {
        Some((config.username, config.password))
    }
}

/// How a connection with these settings is made.
pub open spec fn event_loop_of(config: ConfigView) -> EventLoopView {
    EventLoopView {
        options: OptionsView {
            client_id: config.client_id,
            host: config.host,
            port: config.port,
            keep_alive_secs: config.keep_alive_secs,
            clean_session: config.clean_session,
            credentials: credentials_of(config),
        },
        request_capacity: 1000,
        connection_timeout_secs: config.connection_timeout_secs,
    }
}

/// Can a connection be made with these settings? A session is kept only for a client with a name.
pub open spec fn can_open(config: ConfigView) -> bool {
    config.clean_session || config.client_id.len() > 0
}

/// Sets up a client and its event loop. The network is not touched before the event loop is polled.
pub fn open(config: &MqttConfig) -> (r: (AsyncClient, EventLoop))
    requires
        can_open(config@),
    ensures
        event_loop_view(r.1) == event_loop_of(config@),
        served_client(r.1) == r.0,
{
    let mut options = new_options(config.client_id.as_str(), config.host.as_str(), config.port);
    set_keep_alive(&mut options, config.keep_alive_secs);
    set_clean_session(&mut options, config.clean_session);
    if !config.username.as_str().is_empty() {
        set_credentials(&mut options, config.username.as_str(), config.password.as_str());
    }
    let (client, mut event_loop) = new_client(options, REQUEST_CAPACITY);
    let mut network = new_network_options();
    set_connection_timeout(&mut network, config.connection_timeout_secs);
    set_network_options(&mut event_loop, network);
    (client, event_loop)
}

/// Without a user's name there is no login, whatever password is given.
pub proof fn password_needs_username(config: ConfigView, password: Seq<char>)
    requires
        config.username.len() == 0,
    ensures
        event_loop_of(config).options.credentials is None,
        event_loop_of(ConfigView { password, ..config }) == event_loop_of(config),
{
}

/// A connection is set up with what the settings say: the same client, broker, session and seconds, a
/// login exactly where a user is named, and then with that user and password.
pub proof fn connection_is_as_configured(config: ConfigView)
    ensures
        ({
            let made = event_loop_of(config);
            &&& made.options.client_id == config.client_id
            &&& made.options.host == config.host
            &&& made.options.port == config.port
            &&& made.options.keep_alive_secs == config.keep_alive_secs
            &&& made.options.clean_session == config.clean_session
            &&& made.connection_timeout_secs == config.connection_timeout_secs
            &&& made.request_capacity == 1000
            &&& made.options.credentials is Some <==> config.username.len() > 0
            &&& made.options.credentials matches Some((username, password)) ==> username
                == config.username && password == config.password
        }),
        !can_open(config) <==> !config.clean_session && config.client_id.len() == 0,
{
}

} // verus!
