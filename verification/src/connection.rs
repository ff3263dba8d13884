//! How a client connects to the broker.

use vstd::prelude::*;
use rumqttc::MqttOptions;
use std::time::Duration;

verus! {

/// Seconds of silence after which the client pings the broker.
pub const KEEP_ALIVE_SECS: u64 = 60;

/// Requests that may wait between the client and its event loop.
pub const REQUEST_CAPACITY: usize = 10;

/// The options of an MQTT client, as `rumqttc` keeps them. The proofs see of
/// a value of this type only what `options_held` names.
#[verifier::external_type_specification]
#[verifier::external_body]
pub struct ExMqttOptions(MqttOptions);

/// What a client needs to know to open its connection.
#[derive(Clone, Debug, PartialEq, Eq)]
pub struct ConnectionSettings {
    pub client_id: String,
    pub broker: String,
    pub port: u16,
    pub keep_alive_secs: u64,
    pub request_capacity: usize,
}

/// What a `ConnectionSettings` holds, as plain values.
pub struct ConnectionRecord {
    pub client_id: Seq<char>,
    pub broker: Seq<char>,
    pub port: u16,
    pub keep_alive_secs: u64,
    pub request_capacity: usize,
}

impl View for ConnectionSettings {
    type V = ConnectionRecord;

    open spec fn view(&self) -> ConnectionRecord {
        ConnectionRecord {
            client_id: self.client_id@,
            broker: self.broker@,
            port: self.port,
            keep_alive_secs: self.keep_alive_secs,
            request_capacity: self.request_capacity,
        }
    }
}

/// The settings of a client with the given name for the given broker: a
/// keep-alive of a minute and room for ten waiting requests.
pub open spec fn settings_for(client_id: Seq<char>, broker: Seq<char>, port: u16) -> ConnectionRecord {
    ConnectionRecord { client_id, broker, port, keep_alive_secs: 60, request_capacity: 10 }
}

/// What client options say of the connection, as plain values.
pub struct OptionsRecord {
    pub client_id: Seq<char>,
    pub broker: Seq<char>,
    pub port: u16,
    pub keep_alive_secs: u64,
}

/// What the client options hold: the client's name, the broker's host and
/// port, and the whole seconds of the keep-alive, as `client_id`,
/// `broker_address` and `keep_alive` of `rumqttc::MqttOptions` give them.
pub uninterp spec fn options_held(options: MqttOptions) -> OptionsRecord;

/// Calls `rumqttc::MqttOptions::new`, which accepts every name and host. It
/// stores the client's name, the broker's host and its port as they are
/// given, beside the crate's defaults, of which the keep-alive is a minute.
#[verifier::external_body]
fn new_options(client_id: &str, broker: &str, port: u16) -> (options: MqttOptions)
    ensures
        options_held(options) == (OptionsRecord {
            client_id: client_id@,
            broker: broker@,
            port,
            keep_alive_secs: 60,
        }),
{
    MqttOptions::new(client_id, broker, port)
}

/// Calls `rumqttc::MqttOptions::set_keep_alive` with a whole number of
/// seconds. The crate refuses only a span that is shorter than a second and
/// not zero, which a whole number of seconds never is. It stores the span as
/// the keep-alive and leaves the rest of the options as they were.
#[verifier::external_body]
fn set_keep_alive(options: &mut MqttOptions, secs: u64)
    ensures
        options_held(*final(options)) == (OptionsRecord {
            keep_alive_secs: secs,
            ..options_held(*old(options))
        }),
{
    options.set_keep_alive(Duration::from_secs(secs));
}

impl ConnectionSettings {
    /// The settings of a client with the given name for the given broker.
    pub fn new(client_id: &str, broker: String, port: u16) -> (settings: ConnectionSettings)
        ensures
            settings@ == settings_for(client_id@, broker@, port),
    {
        ConnectionSettings {
            client_id: client_id.to_owned(),
            broker,
            port,
            keep_alive_secs: KEEP_ALIVE_SECS,
            request_capacity: REQUEST_CAPACITY,
        }
    }

    /// The client options that say the same as these settings: they hold the
    /// client's name, the broker's host and port, and the keep-alive. The
    /// request capacity is not part of them: it is given when the client is
    /// made.
    pub fn to_options(&self) -> (options: MqttOptions)
        ensures
            options_held(options) == (OptionsRecord {
                client_id: self.client_id@,
                broker: self.broker@,
                port: self.port,
                keep_alive_secs: self.keep_alive_secs,
            }),
    {
        let mut options = new_options(self.client_id.as_str(), self.broker.as_str(), self.port);
        set_keep_alive(&mut options, self.keep_alive_secs);
        options
    }
}

} // verus!
