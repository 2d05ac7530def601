//! The options that the broker client is opened with, held in `rumqttc`'s
//! `MqttOptions`.
//!
//! The library fills an `MqttOptions` and hands it on; it never looks inside one.
//! What an `MqttOptions` holds is spoken of through [`mqtt_settings`]. The three
//! functions that call `rumqttc` state what its source shows and are not proved.

use vstd::prelude::*;

verus! {

/// Seconds between keep-alive pings to the broker.
pub const KEEP_ALIVE_SECS: u64 = 5;

/// Number of requests that may wait between the client and its event loop.
pub const REQUEST_CAPACITY: usize = 10;

/// What the library sets in the options of a broker client.
pub struct BrokerSettings {
    pub client_id: Seq<char>,
    pub host: Seq<char>,
    pub port: u16,
    /// Whole seconds between keep-alive pings.
    pub keep_alive_secs: nat,
    /// User name and password, if the client logs in.
    pub login: Option<(Seq<char>, Seq<char>)>,
}

/// `rumqttc::MqttOptions`, carried through without a look inside.
#[verifier::external_type_specification]
#[verifier::external_body]
pub struct ExMqttOptions(rumqttc::MqttOptions);

/// The settings that `options` holds.
pub uninterp spec fn mqtt_settings(options: rumqttc::MqttOptions) -> BrokerSettings;

/// `rumqttc::MqttOptions::new`: options for the given client and broker, with a
/// keep-alive of 60 seconds and without a login.
#[verifier::external_body]
fn mqtt_options_new(client_id: &str, host: &str, port: u16) -> (options: rumqttc::MqttOptions)
    ensures
        mqtt_settings(options) == (BrokerSettings {
            client_id: client_id@,
            host: host@,
            port,
            keep_alive_secs: 60,
            login: None,
        }),
{
    rumqttc::MqttOptions::new(client_id, host, port)
}

/// `rumqttc::MqttOptions::set_keep_alive`, called with whole seconds, which it takes
/// whatever their number: the keep-alive becomes `secs`, the rest stays.
#[verifier::external_body]
fn mqtt_options_set_keep_alive(options: &mut rumqttc::MqttOptions, secs: u64)
    ensures
        mqtt_settings(*final(options)) == (BrokerSettings {
            keep_alive_secs: secs as nat,
            ..mqtt_settings(*old(options))
        }),
{
    options.set_keep_alive(std::time::Duration::from_secs(secs));
}

/// `rumqttc::MqttOptions::set_credentials`: the client logs in with `username` and
/// `password`, the rest stays.
#[verifier::external_body]
fn mqtt_options_set_credentials(options: &mut rumqttc::MqttOptions, username: &str, password: &str)
    ensures
        mqtt_settings(*final(options)) == (BrokerSettings {
            login: Some((username@, password@)),
            ..mqtt_settings(*old(options))
        }),
{
    options.set_credentials(username, password);
}

/// The login to use: none without a user name, and an empty password where a user
/// name comes without one.
pub open spec fn login(username: Option<&str>, password: Option<&str>) -> Option<
    (Seq<char>, Seq<char>),
> {
    match username {
        Some(name) => Some(
            (
                name@,
                match password {
                    Some(word) => word@,
                    None => Seq::<char>::empty(),
                },
            ),
        ),
        None => None,
    }
}

/// The options for a client named `client_id` that talks to the broker at
/// `host:port`: keep-alive every `KEEP_ALIVE_SECS` seconds, and the login that the
/// user name and password give.
pub fn connect_options(
    client_id: &str,
    host: &str,
    port: u16,
    username: Option<&str>,
    password: Option<&str>,
) -> (options: rumqttc::MqttOptions)
    ensures
        mqtt_settings(options) == (BrokerSettings {
            client_id: client_id@,
            host: host@,
            port,
            keep_alive_secs: KEEP_ALIVE_SECS as nat,
            login: login(username, password),
        }),
{
    let mut options = mqtt_options_new(client_id, host, port);
    mqtt_options_set_keep_alive(&mut options, KEEP_ALIVE_SECS);
    match username {
        Some(name) => {
            let word = match password {
                Some(word) => word,
                None => "",
            };
            proof {
                reveal_strlit("");
                assert(""@ =~= Seq::<char>::empty());
            }
            mqtt_options_set_credentials(&mut options, name, word);
        },
        None => {},
    }
    options
}

} // verus!
