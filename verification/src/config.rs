//! The settings that the bridge runs under. They arrive validated; nothing here reads
//! or parses them.

use crate::sensor_set::SensorSet;
use vstd::prelude::*;

verus! {

/// Everything the bridge is configured with.
#[derive(Debug)]
pub struct Config {
    pub mqtt: MqttConfig,
    pub sensors: SensorConfig,
    pub publish: PublishConfig,
}

/// Where the broker is and how to log in.
#[derive(Debug)]
pub struct MqttConfig {
    pub host: String,
    pub port: u16,
    pub username: Option<String>,
    pub password: Option<String>,
}

/// Which sensors are listened to, and whether their handling is reported.
#[derive(Debug)]
pub struct SensorConfig {
    /// Deny-list: sensors that are dropped while `use_blacklist` is set.
    pub blacklist: SensorSet,
    pub use_blacklist: bool,
    /// Allow-list: the only sensors that pass while `use_whitelist` is set.
    pub whitelist: SensorSet,
    pub use_whitelist: bool,
    /// Whether dropped sensors, readings and decode failures are reported.
    pub debug_print: bool,
}

/// Which kinds of message are published.
#[derive(Clone, Copy, Debug, PartialEq, Eq, Structural)]
pub struct PublishConfig {
    pub discovery: bool,
    pub decoded_data: bool,
    pub raw_data: bool,
}

} // verus!
