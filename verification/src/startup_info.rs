//! The text of the start-up report: the version banner, the settings in force and
//! what the Bluetooth adapter says of itself. Printing is left to the caller.

use crate::config::Config;
use crate::sensor_id::SensorId;
use crate::text::{decimal, push_decimal, repeat, repeated};
use vstd::prelude::*;

verus! {

/// Width, in characters, of the separator lines that frame the report.
pub const SEPARATOR_LENGTH: usize = 50;

/// The views of a list of lines.
pub open spec fn texts(lines: Seq<String>) -> Seq<Seq<char>> {
    lines.map_values(|line: String| line@)
}

/// How a switch is shown.
pub open spec fn switch_text(on: bool) -> Seq<char> {
    if on {
        "enabled"@
    } else {
        "disabled"@
    }
}

/// How a truth value is shown.
pub open spec fn bool_text(value: bool) -> Seq<char> {
    if value {
        "true"@
    } else {
        "false"@
    }
}

/// How the user name is shown: `<none>` where none is set or it is empty.
pub open spec fn username_text(username: Option<String>) -> Seq<char> {
    match username {
        Some(name) => if name@.len() == 0 {
            "<none>"@
        } else {
            name@
        },
        None => "<none>"@,
    }
}

/// How the password is shown: never itself, `<none>` where none is set or it is
/// empty, else four asterisks.
pub open spec fn password_text(password: Option<String>) -> Seq<char> {
    match password {
        Some(word) => if word@.len() == 0 {
            "<none>"@
        } else {
            "****"@
        },
        None => "<none>"@,
    }
}

/// The line of one list: its switch and, unless the list is empty, its size.
pub open spec fn list_text(title: Seq<char>, enabled: bool, members: nat) -> Seq<char> {
    title + ": "@ + switch_text(enabled) + if members > 0 {
        " ("@ + decimal(members) + ")"@
    } else {
        Seq::<char>::empty()
    }
}

/// The line of one switch.
pub open spec fn switch_line_text(title: Seq<char>, on: bool) -> Seq<char> {
    title + ": "@ + switch_text(on)
}

/// The line that names the broker and the login.
pub open spec fn broker_text(config: Config) -> Seq<char> {
    "MQTT: "@ + config.mqtt.host@ + ":"@ + decimal(config.mqtt.port as nat) + " (username: "@
        + username_text(config.mqtt.username) + ", password: "@ + password_text(
        config.mqtt.password,
    ) + ")"@
}

/// The banner: the program's name and version between two separator lines.
pub open spec fn version_text(version: Seq<char>) -> Seq<Seq<char>> {
    seq![
        repeated("="@, SEPARATOR_LENGTH as nat),
        "Ruuvi Rust MQTT v"@ + version,
        repeated("="@, SEPARATOR_LENGTH as nat),
    ]
}

/// The settings in force, one line each, closed by a separator line.
pub open spec fn startup_text(config: Config) -> Seq<Seq<char>> {
    seq![
        broker_text(config),
        list_text("Whitelist"@, config.sensors.use_whitelist, config.sensors.whitelist@.len()),
        list_text("Blacklist"@, config.sensors.use_blacklist, config.sensors.blacklist@.len()),
        switch_line_text("Debug print"@, config.sensors.debug_print),
        switch_line_text("Discovery publishing"@, config.publish.discovery),
        switch_line_text("Decoded data publishing"@, config.publish.decoded_data),
        switch_line_text("Raw data publishing"@, config.publish.raw_data),
        repeated("-"@, SEPARATOR_LENGTH as nat),
    ]
}

fn switch_str(on: bool) -> (s: &'static str)
    ensures
        s@ == switch_text(on),
{
    if on {
        "enabled"
    } else {
        "disabled"
    }
}

fn bool_str(value: bool) -> (s: &'static str)
    ensures
        s@ == bool_text(value),
{
    if value {
        "true"
    } else {
        "false"
    }
}

fn list_line(title: &str, enabled: bool, members: usize) -> (line: String)
    ensures
        line@ == list_text(title@, enabled, members as nat),
{
    let mut line = String::from_str(title);
    line.append(": ");
    line.append(switch_str(enabled));
    if members > 0 {
        line.append(" (");
        push_decimal(&mut line, members as u64);
        line.append(")");
    }
    assert(line@ =~= list_text(title@, enabled, members as nat));
    line
}

fn switch_line(title: &str, on: bool) -> (line: String)
    ensures
        line@ == switch_line_text(title@, on),
{
    let mut line = String::from_str(title);
    line.append(": ");
    line.append(switch_str(on));
    line
}

fn broker_line(config: &Config) -> (line: String)
    ensures
        line@ == broker_text(*config),
{
    let mut line = String::from_str("MQTT: ");
    line.append(config.mqtt.host.as_str());
    line.append(":");
    push_decimal(&mut line, config.mqtt.port as u64);
    line.append(" (username: ");
    match &config.mqtt.username {
        Some(name) => {
            if name.as_str().unicode_len() == 0 {
                line.append("<none>");
            } else {
                line.append(name.as_str());
            }
        },
        None => {
            line.append("<none>");
        },
    }
    line.append(", password: ");
    match &config.mqtt.password {
        Some(word) => {
            if word.as_str().unicode_len() == 0 {
                line.append("<none>");
            } else {
                line.append("****");
            }
        },
        None => {
            line.append("<none>");
        },
    }
    line.append(")");
    line
}

/// The lines of the version banner.
pub fn version_info(version: &str) -> (lines: Vec<String>)
    ensures
        texts(lines@) == version_text(version@),
{
    let mut title = String::from_str("Ruuvi Rust MQTT v");
    title.append(version);
    let mut lines: Vec<String> = Vec::new();
    lines.push(repeat("=", SEPARATOR_LENGTH));
    lines.push(title);
    lines.push(repeat("=", SEPARATOR_LENGTH));
    assert(texts(lines@) =~= version_text(version@));
    lines
}

/// The lines that show the settings in force. The password is never shown.
pub fn startup_info(config: &Config) -> (lines: Vec<String>)
    ensures
        texts(lines@) == startup_text(*config),
{
    let mut lines: Vec<String> = Vec::new();
    lines.push(broker_line(config));
    lines.push(list_line("Whitelist", config.sensors.use_whitelist, config.sensors.whitelist.len()));
    lines.push(list_line("Blacklist", config.sensors.use_blacklist, config.sensors.blacklist.len()));
    lines.push(switch_line("Debug print", config.sensors.debug_print));
    lines.push(switch_line("Discovery publishing", config.publish.discovery));
    lines.push(switch_line("Decoded data publishing", config.publish.decoded_data));
    lines.push(switch_line("Raw data publishing", config.publish.raw_data));
    lines.push(repeat("-", SEPARATOR_LENGTH));
    assert(texts(lines@) =~= startup_text(*config));
    lines
}

/// A service that the adapter is asked about.
#[derive(Clone, Copy, Debug, PartialEq, Eq, Structural)]
pub enum Service {
    GenericAccess,
    GenericAttribute,
    DeviceInformation,
    Battery,
    EnvironmentalSensing,
}

impl Service {
    /// The 16-bit number of the service.
    pub open spec fn short(self) -> u16 {
        match self {
            Service::GenericAccess => 0x1800,
            Service::GenericAttribute => 0x1801,
            Service::DeviceInformation => 0x180A,
            Service::Battery => 0x180F,
            Service::EnvironmentalSensing => 0x181A,
        }
    }

    /// Whether sensors cannot be reached without the service.
    pub open spec fn required(self) -> bool {
        self == Service::GenericAccess || self == Service::GenericAttribute
    }

    /// How the service is named in the report.
    pub open spec fn description(self) -> Seq<char> {
        match self {
            Service::GenericAccess => "Generic Access (required)"@,
            Service::GenericAttribute => "Generic Attribute / GATT (required)"@,
            Service::DeviceInformation => "Device Information (optional)"@,
            Service::Battery => "Battery Service (optional)"@,
            Service::EnvironmentalSensing => "Environmental Sensing (optional)"@,
        }
    }

    fn short_of(self) -> (short: u16)
        ensures
            short == self.short(),
    {
        match self {
            Service::GenericAccess => 0x1800,
            Service::GenericAttribute => 0x1801,
            Service::DeviceInformation => 0x180A,
            Service::Battery => 0x180F,
            Service::EnvironmentalSensing => 0x181A,
        }
    }

    fn description_str(self) -> (s: &'static str)
        ensures
            s@ == self.description(),
    {
        match self {
            Service::GenericAccess => "Generic Access (required)",
            Service::GenericAttribute => "Generic Attribute / GATT (required)",
            Service::DeviceInformation => "Device Information (optional)",
            Service::Battery => "Battery Service (optional)",
            Service::EnvironmentalSensing => "Environmental Sensing (optional)",
        }
    }
}

/// The services asked about, in the order of the report.
pub open spec fn services() -> Seq<Service> {
    seq![
        Service::GenericAccess,
        Service::GenericAttribute,
        Service::DeviceInformation,
        Service::Battery,
        Service::EnvironmentalSensing,
    ]
}

/// The 16-bit number inside a 128-bit service identifier: its bits 96 to 111, which
/// the identifier's text shows as its fifth to eighth hexadecimal digit.
pub open spec fn uuid_short(uuid: u128) -> int {
    uuid as int / 0x1_0000_0000_0000_0000_0000_0000 % 0x1_0000
}

/// Whether one of `uuids` carries the number of `service`.
pub open spec fn supports(uuids: Seq<u128>, service: Service) -> bool {
    exists|i: int| 0 <= i < uuids.len() && uuid_short(uuids[i]) == service.short()
}

/// Whether every required service is among `uuids`.
pub open spec fn all_required_supported(uuids: Seq<u128>) -> bool {
    forall|service: Service| service.required() ==> supports(uuids, service)
}

/// What the adapter answered when asked for its services.
#[derive(Debug, PartialEq, Eq)]
pub enum AdapterServices {
    /// The 128-bit identifiers of the services.
    Reported(Vec<u128>),
    NoneReported,
    /// The query failed with this error.
    Failed(String),
}

/// What the adapter says of itself, as it was read.
#[derive(Debug, PartialEq, Eq)]
pub struct AdapterInfo {
    pub name: String,
    /// The adapter's address, or the error of asking for it.
    pub address: Result<SensorId, String>,
    pub powered: bool,
    pub discoverable: bool,
    pub pairable: bool,
    pub discoverable_timeout: u32,
    pub pairable_timeout: u32,
    pub services: AdapterServices,
}

/// `text`, filled up with spaces on the right to `width` characters.
pub open spec fn padded(text: Seq<char>, width: nat) -> Seq<char> {
    if text.len() < width {
        text + repeated(" "@, (width - text.len()) as nat)
    } else {
        text
    }
}

/// The row of one service: its description in a column of 25 and whether the
/// adapter has it.
pub open spec fn service_text(uuids: Seq<u128>, service: Service) -> Seq<char> {
    "    "@ + padded(service.description(), 25) + " "@ + if supports(uuids, service) {
        "supported"@
    } else {
        "missing"@
    }
}

/// The lines on the adapter's services.
pub open spec fn services_text(answer: AdapterServices) -> Seq<Seq<char>> {
    match answer {
        AdapterServices::Reported(uuids) => seq!["  BLE Services:"@] + services().map_values(
            |service: Service| service_text(uuids@, service),
        ) + seq![
            if all_required_supported(uuids@) {
                "  All required BLE services are supported ✅"@
            } else {
                "  ⚠️ Some required BLE services are missing. BLE devices may not be reachable."@
            },
        ],
        AdapterServices::NoneReported => seq!["  BLE Services: None reported"@],
        AdapterServices::Failed(error) => seq!["  BLE Services: <error: "@ + error@ + ">"@],
    }
}

/// The line on the adapter's address.
pub open spec fn address_text(address: Result<SensorId, String>) -> Seq<char> {
    match address {
        Ok(id) => "  Address:        "@ + id.text(),
        Err(error) => "  Address:        <error: "@ + error@ + ">"@,
    }
}

/// The report on the adapter, between two separator lines.
pub open spec fn adapter_text(info: AdapterInfo) -> Seq<Seq<char>> {
    seq![
        repeated("-"@, SEPARATOR_LENGTH as nat),
        "Bluetooth Adapter Info:"@,
        "  Name:           "@ + info.name@,
        address_text(info.address),
        "  Powered:        "@ + bool_text(info.powered),
        "  Discoverable:   "@ + bool_text(info.discoverable),
        "  Pairable:       "@ + bool_text(info.pairable),
        "  Discoverable timeout: "@ + decimal(info.discoverable_timeout as nat),
        "  Pairable timeout:     "@ + decimal(info.pairable_timeout as nat),
    ] + services_text(info.services) + seq![repeated("-"@, SEPARATOR_LENGTH as nat)]
}

/// Whether the adapter has `service`.
pub fn is_supported(uuids: &[u128], service: Service) -> (found: bool)
    ensures
        found == supports(uuids@, service),
{
    let wanted = service.short_of();
    let mut i: usize = 0;
    while i < uuids.len()
        invariant
            i <= uuids@.len(),
            wanted == service.short(),
            forall|j: int| 0 <= j < i ==> uuid_short(uuids@[j]) != wanted,
        decreases uuids@.len() - i,
    {
        let short = uuids[i] / 0x1_0000_0000_0000_0000_0000_0000 % 0x1_0000;
        if short == wanted as u128 {
            return true;
        }
        i += 1;
    }
    false
}

fn pad(text: &str, width: usize) -> (line: String)
    ensures
        line@ == padded(text@, width as nat),
{
    let mut line = String::from_str(text);
    let len = text.unicode_len();
    if len < width {
        line.append(repeat(" ", width - len).as_str());
    }
    line
}

fn service_line(uuids: &[u128], service: Service) -> (line: String)
    ensures
        line@ == service_text(uuids@, service),
{
    let mut line = String::from_str("    ");
    line.append(pad(service.description_str(), 25).as_str());
    line.append(" ");
    if is_supported(uuids, service) {
        line.append("supported");
    } else {
        line.append("missing");
    }
    line
}

/// The lines on the adapter's services: one row for each service asked about and a
/// closing line that says whether the required ones are all there, or one line
/// where the adapter reported none or the query failed.
pub fn service_info(answer: &AdapterServices) -> (lines: Vec<String>)
    ensures
        texts(lines@) == services_text(*answer),
{
    let mut lines: Vec<String> = Vec::new();
    match answer {
        AdapterServices::Reported(uuids) => {
            let uuids = uuids.as_slice();
            lines.push(String::from_str("  BLE Services:"));
            lines.push(service_line(uuids, Service::GenericAccess));
            lines.push(service_line(uuids, Service::GenericAttribute));
            lines.push(service_line(uuids, Service::DeviceInformation));
            lines.push(service_line(uuids, Service::Battery));
            lines.push(service_line(uuids, Service::EnvironmentalSensing));
            let complete = is_supported(uuids, Service::GenericAccess) && is_supported(
                uuids,
                Service::GenericAttribute,
            );
            assert(complete == all_required_supported(uuids@)) by {
                assert(Service::GenericAccess.required());
                assert(Service::GenericAttribute.required());
            }
            if complete {
                lines.push(String::from_str("  All required BLE services are supported ✅"));
            } else {
                lines.push(
                    String::from_str(
                        "  ⚠️ Some required BLE services are missing. BLE devices may not be reachable.",
                    ),
                );
            }
        },
        AdapterServices::NoneReported => {
            lines.push(String::from_str("  BLE Services: None reported"));
        },
        AdapterServices::Failed(error) => {
            let mut line = String::from_str("  BLE Services: <error: ");
            line.append(error.as_str());
            line.append(">");
            lines.push(line);
        },
    }
    assert(texts(lines@) =~= services_text(*answer));
    lines
}

fn labelled(label: &str, value: &str) -> (line: String)
    ensures
        line@ == label@ + value@,
{
    let mut line = String::from_str(label);
    line.append(value);
    line
}

fn numbered(label: &str, value: u32) -> (line: String)
    ensures
        line@ == label@ + decimal(value as nat),
{
    let mut line = String::from_str(label);
    push_decimal(&mut line, value as u64);
    line
}

fn address_line(address: &Result<SensorId, String>) -> (line: String)
    ensures
        line@ == address_text(*address),
{
    match address {
        Ok(id) => labelled("  Address:        ", id.to_text().as_str()),
        Err(error) => {
            let mut line = labelled("  Address:        <error: ", error.as_str());
            line.append(">");
            line
        },
    }
}

/// The lines of the report on the adapter.
pub fn adapter_info(info: &AdapterInfo) -> (lines: Vec<String>)
    ensures
        texts(lines@) == adapter_text(*info),
{
    let mut lines: Vec<String> = Vec::new();
    lines.push(repeat("-", SEPARATOR_LENGTH));
    lines.push(String::from_str("Bluetooth Adapter Info:"));
    lines.push(labelled("  Name:           ", info.name.as_str()));
    lines.push(address_line(&info.address));
    lines.push(labelled("  Powered:        ", bool_str(info.powered)));
    lines.push(labelled("  Discoverable:   ", bool_str(info.discoverable)));
    lines.push(labelled("  Pairable:       ", bool_str(info.pairable)));
    lines.push(numbered("  Discoverable timeout: ", info.discoverable_timeout));
    lines.push(numbered("  Pairable timeout:     ", info.pairable_timeout));
    let ghost head = lines@;
    let mut rows = service_info(&info.services);
    let ghost body = rows@;
    lines.append(&mut rows);
    lines.push(repeat("-", SEPARATOR_LENGTH));
    assert(lines@ =~= head + body + seq![lines@[lines@.len() - 1]]);
    assert(texts(lines@) =~= adapter_text(*info));
    lines
}

} // verus!
