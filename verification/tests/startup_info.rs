use ruuvi_mqtt::config::{Config, MqttConfig, PublishConfig, SensorConfig};
use ruuvi_mqtt::sensor_id::SensorId;
use ruuvi_mqtt::sensor_set::SensorSet;
use ruuvi_mqtt::startup_info::{
    adapter_info, is_supported, service_info, startup_info, version_info, AdapterInfo,
    AdapterServices, Service, SEPARATOR_LENGTH,
};
use ruuvi_mqtt::text::{repeat, to_decimal};

fn config(username: Option<&str>, password: Option<&str>) -> Config {
    let mut whitelist = SensorSet::new();
    whitelist.insert(SensorId::new([1, 2, 3, 4, 5, 6]));
    whitelist.insert(SensorId::new([1, 2, 3, 4, 5, 7]));
    Config {
        mqtt: MqttConfig {
            host: "broker.local".to_string(),
            port: 1883,
            username: username.map(str::to_string),
            password: password.map(str::to_string),
        },
        sensors: SensorConfig {
            blacklist: SensorSet::new(),
            use_blacklist: true,
            whitelist,
            use_whitelist: false,
            debug_print: true,
        },
        publish: PublishConfig { discovery: true, decoded_data: false, raw_data: true },
    }
}

fn uuid(short: u16) -> u128 {
    0x0000_0000_0000_1000_8000_0080_5f9b_34fb | (u128::from(short) << 96)
}

#[test]
fn decimal_has_no_leading_zeros() {
    assert_eq!(to_decimal(0), "0");
    assert_eq!(to_decimal(7), "7");
    assert_eq!(to_decimal(10), "10");
    assert_eq!(to_decimal(1883), "1883");
    assert_eq!(to_decimal(65535), "65535");
    assert_eq!(to_decimal(u64::MAX), "18446744073709551615");
}

#[test]
fn repeat_repeats() {
    assert_eq!(repeat("=", 0), "");
    assert_eq!(repeat("-", 3), "---");
    assert_eq!(repeat("ab", 2), "abab");
    assert_eq!(SEPARATOR_LENGTH, 50);
}

#[test]
fn version_banner_is_framed() {
    assert_eq!(
        version_info("1.2.3"),
        vec!["=".repeat(50), "Ruuvi Rust MQTT v1.2.3".to_string(), "=".repeat(50)]
    );
}

#[test]
fn settings_are_listed_and_the_password_is_hidden() {
    assert_eq!(
        startup_info(&config(Some("user"), Some("secret"))),
        vec![
            "MQTT: broker.local:1883 (username: user, password: ****)".to_string(),
            "Whitelist: disabled (2)".to_string(),
            "Blacklist: enabled".to_string(),
            "Debug print: enabled".to_string(),
            "Discovery publishing: enabled".to_string(),
            "Decoded data publishing: disabled".to_string(),
            "Raw data publishing: enabled".to_string(),
            "-".repeat(50),
        ]
    );
}

#[test]
fn missing_and_empty_credentials_show_as_none() {
    let line = |u, p| startup_info(&config(u, p)).remove(0);
    assert_eq!(line(None, None), "MQTT: broker.local:1883 (username: <none>, password: <none>)");
    assert_eq!(
        line(Some(""), Some("")),
        "MQTT: broker.local:1883 (username: <none>, password: <none>)"
    );
    assert_eq!(
        line(Some("me"), None),
        "MQTT: broker.local:1883 (username: me, password: <none>)"
    );
    assert_eq!(
        line(None, Some("x")),
        "MQTT: broker.local:1883 (username: <none>, password: ****)"
    );
}

#[test]
fn service_is_found_by_its_short_number() {
    let uuids = vec![uuid(0x1800), uuid(0x180a)];
    assert_eq!(format!("{:032x}", uuids[0]), "0000180000001000800000805f9b34fb");
    assert!(is_supported(&uuids, Service::GenericAccess));
    assert!(!is_supported(&uuids, Service::GenericAttribute));
    assert!(is_supported(&uuids, Service::DeviceInformation));
    assert!(!is_supported(&uuids, Service::Battery));
    assert!(!is_supported(&uuids, Service::EnvironmentalSensing));
    assert!(!is_supported(&[], Service::GenericAccess));
    assert!(is_supported(&[0xffff_1801_ffff_ffff_ffff_ffff_ffff_ffff], Service::GenericAttribute));
}

#[test]
fn services_are_listed_with_a_verdict() {
    let all = AdapterServices::Reported(vec![
        uuid(0x181a),
        uuid(0x180f),
        uuid(0x1801),
        uuid(0x1800),
        uuid(0x180a),
    ]);
    assert_eq!(
        service_info(&all),
        vec![
            "  BLE Services:",
            "    Generic Access (required) supported",
            "    Generic Attribute / GATT (required) supported",
            "    Device Information (optional) supported",
            "    Battery Service (optional) supported",
            "    Environmental Sensing (optional) supported",
            "  All required BLE services are supported ✅",
        ]
    );
    let some = AdapterServices::Reported(vec![uuid(0x1800), uuid(0x180f)]);
    assert_eq!(
        service_info(&some),
        vec![
            "  BLE Services:",
            "    Generic Access (required) supported",
            "    Generic Attribute / GATT (required) missing",
            "    Device Information (optional) missing",
            "    Battery Service (optional) supported",
            "    Environmental Sensing (optional) missing",
            "  ⚠️ Some required BLE services are missing. BLE devices may not be reachable.",
        ]
    );
    for row in service_info(&some).iter().skip(1).take(5) {
        let description = row.trim_start().rsplit_once(' ').unwrap().0;
        assert_eq!(format!("    {:<25}", description), format!("    {}", description));
    }
}

#[test]
fn no_services_and_failed_query_take_one_line() {
    assert_eq!(service_info(&AdapterServices::NoneReported), vec!["  BLE Services: None reported"]);
    assert_eq!(
        service_info(&AdapterServices::Failed("timed out".to_string())),
        vec!["  BLE Services: <error: timed out>"]
    );
}

#[test]
fn adapter_report_is_framed() {
    let info = AdapterInfo {
        name: "hci0".to_string(),
        address: Ok(SensorId::new([0x00, 0x1A, 0x7D, 0xDA, 0x71, 0x13])),
        powered: true,
        discoverable: false,
        pairable: true,
        discoverable_timeout: 180,
        pairable_timeout: 0,
        services: AdapterServices::NoneReported,
    };
    assert_eq!(
        adapter_info(&info),
        vec![
            "-".repeat(50),
            "Bluetooth Adapter Info:".to_string(),
            "  Name:           hci0".to_string(),
            "  Address:        00:1A:7D:DA:71:13".to_string(),
            "  Powered:        true".to_string(),
            "  Discoverable:   false".to_string(),
            "  Pairable:       true".to_string(),
            "  Discoverable timeout: 180".to_string(),
            "  Pairable timeout:     0".to_string(),
            "  BLE Services: None reported".to_string(),
            "-".repeat(50),
        ]
    );
    let failed = AdapterInfo { address: Err("no such adapter".to_string()), ..info };
    assert_eq!(adapter_info(&failed)[3], "  Address:        <error: no such adapter>");
}
