use ruuvi_mqtt::config::{Config, MqttConfig, PublishConfig, SensorConfig};
use ruuvi_mqtt::decode_ruuvi::DecodedReading;
use ruuvi_mqtt::filter::Verdict;
use ruuvi_mqtt::ingest::{
    extract_ruuvi_payload, Action, AdvertisementEvent, Pipeline, RUUVI_COMPANY_ID,
};
use ruuvi_mqtt::sensor_id::SensorId;
use ruuvi_mqtt::sensor_set::SensorSet;
use std::collections::HashMap;

fn tag() -> SensorId {
    SensorId::new([0xAA, 0xBB, 0xCC, 0xDD, 0xEE, 0xFF])
}

fn other() -> SensorId {
    SensorId::new([0x11, 0x22, 0x33, 0x44, 0x55, 0x66])
}

fn config(debug_print: bool, discovery: bool, decoded_data: bool, raw_data: bool) -> Config {
    Config {
        mqtt: MqttConfig { host: "localhost".to_string(), port: 1883, username: None, password: None },
        sensors: SensorConfig {
            blacklist: SensorSet::new(),
            use_blacklist: false,
            whitelist: SensorSet::new(),
            use_whitelist: false,
            debug_print,
        },
        publish: PublishConfig { discovery, decoded_data, raw_data },
    }
}

fn payload(last: u8) -> Vec<u8> {
    vec![5, 0x01, 0xF4, 0x27, 0x10, 0x03, 0xE8, 0, 0, 0, 0, 0, 0, 0x03, last]
}

fn reading(last: u8) -> DecodedReading {
    DecodedReading {
        temperature: 500,
        humidity: 10000,
        pressure: 51000,
        battery: 1600 + 0x300 + u16::from(last),
    }
}

fn count(actions: &[Action], wanted: fn(&Action) -> bool) -> usize {
    actions.iter().filter(|a| wanted(a)).count()
}

fn is_raw(a: &Action) -> bool {
    matches!(a, Action::PublishRaw)
}

fn is_decoded(a: &Action) -> bool {
    matches!(a, Action::PublishDecoded(_))
}

fn is_discovery(a: &Action) -> bool {
    matches!(a, Action::SendDiscovery)
}

#[test]
fn company_id_is_the_vendors() {
    assert_eq!(RUUVI_COMPANY_ID, 0x0499);
}

#[test]
fn payload_is_taken_from_the_vendors_entry() {
    let mut data: HashMap<u16, Vec<u8>> = HashMap::new();
    assert_eq!(extract_ruuvi_payload(&data), None);
    data.insert(0x004C, vec![1, 2, 3]);
    assert_eq!(extract_ruuvi_payload(&data), None);
    data.insert(0x0499, vec![5, 6, 7]);
    assert_eq!(extract_ruuvi_payload(&data), Some(vec![5, 6, 7]));
}

#[test]
fn only_an_added_device_asks_for_a_lookup() {
    let pipeline = Pipeline::new(config(false, true, true, true));
    assert_eq!(pipeline.handle_event(&AdvertisementEvent::DeviceAdded(tag())), Some(tag()));
    assert_eq!(pipeline.handle_event(&AdvertisementEvent::DeviceRemoved(tag())), None);
    assert_eq!(pipeline.handle_event(&AdvertisementEvent::PropertyChanged), None);
}

#[test]
fn first_payload_announces_then_publishes_raw_then_decoded() {
    let mut pipeline = Pipeline::new(config(false, true, true, true));
    assert_eq!(
        pipeline.handle_payload(&tag(), &payload(0xE8)),
        vec![
            Action::ReportNewSensor,
            Action::SendDiscovery,
            Action::PublishRaw,
            Action::PublishDecoded(reading(0xE8)),
        ]
    );
}

#[test]
fn reporting_adds_the_reading_before_its_publish() {
    let mut pipeline = Pipeline::new(config(true, true, true, true));
    assert_eq!(
        pipeline.handle_payload(&tag(), &payload(1)),
        vec![
            Action::ReportNewSensor,
            Action::SendDiscovery,
            Action::PublishRaw,
            Action::ReportReading(reading(1)),
            Action::PublishDecoded(reading(1)),
        ]
    );
}

#[test]
fn two_identical_payloads_publish_once() {
    let mut pipeline = Pipeline::new(config(false, true, true, true));
    let mut actions = pipeline.handle_payload(&tag(), &payload(0xE8));
    actions.extend(pipeline.handle_payload(&tag(), &payload(0xE8)));
    assert_eq!(count(&actions, is_raw), 1);
    assert_eq!(count(&actions, is_decoded), 1);
    assert_eq!(count(&actions, is_discovery), 1);
    assert_eq!(pipeline.handle_payload(&tag(), &payload(0xE8)), vec![]);
}

#[test]
fn discovery_fires_once_however_many_payloads_follow() {
    let mut pipeline = Pipeline::new(config(false, true, true, true));
    let mut announced = 0;
    let mut raw = 0;
    for round in 0..40u8 {
        let actions = pipeline.handle_payload(&tag(), &payload(round / 2));
        announced += count(&actions, is_discovery);
        raw += count(&actions, is_raw);
        let actions = pipeline.handle_payload(&other(), &payload(round));
        announced += count(&actions, is_discovery);
    }
    assert_eq!(announced, 2);
    assert_eq!(raw, 20);
}

#[test]
fn a_changed_payload_is_published_without_a_new_announcement() {
    let mut pipeline = Pipeline::new(config(false, true, true, true));
    pipeline.handle_payload(&tag(), &payload(1));
    assert_eq!(
        pipeline.handle_payload(&tag(), &payload(2)),
        vec![Action::PublishRaw, Action::PublishDecoded(reading(2))]
    );
}

#[test]
fn switches_leave_out_their_actions() {
    let mut pipeline = Pipeline::new(config(false, false, false, false));
    assert_eq!(pipeline.handle_payload(&tag(), &payload(1)), vec![Action::ReportNewSensor]);
    assert_eq!(pipeline.handle_payload(&tag(), &payload(2)), vec![]);
    let mut pipeline = Pipeline::new(config(false, false, false, true));
    assert_eq!(
        pipeline.handle_payload(&tag(), &payload(1)),
        vec![Action::ReportNewSensor, Action::PublishRaw]
    );
    let mut pipeline = Pipeline::new(config(false, false, true, false));
    assert_eq!(
        pipeline.handle_payload(&tag(), &payload(1)),
        vec![Action::ReportNewSensor, Action::PublishDecoded(reading(1))]
    );
}

#[test]
fn a_payload_that_does_not_decode_is_still_published_raw() {
    let mut quiet = Pipeline::new(config(false, true, true, true));
    assert_eq!(
        quiet.handle_payload(&tag(), &[3, 1, 2]),
        vec![Action::ReportNewSensor, Action::SendDiscovery, Action::PublishRaw]
    );
    let mut verbose = Pipeline::new(config(true, true, true, true));
    assert_eq!(
        verbose.handle_payload(&tag(), &[3, 1, 2]),
        vec![
            Action::ReportNewSensor,
            Action::SendDiscovery,
            Action::PublishRaw,
            Action::ReportDecodeFailure,
        ]
    );
}

#[test]
fn a_filtered_sensor_changes_nothing() {
    let mut cfg = config(true, true, true, true);
    cfg.sensors.use_blacklist = true;
    cfg.sensors.blacklist.insert(tag());
    let mut pipeline = Pipeline::new(cfg);
    assert_eq!(
        pipeline.handle_payload(&tag(), &payload(1)),
        vec![Action::ReportBlocked(Verdict::BlockedByBlacklist)]
    );
    assert_eq!(
        pipeline.handle_payload(&tag(), &payload(1)),
        vec![Action::ReportBlocked(Verdict::BlockedByBlacklist)]
    );
    assert!(!pipeline.known.contains(&tag()));
    assert_eq!(pipeline.handle_payload(&other(), &payload(1)).len(), 5);

    let mut cfg = config(false, true, true, true);
    cfg.sensors.use_whitelist = true;
    cfg.sensors.whitelist.insert(other());
    let mut pipeline = Pipeline::new(cfg);
    assert_eq!(pipeline.handle_payload(&tag(), &payload(1)), vec![]);
    assert_eq!(pipeline.handle_payload(&other(), &payload(1)).len(), 4);
}
