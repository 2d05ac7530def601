use ruuvi_mqtt::config::SensorConfig;
use ruuvi_mqtt::filter::{is_allowed, screen, Verdict};
use ruuvi_mqtt::sensor_id::SensorId;
use ruuvi_mqtt::sensor_set::SensorSet;

fn tag() -> SensorId {
    SensorId::new([0xAA, 0xBB, 0xCC, 0xDD, 0xEE, 0xFF])
}

fn other() -> SensorId {
    SensorId::new([0x11, 0x22, 0x33, 0x44, 0x55, 0x66])
}

fn set_of(ids: &[SensorId]) -> SensorSet {
    let mut set = SensorSet::new();
    for id in ids {
        set.insert(*id);
    }
    set
}

fn config(allow: &[SensorId], use_allow: bool, deny: &[SensorId], use_deny: bool) -> SensorConfig {
    SensorConfig {
        blacklist: set_of(deny),
        use_blacklist: use_deny,
        whitelist: set_of(allow),
        use_whitelist: use_allow,
        debug_print: false,
    }
}

#[test]
fn everything_is_allowed_while_both_lists_are_off() {
    let cfg = config(&[other()], false, &[tag()], false);
    assert!(is_allowed(&tag(), &cfg));
    assert!(is_allowed(&other(), &cfg));
    assert!(is_allowed(&SensorId::new([0; 6]), &cfg));
    let empty = config(&[], false, &[], false);
    assert!(is_allowed(&tag(), &empty));
}

#[test]
fn allow_list_alone_excludes_what_is_not_on_it() {
    let cfg = config(&[tag()], true, &[], false);
    assert!(is_allowed(&tag(), &cfg));
    assert!(!is_allowed(&other(), &cfg));
    assert_eq!(screen(&other(), &cfg), Verdict::BlockedByWhitelist);
    let none = config(&[], true, &[], false);
    assert!(!is_allowed(&tag(), &none));
}

#[test]
fn deny_list_alone_excludes_exactly_what_is_on_it() {
    let cfg = config(&[], false, &[tag()], true);
    assert!(!is_allowed(&tag(), &cfg));
    assert!(is_allowed(&other(), &cfg));
    assert_eq!(screen(&tag(), &cfg), Verdict::BlockedByBlacklist);
    assert_eq!(screen(&other(), &cfg), Verdict::Allowed);
}

#[test]
fn allow_listed_sensor_is_allowed() {
    let cfg = config(&[tag()], true, &[tag()], false);
    assert!(is_allowed(&tag(), &cfg));
    assert_eq!(screen(&tag(), &cfg), Verdict::Allowed);
}

#[test]
fn deny_listed_sensor_is_dropped_whatever_the_allow_list_says() {
    for use_allow in [false, true] {
        for on_allow in [false, true] {
            let allow = if on_allow { vec![tag()] } else { vec![] };
            let cfg = config(&allow, use_allow, &[tag()], true);
            assert!(!is_allowed(&tag(), &cfg));
        }
    }
}

#[test]
fn allow_list_is_asked_before_the_deny_list() {
    let cfg = config(&[other()], true, &[tag()], true);
    assert_eq!(screen(&tag(), &cfg), Verdict::BlockedByWhitelist);
    let cfg = config(&[tag()], true, &[tag()], true);
    assert_eq!(screen(&tag(), &cfg), Verdict::BlockedByBlacklist);
}
