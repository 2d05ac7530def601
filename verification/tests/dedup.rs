use ruuvi_mqtt::dedup::{same_bytes, DedupCache};
use ruuvi_mqtt::sensor_id::SensorId;

#[test]
fn same_payload_twice_is_a_duplicate_the_second_time() {
    let id = SensorId::new([1, 2, 3, 4, 5, 6]);
    let mut cache = DedupCache::new();
    assert!(!cache.is_duplicate_and_record(&id, &[5, 1, 2, 3]));
    assert!(cache.is_duplicate_and_record(&id, &[5, 1, 2, 3]));
    assert!(cache.is_duplicate_and_record(&id, &[5, 1, 2, 3]));
    assert!(!cache.is_duplicate_and_record(&id, &[5, 1, 2, 4]));
    assert!(cache.is_duplicate_and_record(&id, &[5, 1, 2, 4]));
    assert!(!cache.is_duplicate_and_record(&id, &[5, 1, 2, 3]));
}

#[test]
fn sensors_do_not_share_entries() {
    let a = SensorId::new([1, 2, 3, 4, 5, 6]);
    let b = SensorId::new([6, 5, 4, 3, 2, 1]);
    let mut cache = DedupCache::new();
    assert!(!cache.is_duplicate_and_record(&a, &[9, 9]));
    assert!(!cache.is_duplicate_and_record(&b, &[9, 9]));
    assert!(cache.is_duplicate_and_record(&a, &[9, 9]));
    assert!(!cache.is_duplicate_and_record(&b, &[9]));
    assert!(cache.is_duplicate_and_record(&a, &[9, 9]));
}

#[test]
fn empty_and_prefix_payloads_differ() {
    let id = SensorId::new([0; 6]);
    let mut cache = DedupCache::new();
    assert!(!cache.is_duplicate_and_record(&id, &[]));
    assert!(cache.is_duplicate_and_record(&id, &[]));
    assert!(!cache.is_duplicate_and_record(&id, &[0]));
    assert!(!cache.is_duplicate_and_record(&id, &[0, 0]));
}

#[test]
fn same_bytes_compares_byte_for_byte() {
    assert!(same_bytes(&[], &[]));
    assert!(same_bytes(&[1, 2, 3], &[1, 2, 3]));
    assert!(!same_bytes(&[1, 2, 3], &[1, 2]));
    assert!(!same_bytes(&[1, 2, 3], &[1, 2, 4]));
    assert!(!same_bytes(&[0, 2, 3], &[1, 2, 3]));
}
