use blaze_ftc::telemetry::{find_entry, TelemetryCache};

#[test]
fn new_value_replaces_entry_of_its_name() {
    let mut cache: TelemetryCache<i64> = TelemetryCache::new();
    assert_eq!(cache.put("x".to_string(), 1), 0);
    assert_eq!(cache.put("y".to_string(), 2), 1);
    assert_eq!(cache.put("x".to_string(), 3), 0);
    assert_eq!(cache.len(), 2);
    assert_eq!(cache.entries(), &vec![("x".to_string(), 3i64), ("y".to_string(), 2i64)]);
}

#[test]
fn cleared_cache_is_empty() {
    let mut cache: TelemetryCache<i64> = TelemetryCache::new();
    cache.put("x".to_string(), 1);
    cache.clear();
    assert_eq!(cache.len(), 0);
    assert_eq!(cache.put("x".to_string(), 5), 0);
}

#[test]
fn find_entry_gives_first_position() {
    let entries = vec![("a".to_string(), 1u8), ("b".to_string(), 2u8)];
    assert_eq!(find_entry(&entries, &"b".to_string()), Some(1));
    assert_eq!(find_entry(&entries, &"c".to_string()), None);
}
