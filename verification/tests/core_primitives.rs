use synchole::clock::{HybridLogicalClock, Timestamp};
use synchole::version::{Causality, VersionVector};
use synchole::DeviceId;

#[test]
fn clock_ticks_logically_when_wall_time_does_not_advance() {
    let mut clock = HybridLogicalClock::new(DeviceId::from("a"));

    assert_eq!(clock.tick(10).logical, 0);
    assert_eq!(clock.tick(10).logical, 1);
    assert_eq!(clock.tick(9).logical, 2);
}

#[test]
fn detects_concurrent_updates() {
    let mut a = VersionVector::new();
    let mut b = VersionVector::new();
    a.increment(DeviceId::from("a"));
    b.increment(DeviceId::from("b"));

    assert_eq!(a.compare(&b), Causality::Concurrent);
}

#[test]
fn clock_adopts_advancing_wall_time() {
    let mut clock = HybridLogicalClock::new(DeviceId::from("a"));
    assert_eq!(clock.tick(5), Timestamp { wall_time_ms: 5, logical: 0 });
    assert_eq!(clock.tick(5), Timestamp { wall_time_ms: 5, logical: 1 });
    assert_eq!(clock.tick(7), Timestamp { wall_time_ms: 7, logical: 0 });
    assert_eq!(clock.last(), Timestamp { wall_time_ms: 7, logical: 0 });
    assert_eq!(clock.device_id().as_str(), "a");
}

#[test]
fn clock_logical_counter_saturates() {
    let mut clock = HybridLogicalClock::new(DeviceId::from("a"));
    clock.observe(Timestamp { wall_time_ms: 3, logical: u32::MAX }, 1);
    assert_eq!(clock.last(), Timestamp { wall_time_ms: 3, logical: u32::MAX });
    assert_eq!(clock.tick(3), Timestamp { wall_time_ms: 3, logical: u32::MAX });
}

#[test]
fn clock_observe_moves_past_both_timestamps() {
    let mut clock = HybridLogicalClock::new(DeviceId::from("a"));
    clock.tick(10);
    clock.tick(10);
    // same wall time on both sides: larger logical counter plus one
    assert_eq!(
        clock.observe(Timestamp { wall_time_ms: 10, logical: 7 }, 4),
        Timestamp { wall_time_ms: 10, logical: 8 }
    );
    // local wall time is largest
    assert_eq!(
        clock.observe(Timestamp { wall_time_ms: 2, logical: 50 }, 3),
        Timestamp { wall_time_ms: 10, logical: 9 }
    );
    // remote wall time is largest
    assert_eq!(
        clock.observe(Timestamp { wall_time_ms: 20, logical: 4 }, 15),
        Timestamp { wall_time_ms: 20, logical: 5 }
    );
    // physical clock is ahead of both
    assert_eq!(
        clock.observe(Timestamp { wall_time_ms: 21, logical: 4 }, 30),
        Timestamp { wall_time_ms: 30, logical: 0 }
    );
}

#[test]
fn timestamp_default_is_zero() {
    assert_eq!(Timestamp::default(), Timestamp { wall_time_ms: 0, logical: 0 });
}

#[test]
fn version_vector_increment_and_get() {
    let mut v = VersionVector::new();
    assert_eq!(v.get(&DeviceId::from("a")), 0);
    assert_eq!(v.increment(DeviceId::from("a")), 1);
    assert_eq!(v.increment(DeviceId::from("a")), 2);
    assert_eq!(v.increment(DeviceId::from("b")), 1);
    assert_eq!(v.get(&DeviceId::from("a")), 2);
    assert_eq!(v.get(&DeviceId::from("b")), 1);
    assert_eq!(v.get(&DeviceId::from("c")), 0);
    assert_eq!(v.entries().len(), 2);
}

#[test]
fn version_vector_compare_cases() {
    let empty = VersionVector::new();
    let mut a = VersionVector::new();
    a.increment(DeviceId::from("a"));
    let mut a2 = a.clone();
    a2.increment(DeviceId::from("a"));

    assert_eq!(empty.compare(&empty), Causality::Equal);
    assert_eq!(a.compare(&a), Causality::Equal);
    assert_eq!(empty.compare(&a), Causality::Before);
    assert_eq!(a.compare(&empty), Causality::After);
    assert_eq!(a.compare(&a2), Causality::Before);
    assert_eq!(a2.compare(&a), Causality::After);

    // an explicit zero counts like an absent device
    let zero = VersionVector::from_entries(&vec![(DeviceId::from("z"), 0)]);
    assert_eq!(zero.compare(&empty), Causality::Equal);
    assert!(zero != empty);
}

#[test]
fn version_vector_merge_takes_larger_counters() {
    let mut a = VersionVector::from_entries(&vec![(DeviceId::from("a"), 3), (DeviceId::from("b"), 1)]);
    let b = VersionVector::from_entries(&vec![(DeviceId::from("b"), 4), (DeviceId::from("c"), 2)]);
    a.merge(&b);
    assert_eq!(a.get(&DeviceId::from("a")), 3);
    assert_eq!(a.get(&DeviceId::from("b")), 4);
    assert_eq!(a.get(&DeviceId::from("c")), 2);
    assert_eq!(a.compare(&b), Causality::After);
    let expected = VersionVector::from_entries(&vec![
        (DeviceId::from("c"), 2),
        (DeviceId::from("a"), 3),
        (DeviceId::from("b"), 4),
    ]);
    assert!(a == expected);

    // merging is idempotent and commutative
    let mut twice = a.clone();
    twice.merge(&b);
    assert!(twice == a);
    let mut other_way = b.clone();
    other_way.merge(&VersionVector::from_entries(&vec![(DeviceId::from("a"), 3), (DeviceId::from("b"), 1)]));
    assert!(other_way == a);
}

#[test]
fn version_vector_merge_inserts_zero_counters() {
    let mut a = VersionVector::new();
    let b = VersionVector::from_entries(&vec![(DeviceId::from("q"), 0)]);
    a.merge(&b);
    assert_eq!(a.entries().len(), 1);
    assert_eq!(a.entries()[0].0.as_str(), "q");
}

#[test]
fn version_vector_from_entries_last_pair_wins() {
    let v = VersionVector::from_entries(&vec![(DeviceId::from("a"), 5), (DeviceId::from("a"), 2)]);
    assert_eq!(v.get(&DeviceId::from("a")), 2);
    assert_eq!(v.entries().len(), 1);
}

#[test]
fn version_vector_counter_saturates() {
    let mut v = VersionVector::from_entries(&vec![(DeviceId::from("a"), u64::MAX)]);
    assert_eq!(v.increment(DeviceId::from("a")), u64::MAX);
}

#[test]
fn version_vector_lists_devices_in_order() {
    let mut v = VersionVector::new();
    v.increment(DeviceId::from("pixel"));
    v.increment(DeviceId::from("ipad"));
    v.increment(DeviceId::from("mac"));
    v.increment(DeviceId::from("Zune"));
    v.increment(DeviceId::from("ipad"));
    let listed: Vec<(&str, u64)> = v.entries().iter().map(|(d, c)| (d.as_str(), *c)).collect();
    assert_eq!(listed, vec![("Zune", 1), ("ipad", 2), ("mac", 1), ("pixel", 1)]);

    let other = VersionVector::from_entries(&vec![
        (DeviceId::from("watch"), 3),
        (DeviceId::from("ipa"), 1),
        (DeviceId::from("ipad"), 7),
    ]);
    v.merge(&other);
    let listed: Vec<&str> = v.entries().iter().map(|(d, _)| d.as_str()).collect();
    assert_eq!(listed, vec!["Zune", "ipa", "ipad", "mac", "pixel", "watch"]);
    assert_eq!(v.get(&DeviceId::from("ipad")), 7);
}
