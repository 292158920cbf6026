use std::collections::hash_map::DefaultHasher;
use std::hash::{Hash, Hasher};

use daft_plan::source_info::{
    ClusteringSpec, Field, InMemoryInfo, PhysicalScanInfo, PlaceHolderInfo, PlaceholderIds,
    RangeScan, ScanOperator, Schema, SourceInfo,
};
use daft_plan::table::DataType;

fn schema() -> Schema {
    Schema { fields: vec![Field { name: "id".to_string(), dtype: DataType::Int64 }] }
}

fn hash_of<T: Hash>(v: &T) -> u64 {
    let mut h = DefaultHasher::new();
    v.hash(&mut h);
    h.finish()
}

#[test]
fn in_memory_equal_cache_keys_are_one_source() {
    let a = InMemoryInfo::new(schema(), "cache-1".to_string(), 4, 1000, 50, None);
    let b = InMemoryInfo::new(
        Schema { fields: vec![] },
        "cache-1".to_string(),
        16,
        99999,
        7,
        Some(ClusteringSpec::Random { num_partitions: 16 }),
    );
    assert!(a == b);
    assert_eq!(hash_of(&a), hash_of(&b));
    assert_eq!(a.hash_key(), b.hash_key());
    assert!(SourceInfo::InMemory(a) == SourceInfo::InMemory(b));
}

#[test]
fn in_memory_different_cache_keys_differ() {
    let a = InMemoryInfo::new(schema(), "cache-1".to_string(), 4, 1000, 50, None);
    let b = InMemoryInfo::new(schema(), "cache-2".to_string(), 4, 1000, 50, None);
    assert!(a != b);
    assert_eq!(a.hash_key(), "cache-1");
}

#[test]
fn placeholder_ids_are_distinct_and_consecutive() {
    let mut ids = PlaceholderIds::new();
    let mut seen = Vec::new();
    for _ in 0..100 {
        let p = PlaceHolderInfo::new(schema(), ClusteringSpec::Unknown { num_partitions: 1 }, &mut ids);
        seen.push(p.source_id);
    }
    for (i, id) in seen.iter().enumerate() {
        assert_eq!(*id, i);
    }
    assert_eq!(ids.peek(), 100);
}

#[test]
fn placeholders_with_same_fields_are_not_equal() {
    let mut ids = PlaceholderIds::new();
    let a = PlaceHolderInfo::new(schema(), ClusteringSpec::Unknown { num_partitions: 2 }, &mut ids);
    let b = PlaceHolderInfo::new(schema(), ClusteringSpec::Unknown { num_partitions: 2 }, &mut ids);
    assert_ne!(a.source_id, b.source_id);
    assert!(SourceInfo::PlaceHolder(a) != SourceInfo::PlaceHolder(b));
}

#[test]
fn independent_allocators_start_at_zero() {
    let mut a = PlaceholderIds::new();
    let mut b = PlaceholderIds::new();
    assert_eq!(a.allocate(), 0);
    assert_eq!(a.allocate(), 1);
    assert_eq!(b.allocate(), 0);
}

#[test]
fn physical_sources_compare_by_structure() {
    let a = PhysicalScanInfo::new(ScanOperator::Range(RangeScan { start: 0, end: 10, step: 1 }));
    let b = PhysicalScanInfo::new(ScanOperator::Range(RangeScan { start: 0, end: 10, step: 1 }));
    let c = PhysicalScanInfo::new(ScanOperator::Range(RangeScan { start: 0, end: 10, step: 2 }));
    assert!(SourceInfo::Physical(a) == SourceInfo::Physical(b));
    assert!(SourceInfo::Physical(a) != SourceInfo::Physical(c));
}

#[test]
fn range_scan_values() {
    let r = RangeScan { start: 0, end: 10, step: 1 };
    assert_eq!(r.values(), (0..10).collect::<Vec<i64>>());
    let r = RangeScan { start: -3, end: 8, step: 4 };
    assert_eq!(r.values(), vec![-3, 1, 5]);
    let r = RangeScan { start: 5, end: 5, step: 1 };
    assert!(r.values().is_empty());
    let r = RangeScan { start: 9, end: 2, step: 1 };
    assert!(r.values().is_empty());
}

#[test]
fn range_scan_near_the_largest_integer() {
    let r = RangeScan { start: i64::MAX - 5, end: i64::MAX, step: 3 };
    assert_eq!(r.values(), vec![i64::MAX - 5, i64::MAX - 2]);
    let r = RangeScan { start: i64::MIN, end: i64::MAX, step: i64::MAX };
    assert_eq!(r.values(), vec![i64::MIN, -1, i64::MAX - 1]);
}
