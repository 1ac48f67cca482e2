use revm_utils::penalty::PENALTY_STEP_SIZE;
use revm_utils::time_utils::ConvertError;
use revm_utils::types::{CacheDbRecord, CacheHits, CacheMisses, CacheMissesPenalty};

fn hits(
    block_hash: u64,
    basic: u64,
    storage: u64,
    code_by_hash: u64,
    load_account: u64,
) -> CacheHits {
    CacheHits { block_hash, basic, storage, code_by_hash, load_account }
}

fn misses(
    block_hash: u64,
    basic: u64,
    storage: u64,
    code_by_hash: u64,
    load_account: u64,
) -> CacheMisses {
    CacheMisses { block_hash, basic, storage, code_by_hash, load_account }
}

fn sample() -> CacheDbRecord {
    let mut record = CacheDbRecord::default();
    record.hits = hits(1, 2, 3, 4, 5);
    record.misses = misses(10, 20, 30, 40, 50);
    record.penalty.block_hash = 100;
    record.penalty.basic = 200;
    record.penalty.storage = 300;
    record.penalty.code_by_hash = 400;
    record.penalty.load_account = 500;
    record.penalty.percentile[0] = 6;
    record.penalty.percentile[200] = 7;
    record
}

#[test]
fn defaults_are_zero() {
    assert_eq!(CacheHits::default(), hits(0, 0, 0, 0, 0));
    assert_eq!(CacheMisses::default(), misses(0, 0, 0, 0, 0));
    let penalty = CacheMissesPenalty::default();
    assert_eq!(penalty.block_hash, 0);
    assert_eq!(penalty.basic, 0);
    assert_eq!(penalty.storage, 0);
    assert_eq!(penalty.code_by_hash, 0);
    assert_eq!(penalty.load_account, 0);
    assert_eq!(penalty.percentile, [0u64; PENALTY_STEP_SIZE]);
    let record = CacheDbRecord::default();
    assert_eq!(record.hits, CacheHits::default());
    assert_eq!(record.misses, CacheMisses::default());
    assert_eq!(record.penalty, CacheMissesPenalty::default());
}

#[test]
fn hits_are_added_kind_by_kind() {
    let mut a = hits(1, 2, 3, 4, 5);
    let b = hits(10, 20, 30, 40, 50);
    assert!(a.can_update(&b));
    a.update(&b);
    assert_eq!(a, hits(11, 22, 33, 44, 55));
    assert_eq!(b, hits(10, 20, 30, 40, 50));
}

#[test]
fn misses_are_added_kind_by_kind() {
    let mut a = misses(5, 4, 3, 2, 1);
    let b = misses(100, 200, 300, 400, 500);
    assert!(a.can_update(&b));
    a.update(&b);
    assert_eq!(a, misses(105, 204, 303, 402, 501));
}

#[test]
fn adding_zero_changes_nothing() {
    let mut a = hits(1, 2, 3, 4, 5);
    a.update(&CacheHits::default());
    assert_eq!(a, hits(1, 2, 3, 4, 5));
    let mut zero = CacheMisses::default();
    zero.update(&misses(9, 8, 7, 6, 5));
    assert_eq!(zero, misses(9, 8, 7, 6, 5));
}

#[test]
fn counters_reach_the_top_of_their_range() {
    let mut a = hits(u64::MAX - 5, 0, 0, 0, 0);
    let b = hits(5, 0, 0, 0, u64::MAX);
    assert!(a.can_update(&b));
    a.update(&b);
    assert_eq!(a, hits(u64::MAX, 0, 0, 0, u64::MAX));
}

#[test]
fn counter_overflow_is_refused() {
    let a = hits(0, u64::MAX - 1, 0, 0, 0);
    let b = hits(0, 5, 0, 0, 0);
    assert!(!a.can_update(&b));
    assert!(!b.can_update(&a));
    assert_eq!((u64::MAX - 1).checked_add(5), None);
    let fitting = hits(0, 1, 0, 0, 0);
    assert!(a.can_update(&fitting));
}

#[test]
fn miss_overflow_is_refused_for_every_kind() {
    let full = misses(u64::MAX, u64::MAX, u64::MAX, u64::MAX, u64::MAX);
    assert!(full.can_update(&CacheMisses::default()));
    assert!(!full.can_update(&misses(1, 0, 0, 0, 0)));
    assert!(!full.can_update(&misses(0, 1, 0, 0, 0)));
    assert!(!full.can_update(&misses(0, 0, 1, 0, 0)));
    assert!(!full.can_update(&misses(0, 0, 0, 1, 0)));
    assert!(!full.can_update(&misses(0, 0, 0, 0, 1)));
}

#[test]
fn hit_overflow_is_refused_for_every_kind() {
    let full = hits(u64::MAX, u64::MAX, u64::MAX, u64::MAX, u64::MAX);
    assert!(full.can_update(&CacheHits::default()));
    assert!(!full.can_update(&hits(1, 0, 0, 0, 0)));
    assert!(!full.can_update(&hits(0, 1, 0, 0, 0)));
    assert!(!full.can_update(&hits(0, 0, 1, 0, 0)));
    assert!(!full.can_update(&hits(0, 0, 0, 1, 0)));
    assert!(!full.can_update(&hits(0, 0, 0, 0, 1)));
}

#[test]
fn penalties_are_added_with_their_histogram() {
    let mut a = CacheMissesPenalty::default();
    a.basic = 7;
    a.load_account = 1;
    a.percentile[0] = 1;
    a.percentile[100] = 2;
    let mut b = CacheMissesPenalty::default();
    b.basic = 3;
    b.block_hash = 9;
    b.percentile[100] = 5;
    b.percentile[200] = 8;
    assert!(a.can_update(&b));
    a.update(&b);
    assert_eq!(a.basic, 10);
    assert_eq!(a.block_hash, 9);
    assert_eq!(a.load_account, 1);
    assert_eq!(a.storage, 0);
    assert_eq!(a.code_by_hash, 0);
    let mut expected = [0u64; PENALTY_STEP_SIZE];
    expected[0] = 1;
    expected[100] = 7;
    expected[200] = 8;
    assert_eq!(a.percentile, expected);
}

#[test]
fn penalty_overflow_is_refused() {
    let mut a = CacheMissesPenalty::default();
    a.percentile[200] = u64::MAX;
    let mut b = CacheMissesPenalty::default();
    assert!(a.can_update(&b));
    b.percentile[200] = 1;
    assert!(!a.can_update(&b));
    let mut c = CacheMissesPenalty::default();
    c.storage = u64::MAX;
    let mut d = CacheMissesPenalty::default();
    d.storage = 1;
    assert!(!c.can_update(&d));
    d.storage = 0;
    d.percentile[0] = 1;
    assert!(c.can_update(&d));
}

#[test]
fn cache_records_are_added_part_by_part() {
    let mut a = sample();
    let b = sample();
    assert!(a.can_update(&b));
    a.update(&b);
    assert_eq!(a.hits, hits(2, 4, 6, 8, 10));
    assert_eq!(a.misses, misses(20, 40, 60, 80, 100));
    assert_eq!(a.penalty.block_hash, 200);
    assert_eq!(a.penalty.basic, 400);
    assert_eq!(a.penalty.storage, 600);
    assert_eq!(a.penalty.code_by_hash, 800);
    assert_eq!(a.penalty.load_account, 1000);
    assert_eq!(a.penalty.percentile[0], 12);
    assert_eq!(a.penalty.percentile[200], 14);
    assert_eq!(a.penalty.percentile[1], 0);
}

#[test]
fn cache_record_addition_does_not_depend_on_order() {
    let a = sample();
    let mut b = CacheDbRecord::default();
    b.hits.storage = 77;
    b.misses.basic = 3;
    b.penalty.percentile[13] = 2;
    let mut c = CacheDbRecord::default();
    c.penalty.storage = 5;
    c.hits.storage = 1;
    let mut ab = a;
    ab.update(&b);
    let mut ba = b;
    ba.update(&a);
    assert_eq!(ab, ba);
    let mut left = ab;
    left.update(&c);
    let mut bc = b;
    bc.update(&c);
    let mut right = a;
    right.update(&bc);
    assert_eq!(left, right);
}

#[test]
fn cache_record_overflow_is_refused_in_every_part() {
    let zero = CacheDbRecord::default();
    let mut one_hit = zero;
    one_hit.hits.basic = 1;
    let mut full_hits = zero;
    full_hits.hits.basic = u64::MAX;
    assert!(!full_hits.can_update(&one_hit));
    let mut one_miss = zero;
    one_miss.misses.storage = 1;
    let mut full_misses = zero;
    full_misses.misses.storage = u64::MAX;
    assert!(!full_misses.can_update(&one_miss));
    assert!(full_misses.can_update(&one_hit));
    let mut one_penalty = zero;
    one_penalty.penalty.percentile[4] = 1;
    let mut full_penalty = zero;
    full_penalty.penalty.percentile[4] = u64::MAX;
    assert!(!full_penalty.can_update(&one_penalty));
    assert!(full_penalty.can_update(&one_miss));
}

#[test]
fn totals_per_kind_are_hits_plus_misses() {
    let record = sample();
    assert_eq!(record.total_in_block_hash(), 11);
    assert_eq!(record.total_in_basic(), 22);
    assert_eq!(record.total_in_storage(), 33);
    assert_eq!(record.total_in_code_by_hash(), 44);
    assert_eq!(record.total_in_load_account(), 55);
}

#[test]
fn totals_over_all_kinds() {
    let record = sample();
    assert_eq!(record.total_hits(), 15);
    assert_eq!(record.total_miss(), 150);
    assert_eq!(record.total_penalty_times(), 1500);
    let zero = CacheDbRecord::default();
    assert_eq!(zero.total_hits(), 0);
    assert_eq!(zero.total_miss(), 0);
    assert_eq!(zero.total_penalty_times(), 0);
    assert_eq!(zero.total_in_basic(), 0);
}

#[test]
fn totals_reach_the_top_of_their_range() {
    let mut record = CacheDbRecord::default();
    record.hits = hits(0, u64::MAX - 4, 1, 1, 1);
    record.hits.block_hash = 1;
    record.misses.basic = 4;
    assert_eq!(record.total_hits(), u64::MAX);
    assert_eq!(record.total_in_basic(), u64::MAX);
}

#[test]
fn penalty_cycles_become_time() {
    let mut record = sample();
    let before = record;
    assert_eq!(record.convert_cycles_to_time(150), Ok(()));
    assert_eq!(record.penalty.block_hash, 0);
    assert_eq!(record.penalty.basic, 1);
    assert_eq!(record.penalty.storage, 2);
    assert_eq!(record.penalty.code_by_hash, 2);
    assert_eq!(record.penalty.load_account, 3);
    assert_eq!(record.penalty.percentile, before.penalty.percentile);
    assert_eq!(record.hits, before.hits);
    assert_eq!(record.misses, before.misses);
}

#[test]
fn penalty_conversion_refuses_frequency_zero() {
    let mut record = sample();
    let before = record;
    assert_eq!(record.convert_cycles_to_time(0), Err(ConvertError::ZeroFrequency));
    assert_eq!(record, before);
    let mut penalty = before.penalty;
    assert_eq!(penalty.convert_cycles_to_time(0), Err(ConvertError::ZeroFrequency));
    assert_eq!(penalty, before.penalty);
    assert_eq!(penalty.convert_cycles_to_time(100), Ok(()));
    assert_eq!(penalty.basic, 2);
    assert_eq!(penalty.load_account, 5);
}
