use revm_utils::penalty::{penalty_step, PENALTY_STEP_LIMIT, PENALTY_STEP_SIZE};
use revm_utils::steps::find_step;
use revm_utils::time_utils::{convert_cycles_to_ms, ConvertError};
use revm_utils::types::{CacheMissesPenalty, OpcodeRecord};

fn sload_counts(record: &OpcodeRecord) -> [u64; 4] {
    [
        record.sload_opcode_record[0].1,
        record.sload_opcode_record[1].1,
        record.sload_opcode_record[2].1,
        record.sload_opcode_record[3].1,
    ]
}

#[test]
fn find_step_returns_the_first_step_not_exceeded() {
    let steps: [u64; 4] = [1, 10, 100, u64::MAX];
    assert_eq!(find_step(&steps, 0), Some(0));
    assert_eq!(find_step(&steps, 1), Some(0));
    assert_eq!(find_step(&steps, 2), Some(1));
    assert_eq!(find_step(&steps, 10), Some(1));
    assert_eq!(find_step(&steps, 11), Some(2));
    assert_eq!(find_step(&steps, 100), Some(2));
    assert_eq!(find_step(&steps, 101), Some(3));
    assert_eq!(find_step(&steps, u64::MAX), Some(3));
}

#[test]
fn find_step_without_a_last_catch_all() {
    let steps: [u64; 3] = [5, 6, 7];
    assert_eq!(find_step(&steps, 7), Some(2));
    assert_eq!(find_step(&steps, 8), None);
    let none: [u64; 0] = [];
    assert_eq!(find_step(&none, 0), None);
}

#[test]
fn find_step_takes_the_first_of_equal_steps() {
    let steps: [u64; 4] = [3, 9, 9, 2];
    assert_eq!(find_step(&steps, 9), Some(1));
    assert_eq!(find_step(&steps, 2), Some(0));
    assert_eq!(find_step(&steps, 10), None);
}

#[test]
fn penalties_against_steps_of_ten() {
    let mut steps: Vec<u64> = Vec::new();
    let mut step: u64 = 10;
    while step <= 200 {
        steps.push(step);
        step += 10;
    }
    steps.push(u64::MAX);
    assert_eq!(steps.len(), 21);
    let frequency: u64 = 3_000_000;
    let one = convert_cycles_to_ms(3_000_000, frequency).unwrap();
    let fifteen = convert_cycles_to_ms(45_000_000, frequency).unwrap();
    let long = convert_cycles_to_ms(750_000_000, frequency).unwrap();
    assert_eq!((one, fifteen, long), (1, 15, 250));
    assert_eq!(find_step(&steps, one), Some(0));
    assert_eq!(steps[0], 10);
    assert_eq!(find_step(&steps, fifteen), Some(1));
    assert_eq!(steps[1], 20);
    assert_eq!(find_step(&steps, long), Some(20));
    assert_eq!(steps[20], u64::MAX);
}

#[test]
fn penalty_steps_are_dense_with_a_catch_all() {
    assert_eq!(PENALTY_STEP_SIZE, 201);
    assert_eq!(PENALTY_STEP_LIMIT, 200);
    assert_eq!(penalty_step(0), 1);
    assert_eq!(penalty_step(1), 2);
    assert_eq!(penalty_step(14), 15);
    assert_eq!(penalty_step(199), 200);
    assert_eq!(penalty_step(200), u64::MAX);
    let mut index: usize = 1;
    while index < PENALTY_STEP_SIZE {
        assert!(penalty_step(index - 1) < penalty_step(index));
        index += 1;
    }
}

#[test]
fn penalties_fall_in_their_buckets() {
    let frequency: u64 = 1_000_000;
    let mut penalty = CacheMissesPenalty::default();
    assert_eq!(penalty.percentile(1 * frequency, frequency), Ok(()));
    assert_eq!(penalty.percentile(15 * frequency, frequency), Ok(()));
    assert_eq!(penalty.percentile(250 * frequency, frequency), Ok(()));
    let mut expected = [0u64; PENALTY_STEP_SIZE];
    expected[0] = 1;
    expected[14] = 1;
    expected[200] = 1;
    assert_eq!(penalty.percentile, expected);
    assert_eq!(penalty_step(0), 1);
    assert_eq!(penalty_step(14), 15);
    assert_eq!(penalty_step(200), u64::MAX);
}

#[test]
fn penalty_bucket_edges() {
    let mut penalty = CacheMissesPenalty::default();
    for cycles in [0u64, 1, 2, 199, 200, 201, u64::MAX] {
        assert_eq!(penalty.percentile(cycles, 1), Ok(()));
    }
    let mut expected = [0u64; PENALTY_STEP_SIZE];
    expected[0] = 2;
    expected[1] = 1;
    expected[198] = 1;
    expected[199] = 1;
    expected[200] = 2;
    assert_eq!(penalty.percentile, expected);
}

#[test]
fn penalty_time_is_rounded_down() {
    let mut penalty = CacheMissesPenalty::default();
    assert_eq!(penalty.percentile(2_999, 1_000), Ok(()));
    assert_eq!(penalty.percentile(3_000, 1_000), Ok(()));
    assert_eq!(penalty.percentile(999, 1_000), Ok(()));
    assert_eq!(penalty.percentile[0], 1);
    assert_eq!(penalty.percentile[1], 1);
    assert_eq!(penalty.percentile[2], 1);
}

#[test]
fn percentile_leaves_the_cycle_counters_alone() {
    let mut penalty = CacheMissesPenalty::default();
    penalty.basic = 11;
    penalty.storage = 22;
    assert_eq!(penalty.percentile(5, 1), Ok(()));
    assert_eq!(penalty.basic, 11);
    assert_eq!(penalty.storage, 22);
    assert_eq!(penalty.block_hash, 0);
    assert_eq!(penalty.code_by_hash, 0);
    assert_eq!(penalty.load_account, 0);
}

#[test]
fn percentile_refuses_frequency_zero() {
    let mut penalty = CacheMissesPenalty::default();
    assert_eq!(penalty.percentile(7, 1), Ok(()));
    let before = penalty;
    assert_eq!(penalty.percentile(7, 0), Err(ConvertError::ZeroFrequency));
    assert_eq!(penalty, before);
}

#[test]
fn every_penalty_is_counted_once() {
    let mut penalty = CacheMissesPenalty::default();
    let cycles: [u64; 12] = [0, 1, 5, 5, 17, 200, 201, 999, 123_456, u64::MAX, 42, 42];
    for value in cycles {
        assert_eq!(penalty.percentile(value, 3), Ok(()));
    }
    let counted: u64 = penalty.percentile.iter().sum();
    assert_eq!(counted, 12);
}

#[test]
fn sload_times_fall_in_their_buckets() {
    let cases: [(u64, usize); 9] =
        [(0, 0), (1, 0), (2, 1), (10, 1), (11, 2), (100, 2), (101, 3), (5_000, 3), (u64::MAX, 3)];
    for (op_time, bucket) in cases {
        let mut record = OpcodeRecord::default();
        record.add_sload_opcode_record(op_time);
        let mut expected = [0u64; 4];
        expected[bucket] = 1;
        assert_eq!(sload_counts(&record), expected);
    }
}

#[test]
fn sload_record_keeps_everything_else() {
    let mut record = OpcodeRecord::default();
    record.opcode_record[0x54] = (1, 2, 3);
    record.total_time = 4;
    let before = record;
    record.add_sload_opcode_record(50);
    record.add_sload_opcode_record(50);
    record.add_sload_opcode_record(7);
    assert_eq!(record.sload_opcode_record, [(1, 0), (10, 1), (100, 2), (u64::MAX, 0)]);
    assert_eq!(record.opcode_record, before.opcode_record);
    assert_eq!(record.total_time, 4);
    assert!(!record.is_updated);
}

#[test]
fn every_sload_is_counted_once() {
    let mut record = OpcodeRecord::default();
    let times: [u64; 7] = [0, 1, 9, 10, 100, 1_000, u64::MAX];
    for op_time in times {
        record.add_sload_opcode_record(op_time);
    }
    let counts = sload_counts(&record);
    assert_eq!(counts.iter().sum::<u64>(), 7);
    assert_eq!(counts, [2, 2, 1, 2]);
}
