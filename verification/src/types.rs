//! The types of the metric records, under one roof.

pub use crate::cache::CacheDbRecord;
pub use crate::counters::{CacheHits, CacheMisses};
pub use crate::opcode::{
    OpcodeRecord, RevmMetricRecord, OPCODE_LEN, SLOAD_OPCODE_TIME_STEP, STEP_LEN,
};
pub use crate::penalty::{CacheMissesPenalty, PENALTY_STEP_SIZE};
