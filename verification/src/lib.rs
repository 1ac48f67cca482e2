//! Performance metrics for an instruction-level execution engine: counters,
//! latency histograms and the merge of partial records into one aggregate.

pub mod cache;
pub mod counters;
pub mod opcode;
pub mod penalty;
pub mod report;
pub mod steps;
pub mod time_utils;
pub mod types;
