//! The record of opcode executions: how often each opcode ran, how many
//! cycles and how much gas it took, and a histogram of the time that storage
//! loads took.

use vstd::prelude::*;
use crate::steps::{counted, counts_plus, events, falls_in, find_step, strictly_ascending};
use crate::time_utils::{cycles_to_time, ConvertError};

verus! {

/// The number of opcodes.
pub const OPCODE_LEN: usize = 256;

/// The number of buckets of the storage-load histogram.
pub const STEP_LEN: usize = 4;

/// The steps of the storage-load histogram. The last one catches every
/// duration that exceeds the others.
pub const SLOAD_OPCODE_TIME_STEP: [u64; STEP_LEN] = [1, 10, 100, u64::MAX];

/// The bucket of a storage load that took `op_time`.
pub open spec fn sload_bucket(op_time: nat) -> int {
    if op_time <= 1 {
        0
    } else if op_time <= 10 {
        1
    } else if op_time <= 100 {
        2
    } else {
        3
    }
}

/// The storage-load steps ascend, and the last one catches every value.
pub proof fn sload_steps_are_sound()
    ensures
        SLOAD_OPCODE_TIME_STEP@.len() == STEP_LEN,
        strictly_ascending(SLOAD_OPCODE_TIME_STEP@),
        SLOAD_OPCODE_TIME_STEP@.last() == u64::MAX,
{
}

/// `sload_bucket` is the bucket rule on the storage-load steps.
pub proof fn sload_bucket_falls_in(op_time: u64)
    ensures
        falls_in(SLOAD_OPCODE_TIME_STEP@, op_time, sload_bucket(op_time as nat)),
{
}

/// What the record holds of one opcode.
pub struct OpcodeTally {
    /// How often the opcode ran.
    pub count: nat,
    /// The cycles it took in all.
    pub cycles: nat,
    /// The gas it took in all.
    pub gas: int,
}

impl OpcodeTally {
    /// The sum of two tallies.
    pub open spec fn plus(self, other: OpcodeTally) -> OpcodeTally {
        OpcodeTally {
            count: self.count + other.count,
            cycles: self.cycles + other.cycles,
            gas: self.gas + other.gas,
        }
    }

    /// The tally can be held in the record's accumulators.
    pub open spec fn fits(self) -> bool {
        &&& self.count <= u64::MAX
        &&& self.cycles <= u64::MAX
        &&& i128::MIN <= self.gas <= i128::MAX
    }

    /// Nothing has been tallied.
    pub open spec fn is_zero(self) -> bool {
        self.count == 0 && self.cycles == 0 && self.gas == 0
    }
}

/// What an opcode record stands for in contracts.
pub struct OpcodeCounts {
    /// One tally for each opcode.
    pub entries: Seq<OpcodeTally>,
    /// The number of storage loads in each bucket of the histogram.
    pub sload: Seq<nat>,
    /// The cycles of the run as a whole.
    pub total_time: nat,
    /// Whether anything has been recorded.
    pub updated: bool,
}

impl OpcodeCounts {
    /// There is one tally for each opcode and one count for each bucket.
    pub open spec fn wf(self) -> bool {
        self.entries.len() == OPCODE_LEN && self.sload.len() == STEP_LEN
    }

    /// The record in which nothing has been recorded.
    pub open spec fn zero() -> OpcodeCounts {
        OpcodeCounts {
            entries: Seq::new(
                OPCODE_LEN as nat,
                |i: int| OpcodeTally { count: 0, cycles: 0, gas: 0 },
            ),
            sload: Seq::new(STEP_LEN as nat, |i: int| 0nat),
            total_time: 0,
            updated: false,
        }
    }

    /// Every accumulator is zero.
    pub open spec fn is_zero(self) -> bool {
        &&& forall|i: int| 0 <= i < self.entries.len() ==> (#[trigger] self.entries[i]).is_zero()
        &&& forall|i: int| 0 <= i < self.sload.len() ==> self.sload[i] == 0
        &&& self.total_time == 0
    }

    /// The sum of two records, accumulator by accumulator. The sum has been
    /// written to if one of the two has.
    pub open spec fn plus(self, other: OpcodeCounts) -> OpcodeCounts {
        OpcodeCounts {
            entries: Seq::new(
                OPCODE_LEN as nat,
                |i: int| self.entries[i].plus(other.entries[i]),
            ),
            sload: counts_plus(self.sload, other.sload),
            total_time: self.total_time + other.total_time,
            updated: self.updated || other.updated,
        }
    }

    /// The result of merging `other` into `self`. A record that was never
    /// written to contributes nothing, whatever it holds; a record that was
    /// never written to takes over what is merged into it.
    pub open spec fn merged(self, other: OpcodeCounts) -> OpcodeCounts {
        if !other.updated {
            self
        } else if !self.updated {
            other
        } else {
            self.plus(other)
        }
    }

    /// Every accumulator can be held in the record.
    pub open spec fn fits(self) -> bool {
        &&& forall|i: int| 0 <= i < self.entries.len() ==> (#[trigger] self.entries[i]).fits()
        &&& forall|i: int| 0 <= i < self.sload.len() ==> self.sload[i] <= u64::MAX
        &&& self.total_time <= u64::MAX
    }

    /// The record after one more storage load that took `op_time`.
    pub open spec fn sload_recorded(self, op_time: nat) -> OpcodeCounts {
        OpcodeCounts { sload: counted(self.sload, sload_bucket(op_time)), ..self }
    }

    /// The number of storage loads in the histogram.
    pub open spec fn sload_events(self) -> nat {
        events(self.sload)
    }

    /// How often the first `n` opcodes ran, taken together.
    pub open spec fn count_upto(self, n: int) -> nat
        decreases n,
    {
        if n <= 0 {
            0
        } else {
            self.count_upto(n - 1) + self.entries[n - 1].count
        }
    }

    /// The cycles that the first `n` opcodes took, taken together.
    pub open spec fn cycles_upto(self, n: int) -> nat
        decreases n,
    {
        if n <= 0 {
            0
        } else {
            self.cycles_upto(n - 1) + self.entries[n - 1].cycles
        }
    }

    /// The gas that the first `n` opcodes took, taken together.
    pub open spec fn gas_upto(self, n: int) -> int
        decreases n,
    {
        if n <= 0 {
            0
        } else {
            self.gas_upto(n - 1) + self.entries[n - 1].gas
        }
    }

    /// The gas of the first opcodes, however many are taken, fits in 128 bits.
    pub open spec fn gas_in_range(self) -> bool {
        forall|n: int|
            0 <= n <= OPCODE_LEN ==> i128::MIN <= #[trigger] self.gas_upto(n) <= i128::MAX
    }

    /// How often any opcode ran.
    pub open spec fn total_count(self) -> nat {
        self.count_upto(OPCODE_LEN as int)
    }

    /// The cycles that all opcodes took.
    pub open spec fn total_cycles(self) -> nat {
        self.cycles_upto(OPCODE_LEN as int)
    }

    /// The gas that all opcodes took.
    pub open spec fn total_gas(self) -> int {
        self.gas_upto(OPCODE_LEN as int)
    }

    /// The record with its cycles turned into time, at `frequency` cycles per
    /// time unit, each figure rounded down.
    pub open spec fn in_time(self, frequency: nat) -> OpcodeCounts
        recommends
            frequency > 0,
    {
        OpcodeCounts {
            entries: Seq::new(
                self.entries.len(),
                |i: int|
                    OpcodeTally {
                        cycles: cycles_to_time(self.entries[i].cycles, frequency),
                        ..self.entries[i]
                    },
            ),
            total_time: cycles_to_time(self.total_time, frequency),
            ..self
        }
    }
}

/// All performance information of opcode executions.
#[derive(Debug, Clone, Copy, PartialEq, Eq)]
pub struct OpcodeRecord {
    /// Indexed by opcode; each entry holds the number of executions, the
    /// cycles and the gas.
    pub opcode_record: [(u64, u64, i128); OPCODE_LEN],
    /// One entry for each bucket of the storage-load histogram: its step and
    /// the number of storage loads counted in it.
    pub sload_opcode_record: [(u64, u64); STEP_LEN],
    /// The cycles of the run as a whole.
    pub total_time: u64,
    /// Whether anything has been recorded.
    pub is_updated: bool,
}

/// The name by which the execution engine knows the record.
pub type RevmMetricRecord = OpcodeRecord;

impl View for OpcodeRecord {
    type V = OpcodeCounts;

    open spec fn view(&self) -> OpcodeCounts {
        OpcodeCounts {
            entries: Seq::new(
                OPCODE_LEN as nat,
                |i: int|
                    OpcodeTally {
                        count: self.opcode_record[i].0 as nat,
                        cycles: self.opcode_record[i].1 as nat,
                        gas: self.opcode_record[i].2 as int,
                    },
            ),
            sload: Seq::new(STEP_LEN as nat, |i: int| self.sload_opcode_record[i].1 as nat),
            total_time: self.total_time as nat,
            updated: self.is_updated,
        }
    }
}

impl Default for OpcodeRecord {
    fn default() -> (record: Self)
        ensures
            record@ == OpcodeCounts::zero(),
            record.wf(),
            !record.is_updated,
            record.total_time == 0,
            forall|i: int|
                0 <= i < OPCODE_LEN ==> #[trigger] record.opcode_record[i] == (0u64, 0u64, 0i128),
            forall|i: int|
                0 <= i < STEP_LEN ==> #[trigger] record.sload_opcode_record[i] == (
                    SLOAD_OPCODE_TIME_STEP[i],
                    0u64,
                ),
    {
        let record = OpcodeRecord {
            opcode_record: [(0, 0, 0); OPCODE_LEN],
            sload_opcode_record: [
                (SLOAD_OPCODE_TIME_STEP[0], 0),
                (SLOAD_OPCODE_TIME_STEP[1], 0),
                (SLOAD_OPCODE_TIME_STEP[2], 0),
                (SLOAD_OPCODE_TIME_STEP[3], 0),
            ],
            total_time: 0,
            is_updated: false,
        };
        assert(record@.entries =~= OpcodeCounts::zero().entries);
        assert(record@.sload =~= OpcodeCounts::zero().sload);
        assert(record.sload_steps() =~= SLOAD_OPCODE_TIME_STEP@);
        record
    }
}

impl OpcodeRecord {
    /// The steps that the record holds beside its storage-load counts.
    pub open spec fn sload_steps(&self) -> Seq<u64> {
        Seq::new(STEP_LEN as nat, |i: int| self.sload_opcode_record[i].0)
    }

    /// The record holds the steps of the storage-load histogram.
    pub open spec fn wf(&self) -> bool {
        self.sload_steps() == SLOAD_OPCODE_TIME_STEP@
    }

    /// Every accumulator of the record is the sum of its counterparts in
    /// `a` and `b`; the record has been written to, and it holds the steps
    /// that `a` holds.
    pub open spec fn is_sum_of(&self, a: OpcodeRecord, b: OpcodeRecord) -> bool {
        &&& self.is_updated
        &&& self.total_time == a.total_time + b.total_time
        &&& forall|i: int|
            0 <= i < OPCODE_LEN ==> {
                &&& (#[trigger] self.opcode_record[i]).0 == a.opcode_record[i].0
                    + b.opcode_record[i].0
                &&& self.opcode_record[i].1 == a.opcode_record[i].1 + b.opcode_record[i].1
                &&& self.opcode_record[i].2 == a.opcode_record[i].2 + b.opcode_record[i].2
            }
        &&& forall|i: int|
            0 <= i < STEP_LEN ==> {
                &&& (#[trigger] self.sload_opcode_record[i]).0 == a.sload_opcode_record[i].0
                &&& self.sload_opcode_record[i].1 == a.sload_opcode_record[i].1
                    + b.sload_opcode_record[i].1
            }
    }

    /// Whether anything has been recorded.
    pub fn not_empty(&self) -> (updated: bool)
        ensures
            updated == self@.updated,
    {
        self.is_updated
    }

    /// Whether `other` can be merged into this record without any accumulator
    /// leaving its range.
    pub fn can_update(&self, other: &OpcodeRecord) -> (fits: bool)
        ensures
            fits == self@.merged(other@).fits(),
    {
        if !other.is_updated || !self.is_updated {
            return true;
        }
        if self.total_time.checked_add(other.total_time).is_none() {
            return false;
        }
        let mut i: usize = 0;
        while i < OPCODE_LEN
            invariant
                i <= OPCODE_LEN,
                self.is_updated && other.is_updated,
                self.total_time + other.total_time <= u64::MAX,
                forall|k: int| 0 <= k < i ==> (#[trigger] self@.plus(other@).entries[k]).fits(),
            decreases OPCODE_LEN - i,
        {
            let mine = self.opcode_record[i];
            let theirs = other.opcode_record[i];
            if mine.0.checked_add(theirs.0).is_none() || mine.1.checked_add(theirs.1).is_none()
                || mine.2.checked_add(theirs.2).is_none() {
                assert(!self@.plus(other@).entries[i as int].fits());
                return false;
            }
            assert(self@.plus(other@).entries[i as int].fits());
            i += 1;
        }
        let mut index: usize = 0;
        while index < STEP_LEN
            invariant
                index <= STEP_LEN,
                self.is_updated && other.is_updated,
                self.total_time + other.total_time <= u64::MAX,
                forall|k: int|
                    0 <= k < OPCODE_LEN ==> (#[trigger] self@.plus(other@).entries[k]).fits(),
                forall|k: int| 0 <= k < index ==> self@.plus(other@).sload[k] <= u64::MAX,
            decreases STEP_LEN - index,
        {
            if self.sload_opcode_record[index].1.checked_add(
                other.sload_opcode_record[index].1,
            ).is_none() {
                assert(self@.plus(other@).sload[index as int] > u64::MAX);
                return false;
            }
            index += 1;
        }
        true
    }

    /// Records one storage load that took `op_time`: it is counted in the
    /// first bucket whose step `op_time` does not exceed.
    pub fn add_sload_opcode_record(&mut self, op_time: u64)
        requires
            old(self).sload_opcode_record[sload_bucket(op_time as nat)].1 < u64::MAX,
        ensures
            final(self)@ == old(self)@.sload_recorded(op_time as nat),
            final(self)@.sload_events() == old(self)@.sload_events() + 1,
            final(self).sload_opcode_record@ == old(self).sload_opcode_record@.update(
                sload_bucket(op_time as nat),
                (
                    old(self).sload_opcode_record[sload_bucket(op_time as nat)].0,
                    (old(self).sload_opcode_record[sload_bucket(op_time as nat)].1 + 1) as u64,
                ),
            ),
            final(self).opcode_record == old(self).opcode_record,
            final(self).total_time == old(self).total_time,
            final(self).is_updated == old(self).is_updated,
            old(self).wf() ==> final(self).wf(),
    {
        proof {
            sload_bucket_falls_in(op_time);
        }
        if let Some(index) = find_step(&SLOAD_OPCODE_TIME_STEP, op_time) {
            proof {
                crate::steps::falls_in_is_unique(
                    SLOAD_OPCODE_TIME_STEP@,
                    op_time,
                    index as int,
                    sload_bucket(op_time as nat),
                );
                crate::steps::counted_adds_one_event(old(self)@.sload, index as int);
            }
            let entry = self.sload_opcode_record[index];
            self.sload_opcode_record[index] = (entry.0, entry.1.checked_add(1).expect("overflow"));
            assert(self@.sload =~= old(self)@.sload_recorded(op_time as nat).sload);
            assert(self@.entries =~= old(self)@.entries);
            assert(self.sload_steps() =~= old(self).sload_steps());
        }
    }

    /// How often any opcode ran: the sum over the table, or `None` where the
    /// sum is too large for 64 bits.
    pub fn total_count(&self) -> (total: Option<u64>)
        ensures
            total is Some <==> self@.total_count() <= u64::MAX,
            total is Some ==> total->Some_0 == self@.total_count(),
    {
        let mut total: u64 = 0;
        let mut i: usize = 0;
        while i < OPCODE_LEN
            invariant
                i <= OPCODE_LEN,
                total == self@.count_upto(i as int),
            decreases OPCODE_LEN - i,
        {
            match total.checked_add(self.opcode_record[i].0) {
                Some(sum) => {
                    total = sum;
                },
                None => {
                    proof {
                        count_upto_grows(self@, i as int + 1, OPCODE_LEN as int);
                    }
                    return None;
                },
            }
            i += 1;
        }
        Some(total)
    }

    /// The cycles that all opcodes took: the sum over the table, or `None`
    /// where the sum is too large for 64 bits.
    pub fn total_cycles(&self) -> (total: Option<u64>)
        ensures
            total is Some <==> self@.total_cycles() <= u64::MAX,
            total is Some ==> total->Some_0 == self@.total_cycles(),
    {
        let mut total: u64 = 0;
        let mut i: usize = 0;
        while i < OPCODE_LEN
            invariant
                i <= OPCODE_LEN,
                total == self@.cycles_upto(i as int),
            decreases OPCODE_LEN - i,
        {
            match total.checked_add(self.opcode_record[i].1) {
                Some(sum) => {
                    total = sum;
                },
                None => {
                    proof {
                        cycles_upto_grows(self@, i as int + 1, OPCODE_LEN as int);
                    }
                    return None;
                },
            }
            i += 1;
        }
        Some(total)
    }

    /// The gas that all opcodes took: the sum over the table, taken opcode by
    /// opcode. Gas is signed, so the sum can leave its range on the way and
    /// come back: the result is `None` where the sum over some first opcodes
    /// does not fit in 128 bits.
    pub fn total_gas(&self) -> (total: Option<i128>)
        ensures
            total is Some <==> self@.gas_in_range(),
            total is Some ==> total->Some_0 == self@.total_gas(),
    {
        let mut total: i128 = 0;
        let mut i: usize = 0;
        while i < OPCODE_LEN
            invariant
                i <= OPCODE_LEN,
                total == self@.gas_upto(i as int),
                forall|n: int|
                    0 <= n <= i ==> i128::MIN <= #[trigger] self@.gas_upto(n) <= i128::MAX,
            decreases OPCODE_LEN - i,
        {
            match total.checked_add(self.opcode_record[i].2) {
                Some(sum) => {
                    total = sum;
                },
                None => {
                    assert(!(i128::MIN <= self@.gas_upto(i as int + 1) <= i128::MAX));
                    return None;
                },
            }
            i += 1;
        }
        Some(total)
    }

    /// Turns every cycle count of the record into time, at `frequency` cycles
    /// per time unit, rounding down. To be called once, after the last merge:
    /// a second call would divide again.
    pub fn convert_cycles_to_time(&mut self, frequency: u64) -> (done: Result<(), ConvertError>)
        ensures
            frequency == 0 <==> done is Err,
            done is Err ==> done == Err::<(), ConvertError>(ConvertError::ZeroFrequency)
                && *final(self) == *old(self),
            done is Ok ==> final(self)@ == old(self)@.in_time(frequency as nat),
            done is Ok ==> {
                &&& final(self).total_time == old(self).total_time / frequency
                &&& final(self).is_updated == old(self).is_updated
                &&& final(self).sload_opcode_record == old(self).sload_opcode_record
                &&& forall|i: int|
                    0 <= i < OPCODE_LEN ==> #[trigger] final(self).opcode_record[i] == (
                        old(self).opcode_record[i].0,
                        old(self).opcode_record[i].1 / frequency,
                        old(self).opcode_record[i].2,
                    )
            },
            old(self).wf() ==> final(self).wf(),
    {
        if frequency == 0 {
            return Err(ConvertError::ZeroFrequency);
        }
        self.total_time = self.total_time / frequency;
        let mut i: usize = 0;
        while i < OPCODE_LEN
            invariant
                i <= OPCODE_LEN,
                frequency > 0,
                self.sload_opcode_record == old(self).sload_opcode_record,
                self.is_updated == old(self).is_updated,
                self.total_time == old(self).total_time / frequency,
                forall|k: int|
                    0 <= k < i ==> {
                        &&& (#[trigger] self.opcode_record[k]).0 == old(self).opcode_record[k].0
                        &&& self.opcode_record[k].1 == old(self).opcode_record[k].1 / frequency
                        &&& self.opcode_record[k].2 == old(self).opcode_record[k].2
                    },
                forall|k: int|
                    i <= k < OPCODE_LEN ==> self.opcode_record[k] == old(self).opcode_record[k],
            decreases OPCODE_LEN - i,
        {
            let entry = self.opcode_record[i];
            self.opcode_record[i] = (entry.0, entry.1 / frequency, entry.2);
            i += 1;
        }
        assert(self@.entries =~= old(self)@.in_time(frequency as nat).entries);
        assert(self@.sload =~= old(self)@.sload);
        Ok(())
    }

    /// Merges `other` into this record.
    ///
    /// A record that was never written to adds nothing. Merged into a record
    /// that was never written to, `other` takes its place, and the tables of
    /// the two change hands. Otherwise every accumulator of `other` is added
    /// to its counterpart.
    pub fn update(&mut self, other: &mut OpcodeRecord)
        requires
            old(self)@.merged(old(other)@).fits(),
        ensures
            final(self)@ == old(self)@.merged(old(other)@),
            !old(other).is_updated ==> {
                &&& *final(self) == *old(self)
                &&& *final(other) == *old(other)
            },
            old(other).is_updated && !old(self).is_updated ==> {
                &&& *final(self) == *old(other)
                &&& *final(other) == (OpcodeRecord {
                    opcode_record: old(self).opcode_record,
                    sload_opcode_record: old(self).sload_opcode_record,
                    ..*old(other)
                })
            },
            old(other).is_updated && old(self).is_updated ==> {
                &&& final(self).is_sum_of(*old(self), *old(other))
                &&& *final(other) == *old(other)
            },
            old(self).wf() && old(other).wf() ==> final(self).wf() && final(other).wf(),
    {
        if !other.is_updated {
            return ;
        }
        if !self.is_updated {
            self.total_time = other.total_time;
            std::mem::swap(&mut self.opcode_record, &mut other.opcode_record);
            std::mem::swap(&mut self.sload_opcode_record, &mut other.sload_opcode_record);
            self.is_updated = true;
            assert(self@.entries =~= old(other)@.entries);
            assert(self@.sload =~= old(other)@.sload);
            return ;
        }
        let ghost sum = old(self)@.plus(old(other)@);
        self.total_time = self.total_time.checked_add(other.total_time).expect("overflow");

        let mut i: usize = 0;
        while i < OPCODE_LEN
            invariant
                i <= OPCODE_LEN,
                sum == old(self)@.plus(old(other)@),
                sum.fits(),
                *other == *old(other),
                self.sload_opcode_record == old(self).sload_opcode_record,
                self.total_time == sum.total_time,
                self.is_updated,
                forall|k: int|
                    0 <= k < i ==> {
                        &&& (#[trigger] self.opcode_record[k]).0 == old(self).opcode_record[k].0
                            + other.opcode_record[k].0
                        &&& self.opcode_record[k].1 == old(self).opcode_record[k].1
                            + other.opcode_record[k].1
                        &&& self.opcode_record[k].2 == old(self).opcode_record[k].2
                            + other.opcode_record[k].2
                    },
                forall|k: int|
                    i <= k < OPCODE_LEN ==> self.opcode_record[k] == old(self).opcode_record[k],
            decreases OPCODE_LEN - i,
        {
            assert(sum.entries[i as int].fits());
            let mine = self.opcode_record[i];
            let theirs = other.opcode_record[i];
            self.opcode_record[i] = (
                mine.0.checked_add(theirs.0).expect("overflow"),
                mine.1.checked_add(theirs.1).expect("overflow"),
                mine.2.checked_add(theirs.2).expect("overflow"),
            );
            i += 1;
        }
        assert(self@.entries =~= sum.entries);

        let mut index: usize = 0;
        while index < STEP_LEN
            invariant
                index <= STEP_LEN,
                sum == old(self)@.plus(old(other)@),
                sum.fits(),
                *other == *old(other),
                self@.entries == sum.entries,
                forall|k: int|
                    0 <= k < OPCODE_LEN ==> {
                        &&& (#[trigger] self.opcode_record[k]).0 == old(self).opcode_record[k].0
                            + other.opcode_record[k].0
                        &&& self.opcode_record[k].1 == old(self).opcode_record[k].1
                            + other.opcode_record[k].1
                        &&& self.opcode_record[k].2 == old(self).opcode_record[k].2
                            + other.opcode_record[k].2
                    },
                self.total_time == sum.total_time,
                self.is_updated,
                forall|k: int|
                    0 <= k < STEP_LEN ==> (#[trigger] self.sload_opcode_record[k]).0 == old(
                        self,
                    ).sload_opcode_record[k].0,
                forall|k: int|
                    0 <= k < index ==> (#[trigger] self.sload_opcode_record[k]).1 == old(
                        self,
                    ).sload_opcode_record[k].1 + other.sload_opcode_record[k].1,
                forall|k: int|
                    index <= k < STEP_LEN ==> self.sload_opcode_record[k] == old(
                        self,
                    ).sload_opcode_record[k],
            decreases STEP_LEN - index,
        {
            assert(sum.sload[index as int] <= u64::MAX);
            let mine = self.sload_opcode_record[index];
            self.sload_opcode_record[index] = (
                mine.0,
                mine.1.checked_add(other.sload_opcode_record[index].1).expect("overflow"),
            );
            index += 1;
        }
        assert(self@.sload =~= sum.sload);
        assert(self.sload_steps() =~= old(self).sload_steps());
    }
}

/// The count over a longer run of opcodes is not smaller.
pub proof fn count_upto_grows(counts: OpcodeCounts, n: int, m: int)
    requires
        n <= m,
    ensures
        counts.count_upto(n) <= counts.count_upto(m),
    decreases m - n,
{
    if n < m {
        count_upto_grows(counts, n, m - 1);
    }
}

/// The cycles over a longer run of opcodes are not fewer.
pub proof fn cycles_upto_grows(counts: OpcodeCounts, n: int, m: int)
    requires
        n <= m,
    ensures
        counts.cycles_upto(n) <= counts.cycles_upto(m),
    decreases m - n,
{
    if n < m {
        cycles_upto_grows(counts, n, m - 1);
    }
}

/// Merging does not depend on the order of the two records, as long as one
/// of them has been written to.
pub proof fn merged_commutes(a: OpcodeCounts, b: OpcodeCounts)
    requires
        a.wf(),
        b.wf(),
        a.updated || b.updated,
    ensures
        a.merged(b) == b.merged(a),
{
    if a.updated && b.updated {
        assert(a.plus(b).entries =~= b.plus(a).entries);
        assert(a.plus(b).sload =~= b.plus(a).sload);
    }
}

/// Merging three records gives the same whichever two are merged first.
pub proof fn merged_associates(a: OpcodeCounts, b: OpcodeCounts, c: OpcodeCounts)
    requires
        a.wf(),
        b.wf(),
        c.wf(),
    ensures
        a.merged(b).merged(c) == a.merged(b.merged(c)),
{
    if a.updated && b.updated && c.updated {
        assert(a.plus(b).plus(c).entries =~= a.plus(b.plus(c)).entries);
        assert(a.plus(b).plus(c).sload =~= a.plus(b.plus(c)).sload);
    }
}

/// Merging is addition, as long as a record that was never written to holds
/// nothing: that such a record takes over what is merged into it, or is left
/// out of a merge, is a shortcut that gives what the sums would give.
pub proof fn merged_is_plus(a: OpcodeCounts, b: OpcodeCounts)
    requires
        a.wf(),
        b.wf(),
        !a.updated ==> a.is_zero(),
        !b.updated ==> b.is_zero(),
    ensures
        a.merged(b) == a.plus(b),
{
    if !b.updated {
        assert forall|i: int| 0 <= i < OPCODE_LEN implies a.plus(b).entries[i] == a.entries[i] by {
            assert(b.entries[i].is_zero());
        }
        assert(a.plus(b).entries =~= a.entries);
        assert(a.plus(b).sload =~= a.sload);
    } else if !a.updated {
        assert forall|i: int| 0 <= i < OPCODE_LEN implies a.plus(b).entries[i] == b.entries[i] by {
            assert(a.entries[i].is_zero());
        }
        assert(a.plus(b).entries =~= b.entries);
        assert(a.plus(b).sload =~= b.sload);
    }
}

/// The totals of a sum are the sums of the totals.
pub proof fn plus_adds_totals(a: OpcodeCounts, b: OpcodeCounts)
    requires
        a.wf(),
        b.wf(),
    ensures
        a.plus(b).total_count() == a.total_count() + b.total_count(),
        a.plus(b).total_cycles() == a.total_cycles() + b.total_cycles(),
        a.plus(b).total_gas() == a.total_gas() + b.total_gas(),
        a.plus(b).sload_events() == a.sload_events() + b.sload_events(),
{
    plus_adds_upto(a, b, OPCODE_LEN as int);
    crate::steps::counts_plus_adds_events(a.sload, b.sload);
}

/// Over any run of opcodes, the figures of a sum are the sums of the figures.
pub proof fn plus_adds_upto(a: OpcodeCounts, b: OpcodeCounts, n: int)
    requires
        n <= OPCODE_LEN,
    ensures
        a.plus(b).count_upto(n) == a.count_upto(n) + b.count_upto(n),
        a.plus(b).cycles_upto(n) == a.cycles_upto(n) + b.cycles_upto(n),
        a.plus(b).gas_upto(n) == a.gas_upto(n) + b.gas_upto(n),
    decreases n,
{
    if n > 0 {
        plus_adds_upto(a, b, n - 1);
    }
}

} // verus!
