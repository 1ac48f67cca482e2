//! The cost of cache misses: cycles lost per kind of access, and a histogram
//! of the time each miss took.

use vstd::prelude::*;
use crate::counters::CategoryCounts;
use crate::steps::{counted, counts_plus, events, falls_in, strictly_ascending};
use crate::time_utils::{convert_cycles_to_ms, cycles_to_time, ConvertError};

verus! {

/// The number of buckets of the penalty histogram.
pub const PENALTY_STEP_SIZE: usize = 201;

/// The largest penalty, in milliseconds, that has a bucket of its own. Longer
/// ones share the last bucket.
pub const PENALTY_STEP_LIMIT: u64 = 200;

/// The step of bucket `index`, in milliseconds: one more than the index, but
/// for the last bucket, whose step no value exceeds.
pub open spec fn penalty_step_of(index: int) -> u64 {
    if 0 <= index < PENALTY_STEP_LIMIT {
        (index + 1) as u64
    } else {
        u64::MAX
    }
}

/// The steps of the penalty histogram, in milliseconds: every whole number
/// from 1 to 200, then a last step that no value exceeds.
pub open spec fn penalty_steps() -> Seq<u64> {
    Seq::new(PENALTY_STEP_SIZE as nat, |i: int| penalty_step_of(i))
}

/// The bucket of a penalty of `time` milliseconds.
pub open spec fn penalty_bucket(time: nat) -> int {
    if time <= 1 {
        0
    } else if time <= PENALTY_STEP_LIMIT {
        time - 1
    } else {
        PENALTY_STEP_LIMIT as int
    }
}

/// The step of bucket `index`.
pub fn penalty_step(index: usize) -> (step: u64)
    ensures
        step == penalty_step_of(index as int),
{
    if index < PENALTY_STEP_SIZE - 1 {
        index as u64 + 1
    } else {
        u64::MAX
    }
}

/// The penalty steps ascend, and the last one catches every value.
pub proof fn penalty_steps_are_sound()
    ensures
        penalty_steps().len() == PENALTY_STEP_SIZE,
        strictly_ascending(penalty_steps()),
        penalty_steps().last() == u64::MAX,
{
}

/// `penalty_bucket` is the bucket rule on the penalty steps.
pub proof fn penalty_bucket_falls_in(time: u64)
    ensures
        falls_in(penalty_steps(), time, penalty_bucket(time as nat)),
{
}

/// What a penalty record stands for in contracts: the cycles lost per kind of
/// access, and the number of misses in each bucket of the histogram.
pub struct PenaltyCounts {
    pub cycles: CategoryCounts,
    pub percentile: Seq<nat>,
}

impl PenaltyCounts {
    /// There is one count for each bucket.
    pub open spec fn wf(self) -> bool {
        self.percentile.len() == PENALTY_STEP_SIZE
    }

    /// The record of no miss at all.
    pub open spec fn zero() -> PenaltyCounts {
        PenaltyCounts {
            cycles: CategoryCounts::zero(),
            percentile: Seq::new(PENALTY_STEP_SIZE as nat, |i: int| 0nat),
        }
    }

    /// The sum of two records, kind by kind and bucket by bucket.
    pub open spec fn plus(self, other: PenaltyCounts) -> PenaltyCounts {
        PenaltyCounts {
            cycles: self.cycles.plus(other.cycles),
            percentile: counts_plus(self.percentile, other.percentile),
        }
    }

    /// Every count can be held in a 64-bit accumulator.
    pub open spec fn fits(self) -> bool {
        &&& self.cycles.fits()
        &&& forall|i: int| 0 <= i < self.percentile.len() ==> self.percentile[i] <= u64::MAX
    }

    /// The record after one more miss that took `time` milliseconds.
    pub open spec fn recorded(self, time: nat) -> PenaltyCounts {
        PenaltyCounts {
            cycles: self.cycles,
            percentile: counted(self.percentile, penalty_bucket(time)),
        }
    }

    /// The record after one more miss for each of `times`, in their order.
    pub open spec fn recorded_all(self, times: Seq<nat>) -> PenaltyCounts
        decreases times.len(),
    {
        if times.len() == 0 {
            self
        } else {
            self.recorded_all(times.drop_last()).recorded(times.last())
        }
    }

    /// The number of misses in the histogram.
    pub open spec fn events(self) -> nat {
        events(self.percentile)
    }

    /// The record with its cycles turned into time, at `frequency` cycles per
    /// time unit. The histogram counts misses and stays as it is.
    pub open spec fn in_time(self, frequency: nat) -> PenaltyCounts
        recommends
            frequency > 0,
    {
        PenaltyCounts { cycles: self.cycles.in_time(frequency), percentile: self.percentile }
    }
}

/// The additional cost, in cycles, incurred when the cached state is not hit.
#[derive(Debug, Clone, Copy, PartialEq, Eq)]
pub struct CacheMissesPenalty {
    pub block_hash: u64,
    pub basic: u64,
    pub storage: u64,
    pub code_by_hash: u64,
    pub load_account: u64,
    /// The number of misses in each bucket of the histogram.
    pub percentile: [u64; PENALTY_STEP_SIZE],
}

impl View for CacheMissesPenalty {
    type V = PenaltyCounts;

    open spec fn view(&self) -> PenaltyCounts {
        PenaltyCounts {
            cycles: CategoryCounts {
                block_hash: self.block_hash as nat,
                basic: self.basic as nat,
                storage: self.storage as nat,
                code_by_hash: self.code_by_hash as nat,
                load_account: self.load_account as nat,
            },
            percentile: Seq::new(PENALTY_STEP_SIZE as nat, |i: int| self.percentile[i] as nat),
        }
    }
}

impl Default for CacheMissesPenalty {
    fn default() -> (penalty: Self)
        ensures
            penalty@ == PenaltyCounts::zero(),
            forall|i: int| 0 <= i < PENALTY_STEP_SIZE ==> #[trigger] penalty.percentile[i] == 0,
    {
        let penalty = CacheMissesPenalty {
            block_hash: 0,
            basic: 0,
            storage: 0,
            code_by_hash: 0,
            load_account: 0,
            percentile: [0; PENALTY_STEP_SIZE],
        };
        assert(penalty@.percentile =~= PenaltyCounts::zero().percentile);
        penalty
    }
}

impl CacheMissesPenalty {
    /// Whether `other` can be added without any counter leaving its range.
    pub fn can_update(&self, other: &Self) -> (fits: bool)
        ensures
            fits == self@.plus(other@).fits(),
    {
        if self.block_hash.checked_add(other.block_hash).is_none()
            || self.basic.checked_add(other.basic).is_none()
            || self.storage.checked_add(other.storage).is_none()
            || self.code_by_hash.checked_add(other.code_by_hash).is_none()
            || self.load_account.checked_add(other.load_account).is_none() {
            return false;
        }
        let mut index: usize = 0;
        while index < PENALTY_STEP_SIZE
            invariant
                index <= PENALTY_STEP_SIZE,
                self@.plus(other@).cycles.fits(),
                forall|i: int| 0 <= i < index ==> self@.plus(other@).percentile[i] <= u64::MAX,
            decreases PENALTY_STEP_SIZE - index,
        {
            if self.percentile[index].checked_add(other.percentile[index]).is_none() {
                assert(self@.plus(other@).percentile[index as int] > u64::MAX);
                return false;
            }
            index += 1;
        }
        true
    }

    /// Adds `other` to this record: the cycles kind by kind, the histogram
    /// bucket by bucket.
    pub fn update(&mut self, other: &Self)
        requires
            old(self)@.plus(other@).fits(),
        ensures
            final(self)@ == old(self)@.plus(other@),
            final(self)@.cycles.at_least(old(self)@.cycles),
            forall|i: int|
                0 <= i < PENALTY_STEP_SIZE ==> #[trigger] final(self).percentile[i] == old(
                    self,
                ).percentile[i] + other.percentile[i],
    {
        self.block_hash = self.block_hash.checked_add(other.block_hash).expect("overflow");
        self.basic = self.basic.checked_add(other.basic).expect("overflow");
        self.storage = self.storage.checked_add(other.storage).expect("overflow");
        self.code_by_hash = self.code_by_hash.checked_add(other.code_by_hash).expect("overflow");
        self.load_account = self.load_account.checked_add(other.load_account).expect("overflow");
        let mut index: usize = 0;
        while index < PENALTY_STEP_SIZE
            invariant
                index <= PENALTY_STEP_SIZE,
                old(self)@.plus(other@).fits(),
                self@.cycles == old(self)@.cycles.plus(other@.cycles),
                forall|i: int|
                    0 <= i < index ==> self.percentile[i] == old(self).percentile[i]
                        + other.percentile[i],
                forall|i: int|
                    index <= i < PENALTY_STEP_SIZE ==> self.percentile[i] == old(
                        self,
                    ).percentile[i],
            decreases PENALTY_STEP_SIZE - index,
        {
            assert(old(self)@.plus(other@).percentile[index as int] <= u64::MAX);
            self.percentile[index] = self.percentile[index].checked_add(
                other.percentile[index],
            ).expect("overflow");
            index += 1;
        }
        assert(self@.percentile =~= old(self)@.plus(other@).percentile);
    }

    /// Records one miss that took `cycles` cycles, at `frequency` cycles per
    /// millisecond: the miss is counted in the bucket of its duration in
    /// milliseconds, rounded down.
    pub fn percentile(&mut self, cycles: u64, frequency: u64) -> (done: Result<(), ConvertError>)
        requires
            frequency > 0 ==> old(self).percentile[penalty_bucket(
                cycles_to_time(cycles as nat, frequency as nat),
            )] < u64::MAX,
        ensures
            frequency == 0 <==> done is Err,
            done is Err ==> done == Err::<(), ConvertError>(ConvertError::ZeroFrequency)
                && *final(self) == *old(self),
            done is Ok ==> final(self)@ == old(self)@.recorded(
                cycles_to_time(cycles as nat, frequency as nat),
            ),
            done is Ok ==> final(self)@.events() == old(self)@.events() + 1,
            done is Ok ==> final(self).percentile@ == old(self).percentile@.update(
                penalty_bucket(cycles_to_time(cycles as nat, frequency as nat)),
                (old(self).percentile[penalty_bucket(
                    cycles_to_time(cycles as nat, frequency as nat),
                )] + 1) as u64,
            ),
    {
        let time = match convert_cycles_to_ms(cycles, frequency) {
            Ok(time) => time,
            Err(error) => {
                return Err(error);
            },
        };
        let mut index: usize = 0;
        while index < PENALTY_STEP_SIZE
            invariant
                index <= PENALTY_STEP_SIZE,
                *self == *old(self),
                frequency > 0,
                time == cycles_to_time(cycles as nat, frequency as nat),
                old(self).percentile[penalty_bucket(time as nat)] < u64::MAX,
                forall|j: int| 0 <= j < index ==> penalty_steps()[j] < time,
            decreases PENALTY_STEP_SIZE - index,
        {
            if time <= penalty_step(index) {
                proof {
                    penalty_bucket_falls_in(time);
                    crate::steps::falls_in_is_unique(
                        penalty_steps(),
                        time,
                        index as int,
                        penalty_bucket(time as nat),
                    );
                    crate::steps::counted_adds_one_event(old(self)@.percentile, index as int);
                }
                self.percentile[index] = self.percentile[index].checked_add(1).expect("overflow");
                assert(self@.percentile =~= old(self)@.recorded(time as nat).percentile);
                return Ok(());
            }
            index += 1;
        }
        // The last step catches every value, so the scan has ended above.
        proof {
            penalty_bucket_falls_in(time);
        }
        Ok(())
    }

    /// Turns the cycles lost per kind of access into time, at `frequency`
    /// cycles per time unit, rounding down. To be called once, when nothing
    /// more will be added: a second call would divide again.
    pub fn convert_cycles_to_time(&mut self, frequency: u64) -> (done: Result<(), ConvertError>)
        ensures
            frequency == 0 <==> done is Err,
            done is Err ==> done == Err::<(), ConvertError>(ConvertError::ZeroFrequency)
                && *final(self) == *old(self),
            done is Ok ==> final(self)@ == old(self)@.in_time(frequency as nat),
            done is Ok ==> final(self).percentile == old(self).percentile,
    {
        if frequency == 0 {
            return Err(ConvertError::ZeroFrequency);
        }
        self.block_hash = self.block_hash / frequency;
        self.basic = self.basic / frequency;
        self.storage = self.storage / frequency;
        self.code_by_hash = self.code_by_hash / frequency;
        self.load_account = self.load_account / frequency;
        assert(self@.percentile =~= old(self)@.percentile);
        Ok(())
    }
}

/// Whatever misses are recorded, the histogram holds one event for each.
pub proof fn every_miss_is_counted(start: PenaltyCounts, times: Seq<nat>)
    requires
        start.wf(),
    ensures
        start.recorded_all(times).wf(),
        start.recorded_all(times).events() == start.events() + times.len(),
        start.recorded_all(times).cycles == start.cycles,
    decreases times.len(),
{
    if times.len() > 0 {
        every_miss_is_counted(start, times.drop_last());
        crate::steps::counted_adds_one_event(
            start.recorded_all(times.drop_last()).percentile,
            penalty_bucket(times.last()),
        );
    }
}

/// A histogram that starts empty holds as many events as misses were recorded.
pub proof fn events_equal_misses(times: Seq<nat>)
    ensures
        PenaltyCounts::zero().recorded_all(times).events() == times.len(),
{
    every_miss_is_counted(PenaltyCounts::zero(), times);
    crate::steps::empty_buckets_hold_no_event(PenaltyCounts::zero().percentile);
}

/// Adding penalty records does not depend on their order.
pub proof fn plus_commutes(a: PenaltyCounts, b: PenaltyCounts)
    requires
        a.wf(),
        b.wf(),
    ensures
        a.plus(b) == b.plus(a),
{
    assert(a.plus(b).percentile =~= b.plus(a).percentile);
}

/// Adding penalty records does not depend on how they are bracketed.
pub proof fn plus_associates(a: PenaltyCounts, b: PenaltyCounts, c: PenaltyCounts)
    requires
        a.wf(),
        b.wf(),
        c.wf(),
    ensures
        a.plus(b).plus(c) == a.plus(b.plus(c)),
{
    assert(a.plus(b).plus(c).percentile =~= a.plus(b.plus(c)).percentile);
}

/// Added records hold the events of both.
pub proof fn plus_adds_events(a: PenaltyCounts, b: PenaltyCounts)
    requires
        a.wf(),
        b.wf(),
    ensures
        a.plus(b).events() == a.events() + b.events(),
{
    crate::steps::counts_plus_adds_events(a.percentile, b.percentile);
}

} // verus!
