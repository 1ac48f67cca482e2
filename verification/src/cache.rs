//! The record of how the cached state was accessed during execution.

use vstd::prelude::*;
use crate::counters::{CacheHits, CacheMisses, CategoryCounts};
use crate::penalty::{CacheMissesPenalty, PenaltyCounts, PENALTY_STEP_SIZE};
use crate::time_utils::ConvertError;

verus! {

/// What a cache record stands for in contracts.
pub struct CacheDbCounts {
    pub hits: CategoryCounts,
    pub misses: CategoryCounts,
    pub penalty: PenaltyCounts,
}

impl CacheDbCounts {
    /// The record of no access at all.
    pub open spec fn zero() -> CacheDbCounts {
        CacheDbCounts {
            hits: CategoryCounts::zero(),
            misses: CategoryCounts::zero(),
            penalty: PenaltyCounts::zero(),
        }
    }

    /// The sum of two records, part by part.
    pub open spec fn plus(self, other: CacheDbCounts) -> CacheDbCounts {
        CacheDbCounts {
            hits: self.hits.plus(other.hits),
            misses: self.misses.plus(other.misses),
            penalty: self.penalty.plus(other.penalty),
        }
    }

    /// Every count can be held in a 64-bit accumulator.
    pub open spec fn fits(self) -> bool {
        &&& self.hits.fits()
        &&& self.misses.fits()
        &&& self.penalty.fits()
    }

    /// The record with its penalty cycles turned into time.
    pub open spec fn in_time(self, frequency: nat) -> CacheDbCounts
        recommends
            frequency > 0,
    {
        CacheDbCounts {
            hits: self.hits,
            misses: self.misses,
            penalty: self.penalty.in_time(frequency),
        }
    }
}

/// The hits, the misses and the cost of the misses when accessing the cached
/// state during execution.
#[derive(Debug, Clone, Copy, PartialEq, Eq)]
pub struct CacheDbRecord {
    pub hits: CacheHits,
    pub misses: CacheMisses,
    pub penalty: CacheMissesPenalty,
}

impl View for CacheDbRecord {
    type V = CacheDbCounts;

    open spec fn view(&self) -> CacheDbCounts {
        CacheDbCounts { hits: self.hits@, misses: self.misses@, penalty: self.penalty@ }
    }
}

impl Default for CacheDbRecord {
    fn default() -> (record: Self)
        ensures
            record@ == CacheDbCounts::zero(),
            forall|i: int|
                0 <= i < PENALTY_STEP_SIZE ==> #[trigger] record.penalty.percentile[i] == 0,
    {
        CacheDbRecord {
            hits: CacheHits::default(),
            misses: CacheMisses::default(),
            penalty: CacheMissesPenalty::default(),
        }
    }
}

impl CacheDbRecord {
    /// Whether `other` can be added without any counter leaving its range.
    pub fn can_update(&self, other: &Self) -> (fits: bool)
        ensures
            fits == self@.plus(other@).fits(),
    {
        self.hits.can_update(&other.hits) && self.misses.can_update(&other.misses)
            && self.penalty.can_update(&other.penalty)
    }

    /// Adds `other` to this record, counter by counter.
    pub fn update(&mut self, other: &Self)
        requires
            old(self)@.plus(other@).fits(),
        ensures
            final(self)@ == old(self)@.plus(other@),
            forall|i: int|
                0 <= i < PENALTY_STEP_SIZE ==> #[trigger] final(self).penalty.percentile[i] == old(
                    self,
                ).penalty.percentile[i] + other.penalty.percentile[i],
    {
        self.hits.update(&other.hits);
        self.misses.update(&other.misses);
        self.penalty.update(&other.penalty);
    }

    /// The number of accesses of kind `basic`, hit or missed.
    pub fn total_in_basic(&self) -> (total: u64)
        requires
            self@.hits.basic + self@.misses.basic <= u64::MAX,
        ensures
            total == self@.hits.basic + self@.misses.basic,
    {
        self.hits.basic.checked_add(self.misses.basic).expect("overflow")
    }

    /// The number of accesses of kind `code_by_hash`, hit or missed.
    pub fn total_in_code_by_hash(&self) -> (total: u64)
        requires
            self@.hits.code_by_hash + self@.misses.code_by_hash <= u64::MAX,
        ensures
            total == self@.hits.code_by_hash + self@.misses.code_by_hash,
    {
        self.hits.code_by_hash.checked_add(self.misses.code_by_hash).expect("overflow")
    }

    /// The number of accesses of kind `storage`, hit or missed.
    pub fn total_in_storage(&self) -> (total: u64)
        requires
            self@.hits.storage + self@.misses.storage <= u64::MAX,
        ensures
            total == self@.hits.storage + self@.misses.storage,
    {
        self.hits.storage.checked_add(self.misses.storage).expect("overflow")
    }

    /// The number of accesses of kind `block_hash`, hit or missed.
    pub fn total_in_block_hash(&self) -> (total: u64)
        requires
            self@.hits.block_hash + self@.misses.block_hash <= u64::MAX,
        ensures
            total == self@.hits.block_hash + self@.misses.block_hash,
    {
        self.hits.block_hash.checked_add(self.misses.block_hash).expect("overflow")
    }

    /// The number of accesses of kind `load_account`, hit or missed.
    pub fn total_in_load_account(&self) -> (total: u64)
        requires
            self@.hits.load_account + self@.misses.load_account <= u64::MAX,
        ensures
            total == self@.hits.load_account + self@.misses.load_account,
    {
        self.hits.load_account.checked_add(self.misses.load_account).expect("overflow")
    }

    /// The number of hits, over all kinds of access.
    pub fn total_hits(&self) -> (total: u64)
        requires
            self@.hits.total() <= u64::MAX,
        ensures
            total == self@.hits.total(),
    {
        let mut total = self.hits.basic.checked_add(self.hits.code_by_hash).expect("overflow");
        total = total.checked_add(self.hits.storage).expect("overflow");
        total = total.checked_add(self.hits.block_hash).expect("overflow");
        total = total.checked_add(self.hits.load_account).expect("overflow");
        total
    }

    /// The number of misses, over all kinds of access.
    pub fn total_miss(&self) -> (total: u64)
        requires
            self@.misses.total() <= u64::MAX,
        ensures
            total == self@.misses.total(),
    {
        let mut total = self.misses.basic.checked_add(self.misses.code_by_hash).expect("overflow");
        total = total.checked_add(self.misses.storage).expect("overflow");
        total = total.checked_add(self.misses.block_hash).expect("overflow");
        total = total.checked_add(self.misses.load_account).expect("overflow");
        total
    }

    /// The cost of the misses, over all kinds of access.
    pub fn total_penalty_times(&self) -> (total: u64)
        requires
            self@.penalty.cycles.total() <= u64::MAX,
        ensures
            total == self@.penalty.cycles.total(),
    {
        let mut total = self.penalty.basic.checked_add(self.penalty.code_by_hash).expect(
            "overflow",
        );
        total = total.checked_add(self.penalty.storage).expect("overflow");
        total = total.checked_add(self.penalty.block_hash).expect("overflow");
        total = total.checked_add(self.penalty.load_account).expect("overflow");
        total
    }

    /// Turns the cost of the misses from cycles into time, at `frequency`
    /// cycles per time unit, rounding down. To be called once, when nothing
    /// more will be added: a second call would divide again.
    pub fn convert_cycles_to_time(&mut self, frequency: u64) -> (done: Result<(), ConvertError>)
        ensures
            frequency == 0 <==> done is Err,
            done is Err ==> done == Err::<(), ConvertError>(ConvertError::ZeroFrequency)
                && *final(self) == *old(self),
            done is Ok ==> final(self)@ == old(self)@.in_time(frequency as nat),
            done is Ok ==> final(self).penalty.percentile == old(self).penalty.percentile,
    {
        self.penalty.convert_cycles_to_time(frequency)
    }
}

/// Merging cache records does not depend on their order.
pub proof fn plus_commutes(a: CacheDbCounts, b: CacheDbCounts)
    requires
        a.penalty.wf(),
        b.penalty.wf(),
    ensures
        a.plus(b) == b.plus(a),
{
    crate::penalty::plus_commutes(a.penalty, b.penalty);
}

/// Merging cache records does not depend on how they are bracketed.
pub proof fn plus_associates(a: CacheDbCounts, b: CacheDbCounts, c: CacheDbCounts)
    requires
        a.penalty.wf(),
        b.penalty.wf(),
        c.penalty.wf(),
    ensures
        a.plus(b).plus(c) == a.plus(b.plus(c)),
{
    crate::penalty::plus_associates(a.penalty, b.penalty, c.penalty);
}

} // verus!
