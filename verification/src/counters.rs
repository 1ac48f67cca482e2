//! Counter groups: one accumulator for each kind of access to the cached
//! state.

use vstd::prelude::*;
use crate::time_utils::cycles_to_time;

verus! {

/// One unbounded count for each kind of access. This is what a counter group
/// stands for in contracts.
pub struct CategoryCounts {
    pub block_hash: nat,
    pub basic: nat,
    pub storage: nat,
    pub code_by_hash: nat,
    pub load_account: nat,
}

impl CategoryCounts {
    /// The group in which nothing has been counted.
    pub open spec fn zero() -> CategoryCounts {
        CategoryCounts { block_hash: 0, basic: 0, storage: 0, code_by_hash: 0, load_account: 0 }
    }

    /// The sum of two groups, kind by kind.
    pub open spec fn plus(self, other: CategoryCounts) -> CategoryCounts {
        CategoryCounts {
            block_hash: self.block_hash + other.block_hash,
            basic: self.basic + other.basic,
            storage: self.storage + other.storage,
            code_by_hash: self.code_by_hash + other.code_by_hash,
            load_account: self.load_account + other.load_account,
        }
    }

    /// The count over all kinds.
    pub open spec fn total(self) -> nat {
        self.basic + self.code_by_hash + self.storage + self.block_hash + self.load_account
    }

    /// Every count can be held in a 64-bit accumulator.
    pub open spec fn fits(self) -> bool {
        &&& self.block_hash <= u64::MAX
        &&& self.basic <= u64::MAX
        &&& self.storage <= u64::MAX
        &&& self.code_by_hash <= u64::MAX
        &&& self.load_account <= u64::MAX
    }

    /// The durations of these cycle counts at `frequency` cycles per time
    /// unit, each rounded down.
    pub open spec fn in_time(self, frequency: nat) -> CategoryCounts
        recommends
            frequency > 0,
    {
        CategoryCounts {
            block_hash: cycles_to_time(self.block_hash, frequency),
            basic: cycles_to_time(self.basic, frequency),
            storage: cycles_to_time(self.storage, frequency),
            code_by_hash: cycles_to_time(self.code_by_hash, frequency),
            load_account: cycles_to_time(self.load_account, frequency),
        }
    }

    /// No count of `self` is below the same count of `earlier`.
    pub open spec fn at_least(self, earlier: CategoryCounts) -> bool {
        &&& self.block_hash >= earlier.block_hash
        &&& self.basic >= earlier.basic
        &&& self.storage >= earlier.storage
        &&& self.code_by_hash >= earlier.code_by_hash
        &&& self.load_account >= earlier.load_account
    }
}

/// The number of cache hits when accessing the cached state.
#[derive(Debug, Clone, Copy, PartialEq, Eq)]
pub struct CacheHits {
    pub block_hash: u64,
    pub basic: u64,
    pub storage: u64,
    pub code_by_hash: u64,
    pub load_account: u64,
}

impl View for CacheHits {
    type V = CategoryCounts;

    open spec fn view(&self) -> CategoryCounts {
        CategoryCounts {
            block_hash: self.block_hash as nat,
            basic: self.basic as nat,
            storage: self.storage as nat,
            code_by_hash: self.code_by_hash as nat,
            load_account: self.load_account as nat,
        }
    }
}

impl Default for CacheHits {
    fn default() -> (hits: Self)
        ensures
            hits@ == CategoryCounts::zero(),
    {
        CacheHits { block_hash: 0, basic: 0, storage: 0, code_by_hash: 0, load_account: 0 }
    }
}

impl CacheHits {
    /// Whether `other` can be added without any counter leaving its range.
    pub fn can_update(&self, other: &Self) -> (fits: bool)
        ensures
            fits == self@.plus(other@).fits(),
    {
        self.block_hash.checked_add(other.block_hash).is_some()
            && self.basic.checked_add(other.basic).is_some()
            && self.storage.checked_add(other.storage).is_some()
            && self.code_by_hash.checked_add(other.code_by_hash).is_some()
            && self.load_account.checked_add(other.load_account).is_some()
    }

    /// Adds the counts of `other` to this group, kind by kind.
    pub fn update(&mut self, other: &Self)
        requires
            old(self)@.plus(other@).fits(),
        ensures
            final(self)@ == old(self)@.plus(other@),
            final(self)@.at_least(old(self)@),
    {
        self.block_hash = self.block_hash.checked_add(other.block_hash).expect("overflow");
        self.basic = self.basic.checked_add(other.basic).expect("overflow");
        self.storage = self.storage.checked_add(other.storage).expect("overflow");
        self.code_by_hash = self.code_by_hash.checked_add(other.code_by_hash).expect("overflow");
        self.load_account = self.load_account.checked_add(other.load_account).expect("overflow");
    }
}

/// The number of cache misses when accessing the cached state.
#[derive(Debug, Clone, Copy, PartialEq, Eq)]
pub struct CacheMisses {
    pub block_hash: u64,
    pub basic: u64,
    pub storage: u64,
    pub code_by_hash: u64,
    pub load_account: u64,
}

impl View for CacheMisses {
    type V = CategoryCounts;

    open spec fn view(&self) -> CategoryCounts {
        CategoryCounts {
            block_hash: self.block_hash as nat,
            basic: self.basic as nat,
            storage: self.storage as nat,
            code_by_hash: self.code_by_hash as nat,
            load_account: self.load_account as nat,
        }
    }
}

impl Default for CacheMisses {
    fn default() -> (misses: Self)
        ensures
            misses@ == CategoryCounts::zero(),
    {
        CacheMisses { block_hash: 0, basic: 0, storage: 0, code_by_hash: 0, load_account: 0 }
    }
}

impl CacheMisses {
    /// Whether `other` can be added without any counter leaving its range.
    pub fn can_update(&self, other: &Self) -> (fits: bool)
        ensures
            fits == self@.plus(other@).fits(),
    {
        self.block_hash.checked_add(other.block_hash).is_some()
            && self.basic.checked_add(other.basic).is_some()
            && self.storage.checked_add(other.storage).is_some()
            && self.code_by_hash.checked_add(other.code_by_hash).is_some()
            && self.load_account.checked_add(other.load_account).is_some()
    }

    /// Adds the counts of `other` to this group, kind by kind.
    pub fn update(&mut self, other: &Self)
        requires
            old(self)@.plus(other@).fits(),
        ensures
            final(self)@ == old(self)@.plus(other@),
            final(self)@.at_least(old(self)@),
    {
        self.block_hash = self.block_hash.checked_add(other.block_hash).expect("overflow");
        self.basic = self.basic.checked_add(other.basic).expect("overflow");
        self.storage = self.storage.checked_add(other.storage).expect("overflow");
        self.code_by_hash = self.code_by_hash.checked_add(other.code_by_hash).expect("overflow");
        self.load_account = self.load_account.checked_add(other.load_account).expect("overflow");
    }
}

/// Adding groups does not depend on their order.
pub proof fn plus_commutes(a: CategoryCounts, b: CategoryCounts)
    ensures
        a.plus(b) == b.plus(a),
{
}

/// Adding groups does not depend on how they are bracketed.
pub proof fn plus_associates(a: CategoryCounts, b: CategoryCounts, c: CategoryCounts)
    ensures
        a.plus(b).plus(c) == a.plus(b.plus(c)),
{
}

/// Adding the empty group changes nothing.
pub proof fn plus_zero(a: CategoryCounts)
    ensures
        a.plus(CategoryCounts::zero()) == a,
        CategoryCounts::zero().plus(a) == a,
{
}

} // verus!
