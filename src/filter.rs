//! The fixed-vector filter: one cell per hashed index, set on insert, never cleared.
use vstd::prelude::*;

use crate::hashing::{digest, keyed_hash};

verus! {

/// What a filter is, mathematically: its cells and the hash state that
/// addresses them.
pub struct FilterModel {
    pub cells: Seq<bool>,
    pub hasher: ahash::RandomState,
}

impl FilterModel {
    /// A filter has at least one cell, so every digest has a cell to land on.
    pub open spec fn wf(self) -> bool {
        self.cells.len() >= 1
    }

    /// The cell that `key` is hashed to: its digest modulo the capacity.
    pub open spec fn index_of(self, key: Seq<char>) -> int {
        keyed_hash(self.hasher, key) as int % self.cells.len() as int
    }

    /// Whether `key` may have been inserted: its cell is set.
    pub open spec fn contains(self, key: Seq<char>) -> bool {
        self.cells[self.index_of(key)]
    }

    /// The filter after inserting `key`: its cell is set, nothing else changes.
    pub open spec fn insert(self, key: Seq<char>) -> FilterModel {
        FilterModel { cells: self.cells.update(self.index_of(key), true), hasher: self.hasher }
    }

    /// The filter after inserting `keys` in order.
    pub open spec fn insert_all(self, keys: Seq<Seq<char>>) -> FilterModel
        decreases keys.len(),
    {
        if keys.len() == 0 {
            self
        } else {
            self.insert(keys[0]).insert_all(keys.drop_first())
        }
    }

    /// A filter that nothing has been inserted into yet.
    pub open spec fn is_empty(self) -> bool {
        forall|i: int| 0 <= i < self.cells.len() ==> !#[trigger] self.cells[i]
    }
}

/// Why a filter could not be built.
#[derive(Debug, Clone, Copy, PartialEq, Eq, Structural)]
pub enum FilterError {
    /// A filter needs at least one cell.
    ZeroCapacity,
}

/// A membership filter: inserting a key makes it present for good; a query
/// may report a key that was never inserted, never miss one that was.
pub trait BloomFilter {
    /// The filter is in a state that the operations accept.
    spec fn well_formed(&self) -> bool;

    /// Whether a query for `key` reports it as possibly inserted.
    spec fn present(&self, key: Seq<char>) -> bool;

    /// Inserts `key`, and returns whether it was reported present before.
    fn insert(&mut self, key: &str) -> (r: bool)
        requires
            old(self).well_formed(),
        ensures
            final(self).well_formed(),
            r == old(self).present(key@),
            final(self).present(key@),
            forall|k: Seq<char>| old(self).present(k) ==> #[trigger] final(self).present(k),
    ;

    /// Whether `key` may have been inserted. False means it certainly was not.
    fn maybe_contains(&self, key: &str) -> (r: bool)
        requires
            self.well_formed(),
        ensures
            r == self.present(key@),
    ;
}

/// A membership filter over a fixed vector of cells, addressed by one keyed hash.
#[derive(Debug)]
pub struct FixedVectorFilter {
    vector: Vec<bool>,
    hasher: ahash::RandomState,
}

impl View for FixedVectorFilter {
    type V = FilterModel;

    closed spec fn view(&self) -> FilterModel {
        FilterModel { cells: self.vector@, hasher: self.hasher }
    }
}

impl FixedVectorFilter {
    /// A filter of `size` cells, all clear, with a freshly seeded hash state.
    /// Fails when `size` is zero.
    pub fn new(size: usize) -> (r: Result<FixedVectorFilter, FilterError>)
        ensures
            r is Err <==> size == 0,
            r is Err ==> r == Err::<FixedVectorFilter, FilterError>(FilterError::ZeroCapacity),
            r matches Ok(f) ==> f@.wf() && f@.cells =~= Seq::new(size as nat, |i: int| false),
    {
        FixedVectorFilter::with_hasher(size, ahash::RandomState::new())
    }

    /// A filter of `size` cells, all clear, addressed through `hasher`.
    /// Fails when `size` is zero.
    pub fn with_hasher(size: usize, hasher: ahash::RandomState) -> (r: Result<
        FixedVectorFilter,
        FilterError,
    >)
        ensures
            r is Err <==> size == 0,
            r is Err ==> r == Err::<FixedVectorFilter, FilterError>(FilterError::ZeroCapacity),
            r matches Ok(f) ==> f@.wf() && f@.cells =~= Seq::new(size as nat, |i: int| false)
                && f@.hasher == hasher,
    {
        if size == 0 {
            return Err(FilterError::ZeroCapacity);
        }
        let vector = vec![false; size];
        proof {
            assert(vector@ =~= Seq::new(size as nat, |i: int| false));
        }
        Ok(FixedVectorFilter { vector, hasher })
    }

    /// The number of cells.
    pub fn capacity(&self) -> (r: usize)
        ensures
            r == self@.cells.len(),
    {
        self.vector.len()
    }

    /// The cell that `key` is hashed to.
    pub fn hashed_index(&self, key: &str) -> (r: usize)
        requires
            self@.wf(),
        ensures
            r == self@.index_of(key@),
            r < self@.cells.len(),
    {
        let d = digest(&self.hasher, key);
        (d % (self.vector.len() as u64)) as usize
    }
}

impl BloomFilter for FixedVectorFilter {
    open spec fn well_formed(&self) -> bool {
        self@.wf()
    }

    open spec fn present(&self, key: Seq<char>) -> bool {
        self@.contains(key)
    }

    fn insert(&mut self, key: &str) -> (r: bool)
        ensures
            final(self)@ == old(self)@.insert(key@),
    {
        let i = self.hashed_index(key);
        let prev = self.vector[i];
        self.vector.set(i, true);
        proof {
            assert(self@.cells =~= old(self)@.insert(key@).cells);
        }
        prev
    }

    fn maybe_contains(&self, key: &str) -> (r: bool) {
        let i = self.hashed_index(key);
        self.vector[i]
    }
}

} // verus!
