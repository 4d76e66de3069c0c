//! What holds of every filter across sequences of operations.
use vstd::prelude::*;

use crate::filter::FilterModel;

verus! {

/// Inserting keeps the capacity, the hash state, and every set cell set.
pub proof fn lemma_insert_keeps_present(m: FilterModel, key: Seq<char>, k: Seq<char>)
    requires
        m.wf(),
    ensures
        m.insert(key).wf(),
        m.insert(key).cells.len() == m.cells.len(),
        m.insert(key).hasher == m.hasher,
        m.insert(key).index_of(k) == m.index_of(k),
        m.contains(k) ==> m.insert(key).contains(k),
{
}

/// Monotonicity: a key reported present stays present whatever is inserted after.
pub proof fn lemma_monotone(m: FilterModel, keys: Seq<Seq<char>>, k: Seq<char>)
    requires
        m.wf(),
        m.contains(k),
    ensures
        m.insert_all(keys).wf(),
        m.insert_all(keys).contains(k),
    decreases keys.len(),
{
    if keys.len() > 0 {
        lemma_insert_keeps_present(m, keys[0], k);
        lemma_monotone(m.insert(keys[0]), keys.drop_first(), k);
    }
}

/// No false negatives: once `key` is inserted, it is reported present after
/// any further inserts.
pub proof fn lemma_no_false_negatives(m: FilterModel, key: Seq<char>, later: Seq<Seq<char>>)
    requires
        m.wf(),
    ensures
        m.insert(key).insert_all(later).contains(key),
{
    lemma_insert_keeps_present(m, key, key);
    lemma_monotone(m.insert(key), later, key);
}

/// Inserting a key twice into an empty filter: it is absent before the first
/// insert, present after it, and the second insert changes nothing.
pub proof fn lemma_insert_twice(m: FilterModel, key: Seq<char>)
    requires
        m.wf(),
        m.is_empty(),
    ensures
        !m.contains(key),
        m.insert(key).contains(key),
        m.insert(key).insert(key) == m.insert(key),
{
    lemma_insert_keeps_present(m, key, key);
    assert(m.insert(key).insert(key).cells =~= m.insert(key).cells);
}

/// Keys that share a cell share their answer: inserting one makes the other present.
pub proof fn lemma_collision(m: FilterModel, k1: Seq<char>, k2: Seq<char>)
    requires
        m.wf(),
        m.index_of(k1) == m.index_of(k2),
    ensures
        m.insert(k1).contains(k2),
{
    lemma_insert_keeps_present(m, k1, k2);
}

/// With a single cell every key collides: after any insert, every key is present.
pub proof fn lemma_single_cell(m: FilterModel, k1: Seq<char>, k2: Seq<char>)
    requires
        m.cells.len() == 1,
    ensures
        m.insert(k1).contains(k2),
{
    lemma_insert_keeps_present(m, k1, k2);
}

} // verus!
