//! Linker chains: sequences of arena elements threaded through `next` handles.
//!
//! A chain is described by the sequence `nexts` that maps every element index
//! of an arena to the handle stored in that element's `next` field.

use vstd::prelude::*;
use crate::ids::{Id, valid_in};

verus! {

/// The handle reached from `start` after `k` steps along `nexts`; a step from
/// an absent or out-of-range handle gives `Id::NONE`.
pub open spec fn walk(nexts: Seq<Id>, start: Id, k: nat) -> Id
    decreases k,
{
    if k == 0 {
        start
    } else {
        let p = walk(nexts, start, (k - 1) as nat);
        if valid_in(p, nexts.len()) {
            nexts[p.index()]
        } else {
            Id::NONE
        }
    }
}

/// The chain from `start` has exactly `n` elements, all inside the arena, and
/// its last element links to `Id::NONE`.
pub open spec fn chain_len_is(nexts: Seq<Id>, start: Id, n: nat) -> bool {
    &&& forall|k: nat| k < n ==> valid_in(#[trigger] walk(nexts, start, k), nexts.len())
    &&& walk(nexts, start, n) == Id::NONE
}

/// The chain from `start` ends after finitely many elements of the arena.
pub open spec fn chain_ok(nexts: Seq<Id>, start: Id) -> bool {
    exists|n: nat| chain_len_is(nexts, start, n)
}

/// The number of elements of a chain that ends.
pub open spec fn chain_len(nexts: Seq<Id>, start: Id) -> nat
    recommends
        chain_ok(nexts, start),
{
    choose|n: nat| chain_len_is(nexts, start, n)
}

/// A chain that ends has exactly one length.
pub proof fn lemma_chain_len_unique(nexts: Seq<Id>, start: Id, n1: nat, n2: nat)
    requires
        chain_len_is(nexts, start, n1),
        chain_len_is(nexts, start, n2),
    ensures
        n1 == n2,
{
    if n1 < n2 {
        assert(valid_in(walk(nexts, start, n1), nexts.len()));
    } else if n2 < n1 {
        assert(valid_in(walk(nexts, start, n2), nexts.len()));
    }
}

/// `chain_len` is the length that `chain_len_is` fixes.
pub proof fn lemma_chain_len(nexts: Seq<Id>, start: Id, n: nat)
    requires
        chain_len_is(nexts, start, n),
    ensures
        chain_ok(nexts, start),
        chain_len(nexts, start) == n,
{
    let m = chain_len(nexts, start);
    lemma_chain_len_unique(nexts, start, n, m);
}

/// Walks that meet stay together: equal after `a` and `b` steps, they are
/// equal after `a + m` and `b + m` steps.
pub proof fn lemma_walk_same_after(nexts: Seq<Id>, start: Id, a: nat, b: nat, m: nat)
    requires
        walk(nexts, start, a) == walk(nexts, start, b),
    ensures
        walk(nexts, start, a + m) == walk(nexts, start, b + m),
    decreases m,
{
    if m > 0 {
        lemma_walk_same_after(nexts, start, a, b, (m - 1) as nat);
        assert(walk(nexts, start, a + m) == {
            let p = walk(nexts, start, (a + m - 1) as nat);
            if valid_in(p, nexts.len()) { nexts[p.index()] } else { Id::NONE }
        });
        assert(walk(nexts, start, b + m) == {
            let p = walk(nexts, start, (b + m - 1) as nat);
            if valid_in(p, nexts.len()) { nexts[p.index()] } else { Id::NONE }
        });
    }
}

/// The elements of a chain that ends are pairwise distinct.
pub proof fn lemma_chain_no_repeat(nexts: Seq<Id>, start: Id, n: nat, j: nat, k: nat)
    requires
        chain_len_is(nexts, start, n),
        j < k < n,
    ensures
        walk(nexts, start, j) != walk(nexts, start, k),
{
    if walk(nexts, start, j) == walk(nexts, start, k) {
        lemma_walk_same_after(nexts, start, j, k, (n - k) as nat);
        assert(valid_in(walk(nexts, start, (j + n - k) as nat), nexts.len()));
    }
}

} // verus!
