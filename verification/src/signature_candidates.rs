//! The candidates for signature blocking: for each concept-set signature,
//! the individuals whose concept set had that signature.

use vstd::prelude::*;
use crate::ids::{Cint64, INVALID};

verus! {

/// Signature-candidate pairs, in the order they were recorded.
pub struct SignatureBlockingCandidateHash {
    pub context: Cint64,
    pub candidates: Vec<(Cint64, Cint64)>,
}

/// The number of pairs of `s` with signature `signature`.
pub open spec fn signature_count(s: Seq<(i64, i64)>, signature: i64) -> nat
    decreases s.len(),
{
    if s.len() == 0 {
        0
    } else {
        signature_count(s.drop_last(), signature) + if s.last().0 == signature { 1nat } else { 0nat }
    }
}

/// The pairs recording each of `cands` as a candidate of `signature`.
pub open spec fn candidate_pairs(signature: i64, cands: Seq<i64>) -> Seq<(i64, i64)> {
    cands.map_values(|c: i64| (signature, c))
}

/// Counting over two joined runs of pairs adds the counts of each.
pub proof fn lemma_signature_count_append(a: Seq<(i64, i64)>, b: Seq<(i64, i64)>, signature: i64)
    ensures
        signature_count(a + b, signature) == signature_count(a, signature) + signature_count(b, signature),
    decreases b.len(),
{
    if b.len() == 0 {
        assert(a + b =~= a);
    } else {
        lemma_signature_count_append(a, b.drop_last(), signature);
        assert((a + b).drop_last() =~= a + b.drop_last());
    }
}

/// Every pair of a run for `signature` counts for it.
pub proof fn lemma_candidate_pairs_count(signature: i64, cands: Seq<i64>)
    ensures
        signature_count(candidate_pairs(signature, cands), signature) == cands.len(),
    decreases cands.len(),
{
    if cands.len() > 0 {
        lemma_candidate_pairs_count(signature, cands.drop_last());
        assert(candidate_pairs(signature, cands).drop_last() =~= candidate_pairs(signature, cands.drop_last()));
    }
}

impl SignatureBlockingCandidateHash {
    /// No candidates yet.
    pub fn new(context: Cint64) -> (r: Self)
        ensures
            r.context == context,
            r.candidates@.len() == 0,
    {
        SignatureBlockingCandidateHash { context, candidates: Vec::new() }
    }

    /// Takes the candidates of `prev`, or none.
    pub fn init_signature_blocking_candidate_hash(&mut self, prev: Option<&SignatureBlockingCandidateHash>) -> (r: &mut Self)
        ensures
            r.context == old(self).context,
            r.candidates@ == (match prev {
                Some(p) => p.candidates@,
                None => Seq::<(i64, i64)>::empty(),
            }),
            *final(self) == *final(r),
    {
        let mut copied: Vec<(Cint64, Cint64)> = Vec::new();
        match prev {
            Some(p) => {
                let mut i: usize = 0;
                while i < p.candidates.len()
                    invariant
                        0 <= i <= p.candidates@.len(),
                        copied@ == p.candidates@.subrange(0, i as int),
                    decreases p.candidates@.len() - i,
                {
                    copied.push(p.candidates[i]);
                    i = i + 1;
                }
                assert(copied@ =~= p.candidates@);
            },
            None => {},
        }
        self.candidates = copied;
        self
    }

    /// Records each of `candidates` as a candidate of `signature`.
    pub fn insert_signature_blocking_candidates(&mut self, signature: Cint64, candidates: Vec<Cint64>) -> (r: &mut Self)
        ensures
            r.context == old(self).context,
            r.candidates@ == old(self).candidates@ + candidate_pairs(signature, candidates@),
            *final(self) == *final(r),
    {
        let ghost start = self.candidates@;
        let mut i: usize = 0;
        while i < candidates.len()
            invariant
                0 <= i <= candidates@.len(),
                self.candidates@ == start + candidate_pairs(signature, candidates@.subrange(0, i as int)),
                self.context == old(self).context,
            decreases candidates@.len() - i,
        {
            self.candidates.push((signature, candidates[i]));
            proof {
                assert(candidate_pairs(signature, candidates@.subrange(0, i + 1))
                    =~= candidate_pairs(signature, candidates@.subrange(0, i as int)).push((signature, candidates@[i as int])));
            }
            i = i + 1;
        }
        assert(candidates@.subrange(0, candidates@.len() as int) =~= candidates@);
        self
    }

    /// The number of candidates recorded for `signature`.
    pub fn get_blocking_candidates_count(&self, signature: Cint64) -> (r: Cint64)
        requires
            self.candidates@.len() <= i64::MAX,
        ensures
            r == signature_count(self.candidates@, signature),
    {
        let mut count: i64 = 0;
        let mut i: usize = 0;
        while i < self.candidates.len()
            invariant
                0 <= i <= self.candidates@.len(),
                self.candidates@.len() <= i64::MAX,
                count == signature_count(self.candidates@.subrange(0, i as int), signature),
                count <= i,
            decreases self.candidates@.len() - i,
        {
            proof {
                assert(self.candidates@.subrange(0, i + 1).drop_last() =~= self.candidates@.subrange(0, i as int));
            }
            if self.candidates[i].0 == signature {
                count = count + 1;
            }
            i = i + 1;
        }
        assert(self.candidates@.subrange(0, self.candidates@.len() as int) =~= self.candidates@);
        count
    }
}

impl Default for SignatureBlockingCandidateHash {
    fn default() -> (r: Self)
        ensures
            r.context == INVALID,
            r.candidates@.len() == 0,
    {
        Self::new(INVALID)
    }
}

} // verus!
