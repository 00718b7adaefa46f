//! The analysed concept expansions of an individual node: a reverse chain of
//! expansion linkers, the last concept seen, and the counters the
//! expansion-based blocking test reads.

use vstd::prelude::*;
use crate::ids::{Id, Cint64, ConDescId};
use crate::context::ProcessContext;
use crate::chain::{chain_len_is, chain_len, walk};

verus! {

pub type AnalizedConceptExpansionLinkerId = Id;
pub type IndividualNodeAnalizedConceptExpansionDataId = Id;

/// One analysed expansion: the concept descriptor it expanded and the
/// descriptors it depends on, linked to the expansion analysed before it.
pub struct AnalizedConceptExpansionLinker {
    pub next: AnalizedConceptExpansionLinkerId,
    pub dependend_con_des_linker: Vec<ConDescId>,
    pub con_des: ConDescId,
}

impl AnalizedConceptExpansionLinker {
    pub fn new() -> (r: Self)
        ensures
            r.next == Id::NONE,
            r.dependend_con_des_linker@.len() == 0,
            r.con_des == Id::NONE,
    {
        AnalizedConceptExpansionLinker { next: Id::NONE, dependend_con_des_linker: Vec::new(), con_des: Id::NONE }
    }

    /// Sets the dependencies and the expanded descriptor; the link is kept.
    pub fn init_analized_concept_expansion(
        &mut self,
        dependend_con_des_linker: Vec<ConDescId>,
        con_des: ConDescId,
    ) -> (r: &mut Self)
        ensures
            *r == (AnalizedConceptExpansionLinker { dependend_con_des_linker, con_des, ..*old(self) }),
            *final(self) == *final(r),
    {
        self.dependend_con_des_linker = dependend_con_des_linker;
        self.con_des = con_des;
        self
    }

    /// Puts a non-empty list of dependencies in front of the current ones; an
    /// empty list changes nothing.
    pub fn add_dependend_concept_descriptor_linker(
        &mut self,
        dependend_con_des_linker: Vec<ConDescId>,
    ) -> (r: &mut Self)
        ensures
            r.next == old(self).next,
            r.con_des == old(self).con_des,
            r.dependend_con_des_linker@ == (if dependend_con_des_linker@.len() == 0 {
                old(self).dependend_con_des_linker@
            } else {
                dependend_con_des_linker@ + old(self).dependend_con_des_linker@
            }),
            *final(self) == *final(r),
    {
        if dependend_con_des_linker.len() > 0 {
            let mut front = dependend_con_des_linker;
            let mut tail = self.dependend_con_des_linker.clone();
            assert(tail@ =~= self.dependend_con_des_linker@);
            front.append(&mut tail);
            self.dependend_con_des_linker = front;
        }
        self
    }

    pub fn set_concept_descriptor(&mut self, con_des: ConDescId) -> (r: &mut Self)
        ensures
            *r == (AnalizedConceptExpansionLinker { con_des, ..*old(self) }),
            *final(self) == *final(r),
    {
        self.con_des = con_des;
        self
    }

    pub fn get_concept_descriptor(&self) -> (r: ConDescId)
        ensures
            r == self.con_des,
    {
        self.con_des
    }

    pub fn get_dependend_concept_descriptor_linker(&self) -> (r: &[ConDescId])
        ensures
            r@ == self.dependend_con_des_linker@,
    {
        self.dependend_con_des_linker.as_slice()
    }

    /// Whether the expansion depends on more than one descriptor.
    pub fn has_multiple_dependencies(&self) -> (r: bool)
        ensures
            r == (self.dependend_con_des_linker@.len() > 1),
    {
        self.dependend_con_des_linker.len() > 1
    }

    pub fn get_next(&self) -> (r: AnalizedConceptExpansionLinkerId)
        ensures
            r == self.next,
    {
        self.next
    }

    pub fn set_next(&mut self, next: AnalizedConceptExpansionLinkerId) -> (r: &mut Self)
        ensures
            *r == (AnalizedConceptExpansionLinker { next, ..*old(self) }),
            *final(self) == *final(r),
    {
        self.next = next;
        self
    }

    pub fn clear_next(&mut self) -> (r: &mut Self)
        ensures
            *r == (AnalizedConceptExpansionLinker { next: Id::NONE, ..*old(self) }),
            *final(self) == *final(r),
    {
        self.next = Id::NONE;
        self
    }

    pub fn has_next(&self) -> (r: bool)
        ensures
            r == (self.next is At),
    {
        self.next.is_some()
    }
}

impl Default for AnalizedConceptExpansionLinker {
    fn default() -> (r: Self)
        ensures
            r.next == Id::NONE,
            r.dependend_con_des_linker@.len() == 0,
            r.con_des == Id::NONE,
    {
        Self::new()
    }
}

/// The analysed expansion state of one individual node.
pub struct IndividualNodeAnalizedConceptExpansionData {
    pub rev_ana_con_exp_linker: AnalizedConceptExpansionLinkerId,
    pub last_con_des: ConDescId,
    pub last_concept_signature: Cint64,
    pub last_concept_count: Cint64,
    pub min_valid_concept_count_limit: Cint64,
    pub exp_count: Cint64,
    pub invalid_blocker: bool,
    pub non_det_expansion_linker: Vec<ConDescId>,
}

impl IndividualNodeAnalizedConceptExpansionData {
    /// The state of a node that has analysed nothing yet.
    pub open spec fn is_initial(&self) -> bool {
        &&& self.rev_ana_con_exp_linker == Id::NONE
        &&& self.last_con_des == Id::NONE
        &&& self.last_concept_signature == 0
        &&& self.last_concept_count == 0
        &&& self.min_valid_concept_count_limit == 0
        &&& self.exp_count == 0
        &&& !self.invalid_blocker
        &&& self.non_det_expansion_linker@.len() == 0
    }

    pub fn new() -> (r: Self)
        ensures
            r.is_initial(),
    {
        IndividualNodeAnalizedConceptExpansionData {
            rev_ana_con_exp_linker: Id::NONE,
            last_con_des: Id::NONE,
            last_concept_signature: 0,
            last_concept_count: 0,
            min_valid_concept_count_limit: 0,
            exp_count: 0,
            invalid_blocker: false,
            non_det_expansion_linker: Vec::new(),
        }
    }

    /// Takes every field of `prev_data`, or resets to the initial state.
    pub fn init_blocking_exploration_data(&mut self, prev_data: Option<&Self>) -> (r: &mut Self)
        ensures
            match prev_data {
                Some(p) => {
                    &&& r.rev_ana_con_exp_linker == p.rev_ana_con_exp_linker
                    &&& r.last_con_des == p.last_con_des
                    &&& r.last_concept_signature == p.last_concept_signature
                    &&& r.last_concept_count == p.last_concept_count
                    &&& r.min_valid_concept_count_limit == p.min_valid_concept_count_limit
                    &&& r.exp_count == p.exp_count
                    &&& r.invalid_blocker == p.invalid_blocker
                    &&& r.non_det_expansion_linker@ == p.non_det_expansion_linker@
                },
                None => r.is_initial(),
            },
            *final(self) == *final(r),
    {
        match prev_data {
            Some(prev_data) => {
                self.last_concept_count = prev_data.last_concept_count;
                self.last_con_des = prev_data.last_con_des;
                self.rev_ana_con_exp_linker = prev_data.rev_ana_con_exp_linker;
                self.min_valid_concept_count_limit = prev_data.min_valid_concept_count_limit;
                self.exp_count = prev_data.exp_count;
                self.last_concept_signature = prev_data.last_concept_signature;
                self.invalid_blocker = prev_data.invalid_blocker;
                self.non_det_expansion_linker = prev_data.non_det_expansion_linker.clone();
                assert(self.non_det_expansion_linker@ =~= prev_data.non_det_expansion_linker@);
            },
            None => {
                self.last_concept_count = 0;
                self.last_con_des = Id::NONE;
                self.rev_ana_con_exp_linker = Id::NONE;
                self.exp_count = 0;
                self.min_valid_concept_count_limit = 0;
                self.last_concept_signature = 0;
                self.invalid_blocker = false;
                self.non_det_expansion_linker.clear();
            },
        }
        self
    }

    pub fn get_reverse_analized_concept_expansion_linker(&self) -> (r: AnalizedConceptExpansionLinkerId)
        ensures
            r == self.rev_ana_con_exp_linker,
    {
        self.rev_ana_con_exp_linker
    }

    pub fn get_last_concept_descriptor(&self) -> (r: ConDescId)
        ensures
            r == self.last_con_des,
    {
        self.last_con_des
    }

    pub fn get_last_concept_signature(&self) -> (r: Cint64)
        ensures
            r == self.last_concept_signature,
    {
        self.last_concept_signature
    }

    pub fn get_last_concept_count(&self) -> (r: Cint64)
        ensures
            r == self.last_concept_count,
    {
        self.last_concept_count
    }

    pub fn get_expansion_concept_count(&self) -> (r: Cint64)
        ensures
            r == self.exp_count,
    {
        self.exp_count
    }

    pub fn get_minimal_valid_concept_count_limit(&self) -> (r: Cint64)
        ensures
            r == self.min_valid_concept_count_limit,
    {
        self.min_valid_concept_count_limit
    }

    pub fn is_invalid_blocker(&self) -> (r: bool)
        ensures
            r == self.invalid_blocker,
    {
        self.invalid_blocker
    }

    pub fn set_last_concept_descriptor(&mut self, con_des: ConDescId) -> (r: &mut Self)
        ensures
            *r == (IndividualNodeAnalizedConceptExpansionData { last_con_des: con_des, ..*old(self) }),
            *final(self) == *final(r),
    {
        self.last_con_des = con_des;
        self
    }

    pub fn set_last_concept_signature(&mut self, signature: Cint64) -> (r: &mut Self)
        ensures
            *r == (IndividualNodeAnalizedConceptExpansionData { last_concept_signature: signature, ..*old(self) }),
            *final(self) == *final(r),
    {
        self.last_concept_signature = signature;
        self
    }

    pub fn set_last_concept_count(&mut self, con_count: Cint64) -> (r: &mut Self)
        ensures
            *r == (IndividualNodeAnalizedConceptExpansionData { last_concept_count: con_count, ..*old(self) }),
            *final(self) == *final(r),
    {
        self.last_concept_count = con_count;
        self
    }

    pub fn set_minimal_valid_concept_count_limit(&mut self, con_count: Cint64) -> (r: &mut Self)
        ensures
            *r == (IndividualNodeAnalizedConceptExpansionData { min_valid_concept_count_limit: con_count, ..*old(self) }),
            *final(self) == *final(r),
    {
        self.min_valid_concept_count_limit = con_count;
        self
    }

    pub fn set_invalid_blocker(&mut self, invalid: bool) -> (r: &mut Self)
        ensures
            *r == (IndividualNodeAnalizedConceptExpansionData { invalid_blocker: invalid, ..*old(self) }),
            *final(self) == *final(r),
    {
        self.invalid_blocker = invalid;
        self
    }

    /// Adds the expansions of the chain `linker` to the node: the count grows
    /// by the chain's length and the chain is put in front of the node's
    /// reverse chain.
    pub fn add_analized_concept_expansion_linker(
        &mut self,
        process_context: &mut ProcessContext,
        linker: AnalizedConceptExpansionLinkerId,
    ) -> (r: &mut Self)
        requires
            exists|n: nat| chain_len_is(old(process_context).analized_con_exp_linker_nexts(), linker, n)
                && n <= i64::MAX && old(self).exp_count + n <= i64::MAX,
        ensures
            ({
                let nexts = old(process_context).analized_con_exp_linker_nexts();
                let n = chain_len(nexts, linker);
                &&& r.exp_count == old(self).exp_count + n
                &&& r.rev_ana_con_exp_linker == (if old(self).rev_ana_con_exp_linker is At {
                    if linker is At { linker } else { old(self).rev_ana_con_exp_linker }
                } else {
                    linker
                })
                &&& final(process_context).analized_con_exp_linker_nexts() == (
                    if old(self).rev_ana_con_exp_linker is At && linker is At {
                        nexts.update(walk(nexts, linker, (n - 1) as nat).index(), old(self).rev_ana_con_exp_linker)
                    } else {
                        nexts
                    })
            }),
            final(process_context).analized_con_exp_linkers_changed_only_in_next(*old(process_context)),
            r.last_con_des == old(self).last_con_des,
            r.last_concept_signature == old(self).last_concept_signature,
            r.last_concept_count == old(self).last_concept_count,
            r.min_valid_concept_count_limit == old(self).min_valid_concept_count_limit,
            r.invalid_blocker == old(self).invalid_blocker,
            r.non_det_expansion_linker == old(self).non_det_expansion_linker,
            *final(self) == *final(r),
    {
        let count = process_context.analized_con_exp_linker_count(linker);
        self.exp_count = self.exp_count + count;
        if self.rev_ana_con_exp_linker.is_some() {
            self.rev_ana_con_exp_linker =
                process_context.analized_con_exp_linker_append(linker, self.rev_ana_con_exp_linker);
        } else {
            self.rev_ana_con_exp_linker = linker;
        }
        self
    }

    pub fn get_analysed_non_deterministic_concept_expansion_linker(&self) -> (r: &[ConDescId])
        ensures
            r@ == self.non_det_expansion_linker@,
    {
        self.non_det_expansion_linker.as_slice()
    }

    pub fn set_analysed_non_deterministic_concept_expansion_linker(&mut self, linker: Vec<ConDescId>) -> (r: &mut Self)
        ensures
            *r == (IndividualNodeAnalizedConceptExpansionData { non_det_expansion_linker: linker, ..*old(self) }),
            *final(self) == *final(r),
    {
        self.non_det_expansion_linker = linker;
        self
    }

    /// Puts a non-empty list in front of the analysed non-deterministic
    /// expansions; an empty list changes nothing.
    pub fn add_analysed_non_deterministic_concept_expansion_linker(&mut self, linker: Vec<ConDescId>) -> (r: &mut Self)
        ensures
            r.non_det_expansion_linker@ == (if linker@.len() == 0 {
                old(self).non_det_expansion_linker@
            } else {
                linker@ + old(self).non_det_expansion_linker@
            }),
            r.rev_ana_con_exp_linker == old(self).rev_ana_con_exp_linker,
            r.last_con_des == old(self).last_con_des,
            r.last_concept_signature == old(self).last_concept_signature,
            r.last_concept_count == old(self).last_concept_count,
            r.min_valid_concept_count_limit == old(self).min_valid_concept_count_limit,
            r.exp_count == old(self).exp_count,
            r.invalid_blocker == old(self).invalid_blocker,
            *final(self) == *final(r),
    {
        if linker.len() > 0 {
            let mut front = linker;
            let mut tail = self.non_det_expansion_linker.clone();
            assert(tail@ =~= self.non_det_expansion_linker@);
            front.append(&mut tail);
            self.non_det_expansion_linker = front;
        }
        self
    }
}

impl Default for IndividualNodeAnalizedConceptExpansionData {
    fn default() -> (r: Self)
        ensures
            r.is_initial(),
    {
        Self::new()
    }
}

} // verus!
