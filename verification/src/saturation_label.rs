//! The reapply label of a saturation node: the concepts it holds, each with
//! the saturation descriptor that put it there and the head of the
//! implications waiting for it, kept in a main map and in an additional map
//! that is shared from the node it was copied from.

use vstd::prelude::*;
use crate::ids::{Id, Cint64, ConceptId, SatNodeId};
use crate::collections::IntMap;

verus! {

/// A concept with its polarity as it occurs in a saturation node's label, on
/// the chain of descriptors of that label.
#[derive(Clone, Copy, PartialEq, Eq, Structural, Debug)]
pub struct ConceptSaturationDescriptor {
    pub concept: ConceptId,
    pub negated: bool,
    /// The next descriptor of the chain.
    pub next: Id,
}

impl ConceptSaturationDescriptor {
    pub fn new(concept: ConceptId, negated: bool) -> (r: Self)
        ensures
            r == (ConceptSaturationDescriptor { concept, negated, next: Id::NONE }),
    {
        ConceptSaturationDescriptor { concept, negated, next: Id::NONE }
    }

    pub fn get_negation(&self) -> (r: bool)
        ensures
            r == self.negated,
    {
        self.negated
    }

    pub fn get_next(&self) -> (r: Id)
        ensures
            r == self.next,
    {
        self.next
    }

    pub fn set_next(&mut self, next: Id) -> (r: &mut Self)
        ensures
            *r == (ConceptSaturationDescriptor { next, ..*old(self) }),
            *final(self) == *final(r),
    {
        self.next = next;
        self
    }
}

/// An implication waiting for a concept of a saturation node's label, on
/// the chain of implications waiting for that concept.
#[derive(Clone, Copy, PartialEq, Eq, Structural, Debug)]
pub struct ImplicationReapplyConceptSaturationDescriptor {
    /// The next implication of the chain.
    pub next: Id,
}

impl ImplicationReapplyConceptSaturationDescriptor {
    pub fn new() -> (r: Self)
        ensures
            r.next is NONE,
    {
        ImplicationReapplyConceptSaturationDescriptor { next: Id::NONE }
    }

    pub fn get_next(&self) -> (r: Id)
        ensures
            r == self.next,
    {
        self.next
    }

    pub fn set_next(&mut self, next: Id) -> (r: &mut Self)
        ensures
            r.next == next,
            *final(self) == *final(r),
    {
        self.next = next;
        self
    }
}

/// A saturation node whose label changed, on the chain of nodes to update
/// once a label they were copied from changes.
#[derive(Clone, Copy, PartialEq, Eq, Structural, Debug)]
pub struct SaturationModifiedProcessUpdateLinker {
    pub node: SatNodeId,
    /// The next linker of the chain.
    pub next: Id,
}

impl SaturationModifiedProcessUpdateLinker {
    pub fn new(node: SatNodeId) -> (r: Self)
        ensures
            r == (SaturationModifiedProcessUpdateLinker { node, next: Id::NONE }),
    {
        SaturationModifiedProcessUpdateLinker { node, next: Id::NONE }
    }

    pub fn get_next(&self) -> (r: Id)
        ensures
            r == self.next,
    {
        self.next
    }

    pub fn set_next(&mut self, next: Id) -> (r: &mut Self)
        ensures
            *r == (SaturationModifiedProcessUpdateLinker { next, ..*old(self) }),
            *final(self) == *final(r),
    {
        self.next = next;
        self
    }
}

/// What a label knows of one concept: the descriptor that put it into the
/// label, and the head of the implications to reapply once it is there.
#[derive(Clone, Copy, PartialEq, Eq, Structural, Debug)]
pub struct ConceptSaturationDescriptorReapplyData {
    pub con_sat_des: Id,
    pub imp_reapply_con_sat_des: Id,
}

impl ConceptSaturationDescriptorReapplyData {
    pub fn new() -> (r: Self)
        ensures
            r.is_empty(),
    {
        ConceptSaturationDescriptorReapplyData { con_sat_des: Id::NONE, imp_reapply_con_sat_des: Id::NONE }
    }

    /// Neither a descriptor nor an implication is recorded.
    pub open spec fn is_empty(self) -> bool {
        self.con_sat_des is NONE && self.imp_reapply_con_sat_des is NONE
    }
}

/// `base` with the set fields of `over` laid over it.
pub open spec fn overlay(base: ConceptSaturationDescriptorReapplyData, over: ConceptSaturationDescriptorReapplyData)
    -> ConceptSaturationDescriptorReapplyData {
    ConceptSaturationDescriptorReapplyData {
        con_sat_des: if over.con_sat_des is At { over.con_sat_des } else { base.con_sat_des },
        imp_reapply_con_sat_des: if over.imp_reapply_con_sat_des is At {
            over.imp_reapply_con_sat_des
        } else {
            base.imp_reapply_con_sat_des
        },
    }
}

/// `base` with the entries of `from` laid over it one after the other: an
/// entry of `from` whose key `base` holds keeps the fields of `base` that it
/// leaves unset.
pub open spec fn merged(
    base: Map<i64, ConceptSaturationDescriptorReapplyData>,
    from: Seq<(i64, ConceptSaturationDescriptorReapplyData)>,
) -> Map<i64, ConceptSaturationDescriptorReapplyData>
    decreases from.len(),
{
    if from.len() == 0 {
        base
    } else {
        let m = merged(base, from.drop_last());
        let k = from.last().0;
        let b = if m.contains_key(k) {
            m[k]
        } else {
            ConceptSaturationDescriptorReapplyData { con_sat_des: Id::NONE, imp_reapply_con_sat_des: Id::NONE }
        };
        m.insert(k, overlay(b, from.last().1))
    }
}

/// `base` with the entries of `from` laid over it (see `merged`).
pub fn merge_reapply_maps(
    base: IntMap<ConceptSaturationDescriptorReapplyData>,
    from: &IntMap<ConceptSaturationDescriptorReapplyData>,
) -> (r: IntMap<ConceptSaturationDescriptorReapplyData>)
    ensures
        r@ == merged(base@, from.entries@),
{
    let mut r = base;
    let mut i: usize = 0;
    while i < from.entries.len()
        invariant
            0 <= i <= from.entries@.len(),
            r@ == merged(base@, from.entries@.subrange(0, i as int)),
        decreases from.entries@.len() - i,
    {
        let (k, d) = from.entries[i];
        let b = match r.get(&k) {
            Some(x) => *x,
            None => ConceptSaturationDescriptorReapplyData::new(),
        };
        let nd = ConceptSaturationDescriptorReapplyData {
            con_sat_des: if d.con_sat_des.is_some() { d.con_sat_des } else { b.con_sat_des },
            imp_reapply_con_sat_des: if d.imp_reapply_con_sat_des.is_some() {
                d.imp_reapply_con_sat_des
            } else {
                b.imp_reapply_con_sat_des
            },
        };
        r.insert(k, nd);
        proof {
            let sub = from.entries@.subrange(0, i + 1);
            assert(sub.drop_last() =~= from.entries@.subrange(0, i as int));
            assert(sub.last() == from.entries@[i as int]);
        }
        i = i + 1;
    }
    assert(from.entries@.subrange(0, from.entries@.len() as int) =~= from.entries@);
    r
}

/// The additional map that flattening `ls` gives: the merge of its two
/// maps, the one with more entries as the base and the other laid over it
/// (the main map is the base when they have as many), or the main map alone
/// when there is no additional map.
pub open spec fn flattened_additional(ls: &ReapplyConceptSaturationLabelSet)
    -> Map<i64, ConceptSaturationDescriptorReapplyData> {
    if ls.has_additional_concept_des_dep_hash {
        if ls.additional_concept_des_dep_hash.entries@.len() > ls.concept_des_dep_hash.entries@.len() {
            merged(ls.additional_concept_des_dep_hash@, ls.concept_des_dep_hash.entries@)
        } else {
            merged(ls.concept_des_dep_hash@, ls.additional_concept_des_dep_hash.entries@)
        }
    } else {
        ls.concept_des_dep_hash@
    }
}

/// Whether copying `ls` flattens it first: its main map has at least
/// `additional_copy_size` entries, or a flat copy is asked for and the main
/// map is not empty.
pub open spec fn flattens_on_copy(ls: &ReapplyConceptSaturationLabelSet, try_flat_label_copy: bool, additional_copy_size: usize) -> bool {
    ls.concept_des_dep_hash.entries@.len() >= additional_copy_size
        || (try_flat_label_copy && ls.concept_des_dep_hash.entries@.len() > 0)
}

/// The reapply label of a saturation node.
pub struct ReapplyConceptSaturationLabelSet {
    /// The number of concepts in the label.
    pub concept_count: Cint64,
    /// The number of entries, concepts and waiting implications together.
    pub totel_count: Cint64,
    pub concept_flags: Cint64,
    /// The entries recorded in this label.
    pub concept_des_dep_hash: IntMap<ConceptSaturationDescriptorReapplyData>,
    /// The entries taken over from the label this one was copied from.
    pub additional_concept_des_dep_hash: IntMap<ConceptSaturationDescriptorReapplyData>,
    pub has_additional_concept_des_dep_hash: bool,
    /// The head of the chain of the label's descriptors, newest first.
    pub concept_sat_des_linker: Id,
    pub last_nominal_indep_con_sat_des: Id,
    pub modified_update_linker: Id,
}

impl ReapplyConceptSaturationLabelSet {
    /// No entry, no chain, both counts 0.
    pub open spec fn is_fresh(&self) -> bool {
        &&& self.concept_count == 0
        &&& self.totel_count == 0
        &&& self.concept_flags == 0
        &&& self.concept_des_dep_hash@ == Map::<i64, ConceptSaturationDescriptorReapplyData>::empty()
        &&& self.additional_concept_des_dep_hash@ == Map::<i64, ConceptSaturationDescriptorReapplyData>::empty()
        &&& !self.has_additional_concept_des_dep_hash
        &&& self.concept_sat_des_linker is NONE
        &&& self.last_nominal_indep_con_sat_des is NONE
        &&& self.modified_update_linker is NONE
    }

    pub fn new() -> (r: Self)
        ensures
            r.is_fresh(),
    {
        ReapplyConceptSaturationLabelSet {
            concept_count: 0,
            totel_count: 0,
            concept_flags: 0,
            concept_des_dep_hash: IntMap::new(),
            additional_concept_des_dep_hash: IntMap::new(),
            has_additional_concept_des_dep_hash: false,
            concept_sat_des_linker: Id::NONE,
            last_nominal_indep_con_sat_des: Id::NONE,
            modified_update_linker: Id::NONE,
        }
    }

    /// The entry that a lookup of `con_tag` starts from: the one of the
    /// main map when it records something, else the one of the additional
    /// map when there is one, else an empty entry.
    pub open spec fn effective_entry(&self, con_tag: i64) -> ConceptSaturationDescriptorReapplyData {
        let empty = ConceptSaturationDescriptorReapplyData { con_sat_des: Id::NONE, imp_reapply_con_sat_des: Id::NONE };
        let main = if self.concept_des_dep_hash@.contains_key(con_tag) {
            self.concept_des_dep_hash@[con_tag]
        } else {
            empty
        };
        if main.is_empty() && self.has_additional_concept_des_dep_hash
            && self.additional_concept_des_dep_hash@.contains_key(con_tag) {
            self.additional_concept_des_dep_hash@[con_tag]
        } else {
            main
        }
    }

    /// `self` holds what `old` holds in every field but the main map.
    pub open spec fn keeps_all_but_main(&self, old: &Self) -> bool {
        &&& self.concept_count == old.concept_count
        &&& self.totel_count == old.totel_count
        &&& self.keeps_all_but_main_chain_counts(old)
        &&& self.concept_sat_des_linker == old.concept_sat_des_linker
    }

    /// `self` holds what `old` holds in every field but the main map, the
    /// descriptor chain and the two counts.
    pub open spec fn keeps_all_but_main_chain_counts(&self, old: &Self) -> bool {
        &&& self.concept_flags == old.concept_flags
        &&& self.additional_concept_des_dep_hash == old.additional_concept_des_dep_hash
        &&& self.has_additional_concept_des_dep_hash == old.has_additional_concept_des_dep_hash
        &&& self.last_nominal_indep_con_sat_des == old.last_nominal_indep_con_sat_des
        &&& self.modified_update_linker == old.modified_update_linker
    }

    /// Records `data` for `con_tag` in the main map.
    pub fn set_concept_entry(&mut self, con_tag: i64, data: ConceptSaturationDescriptorReapplyData)
        ensures
            final(self).concept_des_dep_hash@ == old(self).concept_des_dep_hash@.insert(con_tag, data),
            final(self).keeps_all_but_main(old(self)),
    {
        self.concept_des_dep_hash.insert(con_tag, data);
    }

    /// Makes `head` the head of the descriptor chain and counts one more
    /// concept and one more entry.
    pub fn add_concept_to_chain(&mut self, head: Id)
        requires
            old(self).concept_count < i64::MAX,
            old(self).totel_count < i64::MAX,
        ensures
            final(self).concept_sat_des_linker == head,
            final(self).concept_count == old(self).concept_count + 1,
            final(self).totel_count == old(self).totel_count + 1,
            final(self).concept_des_dep_hash == old(self).concept_des_dep_hash,
            final(self).keeps_all_but_main_chain_counts(old(self)),
    {
        self.concept_sat_des_linker = head;
        self.concept_count = self.concept_count + 1;
        self.totel_count = self.totel_count + 1;
    }

    /// Counts one more entry.
    pub fn count_entry(&mut self)
        requires
            old(self).totel_count < i64::MAX,
        ensures
            final(self).totel_count == old(self).totel_count + 1,
            final(self).concept_count == old(self).concept_count,
            final(self).concept_sat_des_linker == old(self).concept_sat_des_linker,
            final(self).concept_des_dep_hash == old(self).concept_des_dep_hash,
            final(self).keeps_all_but_main_chain_counts(old(self)),
    {
        self.totel_count = self.totel_count + 1;
    }

    /// The entry that a lookup of `con_tag` starts from (see
    /// `effective_entry`).
    pub fn lookup_entry(&self, con_tag: i64) -> (r: ConceptSaturationDescriptorReapplyData)
        ensures
            r == self.effective_entry(con_tag),
    {
        let main = match self.concept_des_dep_hash.get(&con_tag) {
            Some(m) => *m,
            None => ConceptSaturationDescriptorReapplyData::new(),
        };
        if main.con_sat_des.is_none() && main.imp_reapply_con_sat_des.is_none()
            && self.has_additional_concept_des_dep_hash {
            match self.additional_concept_des_dep_hash.get(&con_tag) {
                Some(a) => *a,
                None => main,
            }
        } else {
            main
        }
    }

    /// Makes `additional` the additional map and empties the main map.
    pub fn flatten_into(&mut self, additional: IntMap<ConceptSaturationDescriptorReapplyData>)
        ensures
            final(self).additional_concept_des_dep_hash@ == additional@,
            final(self).has_additional_concept_des_dep_hash,
            final(self).concept_des_dep_hash@ == Map::<i64, ConceptSaturationDescriptorReapplyData>::empty(),
            final(self).concept_des_dep_hash.entries@.len() == 0,
            final(self).concept_count == old(self).concept_count,
            final(self).totel_count == old(self).totel_count,
            final(self).concept_flags == old(self).concept_flags,
            final(self).concept_sat_des_linker == old(self).concept_sat_des_linker,
            final(self).last_nominal_indep_con_sat_des == old(self).last_nominal_indep_con_sat_des,
            final(self).modified_update_linker == old(self).modified_update_linker,
    {
        self.additional_concept_des_dep_hash = additional;
        self.has_additional_concept_des_dep_hash = true;
        self.concept_des_dep_hash = IntMap::new();
    }

    /// Takes the counts, flags, maps, chain head and last
    /// nominal-independent descriptor of `source`; the update linkers stay.
    pub fn take_label_from(&mut self, source: &ReapplyConceptSaturationLabelSet)
        ensures
            final(self).concept_count == source.concept_count,
            final(self).totel_count == source.totel_count,
            final(self).concept_flags == source.concept_flags,
            final(self).concept_des_dep_hash.entries@ == source.concept_des_dep_hash.entries@,
            final(self).concept_des_dep_hash@ == source.concept_des_dep_hash@,
            final(self).additional_concept_des_dep_hash.entries@ == source.additional_concept_des_dep_hash.entries@,
            final(self).additional_concept_des_dep_hash@ == source.additional_concept_des_dep_hash@,
            final(self).has_additional_concept_des_dep_hash == source.has_additional_concept_des_dep_hash,
            final(self).concept_sat_des_linker == source.concept_sat_des_linker,
            final(self).last_nominal_indep_con_sat_des == source.last_nominal_indep_con_sat_des,
            final(self).modified_update_linker == old(self).modified_update_linker,
    {
        self.concept_count = source.concept_count;
        self.totel_count = source.totel_count;
        self.concept_flags = source.concept_flags;
        self.concept_des_dep_hash = source.concept_des_dep_hash.copy();
        self.additional_concept_des_dep_hash = source.additional_concept_des_dep_hash.copy();
        self.has_additional_concept_des_dep_hash = source.has_additional_concept_des_dep_hash;
        self.concept_sat_des_linker = source.concept_sat_des_linker;
        self.last_nominal_indep_con_sat_des = source.last_nominal_indep_con_sat_des;
    }

    /// The additional map that flattening gives (see `flattened_additional`).
    pub fn flattened_additional_map(&self) -> (r: IntMap<ConceptSaturationDescriptorReapplyData>)
        ensures
            r@ == flattened_additional(self),
    {
        if self.has_additional_concept_des_dep_hash {
            if self.additional_concept_des_dep_hash.len() > self.concept_des_dep_hash.len() {
                merge_reapply_maps(self.additional_concept_des_dep_hash.copy(), &self.concept_des_dep_hash)
            } else {
                merge_reapply_maps(self.concept_des_dep_hash.copy(), &self.additional_concept_des_dep_hash)
            }
        } else {
            self.concept_des_dep_hash.copy()
        }
    }

    pub fn get_concept_count(&self) -> (r: Cint64)
        ensures
            r == self.concept_count,
    {
        self.concept_count
    }

    pub fn get_total_count(&self) -> (r: Cint64)
        ensures
            r == self.totel_count,
    {
        self.totel_count
    }

    pub fn get_concept_saturation_descriptor_linker(&self) -> (r: Id)
        ensures
            r == self.concept_sat_des_linker,
    {
        self.concept_sat_des_linker
    }

    pub fn get_modified_update_linker(&self) -> (r: Id)
        ensures
            r == self.modified_update_linker,
    {
        self.modified_update_linker
    }

    pub fn set_modified_update_linker(&mut self, linker: Id) -> (r: &mut Self)
        ensures
            r.modified_update_linker == linker,
            r.concept_count == old(self).concept_count,
            r.totel_count == old(self).totel_count,
            r.concept_flags == old(self).concept_flags,
            r.concept_des_dep_hash == old(self).concept_des_dep_hash,
            r.additional_concept_des_dep_hash == old(self).additional_concept_des_dep_hash,
            r.has_additional_concept_des_dep_hash == old(self).has_additional_concept_des_dep_hash,
            r.concept_sat_des_linker == old(self).concept_sat_des_linker,
            r.last_nominal_indep_con_sat_des == old(self).last_nominal_indep_con_sat_des,
            *final(self) == *final(r),
    {
        self.modified_update_linker = linker;
        self
    }
}

impl Default for ReapplyConceptSaturationLabelSet {
    fn default() -> (r: Self)
        ensures
            r.is_fresh(),
    {
        Self::new()
    }
}

} // verus!
