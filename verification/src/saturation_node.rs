//! Saturation nodes and the satellite data they are copied with: the
//! extension data that holds the nominal handling and the applied datatype,
//! the set of nominals connected through successors, and the backward
//! propagation of concepts by role.

use vstd::prelude::*;
use crate::ids::{Id, Cint64, SatNodeId};
use crate::collections::{IntSet, IdMap, entries_map, lemma_same_keys};

verus! {

/// A link to a node, with a polarity.
#[derive(Clone, Copy, PartialEq, Eq, Structural, Debug)]
pub struct NegLink {
    pub target: Id,
    pub negated: bool,
}

/// A node of the saturation graph, with the handles of its satellite data.
pub struct IndividualSaturationProcessNode {
    /// The hash of backward propagations by role.
    pub role_back_prop_hash: Id,
    /// The reapply label.
    pub reapply_con_sat_label_set: Id,
    /// The extension data.
    pub indi_extension_data: Id,
    /// The nominal individual this node is integrated with.
    pub integrated_nominal_indi: Id,
    /// The nominal individual this node stands for, if any.
    pub nominal_indi: Id,
    pub data_value_applied: bool,
    /// The nodes that were copied from this one.
    pub copy_depending_individual_node_linkers: Vec<NegLink>,
}

impl IndividualSaturationProcessNode {
    /// No satellite data, no nominal, nothing depending on it.
    pub open spec fn is_fresh(&self) -> bool {
        &&& self.role_back_prop_hash is NONE
        &&& self.reapply_con_sat_label_set is NONE
        &&& self.indi_extension_data is NONE
        &&& self.integrated_nominal_indi is NONE
        &&& self.nominal_indi is NONE
        &&& !self.data_value_applied
        &&& self.copy_depending_individual_node_linkers@.len() == 0
    }

    pub fn new() -> (r: Self)
        ensures
            r.is_fresh(),
    {
        IndividualSaturationProcessNode {
            role_back_prop_hash: Id::NONE,
            reapply_con_sat_label_set: Id::NONE,
            indi_extension_data: Id::NONE,
            integrated_nominal_indi: Id::NONE,
            nominal_indi: Id::NONE,
            data_value_applied: false,
            copy_depending_individual_node_linkers: Vec::new(),
        }
    }

    /// Records that `link` was copied from this node.
    pub fn add_copy_depending_individual_node_linker(&mut self, link: NegLink)
        ensures
            final(self).copy_depending_individual_node_linkers@
                == old(self).copy_depending_individual_node_linkers@.push(link),
            final(self).same_but_copy_dependents(old(self)),
    {
        self.copy_depending_individual_node_linkers.push(link);
    }

    /// `self` is `old` with the three satellite handles given, every other
    /// field kept.
    pub open spec fn with_handles(&self, old: &Self, role_back_prop_hash: Id, reapply_con_sat_label_set: Id,
        indi_extension_data: Id) -> bool {
        &&& self.role_back_prop_hash == role_back_prop_hash
        &&& self.reapply_con_sat_label_set == reapply_con_sat_label_set
        &&& self.indi_extension_data == indi_extension_data
        &&& self.integrated_nominal_indi == old.integrated_nominal_indi
        &&& self.nominal_indi == old.nominal_indi
        &&& self.data_value_applied == old.data_value_applied
        &&& self.copy_depending_individual_node_linkers@ == old.copy_depending_individual_node_linkers@
    }

    /// `self` holds what `old` holds in every field but the copy dependents.
    pub open spec fn same_but_copy_dependents(&self, old: &Self) -> bool {
        &&& self.role_back_prop_hash == old.role_back_prop_hash
        &&& self.reapply_con_sat_label_set == old.reapply_con_sat_label_set
        &&& self.indi_extension_data == old.indi_extension_data
        &&& self.integrated_nominal_indi == old.integrated_nominal_indi
        &&& self.nominal_indi == old.nominal_indi
        &&& self.data_value_applied == old.data_value_applied
    }
}

/// The extension data of a saturation node.
#[derive(Clone, Copy, PartialEq, Eq, Structural, Debug)]
pub struct IndividualSaturationProcessNodeExtensionData {
    pub indi_node: SatNodeId,
    pub nominal_handling_data: Id,
    pub applied_datatype_data: Id,
}

impl IndividualSaturationProcessNodeExtensionData {
    pub fn new() -> (r: Self)
        ensures
            r == (IndividualSaturationProcessNodeExtensionData {
                indi_node: Id::NONE,
                nominal_handling_data: Id::NONE,
                applied_datatype_data: Id::NONE,
            }),
    {
        IndividualSaturationProcessNodeExtensionData {
            indi_node: Id::NONE,
            nominal_handling_data: Id::NONE,
            applied_datatype_data: Id::NONE,
        }
    }

    /// Sets the node the data belongs to.
    pub fn init_individual_extension_data(&mut self, node: SatNodeId) -> (r: &mut Self)
        ensures
            *r == (IndividualSaturationProcessNodeExtensionData { indi_node: node, ..*old(self) }),
            *final(self) == *final(r),
    {
        self.indi_node = node;
        self
    }
}

/// The nominal handling of a saturation node.
#[derive(Clone, Copy, PartialEq, Eq, Structural, Debug)]
pub struct SaturationIndividualNodeNominalHandlingData {
    pub indi_node: SatNodeId,
    pub succ_connected_nominal_set: Id,
}

impl SaturationIndividualNodeNominalHandlingData {
    pub fn new() -> (r: Self)
        ensures
            r == (SaturationIndividualNodeNominalHandlingData { indi_node: Id::NONE, succ_connected_nominal_set: Id::NONE }),
    {
        SaturationIndividualNodeNominalHandlingData { indi_node: Id::NONE, succ_connected_nominal_set: Id::NONE }
    }

    /// Sets the node the data belongs to.
    pub fn init_nominal_handling_data(&mut self, node: SatNodeId) -> (r: &mut Self)
        ensures
            *r == (SaturationIndividualNodeNominalHandlingData { indi_node: node, ..*old(self) }),
            *final(self) == *final(r),
    {
        self.indi_node = node;
        self
    }
}

/// The nominals a node is connected to through its successors.
pub struct SuccessorConnectedNominalSet {
    pub nominals: IntSet,
}

impl SuccessorConnectedNominalSet {
    pub fn new() -> (r: Self)
        ensures
            r.nominals@ == Set::<i64>::empty(),
            r.nominals.elems@.len() == 0,
    {
        SuccessorConnectedNominalSet { nominals: IntSet::new() }
    }

    /// Takes the nominals of `prev`, or none without it.
    pub fn copy_successor_connected_nominal_set(&mut self, prev: Option<&SuccessorConnectedNominalSet>)
        ensures
            final(self).nominals.elems@ == (match prev {
                Some(p) => p.nominals.elems@,
                None => Seq::<i64>::empty(),
            }),
            final(self).nominals@ == (match prev {
                Some(p) => p.nominals@,
                None => Set::<i64>::empty(),
            }),
    {
        match prev {
            Some(p) => {
                self.nominals = p.nominals.copy();
            },
            None => {
                self.nominals = IntSet::new();
            },
        }
    }
}

/// The datatype applied to a saturation node.
#[derive(Clone, Copy, PartialEq, Eq, Structural, Debug)]
pub struct SaturationIndividualNodeDatatypeData {
    pub indi_node: SatNodeId,
    pub applied_data_literal: Id,
    pub applied_datatype: Id,
}

impl SaturationIndividualNodeDatatypeData {
    pub fn new() -> (r: Self)
        ensures
            r == (SaturationIndividualNodeDatatypeData {
                indi_node: Id::NONE,
                applied_data_literal: Id::NONE,
                applied_datatype: Id::NONE,
            }),
    {
        SaturationIndividualNodeDatatypeData {
            indi_node: Id::NONE,
            applied_data_literal: Id::NONE,
            applied_datatype: Id::NONE,
        }
    }

    /// Sets the node the data belongs to.
    pub fn init_extension_data(&mut self, node: SatNodeId) -> (r: &mut Self)
        ensures
            *r == (SaturationIndividualNodeDatatypeData { indi_node: node, ..*old(self) }),
            *final(self) == *final(r),
    {
        self.indi_node = node;
        self
    }
}

/// The backward propagation of one role at a saturation node: the head of
/// its links, the head of the descriptors waiting, whether the node
/// propagates to itself over the role, and its predecessor-merging state.
#[derive(Clone, Copy, PartialEq, Eq, Structural, Debug)]
pub struct RoleBackwardSaturationPropagationHashData {
    pub link_linker: Id,
    pub reapply_linker: Id,
    pub self_connected: bool,
    pub role_predecessor_merging_queuing_required: bool,
    pub role_predecessor_merging_processing_queued: bool,
}

impl RoleBackwardSaturationPropagationHashData {
    pub fn new() -> (r: Self)
        ensures
            r == (RoleBackwardSaturationPropagationHashData {
                link_linker: Id::NONE,
                reapply_linker: Id::NONE,
                self_connected: false,
                role_predecessor_merging_queuing_required: false,
                role_predecessor_merging_processing_queued: false,
            }),
    {
        RoleBackwardSaturationPropagationHashData {
            link_linker: Id::NONE,
            reapply_linker: Id::NONE,
            self_connected: false,
            role_predecessor_merging_queuing_required: false,
            role_predecessor_merging_processing_queued: false,
        }
    }

    /// A copy of `data` without its links.
    pub open spec fn spec_copy_without_links(data: RoleBackwardSaturationPropagationHashData) -> Self {
        RoleBackwardSaturationPropagationHashData { link_linker: Id::NONE, ..data }
    }

    /// A copy of `data` without its links.
    pub fn copy_without_links(data: &RoleBackwardSaturationPropagationHashData) -> (r: Self)
        ensures
            r == Self::spec_copy_without_links(*data),
    {
        RoleBackwardSaturationPropagationHashData { link_linker: Id::NONE, ..*data }
    }
}

/// The backward propagations of a saturation node, by role.
pub struct RoleBackwardSaturationPropagationHash {
    pub context: Cint64,
    /// Whether the node propagates to itself over some role.
    pub self_connected: bool,
    pub role_back_prop_data_hash: IdMap<RoleBackwardSaturationPropagationHashData>,
}

impl RoleBackwardSaturationPropagationHash {
    pub fn new(context: Cint64) -> (r: Self)
        ensures
            r.context == context,
            !r.self_connected,
            r.role_back_prop_data_hash@ == Map::<Id, RoleBackwardSaturationPropagationHashData>::empty(),
    {
        RoleBackwardSaturationPropagationHash { context, self_connected: false, role_back_prop_data_hash: IdMap::new() }
    }

    /// Takes the roles of `source` with their data copied without links,
    /// and its self-connection flag.
    pub fn copy_without_links_from(&mut self, source: &RoleBackwardSaturationPropagationHash)
        ensures
            final(self).context == old(self).context,
            final(self).self_connected == source.self_connected,
            final(self).role_back_prop_data_hash@ == source.role_back_prop_data_hash@.map_values(
                |d: RoleBackwardSaturationPropagationHashData| RoleBackwardSaturationPropagationHashData::spec_copy_without_links(d)),
            final(self).role_back_prop_data_hash.entries@.len() == source.role_back_prop_data_hash.entries@.len(),
            forall|i: int| 0 <= i < source.role_back_prop_data_hash.entries@.len()
                ==> (#[trigger] final(self).role_back_prop_data_hash.entries@[i]).0
                    == source.role_back_prop_data_hash.entries@[i].0,
    {
        let src = &source.role_back_prop_data_hash.entries;
        let mut entries: Vec<(Id, RoleBackwardSaturationPropagationHashData)> = Vec::new();
        let mut i: usize = 0;
        while i < src.len()
            invariant
                0 <= i <= src@.len(),
                entries@.len() == i,
                forall|j: int| 0 <= j < i ==> #[trigger] entries@[j]
                    == (src@[j].0, RoleBackwardSaturationPropagationHashData::spec_copy_without_links(src@[j].1)),
            decreases src@.len() - i,
        {
            let (k, d) = src[i];
            entries.push((k, RoleBackwardSaturationPropagationHashData::copy_without_links(&d)));
            i = i + 1;
        }
        proof {
            let t = entries@;
            let m = source.role_back_prop_data_hash@.map_values(
                |d: RoleBackwardSaturationPropagationHashData| RoleBackwardSaturationPropagationHashData::spec_copy_without_links(d));
            assert forall|k: Id| #[trigger] entries_map(t).contains_key(k) == m.contains_key(k) by {
                if entries_map(src@).contains_key(k) {
                    lemma_same_keys(src@, t, k);
                }
                if entries_map(t).contains_key(k) {
                    lemma_same_keys(t, src@, k);
                }
            }
            assert forall|k: Id| entries_map(t).contains_key(k) implies entries_map(t)[k] == m[k] by {
                lemma_same_keys(t, src@, k);
            }
            assert(entries_map(t) =~= m);
        }
        self.role_back_prop_data_hash = IdMap { entries };
        self.self_connected = source.self_connected;
    }

    /// The data of `role`, which the hash holds.
    pub fn data_of(&self, role: Id) -> (r: Option<RoleBackwardSaturationPropagationHashData>)
        ensures
            match r {
                Some(d) => self.role_back_prop_data_hash@.contains_key(role) && d == self.role_back_prop_data_hash@[role],
                None => !self.role_back_prop_data_hash@.contains_key(role),
            },
    {
        match self.role_back_prop_data_hash.get(&role) {
            Some(d) => Some(*d),
            None => None,
        }
    }

    /// Records `data` for `role`.
    pub fn set_data(&mut self, role: Id, data: RoleBackwardSaturationPropagationHashData)
        ensures
            final(self).role_back_prop_data_hash@ == old(self).role_back_prop_data_hash@.insert(role, data),
            final(self).context == old(self).context,
            final(self).self_connected == old(self).self_connected,
    {
        self.role_back_prop_data_hash.insert(role, data);
    }

    /// Starts without propagations.
    pub fn init_role_backward_saturation_propagation_hash(&mut self)
        ensures
            final(self).context == old(self).context,
            !final(self).self_connected,
            final(self).role_back_prop_data_hash@ == Map::<Id, RoleBackwardSaturationPropagationHashData>::empty(),
    {
        self.self_connected = false;
        self.role_back_prop_data_hash = IdMap::new();
    }
}

/// A link over which concepts are propagated back to a saturation node, on
/// the chain of links of one role.
#[derive(Clone, Copy, PartialEq, Eq, Structural, Debug)]
pub struct BackwardSaturationPropagationLink {
    pub source_individual: SatNodeId,
    pub role: Id,
    pub next: Id,
}

impl BackwardSaturationPropagationLink {
    pub fn new() -> (r: Self)
        ensures
            r == (BackwardSaturationPropagationLink { source_individual: Id::NONE, role: Id::NONE, next: Id::NONE }),
    {
        BackwardSaturationPropagationLink { source_individual: Id::NONE, role: Id::NONE, next: Id::NONE }
    }

    /// Sets the source individual and the role.
    pub fn init_backward_propagation_link(&mut self, source: SatNodeId, role: Id) -> (r: &mut Self)
        ensures
            *r == (BackwardSaturationPropagationLink { source_individual: source, role, ..*old(self) }),
            *final(self) == *final(r),
    {
        self.source_individual = source;
        self.role = role;
        self
    }

    pub fn set_next(&mut self, next: Id) -> (r: &mut Self)
        ensures
            *r == (BackwardSaturationPropagationLink { next, ..*old(self) }),
            *final(self) == *final(r),
    {
        self.next = next;
        self
    }
}

} // verus!
