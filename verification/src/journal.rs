//! Branch epochs: snapshots of the journaled arenas of a process context,
//! taken when an alternative of a branch is opened and restored when it is
//! closed.

use vstd::prelude::*;
use crate::models::{IndividualProcessNode, IndividualLinkEdge, BranchingMergingIndividualNodeCandidateLinker,
    CondensedReapplyConceptDescriptor, VariableBindingPathSet, PropagationBindingSet, IndividualProcessNodeLinker};
use crate::analized_concept_expansion::{IndividualNodeAnalizedConceptExpansionData, AnalizedConceptExpansionLinker};
use crate::backend_sync::IndividualNodeBackendCacheSynchronisationData;
use crate::backend_control::BackendNeighbourExpansionControllingData;
use crate::blocking_follow::BlockingFollowSet;
use crate::branching_tree::BranchingTree;
use crate::concept_process_linker::ConceptProcessLinker;
use crate::binding_hash::{ConceptVariableBindingPathSetHash, ConceptPropagationBindingSetHash};
use crate::blocking_hash::{BlockingIndividualNodeCandidateHash, BlockingIndividualNodeCandidateData,
    BlockingIndividualNodeLinkedCandidateHash, BlockingIndividualNodeLinkedCandidateData,
    BlockingIndividualNodeLinker, SignatureBlockingIndividualNodeConceptExpansionData,
    ReusingIndividualNodeConceptExpansionData};
use crate::review::{SignatureBlockingReviewSet, SignatureBlockingReviewData, ReusingReviewData};
use crate::signature_candidates::SignatureBlockingCandidateHash;
use crate::context::ProcessContext;
use crate::saturation_node::{IndividualSaturationProcessNode, IndividualSaturationProcessNodeExtensionData,
    SaturationIndividualNodeNominalHandlingData, SuccessorConnectedNominalSet, SaturationIndividualNodeDatatypeData,
    RoleBackwardSaturationPropagationHash, BackwardSaturationPropagationLink};
use crate::backward_propagation::{RoleBackwardPropagationHash, BackwardPropagationLink,
    BackwardPropagationReapplyDescriptor};
use crate::saturation_label::{ConceptSaturationDescriptor, ReapplyConceptSaturationLabelSet,
    ImplicationReapplyConceptSaturationDescriptor, SaturationModifiedProcessUpdateLinker};
use crate::saturation_extension::{SaturationLinkedSuccessorIndividualAllConceptsExtensionData,
    SaturationSuccessorAllConceptExtensionData, SaturationSuccessorConceptExtensionMap,
    SaturationIndividualNodeAllConceptsExtensionData};

verus! {

/// An arena element that an epoch can copy.
pub trait Journaled: Sized {
    /// `self` holds what `other` holds.
    spec fn same(&self, other: &Self) -> bool;

    /// A copy holding what `self` holds.
    fn duplicate(&self) -> (r: Self)
        ensures
            r.same(self),
    ;
}

/// A copy of `v` holding the same elements in the same order.
fn copy_vec<T: Copy>(v: &Vec<T>) -> (r: Vec<T>)
    ensures
        r@ == v@,
{
    let mut r: Vec<T> = Vec::new();
    let mut i: usize = 0;
    while i < v.len()
        invariant
            0 <= i <= v@.len(),
            r@ == v@.subrange(0, i as int),
        decreases v@.len() - i,
    {
        r.push(v[i]);
        i = i + 1;
    }
    assert(r@ =~= v@);
    r
}

/// `a` and `b` hold the same elements, position by position.
pub open spec fn arenas_same<T: Journaled>(a: Seq<T>, b: Seq<T>) -> bool {
    &&& a.len() == b.len()
    &&& forall|i: int| 0 <= i < a.len() ==> #[trigger] a[i].same(&b[i])
}

/// A copy of an arena, element by element.
fn duplicate_arena<T: Journaled>(v: &Vec<T>) -> (r: Vec<T>)
    ensures
        arenas_same(r@, v@),
{
    let mut r: Vec<T> = Vec::new();
    let mut i: usize = 0;
    while i < v.len()
        invariant
            0 <= i <= v@.len(),
            r@.len() == i,
            forall|j: int| 0 <= j < i ==> #[trigger] r@[j].same(&v@[j]),
        decreases v@.len() - i,
    {
        let d = v[i].duplicate();
        r.push(d);
        i = i + 1;
    }
    r
}

impl Journaled for IndividualProcessNode {
    open spec fn same(&self, other: &Self) -> bool {
        *self == *other
    }

    fn duplicate(&self) -> (r: Self) {
        *self
    }
}

impl Journaled for IndividualLinkEdge {
    open spec fn same(&self, other: &Self) -> bool {
        *self == *other
    }

    fn duplicate(&self) -> (r: Self) {
        *self
    }
}

impl Journaled for BranchingMergingIndividualNodeCandidateLinker {
    open spec fn same(&self, other: &Self) -> bool {
        *self == *other
    }

    fn duplicate(&self) -> (r: Self) {
        *self
    }
}

impl Journaled for CondensedReapplyConceptDescriptor {
    open spec fn same(&self, other: &Self) -> bool {
        *self == *other
    }

    fn duplicate(&self) -> (r: Self) {
        *self
    }
}

impl Journaled for VariableBindingPathSet {
    open spec fn same(&self, other: &Self) -> bool {
        self.process_context == other.process_context && self.binding_paths@ == other.binding_paths@
    }

    fn duplicate(&self) -> (r: Self) {
        VariableBindingPathSet { process_context: self.process_context, binding_paths: copy_vec(&self.binding_paths) }
    }
}

impl Journaled for PropagationBindingSet {
    open spec fn same(&self, other: &Self) -> bool {
        self.process_context == other.process_context && self.propagation_bindings@ == other.propagation_bindings@
    }

    fn duplicate(&self) -> (r: Self) {
        PropagationBindingSet { process_context: self.process_context, propagation_bindings: copy_vec(&self.propagation_bindings) }
    }
}

impl Journaled for IndividualNodeAnalizedConceptExpansionData {
    open spec fn same(&self, other: &Self) -> bool {
        &&& self.rev_ana_con_exp_linker == other.rev_ana_con_exp_linker
        &&& self.last_con_des == other.last_con_des
        &&& self.last_concept_signature == other.last_concept_signature
        &&& self.last_concept_count == other.last_concept_count
        &&& self.min_valid_concept_count_limit == other.min_valid_concept_count_limit
        &&& self.exp_count == other.exp_count
        &&& self.invalid_blocker == other.invalid_blocker
        &&& self.non_det_expansion_linker@ == other.non_det_expansion_linker@
    }

    fn duplicate(&self) -> (r: Self) {
        IndividualNodeAnalizedConceptExpansionData {
            rev_ana_con_exp_linker: self.rev_ana_con_exp_linker,
            last_con_des: self.last_con_des,
            last_concept_signature: self.last_concept_signature,
            last_concept_count: self.last_concept_count,
            min_valid_concept_count_limit: self.min_valid_concept_count_limit,
            exp_count: self.exp_count,
            invalid_blocker: self.invalid_blocker,
            non_det_expansion_linker: copy_vec(&self.non_det_expansion_linker),
        }
    }
}

impl Journaled for AnalizedConceptExpansionLinker {
    open spec fn same(&self, other: &Self) -> bool {
        self.next == other.next && self.con_des == other.con_des && self.dependend_con_des_linker@ == other.dependend_con_des_linker@
    }

    fn duplicate(&self) -> (r: Self) {
        AnalizedConceptExpansionLinker { next: self.next, dependend_con_des_linker: copy_vec(&self.dependend_con_des_linker), con_des: self.con_des }
    }
}

impl Journaled for IndividualNodeBackendCacheSynchronisationData {
    open spec fn same(&self, other: &Self) -> bool {
        self.same_state(other)
    }

    fn duplicate(&self) -> (r: Self) {
        let mut d = IndividualNodeBackendCacheSynchronisationData::new();
        d.init_synchronisation_data(Some(self));
        d
    }
}

impl Journaled for BlockingFollowSet {
    open spec fn same(&self, other: &Self) -> bool {
        self.follow_set.elems@ == other.follow_set.elems@ && self.update_tag == other.update_tag
    }

    fn duplicate(&self) -> (r: Self) {
        BlockingFollowSet { follow_set: self.follow_set.copy(), update_tag: self.update_tag }
    }
}

impl Journaled for BranchingTree {
    open spec fn same(&self, other: &Self) -> bool {
        *self == *other
    }

    fn duplicate(&self) -> (r: Self) {
        *self
    }
}

impl Journaled for ConceptProcessLinker {
    open spec fn same(&self, other: &Self) -> bool {
        *self == *other
    }

    fn duplicate(&self) -> (r: Self) {
        *self
    }
}

impl Journaled for ConceptVariableBindingPathSetHash {
    open spec fn same(&self, other: &Self) -> bool {
        self.process_context == other.process_context && self.map.entries@ == other.map.entries@ && self.last_var_bind_des_linker == other.last_var_bind_des_linker
    }

    fn duplicate(&self) -> (r: Self) {
        ConceptVariableBindingPathSetHash { process_context: self.process_context, map: self.map.copy(), last_var_bind_des_linker: self.last_var_bind_des_linker }
    }
}

impl Journaled for ConceptPropagationBindingSetHash {
    open spec fn same(&self, other: &Self) -> bool {
        self.process_context == other.process_context && self.map.entries@ == other.map.entries@ && self.last_propagation_binding_descriptor == other.last_propagation_binding_descriptor
    }

    fn duplicate(&self) -> (r: Self) {
        ConceptPropagationBindingSetHash { process_context: self.process_context, map: self.map.copy(), last_propagation_binding_descriptor: self.last_propagation_binding_descriptor }
    }
}

impl Journaled for BlockingIndividualNodeCandidateHash {
    open spec fn same(&self, other: &Self) -> bool {
        self.context == other.context && self.mem_man == other.mem_man && self.block_candidate_hash.entries@ == other.block_candidate_hash.entries@
    }

    fn duplicate(&self) -> (r: Self) {
        BlockingIndividualNodeCandidateHash { context: self.context, mem_man: self.mem_man, block_candidate_hash: self.block_candidate_hash.copy() }
    }
}

impl Journaled for BlockingIndividualNodeCandidateData {
    open spec fn same(&self, other: &Self) -> bool {
        &&& self.node_switch_tag == other.node_switch_tag
        &&& self.modification_tag == other.modification_tag
        &&& self.candidate_indi_map.entries@ == other.candidate_indi_map.entries@
        &&& self.max_valid_individual_id == other.max_valid_individual_id
        &&& self.context == other.context
        &&& self.mem_man == other.mem_man
    }

    fn duplicate(&self) -> (r: Self) {
        BlockingIndividualNodeCandidateData {
            node_switch_tag: self.node_switch_tag,
            modification_tag: self.modification_tag,
            candidate_indi_map: self.candidate_indi_map.copy(),
            max_valid_individual_id: self.max_valid_individual_id,
            context: self.context,
            mem_man: self.mem_man,
        }
    }
}

impl Journaled for BlockingIndividualNodeLinkedCandidateHash {
    open spec fn same(&self, other: &Self) -> bool {
        self.context == other.context && self.mem_man == other.mem_man && self.block_candidate_hash.entries@ == other.block_candidate_hash.entries@
    }

    fn duplicate(&self) -> (r: Self) {
        BlockingIndividualNodeLinkedCandidateHash { context: self.context, mem_man: self.mem_man, block_candidate_hash: self.block_candidate_hash.copy() }
    }
}

impl Journaled for BlockingIndividualNodeLinkedCandidateData {
    open spec fn same(&self, other: &Self) -> bool {
        *self == *other
    }

    fn duplicate(&self) -> (r: Self) {
        *self
    }
}

impl Journaled for BlockingIndividualNodeLinker {
    open spec fn same(&self, other: &Self) -> bool {
        *self == *other
    }

    fn duplicate(&self) -> (r: Self) {
        *self
    }
}

impl Journaled for SignatureBlockingIndividualNodeConceptExpansionData {
    open spec fn same(&self, other: &Self) -> bool {
        *self == *other
    }

    fn duplicate(&self) -> (r: Self) {
        *self
    }
}

impl Journaled for ReusingIndividualNodeConceptExpansionData {
    open spec fn same(&self, other: &Self) -> bool {
        &&& self.blocking_expansion_data == other.blocking_expansion_data
        &&& self.reusing_tried_count == other.reusing_tried_count
        &&& self.reusing_failed_count == other.reusing_failed_count
        &&& self.reused_individuals.elems@ == other.reused_individuals.elems@
        &&& self.reused_concept_set_signatures.elems@ == other.reused_concept_set_signatures.elems@
        &&& self.reuse_concepts_dependency_track_point == other.reuse_concepts_dependency_track_point
        &&& self.last_non_det_expansion_linker@ == other.last_non_det_expansion_linker@
    }

    fn duplicate(&self) -> (r: Self) {
        ReusingIndividualNodeConceptExpansionData {
            blocking_expansion_data: self.blocking_expansion_data,
            reusing_tried_count: self.reusing_tried_count,
            reusing_failed_count: self.reusing_failed_count,
            reused_individuals: self.reused_individuals.copy(),
            reused_concept_set_signatures: self.reused_concept_set_signatures.copy(),
            reuse_concepts_dependency_track_point: self.reuse_concepts_dependency_track_point,
            last_non_det_expansion_linker: copy_vec(&self.last_non_det_expansion_linker),
        }
    }
}

impl Journaled for SignatureBlockingReviewSet {
    open spec fn same(&self, other: &Self) -> bool {
        &&& self.subset_reviews.individual_set.elems@ == other.subset_reviews.individual_set.elems@
        &&& self.subset_reviews.depth_individual_map@ == other.subset_reviews.depth_individual_map@
        &&& self.non_subset_reviews.individual_set.elems@ == other.non_subset_reviews.individual_set.elems@
        &&& self.non_subset_reviews.depth_individual_map@ == other.non_subset_reviews.depth_individual_map@
    }

    fn duplicate(&self) -> (r: Self) {
        SignatureBlockingReviewSet {
            subset_reviews: SignatureBlockingReviewData {
                individual_set: self.subset_reviews.individual_set.copy(),
                depth_individual_map: copy_vec(&self.subset_reviews.depth_individual_map),
            },
            non_subset_reviews: SignatureBlockingReviewData {
                individual_set: self.non_subset_reviews.individual_set.copy(),
                depth_individual_map: copy_vec(&self.non_subset_reviews.depth_individual_map),
            },
        }
    }
}

impl Journaled for ReusingReviewData {
    open spec fn same(&self, other: &Self) -> bool {
        self.individual_set.elems@ == other.individual_set.elems@ && self.depth_individual_map@ == other.depth_individual_map@
    }

    fn duplicate(&self) -> (r: Self) {
        ReusingReviewData { individual_set: self.individual_set.copy(), depth_individual_map: copy_vec(&self.depth_individual_map) }
    }
}

impl Journaled for IndividualProcessNodeLinker {
    open spec fn same(&self, other: &Self) -> bool {
        *self == *other
    }

    fn duplicate(&self) -> (r: Self) {
        *self
    }
}

impl Journaled for SignatureBlockingCandidateHash {
    open spec fn same(&self, other: &Self) -> bool {
        self.context == other.context && self.candidates@ == other.candidates@
    }

    fn duplicate(&self) -> (r: Self) {
        SignatureBlockingCandidateHash { context: self.context, candidates: copy_vec(&self.candidates) }
    }
}

impl Journaled for ConceptSaturationDescriptor {
    open spec fn same(&self, other: &Self) -> bool {
        *self == *other
    }

    fn duplicate(&self) -> (r: Self) {
        *self
    }
}

impl Journaled for ImplicationReapplyConceptSaturationDescriptor {
    open spec fn same(&self, other: &Self) -> bool {
        *self == *other
    }

    fn duplicate(&self) -> (r: Self) {
        *self
    }
}

impl Journaled for SaturationSuccessorAllConceptExtensionData {
    open spec fn same(&self, other: &Self) -> bool {
        *self == *other
    }

    fn duplicate(&self) -> (r: Self) {
        *self
    }
}

impl Journaled for SaturationSuccessorConceptExtensionMap {
    open spec fn same(&self, other: &Self) -> bool {
        self.extensions.entries@ == other.extensions.entries@
    }

    fn duplicate(&self) -> (r: Self) {
        SaturationSuccessorConceptExtensionMap { extensions: self.extensions.copy() }
    }
}

impl Journaled for SaturationLinkedSuccessorIndividualAllConceptsExtensionData {
    open spec fn same(&self, other: &Self) -> bool {
        &&& self.indi_proc_sat_node == other.indi_proc_sat_node
        &&& self.only_role == other.only_role
        &&& self.only_all_concept_ext_data == other.only_all_concept_ext_data
        &&& self.role_concept_extension_hash.entries@ == other.role_concept_extension_hash.entries@
    }

    fn duplicate(&self) -> (r: Self) {
        SaturationLinkedSuccessorIndividualAllConceptsExtensionData {
            indi_proc_sat_node: self.indi_proc_sat_node,
            only_role: self.only_role,
            only_all_concept_ext_data: self.only_all_concept_ext_data,
            role_concept_extension_hash: self.role_concept_extension_hash.copy(),
        }
    }
}

impl Journaled for SaturationModifiedProcessUpdateLinker {
    open spec fn same(&self, other: &Self) -> bool {
        *self == *other
    }

    fn duplicate(&self) -> (r: Self) {
        *self
    }
}

impl Journaled for SaturationIndividualNodeAllConceptsExtensionData {
    open spec fn same(&self, other: &Self) -> bool {
        &&& self.indi_process_node == other.indi_process_node
        &&& self.linked_successor_individual_all_concepts_extension_hash.entries@
            == other.linked_successor_individual_all_concepts_extension_hash.entries@
    }

    fn duplicate(&self) -> (r: Self) {
        SaturationIndividualNodeAllConceptsExtensionData {
            indi_process_node: self.indi_process_node,
            linked_successor_individual_all_concepts_extension_hash:
                self.linked_successor_individual_all_concepts_extension_hash.copy(),
        }
    }
}

impl Journaled for BackwardPropagationLink {
    open spec fn same(&self, other: &Self) -> bool {
        *self == *other
    }

    fn duplicate(&self) -> (r: Self) {
        *self
    }
}

impl Journaled for BackwardPropagationReapplyDescriptor {
    open spec fn same(&self, other: &Self) -> bool {
        *self == *other
    }

    fn duplicate(&self) -> (r: Self) {
        *self
    }
}

impl Journaled for RoleBackwardPropagationHash {
    open spec fn same(&self, other: &Self) -> bool {
        self.context == other.context && self.role_back_prop_data_hash.entries@ == other.role_back_prop_data_hash.entries@
    }

    fn duplicate(&self) -> (r: Self) {
        RoleBackwardPropagationHash { context: self.context, role_back_prop_data_hash: self.role_back_prop_data_hash.copy() }
    }
}

impl Journaled for BackendNeighbourExpansionControllingData {
    open spec fn same(&self, other: &Self) -> bool {
        &&& self.expanded_neighbour_link_count == other.expanded_neighbour_link_count
        &&& self.reuse_modes_dep_node == other.reuse_modes_dep_node
        &&& self.fixed_reuse_expansion_mode == other.fixed_reuse_expansion_mode
        &&& self.prioritized_reuse_expansion_mode == other.prioritized_reuse_expansion_mode
        &&& self.reuse_continuing_dependency_track_point == other.reuse_continuing_dependency_track_point
        &&& self.last_backend_expanded_ensuring_existing_individual_links_linker@
            == other.last_backend_expanded_ensuring_existing_individual_links_linker@
        &&& self.cut_backend_neighbour_expansion_individual_linker@
            == other.cut_backend_neighbour_expansion_individual_linker@
        &&& self.last_cut_backend_neighbour_expansion_ensuring_existing_individual_links_linker@
            == other.last_cut_backend_neighbour_expansion_ensuring_existing_individual_links_linker@
    }

    fn duplicate(&self) -> (r: Self) {
        BackendNeighbourExpansionControllingData {
            expanded_neighbour_link_count: self.expanded_neighbour_link_count,
            reuse_modes_dep_node: self.reuse_modes_dep_node,
            fixed_reuse_expansion_mode: self.fixed_reuse_expansion_mode,
            prioritized_reuse_expansion_mode: self.prioritized_reuse_expansion_mode,
            reuse_continuing_dependency_track_point: self.reuse_continuing_dependency_track_point,
            last_backend_expanded_ensuring_existing_individual_links_linker:
                copy_vec(&self.last_backend_expanded_ensuring_existing_individual_links_linker),
            cut_backend_neighbour_expansion_individual_linker:
                copy_vec(&self.cut_backend_neighbour_expansion_individual_linker),
            last_cut_backend_neighbour_expansion_ensuring_existing_individual_links_linker:
                copy_vec(&self.last_cut_backend_neighbour_expansion_ensuring_existing_individual_links_linker),
        }
    }
}

impl Journaled for IndividualSaturationProcessNode {
    open spec fn same(&self, other: &Self) -> bool {
        &&& self.same_but_copy_dependents(other)
        &&& self.copy_depending_individual_node_linkers@ == other.copy_depending_individual_node_linkers@
    }

    fn duplicate(&self) -> (r: Self) {
        IndividualSaturationProcessNode {
            role_back_prop_hash: self.role_back_prop_hash,
            reapply_con_sat_label_set: self.reapply_con_sat_label_set,
            indi_extension_data: self.indi_extension_data,
            integrated_nominal_indi: self.integrated_nominal_indi,
            nominal_indi: self.nominal_indi,
            data_value_applied: self.data_value_applied,
            copy_depending_individual_node_linkers: copy_vec(&self.copy_depending_individual_node_linkers),
        }
    }
}

impl Journaled for IndividualSaturationProcessNodeExtensionData {
    open spec fn same(&self, other: &Self) -> bool {
        *self == *other
    }

    fn duplicate(&self) -> (r: Self) {
        *self
    }
}

impl Journaled for SaturationIndividualNodeNominalHandlingData {
    open spec fn same(&self, other: &Self) -> bool {
        *self == *other
    }

    fn duplicate(&self) -> (r: Self) {
        *self
    }
}

impl Journaled for SaturationIndividualNodeDatatypeData {
    open spec fn same(&self, other: &Self) -> bool {
        *self == *other
    }

    fn duplicate(&self) -> (r: Self) {
        *self
    }
}

impl Journaled for BackwardSaturationPropagationLink {
    open spec fn same(&self, other: &Self) -> bool {
        *self == *other
    }

    fn duplicate(&self) -> (r: Self) {
        *self
    }
}

impl Journaled for SuccessorConnectedNominalSet {
    open spec fn same(&self, other: &Self) -> bool {
        self.nominals.elems@ == other.nominals.elems@
    }

    fn duplicate(&self) -> (r: Self) {
        SuccessorConnectedNominalSet { nominals: self.nominals.copy() }
    }
}

impl Journaled for RoleBackwardSaturationPropagationHash {
    open spec fn same(&self, other: &Self) -> bool {
        &&& self.context == other.context
        &&& self.self_connected == other.self_connected
        &&& self.role_back_prop_data_hash.entries@ == other.role_back_prop_data_hash.entries@
    }

    fn duplicate(&self) -> (r: Self) {
        RoleBackwardSaturationPropagationHash {
            context: self.context,
            self_connected: self.self_connected,
            role_back_prop_data_hash: self.role_back_prop_data_hash.copy(),
        }
    }
}

impl Journaled for ReapplyConceptSaturationLabelSet {
    open spec fn same(&self, other: &Self) -> bool {
        &&& self.concept_count == other.concept_count
        &&& self.totel_count == other.totel_count
        &&& self.concept_flags == other.concept_flags
        &&& self.concept_des_dep_hash.entries@ == other.concept_des_dep_hash.entries@
        &&& self.additional_concept_des_dep_hash.entries@ == other.additional_concept_des_dep_hash.entries@
        &&& self.has_additional_concept_des_dep_hash == other.has_additional_concept_des_dep_hash
        &&& self.concept_sat_des_linker == other.concept_sat_des_linker
        &&& self.last_nominal_indep_con_sat_des == other.last_nominal_indep_con_sat_des
        &&& self.modified_update_linker == other.modified_update_linker
    }

    fn duplicate(&self) -> (r: Self) {
        ReapplyConceptSaturationLabelSet {
            concept_count: self.concept_count,
            totel_count: self.totel_count,
            concept_flags: self.concept_flags,
            concept_des_dep_hash: self.concept_des_dep_hash.copy(),
            additional_concept_des_dep_hash: self.additional_concept_des_dep_hash.copy(),
            has_additional_concept_des_dep_hash: self.has_additional_concept_des_dep_hash,
            concept_sat_des_linker: self.concept_sat_des_linker,
            last_nominal_indep_con_sat_des: self.last_nominal_indep_con_sat_des,
            modified_update_linker: self.modified_update_linker,
        }
    }
}

/// The journaled arenas of a process context, as they were when an epoch
/// was opened.
pub struct ArenaSnapshot {
    pub nodes: Vec<IndividualProcessNode>,
    pub edges: Vec<IndividualLinkEdge>,
    pub branching_merging_candidate_linkers: Vec<BranchingMergingIndividualNodeCandidateLinker>,
    pub cond_reapply_con_descs: Vec<CondensedReapplyConceptDescriptor>,
    pub var_binding_path_sets: Vec<VariableBindingPathSet>,
    pub prop_binding_sets: Vec<PropagationBindingSet>,
    pub analized_con_exp_datas: Vec<IndividualNodeAnalizedConceptExpansionData>,
    pub analized_con_exp_linkers: Vec<AnalizedConceptExpansionLinker>,
    pub backend_sync_datas: Vec<IndividualNodeBackendCacheSynchronisationData>,
    pub backend_neighbour_expansion_controlling_datas: Vec<BackendNeighbourExpansionControllingData>,
    pub blocking_follow_sets: Vec<BlockingFollowSet>,
    pub branching_trees: Vec<BranchingTree>,
    pub concept_process_linkers: Vec<ConceptProcessLinker>,
    pub con_var_bind_path_set_hashes: Vec<ConceptVariableBindingPathSetHash>,
    pub con_prop_binding_set_hashes: Vec<ConceptPropagationBindingSetHash>,
    pub blocking_indi_node_cand_hashes: Vec<BlockingIndividualNodeCandidateHash>,
    pub blocking_indi_node_cand_datas: Vec<BlockingIndividualNodeCandidateData>,
    pub blocking_indi_node_linked_cand_hashes: Vec<BlockingIndividualNodeLinkedCandidateHash>,
    pub blocking_indi_node_linked_cand_datas: Vec<BlockingIndividualNodeLinkedCandidateData>,
    pub blocking_indi_node_linkers: Vec<BlockingIndividualNodeLinker>,
    pub sig_block_con_exp_datas: Vec<SignatureBlockingIndividualNodeConceptExpansionData>,
    pub reusing_con_exp_datas: Vec<ReusingIndividualNodeConceptExpansionData>,
    pub signature_blocking_review_sets: Vec<SignatureBlockingReviewSet>,
    pub reusing_review_datas: Vec<ReusingReviewData>,
    pub individual_process_node_linkers: Vec<IndividualProcessNodeLinker>,
    pub sig_block_cand_hashes: Vec<SignatureBlockingCandidateHash>,
    pub con_sat_descs: Vec<ConceptSaturationDescriptor>,
    pub reapply_con_sat_label_sets: Vec<ReapplyConceptSaturationLabelSet>,
    pub imp_reapply_con_sat_descs: Vec<ImplicationReapplyConceptSaturationDescriptor>,
    pub sat_linked_succ_indi_all_concept_ext_datas: Vec<SaturationLinkedSuccessorIndividualAllConceptsExtensionData>,
    pub sat_successor_all_concept_ext_datas: Vec<SaturationSuccessorAllConceptExtensionData>,
    pub sat_successor_concept_extension_maps: Vec<SaturationSuccessorConceptExtensionMap>,
    pub sat_indi_node_all_concept_ext_datas: Vec<SaturationIndividualNodeAllConceptsExtensionData>,
    pub sat_modified_process_update_linkers: Vec<SaturationModifiedProcessUpdateLinker>,
    pub role_backward_prop_hashes: Vec<RoleBackwardPropagationHash>,
    pub backward_prop_links: Vec<BackwardPropagationLink>,
    pub backward_prop_reapply_descs: Vec<BackwardPropagationReapplyDescriptor>,
    pub sat_nodes: Vec<IndividualSaturationProcessNode>,
    pub indi_sat_node_ext_datas: Vec<IndividualSaturationProcessNodeExtensionData>,
    pub sat_nominal_handling_datas: Vec<SaturationIndividualNodeNominalHandlingData>,
    pub nominal_conn_sets: Vec<SuccessorConnectedNominalSet>,
    pub sat_indi_node_datatype_datas: Vec<SaturationIndividualNodeDatatypeData>,
    pub role_backward_sat_prop_hashes: Vec<RoleBackwardSaturationPropagationHash>,
    pub backward_sat_prop_links: Vec<BackwardSaturationPropagationLink>,
}

/// `s` holds what the journaled arenas of `c` hold.
pub open spec fn snapshot_of(s: ArenaSnapshot, c: ProcessContext) -> bool {
    &&& arenas_same(s.nodes@, c.nodes@)
    &&& arenas_same(s.edges@, c.edges@)
    &&& arenas_same(s.branching_merging_candidate_linkers@, c.branching_merging_candidate_linkers@)
    &&& arenas_same(s.cond_reapply_con_descs@, c.cond_reapply_con_descs@)
    &&& arenas_same(s.var_binding_path_sets@, c.var_binding_path_sets@)
    &&& arenas_same(s.prop_binding_sets@, c.prop_binding_sets@)
    &&& arenas_same(s.analized_con_exp_datas@, c.analized_con_exp_datas@)
    &&& arenas_same(s.analized_con_exp_linkers@, c.analized_con_exp_linkers@)
    &&& arenas_same(s.backend_sync_datas@, c.backend_sync_datas@)
    &&& arenas_same(s.backend_neighbour_expansion_controlling_datas@, c.backend_neighbour_expansion_controlling_datas@)
    &&& arenas_same(s.blocking_follow_sets@, c.blocking_follow_sets@)
    &&& arenas_same(s.branching_trees@, c.branching_trees@)
    &&& arenas_same(s.concept_process_linkers@, c.concept_process_linkers@)
    &&& arenas_same(s.con_var_bind_path_set_hashes@, c.con_var_bind_path_set_hashes@)
    &&& arenas_same(s.con_prop_binding_set_hashes@, c.con_prop_binding_set_hashes@)
    &&& arenas_same(s.blocking_indi_node_cand_hashes@, c.blocking_indi_node_cand_hashes@)
    &&& arenas_same(s.blocking_indi_node_cand_datas@, c.blocking_indi_node_cand_datas@)
    &&& arenas_same(s.blocking_indi_node_linked_cand_hashes@, c.blocking_indi_node_linked_cand_hashes@)
    &&& arenas_same(s.blocking_indi_node_linked_cand_datas@, c.blocking_indi_node_linked_cand_datas@)
    &&& arenas_same(s.blocking_indi_node_linkers@, c.blocking_indi_node_linkers@)
    &&& arenas_same(s.sig_block_con_exp_datas@, c.sig_block_con_exp_datas@)
    &&& arenas_same(s.reusing_con_exp_datas@, c.reusing_con_exp_datas@)
    &&& arenas_same(s.signature_blocking_review_sets@, c.signature_blocking_review_sets@)
    &&& arenas_same(s.reusing_review_datas@, c.reusing_review_datas@)
    &&& arenas_same(s.individual_process_node_linkers@, c.individual_process_node_linkers@)
    &&& arenas_same(s.sig_block_cand_hashes@, c.sig_block_cand_hashes@)
    &&& arenas_same(s.con_sat_descs@, c.con_sat_descs@)
    &&& arenas_same(s.reapply_con_sat_label_sets@, c.reapply_con_sat_label_sets@)
    &&& arenas_same(s.imp_reapply_con_sat_descs@, c.imp_reapply_con_sat_descs@)
    &&& arenas_same(s.sat_linked_succ_indi_all_concept_ext_datas@, c.sat_linked_succ_indi_all_concept_ext_datas@)
    &&& arenas_same(s.sat_successor_all_concept_ext_datas@, c.sat_successor_all_concept_ext_datas@)
    &&& arenas_same(s.sat_successor_concept_extension_maps@, c.sat_successor_concept_extension_maps@)
    &&& arenas_same(s.sat_indi_node_all_concept_ext_datas@, c.sat_indi_node_all_concept_ext_datas@)
    &&& arenas_same(s.sat_modified_process_update_linkers@, c.sat_modified_process_update_linkers@)
    &&& arenas_same(s.role_backward_prop_hashes@, c.role_backward_prop_hashes@)
    &&& arenas_same(s.backward_prop_links@, c.backward_prop_links@)
    &&& arenas_same(s.backward_prop_reapply_descs@, c.backward_prop_reapply_descs@)
    &&& arenas_same(s.sat_nodes@, c.sat_nodes@)
    &&& arenas_same(s.indi_sat_node_ext_datas@, c.indi_sat_node_ext_datas@)
    &&& arenas_same(s.sat_nominal_handling_datas@, c.sat_nominal_handling_datas@)
    &&& arenas_same(s.nominal_conn_sets@, c.nominal_conn_sets@)
    &&& arenas_same(s.sat_indi_node_datatype_datas@, c.sat_indi_node_datatype_datas@)
    &&& arenas_same(s.role_backward_sat_prop_hashes@, c.role_backward_sat_prop_hashes@)
    &&& arenas_same(s.backward_sat_prop_links@, c.backward_sat_prop_links@)
}

/// Every journaled arena of `c` is the arena of the same name of `s`.
pub open spec fn restored_from(c: ProcessContext, s: ArenaSnapshot) -> bool {
    &&& c.nodes@ == s.nodes@
    &&& c.edges@ == s.edges@
    &&& c.branching_merging_candidate_linkers@ == s.branching_merging_candidate_linkers@
    &&& c.cond_reapply_con_descs@ == s.cond_reapply_con_descs@
    &&& c.var_binding_path_sets@ == s.var_binding_path_sets@
    &&& c.prop_binding_sets@ == s.prop_binding_sets@
    &&& c.analized_con_exp_datas@ == s.analized_con_exp_datas@
    &&& c.analized_con_exp_linkers@ == s.analized_con_exp_linkers@
    &&& c.backend_sync_datas@ == s.backend_sync_datas@
    &&& c.backend_neighbour_expansion_controlling_datas@ == s.backend_neighbour_expansion_controlling_datas@
    &&& c.blocking_follow_sets@ == s.blocking_follow_sets@
    &&& c.branching_trees@ == s.branching_trees@
    &&& c.concept_process_linkers@ == s.concept_process_linkers@
    &&& c.con_var_bind_path_set_hashes@ == s.con_var_bind_path_set_hashes@
    &&& c.con_prop_binding_set_hashes@ == s.con_prop_binding_set_hashes@
    &&& c.blocking_indi_node_cand_hashes@ == s.blocking_indi_node_cand_hashes@
    &&& c.blocking_indi_node_cand_datas@ == s.blocking_indi_node_cand_datas@
    &&& c.blocking_indi_node_linked_cand_hashes@ == s.blocking_indi_node_linked_cand_hashes@
    &&& c.blocking_indi_node_linked_cand_datas@ == s.blocking_indi_node_linked_cand_datas@
    &&& c.blocking_indi_node_linkers@ == s.blocking_indi_node_linkers@
    &&& c.sig_block_con_exp_datas@ == s.sig_block_con_exp_datas@
    &&& c.reusing_con_exp_datas@ == s.reusing_con_exp_datas@
    &&& c.signature_blocking_review_sets@ == s.signature_blocking_review_sets@
    &&& c.reusing_review_datas@ == s.reusing_review_datas@
    &&& c.individual_process_node_linkers@ == s.individual_process_node_linkers@
    &&& c.sig_block_cand_hashes@ == s.sig_block_cand_hashes@
    &&& c.con_sat_descs@ == s.con_sat_descs@
    &&& c.reapply_con_sat_label_sets@ == s.reapply_con_sat_label_sets@
    &&& c.imp_reapply_con_sat_descs@ == s.imp_reapply_con_sat_descs@
    &&& c.sat_linked_succ_indi_all_concept_ext_datas@ == s.sat_linked_succ_indi_all_concept_ext_datas@
    &&& c.sat_successor_all_concept_ext_datas@ == s.sat_successor_all_concept_ext_datas@
    &&& c.sat_successor_concept_extension_maps@ == s.sat_successor_concept_extension_maps@
    &&& c.sat_indi_node_all_concept_ext_datas@ == s.sat_indi_node_all_concept_ext_datas@
    &&& c.sat_modified_process_update_linkers@ == s.sat_modified_process_update_linkers@
    &&& c.role_backward_prop_hashes@ == s.role_backward_prop_hashes@
    &&& c.backward_prop_links@ == s.backward_prop_links@
    &&& c.backward_prop_reapply_descs@ == s.backward_prop_reapply_descs@
    &&& c.sat_nodes@ == s.sat_nodes@
    &&& c.indi_sat_node_ext_datas@ == s.indi_sat_node_ext_datas@
    &&& c.sat_nominal_handling_datas@ == s.sat_nominal_handling_datas@
    &&& c.nominal_conn_sets@ == s.nominal_conn_sets@
    &&& c.sat_indi_node_datatype_datas@ == s.sat_indi_node_datatype_datas@
    &&& c.role_backward_sat_prop_hashes@ == s.role_backward_sat_prop_hashes@
    &&& c.backward_sat_prop_links@ == s.backward_sat_prop_links@
}

/// Every journaled arena of `a` holds what the one of `b` holds.
pub open spec fn journaled_same(a: ProcessContext, b: ProcessContext) -> bool {
    &&& arenas_same(a.nodes@, b.nodes@)
    &&& arenas_same(a.edges@, b.edges@)
    &&& arenas_same(a.branching_merging_candidate_linkers@, b.branching_merging_candidate_linkers@)
    &&& arenas_same(a.cond_reapply_con_descs@, b.cond_reapply_con_descs@)
    &&& arenas_same(a.var_binding_path_sets@, b.var_binding_path_sets@)
    &&& arenas_same(a.prop_binding_sets@, b.prop_binding_sets@)
    &&& arenas_same(a.analized_con_exp_datas@, b.analized_con_exp_datas@)
    &&& arenas_same(a.analized_con_exp_linkers@, b.analized_con_exp_linkers@)
    &&& arenas_same(a.backend_sync_datas@, b.backend_sync_datas@)
    &&& arenas_same(a.backend_neighbour_expansion_controlling_datas@, b.backend_neighbour_expansion_controlling_datas@)
    &&& arenas_same(a.blocking_follow_sets@, b.blocking_follow_sets@)
    &&& arenas_same(a.branching_trees@, b.branching_trees@)
    &&& arenas_same(a.concept_process_linkers@, b.concept_process_linkers@)
    &&& arenas_same(a.con_var_bind_path_set_hashes@, b.con_var_bind_path_set_hashes@)
    &&& arenas_same(a.con_prop_binding_set_hashes@, b.con_prop_binding_set_hashes@)
    &&& arenas_same(a.blocking_indi_node_cand_hashes@, b.blocking_indi_node_cand_hashes@)
    &&& arenas_same(a.blocking_indi_node_cand_datas@, b.blocking_indi_node_cand_datas@)
    &&& arenas_same(a.blocking_indi_node_linked_cand_hashes@, b.blocking_indi_node_linked_cand_hashes@)
    &&& arenas_same(a.blocking_indi_node_linked_cand_datas@, b.blocking_indi_node_linked_cand_datas@)
    &&& arenas_same(a.blocking_indi_node_linkers@, b.blocking_indi_node_linkers@)
    &&& arenas_same(a.sig_block_con_exp_datas@, b.sig_block_con_exp_datas@)
    &&& arenas_same(a.reusing_con_exp_datas@, b.reusing_con_exp_datas@)
    &&& arenas_same(a.signature_blocking_review_sets@, b.signature_blocking_review_sets@)
    &&& arenas_same(a.reusing_review_datas@, b.reusing_review_datas@)
    &&& arenas_same(a.individual_process_node_linkers@, b.individual_process_node_linkers@)
    &&& arenas_same(a.sig_block_cand_hashes@, b.sig_block_cand_hashes@)
    &&& arenas_same(a.con_sat_descs@, b.con_sat_descs@)
    &&& arenas_same(a.reapply_con_sat_label_sets@, b.reapply_con_sat_label_sets@)
    &&& arenas_same(a.imp_reapply_con_sat_descs@, b.imp_reapply_con_sat_descs@)
    &&& arenas_same(a.sat_linked_succ_indi_all_concept_ext_datas@, b.sat_linked_succ_indi_all_concept_ext_datas@)
    &&& arenas_same(a.sat_successor_all_concept_ext_datas@, b.sat_successor_all_concept_ext_datas@)
    &&& arenas_same(a.sat_successor_concept_extension_maps@, b.sat_successor_concept_extension_maps@)
    &&& arenas_same(a.sat_indi_node_all_concept_ext_datas@, b.sat_indi_node_all_concept_ext_datas@)
    &&& arenas_same(a.sat_modified_process_update_linkers@, b.sat_modified_process_update_linkers@)
    &&& arenas_same(a.role_backward_prop_hashes@, b.role_backward_prop_hashes@)
    &&& arenas_same(a.backward_prop_links@, b.backward_prop_links@)
    &&& arenas_same(a.backward_prop_reapply_descs@, b.backward_prop_reapply_descs@)
    &&& arenas_same(a.sat_nodes@, b.sat_nodes@)
    &&& arenas_same(a.indi_sat_node_ext_datas@, b.indi_sat_node_ext_datas@)
    &&& arenas_same(a.sat_nominal_handling_datas@, b.sat_nominal_handling_datas@)
    &&& arenas_same(a.nominal_conn_sets@, b.nominal_conn_sets@)
    &&& arenas_same(a.sat_indi_node_datatype_datas@, b.sat_indi_node_datatype_datas@)
    &&& arenas_same(a.role_backward_sat_prop_hashes@, b.role_backward_sat_prop_hashes@)
    &&& arenas_same(a.backward_sat_prop_links@, b.backward_sat_prop_links@)
}

/// `after` is `before` with a branch epoch opened: a snapshot of the
/// journaled arenas of `before` is pushed and nothing else changes.
pub open spec fn epoch_opened(before: ProcessContext, after: ProcessContext) -> bool {
    &&& after.epochs@.len() == before.epochs@.len() + 1
    &&& after.epochs@.drop_last() == before.epochs@
    &&& snapshot_of(after.epochs@.last(), before)
    &&& after == (ProcessContext { epochs: after.epochs, ..before })
}

/// `after` is `before` with its innermost branch epoch closed: the snapshot
/// is popped and every journaled arena gets what it holds, while the shared
/// arenas (concept descriptors, branch nodes, dependency nodes) and the
/// context's handles stay as they are.
pub open spec fn epoch_closed(before: ProcessContext, after: ProcessContext) -> bool {
    &&& after.epochs@ == before.epochs@.drop_last()
    &&& restored_from(after, before.epochs@.last())
    &&& after.con_descs@ == before.con_descs@
    &&& after.branch_nodes@ == before.branch_nodes@
    &&& after.dep_nodes@ == before.dep_nodes@
    &&& after.used_process_tagger == before.used_process_tagger
    &&& after.used_mem_man == before.used_mem_man
    &&& after.used_process_stat_gath == before.used_process_stat_gath
}

/// A copy of the journaled arenas of `c`.
pub fn take_snapshot(c: &ProcessContext) -> (r: ArenaSnapshot)
    ensures
        snapshot_of(r, *c),
{
    ArenaSnapshot {
        nodes: duplicate_arena(&c.nodes),
        edges: duplicate_arena(&c.edges),
        branching_merging_candidate_linkers: duplicate_arena(&c.branching_merging_candidate_linkers),
        cond_reapply_con_descs: duplicate_arena(&c.cond_reapply_con_descs),
        var_binding_path_sets: duplicate_arena(&c.var_binding_path_sets),
        prop_binding_sets: duplicate_arena(&c.prop_binding_sets),
        analized_con_exp_datas: duplicate_arena(&c.analized_con_exp_datas),
        analized_con_exp_linkers: duplicate_arena(&c.analized_con_exp_linkers),
        backend_sync_datas: duplicate_arena(&c.backend_sync_datas),
        backend_neighbour_expansion_controlling_datas: duplicate_arena(&c.backend_neighbour_expansion_controlling_datas),
        blocking_follow_sets: duplicate_arena(&c.blocking_follow_sets),
        branching_trees: duplicate_arena(&c.branching_trees),
        concept_process_linkers: duplicate_arena(&c.concept_process_linkers),
        con_var_bind_path_set_hashes: duplicate_arena(&c.con_var_bind_path_set_hashes),
        con_prop_binding_set_hashes: duplicate_arena(&c.con_prop_binding_set_hashes),
        blocking_indi_node_cand_hashes: duplicate_arena(&c.blocking_indi_node_cand_hashes),
        blocking_indi_node_cand_datas: duplicate_arena(&c.blocking_indi_node_cand_datas),
        blocking_indi_node_linked_cand_hashes: duplicate_arena(&c.blocking_indi_node_linked_cand_hashes),
        blocking_indi_node_linked_cand_datas: duplicate_arena(&c.blocking_indi_node_linked_cand_datas),
        blocking_indi_node_linkers: duplicate_arena(&c.blocking_indi_node_linkers),
        sig_block_con_exp_datas: duplicate_arena(&c.sig_block_con_exp_datas),
        reusing_con_exp_datas: duplicate_arena(&c.reusing_con_exp_datas),
        signature_blocking_review_sets: duplicate_arena(&c.signature_blocking_review_sets),
        reusing_review_datas: duplicate_arena(&c.reusing_review_datas),
        individual_process_node_linkers: duplicate_arena(&c.individual_process_node_linkers),
        sig_block_cand_hashes: duplicate_arena(&c.sig_block_cand_hashes),
        con_sat_descs: duplicate_arena(&c.con_sat_descs),
        reapply_con_sat_label_sets: duplicate_arena(&c.reapply_con_sat_label_sets),
        imp_reapply_con_sat_descs: duplicate_arena(&c.imp_reapply_con_sat_descs),
        sat_linked_succ_indi_all_concept_ext_datas: duplicate_arena(&c.sat_linked_succ_indi_all_concept_ext_datas),
        sat_successor_all_concept_ext_datas: duplicate_arena(&c.sat_successor_all_concept_ext_datas),
        sat_successor_concept_extension_maps: duplicate_arena(&c.sat_successor_concept_extension_maps),
        sat_indi_node_all_concept_ext_datas: duplicate_arena(&c.sat_indi_node_all_concept_ext_datas),
        sat_modified_process_update_linkers: duplicate_arena(&c.sat_modified_process_update_linkers),
        role_backward_prop_hashes: duplicate_arena(&c.role_backward_prop_hashes),
        backward_prop_links: duplicate_arena(&c.backward_prop_links),
        backward_prop_reapply_descs: duplicate_arena(&c.backward_prop_reapply_descs),
        sat_nodes: duplicate_arena(&c.sat_nodes),
        indi_sat_node_ext_datas: duplicate_arena(&c.indi_sat_node_ext_datas),
        sat_nominal_handling_datas: duplicate_arena(&c.sat_nominal_handling_datas),
        nominal_conn_sets: duplicate_arena(&c.nominal_conn_sets),
        sat_indi_node_datatype_datas: duplicate_arena(&c.sat_indi_node_datatype_datas),
        role_backward_sat_prop_hashes: duplicate_arena(&c.role_backward_sat_prop_hashes),
        backward_sat_prop_links: duplicate_arena(&c.backward_sat_prop_links),
    }
}

} // verus!
