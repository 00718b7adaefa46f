//! The per-test owner of every object of the completion graph: one arena per
//! kind of object, each addressed by an [`Id`], with the operations that
//! span several arenas.

use vstd::prelude::*;
use crate::ids::{Id, Cint64, INVALID, NodeId, BranchNodeId, DependencyId, RoleId, valid_in};
use crate::chain::{walk, chain_len_is, chain_ok, chain_len, lemma_chain_len};
use crate::models::{IndividualProcessNode, IndividualLinkEdge, ConceptDescriptor,
    BranchingMergingIndividualNodeCandidateLinker, CondensedReapplyConceptDescriptor, BranchTreeNode,
    DependencyNode, VariableBindingPathSet, PropagationBindingSet, ProcessTagger, IndividualProcessNodeLinker};
use crate::analized_concept_expansion::{IndividualNodeAnalizedConceptExpansionData, AnalizedConceptExpansionLinker,
    AnalizedConceptExpansionLinkerId};
use crate::backend_sync::IndividualNodeBackendCacheSynchronisationData;
use crate::backend_control::BackendNeighbourExpansionControllingData;
use crate::blocking_follow::BlockingFollowSet;
use crate::branching_tree::BranchingTree;
use crate::concept_process_linker::ConceptProcessLinker;
use crate::binding_hash::{ConceptVariableBindingPathSetHash, ConceptPropagationBindingSetHash};
use crate::blocking_hash::{BlockingIndividualNodeCandidateHash, BlockingIndividualNodeCandidateData,
    BlockingIndividualNodeLinkedCandidateHash, BlockingIndividualNodeLinkedCandidateData,
    BlockingIndividualNodeLinker, SignatureBlockingIndividualNodeConceptExpansionData,
    ReusingIndividualNodeConceptExpansionData, BlockingCandidateHashData, BlockingLinkedCandidateHashData,
    unlocalized, unlocalized_linked};
use crate::databox::ProcessingDataBox;
use crate::saturation_node::{IndividualSaturationProcessNode, IndividualSaturationProcessNodeExtensionData,
    SaturationIndividualNodeNominalHandlingData, SuccessorConnectedNominalSet, SaturationIndividualNodeDatatypeData,
    RoleBackwardSaturationPropagationHash, BackwardSaturationPropagationLink,
    RoleBackwardSaturationPropagationHashData, NegLink};
use crate::backward_propagation::{RoleBackwardPropagationHash, BackwardPropagationLink,
    BackwardPropagationReapplyDescriptor, RoleBackwardPropagationHashData};
use crate::journal::{ArenaSnapshot, Journaled, take_snapshot, epoch_opened, epoch_closed};
use crate::review::{SignatureBlockingReviewSet, ReusingReviewData};
use crate::signature_candidates::SignatureBlockingCandidateHash;
use crate::collections::{ascending, has_key, first_index, lemma_first_exists};
use crate::saturation_label::{ConceptSaturationDescriptor, ConceptSaturationDescriptorReapplyData,
    flattens_on_copy, flattened_additional, ReapplyConceptSaturationLabelSet, ImplicationReapplyConceptSaturationDescriptor, SaturationModifiedProcessUpdateLinker};
use crate::saturation_extension::{SaturationLinkedSuccessorIndividualAllConceptsExtensionData,
    SaturationSuccessorAllConceptExtensionData, SaturationSuccessorConceptExtensionMap,
    SaturationIndividualNodeAllConceptsExtensionData};

verus! {

/// The arenas of a process context, to name which of them an operation changes.
#[derive(Clone, Copy, PartialEq, Eq, Structural, Debug)]
pub enum ArenaKind {
    Nodes,
    Edges,
    ConDescs,
    CandidateLinkers,
    CondReapplyConDescs,
    BranchNodes,
    DepNodes,
    VarBindingPathSets,
    PropBindingSets,
    AnalizedConExpDatas,
    AnalizedConExpLinkers,
    BackendSyncDatas,
    BackendControllingDatas,
    BlockingFollowSets,
    BranchingTrees,
    ConceptProcessLinkers,
    ConVarBindPathSetHashes,
    ConPropBindingSetHashes,
    BlockingCandHashes,
    BlockingCandDatas,
    BlockingLinkedCandHashes,
    BlockingLinkedCandDatas,
    BlockingLinkers,
    SigBlockConExpDatas,
    ReusingConExpDatas,
    SigBlockReviewSets,
    ReusingReviewDatas,
    IndiProcessNodeLinkers,
    SigBlockCandHashes,
    ConSatDescs,
    ReapplyConSatLabelSets,
    ImpReapplyConSatDescs,
    SatLinkedSuccAllExtDatas,
    SatSuccAllExtDatas,
    SatSuccConceptExtMaps,
    SatNodeAllExtDatas,
    SatModifiedUpdateLinkers,
    RoleBackPropHashes,
    BackPropLinks,
    BackPropReapplyDescs,
    SatNodes,
    SatNodeExtDatas,
    SatNominalHandlingDatas,
    NominalConnSets,
    SatDatatypeDatas,
    RoleBackSatPropHashes,
    BackSatPropLinks,
}

/// The per-test owner of every object of the completion graph and of its
/// satellite data: one arena per kind of object, each addressed by [`Id`].
pub struct ProcessContext {
    /// The individual nodes.
    pub nodes: Vec<IndividualProcessNode>,
    /// The individual links.
    pub edges: Vec<IndividualLinkEdge>,
    /// The concept descriptors.
    pub con_descs: Vec<ConceptDescriptor>,
    /// The merging candidate linkers.
    pub branching_merging_candidate_linkers: Vec<BranchingMergingIndividualNodeCandidateLinker>,
    /// The condensed reapply descriptors.
    pub cond_reapply_con_descs: Vec<CondensedReapplyConceptDescriptor>,
    /// The branch-tree nodes.
    pub branch_nodes: Vec<BranchTreeNode>,
    /// The dependency nodes.
    pub dep_nodes: Vec<DependencyNode>,
    /// The variable-binding path sets.
    pub var_binding_path_sets: Vec<VariableBindingPathSet>,
    /// The propagation binding sets.
    pub prop_binding_sets: Vec<PropagationBindingSet>,
    /// The analysed expansion data.
    pub analized_con_exp_datas: Vec<IndividualNodeAnalizedConceptExpansionData>,
    /// The analysed expansion linkers.
    pub analized_con_exp_linkers: Vec<AnalizedConceptExpansionLinker>,
    /// The backend synchronisation data.
    pub backend_sync_datas: Vec<IndividualNodeBackendCacheSynchronisationData>,
    /// The backend neighbour-expansion controlling data.
    pub backend_neighbour_expansion_controlling_datas: Vec<BackendNeighbourExpansionControllingData>,
    /// The blocking-follow sets.
    pub blocking_follow_sets: Vec<BlockingFollowSet>,
    /// The branching trees.
    pub branching_trees: Vec<BranchingTree>,
    /// The concept process linkers.
    pub concept_process_linkers: Vec<ConceptProcessLinker>,
    /// The concept variable-binding path-set hashes.
    pub con_var_bind_path_set_hashes: Vec<ConceptVariableBindingPathSetHash>,
    /// The concept propagation-binding-set hashes.
    pub con_prop_binding_set_hashes: Vec<ConceptPropagationBindingSetHash>,
    /// The blocking candidate hashes.
    pub blocking_indi_node_cand_hashes: Vec<BlockingIndividualNodeCandidateHash>,
    /// The blocking candidate data.
    pub blocking_indi_node_cand_datas: Vec<BlockingIndividualNodeCandidateData>,
    /// The linked blocking candidate hashes.
    pub blocking_indi_node_linked_cand_hashes: Vec<BlockingIndividualNodeLinkedCandidateHash>,
    /// The linked blocking candidate data.
    pub blocking_indi_node_linked_cand_datas: Vec<BlockingIndividualNodeLinkedCandidateData>,
    /// The blocking candidate linkers.
    pub blocking_indi_node_linkers: Vec<BlockingIndividualNodeLinker>,
    /// The signature-blocking expansion data.
    pub sig_block_con_exp_datas: Vec<SignatureBlockingIndividualNodeConceptExpansionData>,
    /// The reusing expansion data.
    pub reusing_con_exp_datas: Vec<ReusingIndividualNodeConceptExpansionData>,
    /// The signature-blocking review sets.
    pub signature_blocking_review_sets: Vec<SignatureBlockingReviewSet>,
    /// The reusing review data.
    pub reusing_review_datas: Vec<ReusingReviewData>,
    /// The individual process-node linkers.
    pub individual_process_node_linkers: Vec<IndividualProcessNodeLinker>,
    /// The signature-blocking candidate hashes.
    pub sig_block_cand_hashes: Vec<SignatureBlockingCandidateHash>,
    /// The saturation concept descriptors.
    pub con_sat_descs: Vec<ConceptSaturationDescriptor>,
    /// The reapply labels of the saturation nodes.
    pub reapply_con_sat_label_sets: Vec<ReapplyConceptSaturationLabelSet>,
    /// The implications waiting for concepts of saturation labels.
    pub imp_reapply_con_sat_descs: Vec<ImplicationReapplyConceptSaturationDescriptor>,
    /// The successor extensions by role of the saturation nodes.
    pub sat_linked_succ_indi_all_concept_ext_datas: Vec<SaturationLinkedSuccessorIndividualAllConceptsExtensionData>,
    /// The successor extensions for one role.
    pub sat_successor_all_concept_ext_datas: Vec<SaturationSuccessorAllConceptExtensionData>,
    /// The concept extension maps of the successor extensions.
    pub sat_successor_concept_extension_maps: Vec<SaturationSuccessorConceptExtensionMap>,
    /// The universal-restriction extensions of the saturation nodes.
    pub sat_indi_node_all_concept_ext_datas: Vec<SaturationIndividualNodeAllConceptsExtensionData>,
    /// The update linkers of modified saturation nodes.
    pub sat_modified_process_update_linkers: Vec<SaturationModifiedProcessUpdateLinker>,
    /// The backward-propagation hashes of the nodes.
    pub role_backward_prop_hashes: Vec<RoleBackwardPropagationHash>,
    /// The backward-propagation links.
    pub backward_prop_links: Vec<BackwardPropagationLink>,
    /// The descriptors waiting for backward propagation.
    pub backward_prop_reapply_descs: Vec<BackwardPropagationReapplyDescriptor>,
    /// The saturation nodes.
    pub sat_nodes: Vec<IndividualSaturationProcessNode>,
    /// The extension data of the saturation nodes.
    pub indi_sat_node_ext_datas: Vec<IndividualSaturationProcessNodeExtensionData>,
    /// The nominal handling data of the saturation nodes.
    pub sat_nominal_handling_datas: Vec<SaturationIndividualNodeNominalHandlingData>,
    /// The successor-connected nominal sets.
    pub nominal_conn_sets: Vec<SuccessorConnectedNominalSet>,
    /// The applied datatypes of the saturation nodes.
    pub sat_indi_node_datatype_datas: Vec<SaturationIndividualNodeDatatypeData>,
    /// The backward-propagation hashes of the saturation nodes.
    pub role_backward_sat_prop_hashes: Vec<RoleBackwardSaturationPropagationHash>,
    /// The backward-propagation links of the saturation nodes.
    pub backward_sat_prop_links: Vec<BackwardSaturationPropagationLink>,
    /// The tags handed out to updated records.
    pub used_process_tagger: ProcessTagger,
    /// The memory manager handle; unset.
    pub used_mem_man: Cint64,
    /// The statistics gatherer handle; unset.
    pub used_process_stat_gath: Cint64,
    /// The snapshots of the open branch epochs, innermost last.
    pub epochs: Vec<ArenaSnapshot>,
}

impl ProcessContext {
    /// `self` and `other` hold the same objects in every arena outside
    /// `changed`, and the same tagger and handles.
    pub open spec fn agrees_except(self, other: Self, changed: Set<ArenaKind>) -> bool {
        &&& (!changed.contains(ArenaKind::Nodes) ==> self.nodes@ == other.nodes@)
        &&& (!changed.contains(ArenaKind::Edges) ==> self.edges@ == other.edges@)
        &&& (!changed.contains(ArenaKind::ConDescs) ==> self.con_descs@ == other.con_descs@)
        &&& (!changed.contains(ArenaKind::CandidateLinkers) ==> self.branching_merging_candidate_linkers@ == other.branching_merging_candidate_linkers@)
        &&& (!changed.contains(ArenaKind::CondReapplyConDescs) ==> self.cond_reapply_con_descs@ == other.cond_reapply_con_descs@)
        &&& (!changed.contains(ArenaKind::BranchNodes) ==> self.branch_nodes@ == other.branch_nodes@)
        &&& (!changed.contains(ArenaKind::DepNodes) ==> self.dep_nodes@ == other.dep_nodes@)
        &&& (!changed.contains(ArenaKind::VarBindingPathSets) ==> self.var_binding_path_sets@ == other.var_binding_path_sets@)
        &&& (!changed.contains(ArenaKind::PropBindingSets) ==> self.prop_binding_sets@ == other.prop_binding_sets@)
        &&& (!changed.contains(ArenaKind::AnalizedConExpDatas) ==> self.analized_con_exp_datas@ == other.analized_con_exp_datas@)
        &&& (!changed.contains(ArenaKind::AnalizedConExpLinkers) ==> self.analized_con_exp_linkers@ == other.analized_con_exp_linkers@)
        &&& (!changed.contains(ArenaKind::BackendSyncDatas) ==> self.backend_sync_datas@ == other.backend_sync_datas@)
        &&& (!changed.contains(ArenaKind::BackendControllingDatas) ==> self.backend_neighbour_expansion_controlling_datas@ == other.backend_neighbour_expansion_controlling_datas@)
        &&& (!changed.contains(ArenaKind::BlockingFollowSets) ==> self.blocking_follow_sets@ == other.blocking_follow_sets@)
        &&& (!changed.contains(ArenaKind::BranchingTrees) ==> self.branching_trees@ == other.branching_trees@)
        &&& (!changed.contains(ArenaKind::ConceptProcessLinkers) ==> self.concept_process_linkers@ == other.concept_process_linkers@)
        &&& (!changed.contains(ArenaKind::ConVarBindPathSetHashes) ==> self.con_var_bind_path_set_hashes@ == other.con_var_bind_path_set_hashes@)
        &&& (!changed.contains(ArenaKind::ConPropBindingSetHashes) ==> self.con_prop_binding_set_hashes@ == other.con_prop_binding_set_hashes@)
        &&& (!changed.contains(ArenaKind::BlockingCandHashes) ==> self.blocking_indi_node_cand_hashes@ == other.blocking_indi_node_cand_hashes@)
        &&& (!changed.contains(ArenaKind::BlockingCandDatas) ==> self.blocking_indi_node_cand_datas@ == other.blocking_indi_node_cand_datas@)
        &&& (!changed.contains(ArenaKind::BlockingLinkedCandHashes) ==> self.blocking_indi_node_linked_cand_hashes@ == other.blocking_indi_node_linked_cand_hashes@)
        &&& (!changed.contains(ArenaKind::BlockingLinkedCandDatas) ==> self.blocking_indi_node_linked_cand_datas@ == other.blocking_indi_node_linked_cand_datas@)
        &&& (!changed.contains(ArenaKind::BlockingLinkers) ==> self.blocking_indi_node_linkers@ == other.blocking_indi_node_linkers@)
        &&& (!changed.contains(ArenaKind::SigBlockConExpDatas) ==> self.sig_block_con_exp_datas@ == other.sig_block_con_exp_datas@)
        &&& (!changed.contains(ArenaKind::ReusingConExpDatas) ==> self.reusing_con_exp_datas@ == other.reusing_con_exp_datas@)
        &&& (!changed.contains(ArenaKind::SigBlockReviewSets) ==> self.signature_blocking_review_sets@ == other.signature_blocking_review_sets@)
        &&& (!changed.contains(ArenaKind::ReusingReviewDatas) ==> self.reusing_review_datas@ == other.reusing_review_datas@)
        &&& (!changed.contains(ArenaKind::IndiProcessNodeLinkers) ==> self.individual_process_node_linkers@ == other.individual_process_node_linkers@)
        &&& (!changed.contains(ArenaKind::SigBlockCandHashes) ==> self.sig_block_cand_hashes@ == other.sig_block_cand_hashes@)
        &&& (!changed.contains(ArenaKind::ConSatDescs) ==> self.con_sat_descs@ == other.con_sat_descs@)
        &&& (!changed.contains(ArenaKind::ReapplyConSatLabelSets) ==> self.reapply_con_sat_label_sets@ == other.reapply_con_sat_label_sets@)
        &&& (!changed.contains(ArenaKind::ImpReapplyConSatDescs) ==> self.imp_reapply_con_sat_descs@ == other.imp_reapply_con_sat_descs@)
        &&& (!changed.contains(ArenaKind::SatLinkedSuccAllExtDatas) ==> self.sat_linked_succ_indi_all_concept_ext_datas@ == other.sat_linked_succ_indi_all_concept_ext_datas@)
        &&& (!changed.contains(ArenaKind::SatSuccAllExtDatas) ==> self.sat_successor_all_concept_ext_datas@ == other.sat_successor_all_concept_ext_datas@)
        &&& (!changed.contains(ArenaKind::SatSuccConceptExtMaps) ==> self.sat_successor_concept_extension_maps@ == other.sat_successor_concept_extension_maps@)
        &&& (!changed.contains(ArenaKind::SatNodeAllExtDatas) ==> self.sat_indi_node_all_concept_ext_datas@ == other.sat_indi_node_all_concept_ext_datas@)
        &&& (!changed.contains(ArenaKind::SatModifiedUpdateLinkers) ==> self.sat_modified_process_update_linkers@ == other.sat_modified_process_update_linkers@)
        &&& (!changed.contains(ArenaKind::RoleBackPropHashes) ==> self.role_backward_prop_hashes@ == other.role_backward_prop_hashes@)
        &&& (!changed.contains(ArenaKind::BackPropLinks) ==> self.backward_prop_links@ == other.backward_prop_links@)
        &&& (!changed.contains(ArenaKind::BackPropReapplyDescs) ==> self.backward_prop_reapply_descs@ == other.backward_prop_reapply_descs@)
        &&& (!changed.contains(ArenaKind::SatNodes) ==> self.sat_nodes@ == other.sat_nodes@)
        &&& (!changed.contains(ArenaKind::SatNodeExtDatas) ==> self.indi_sat_node_ext_datas@ == other.indi_sat_node_ext_datas@)
        &&& (!changed.contains(ArenaKind::SatNominalHandlingDatas) ==> self.sat_nominal_handling_datas@ == other.sat_nominal_handling_datas@)
        &&& (!changed.contains(ArenaKind::NominalConnSets) ==> self.nominal_conn_sets@ == other.nominal_conn_sets@)
        &&& (!changed.contains(ArenaKind::SatDatatypeDatas) ==> self.sat_indi_node_datatype_datas@ == other.sat_indi_node_datatype_datas@)
        &&& (!changed.contains(ArenaKind::RoleBackSatPropHashes) ==> self.role_backward_sat_prop_hashes@ == other.role_backward_sat_prop_hashes@)
        &&& (!changed.contains(ArenaKind::BackSatPropLinks) ==> self.backward_sat_prop_links@ == other.backward_sat_prop_links@)
        &&& self.used_process_tagger == other.used_process_tagger
        &&& self.used_mem_man == other.used_mem_man
        &&& self.used_process_stat_gath == other.used_process_stat_gath
        &&& self.epochs@ == other.epochs@
    }

    /// The `next` handle of every element of the analized con exp linkers arena.
    pub open spec fn analized_con_exp_linker_nexts(self) -> Seq<Id> {
        Seq::new(self.analized_con_exp_linkers@.len(), |i: int| self.analized_con_exp_linkers@[i].next)
    }

    /// The `next` handle of every element of the branching merging candidate linkers arena.
    pub open spec fn branching_merging_candidate_linker_nexts(self) -> Seq<Id> {
        Seq::new(self.branching_merging_candidate_linkers@.len(), |i: int| self.branching_merging_candidate_linkers@[i].next)
    }

    /// The `next` handle of every element of the cond reapply con descs arena.
    pub open spec fn cond_reapply_con_desc_nexts(self) -> Seq<Id> {
        Seq::new(self.cond_reapply_con_descs@.len(), |i: int| self.cond_reapply_con_descs@[i].next)
    }

    /// The `next` handle of every element of the individual process node linkers arena.
    pub open spec fn individual_process_node_linker_nexts(self) -> Seq<Id> {
        Seq::new(self.individual_process_node_linkers@.len(), |i: int| self.individual_process_node_linkers@[i].next)
    }

    /// An empty context: every arena empty, the tagger fresh, every handle
    /// unset.
    pub open spec fn is_empty_context(self) -> bool {
        &&& self.nodes@.len() == 0
        &&& self.edges@.len() == 0
        &&& self.con_descs@.len() == 0
        &&& self.branching_merging_candidate_linkers@.len() == 0
        &&& self.cond_reapply_con_descs@.len() == 0
        &&& self.branch_nodes@.len() == 0
        &&& self.dep_nodes@.len() == 0
        &&& self.var_binding_path_sets@.len() == 0
        &&& self.prop_binding_sets@.len() == 0
        &&& self.analized_con_exp_datas@.len() == 0
        &&& self.analized_con_exp_linkers@.len() == 0
        &&& self.backend_sync_datas@.len() == 0
        &&& self.backend_neighbour_expansion_controlling_datas@.len() == 0
        &&& self.blocking_follow_sets@.len() == 0
        &&& self.branching_trees@.len() == 0
        &&& self.concept_process_linkers@.len() == 0
        &&& self.con_var_bind_path_set_hashes@.len() == 0
        &&& self.con_prop_binding_set_hashes@.len() == 0
        &&& self.blocking_indi_node_cand_hashes@.len() == 0
        &&& self.blocking_indi_node_cand_datas@.len() == 0
        &&& self.blocking_indi_node_linked_cand_hashes@.len() == 0
        &&& self.blocking_indi_node_linked_cand_datas@.len() == 0
        &&& self.blocking_indi_node_linkers@.len() == 0
        &&& self.sig_block_con_exp_datas@.len() == 0
        &&& self.reusing_con_exp_datas@.len() == 0
        &&& self.signature_blocking_review_sets@.len() == 0
        &&& self.reusing_review_datas@.len() == 0
        &&& self.individual_process_node_linkers@.len() == 0
        &&& self.sig_block_cand_hashes@.len() == 0
        &&& self.con_sat_descs@.len() == 0
        &&& self.reapply_con_sat_label_sets@.len() == 0
        &&& self.imp_reapply_con_sat_descs@.len() == 0
        &&& self.sat_linked_succ_indi_all_concept_ext_datas@.len() == 0
        &&& self.sat_successor_all_concept_ext_datas@.len() == 0
        &&& self.sat_successor_concept_extension_maps@.len() == 0
        &&& self.sat_indi_node_all_concept_ext_datas@.len() == 0
        &&& self.sat_modified_process_update_linkers@.len() == 0
        &&& self.role_backward_prop_hashes@.len() == 0
        &&& self.backward_prop_links@.len() == 0
        &&& self.backward_prop_reapply_descs@.len() == 0
        &&& self.sat_nodes@.len() == 0
        &&& self.indi_sat_node_ext_datas@.len() == 0
        &&& self.sat_nominal_handling_datas@.len() == 0
        &&& self.nominal_conn_sets@.len() == 0
        &&& self.sat_indi_node_datatype_datas@.len() == 0
        &&& self.role_backward_sat_prop_hashes@.len() == 0
        &&& self.backward_sat_prop_links@.len() == 0
        &&& self.used_process_tagger == ProcessTagger { current_blocking_follow_tag: 0 }
        &&& self.used_mem_man == INVALID
        &&& self.used_process_stat_gath == INVALID
        &&& self.epochs@.len() == 0
    }

    pub fn new() -> (r: Self)
        ensures
            r.is_empty_context(),
    {
        ProcessContext {
            nodes: Vec::new(),
            edges: Vec::new(),
            con_descs: Vec::new(),
            branching_merging_candidate_linkers: Vec::new(),
            cond_reapply_con_descs: Vec::new(),
            branch_nodes: Vec::new(),
            dep_nodes: Vec::new(),
            var_binding_path_sets: Vec::new(),
            prop_binding_sets: Vec::new(),
            analized_con_exp_datas: Vec::new(),
            analized_con_exp_linkers: Vec::new(),
            backend_sync_datas: Vec::new(),
            backend_neighbour_expansion_controlling_datas: Vec::new(),
            blocking_follow_sets: Vec::new(),
            branching_trees: Vec::new(),
            concept_process_linkers: Vec::new(),
            con_var_bind_path_set_hashes: Vec::new(),
            con_prop_binding_set_hashes: Vec::new(),
            blocking_indi_node_cand_hashes: Vec::new(),
            blocking_indi_node_cand_datas: Vec::new(),
            blocking_indi_node_linked_cand_hashes: Vec::new(),
            blocking_indi_node_linked_cand_datas: Vec::new(),
            blocking_indi_node_linkers: Vec::new(),
            sig_block_con_exp_datas: Vec::new(),
            reusing_con_exp_datas: Vec::new(),
            signature_blocking_review_sets: Vec::new(),
            reusing_review_datas: Vec::new(),
            individual_process_node_linkers: Vec::new(),
            sig_block_cand_hashes: Vec::new(),
            con_sat_descs: Vec::new(),
            reapply_con_sat_label_sets: Vec::new(),
            imp_reapply_con_sat_descs: Vec::new(),
            sat_linked_succ_indi_all_concept_ext_datas: Vec::new(),
            sat_successor_all_concept_ext_datas: Vec::new(),
            sat_successor_concept_extension_maps: Vec::new(),
            sat_indi_node_all_concept_ext_datas: Vec::new(),
            sat_modified_process_update_linkers: Vec::new(),
            role_backward_prop_hashes: Vec::new(),
            backward_prop_links: Vec::new(),
            backward_prop_reapply_descs: Vec::new(),
            sat_nodes: Vec::new(),
            indi_sat_node_ext_datas: Vec::new(),
            sat_nominal_handling_datas: Vec::new(),
            nominal_conn_sets: Vec::new(),
            sat_indi_node_datatype_datas: Vec::new(),
            role_backward_sat_prop_hashes: Vec::new(),
            backward_sat_prop_links: Vec::new(),
            used_process_tagger: ProcessTagger::new(),
            used_mem_man: INVALID,
            used_process_stat_gath: INVALID,
            epochs: Vec::new(),
        }
    }

    pub fn used_process_tagger(&self) -> (r: &ProcessTagger)
        ensures
            *r == self.used_process_tagger,
    {
        &self.used_process_tagger
    }

    pub fn used_process_tagger_mut(&mut self) -> (r: &mut ProcessTagger)
        ensures
            *r == old(self).used_process_tagger,
            final(self).used_process_tagger == *final(r),
            final(self).nodes@ == old(self).nodes@,
            final(self).edges@ == old(self).edges@,
            final(self).con_descs@ == old(self).con_descs@,
            final(self).branching_merging_candidate_linkers@ == old(self).branching_merging_candidate_linkers@,
            final(self).cond_reapply_con_descs@ == old(self).cond_reapply_con_descs@,
            final(self).branch_nodes@ == old(self).branch_nodes@,
            final(self).dep_nodes@ == old(self).dep_nodes@,
            final(self).var_binding_path_sets@ == old(self).var_binding_path_sets@,
            final(self).prop_binding_sets@ == old(self).prop_binding_sets@,
            final(self).analized_con_exp_datas@ == old(self).analized_con_exp_datas@,
            final(self).analized_con_exp_linkers@ == old(self).analized_con_exp_linkers@,
            final(self).backend_sync_datas@ == old(self).backend_sync_datas@,
            final(self).backend_neighbour_expansion_controlling_datas@ == old(self).backend_neighbour_expansion_controlling_datas@,
            final(self).blocking_follow_sets@ == old(self).blocking_follow_sets@,
            final(self).branching_trees@ == old(self).branching_trees@,
            final(self).concept_process_linkers@ == old(self).concept_process_linkers@,
            final(self).con_var_bind_path_set_hashes@ == old(self).con_var_bind_path_set_hashes@,
            final(self).con_prop_binding_set_hashes@ == old(self).con_prop_binding_set_hashes@,
            final(self).blocking_indi_node_cand_hashes@ == old(self).blocking_indi_node_cand_hashes@,
            final(self).blocking_indi_node_cand_datas@ == old(self).blocking_indi_node_cand_datas@,
            final(self).blocking_indi_node_linked_cand_hashes@ == old(self).blocking_indi_node_linked_cand_hashes@,
            final(self).blocking_indi_node_linked_cand_datas@ == old(self).blocking_indi_node_linked_cand_datas@,
            final(self).blocking_indi_node_linkers@ == old(self).blocking_indi_node_linkers@,
            final(self).sig_block_con_exp_datas@ == old(self).sig_block_con_exp_datas@,
            final(self).reusing_con_exp_datas@ == old(self).reusing_con_exp_datas@,
            final(self).signature_blocking_review_sets@ == old(self).signature_blocking_review_sets@,
            final(self).reusing_review_datas@ == old(self).reusing_review_datas@,
            final(self).individual_process_node_linkers@ == old(self).individual_process_node_linkers@,
            final(self).sig_block_cand_hashes@ == old(self).sig_block_cand_hashes@,
            final(self).con_sat_descs@ == old(self).con_sat_descs@,
            final(self).reapply_con_sat_label_sets@ == old(self).reapply_con_sat_label_sets@,
            final(self).imp_reapply_con_sat_descs@ == old(self).imp_reapply_con_sat_descs@,
            final(self).sat_linked_succ_indi_all_concept_ext_datas@ == old(self).sat_linked_succ_indi_all_concept_ext_datas@,
            final(self).sat_successor_all_concept_ext_datas@ == old(self).sat_successor_all_concept_ext_datas@,
            final(self).sat_successor_concept_extension_maps@ == old(self).sat_successor_concept_extension_maps@,
            final(self).sat_indi_node_all_concept_ext_datas@ == old(self).sat_indi_node_all_concept_ext_datas@,
            final(self).sat_modified_process_update_linkers@ == old(self).sat_modified_process_update_linkers@,
            final(self).role_backward_prop_hashes@ == old(self).role_backward_prop_hashes@,
            final(self).backward_prop_links@ == old(self).backward_prop_links@,
            final(self).backward_prop_reapply_descs@ == old(self).backward_prop_reapply_descs@,
            final(self).sat_nodes@ == old(self).sat_nodes@,
            final(self).indi_sat_node_ext_datas@ == old(self).indi_sat_node_ext_datas@,
            final(self).sat_nominal_handling_datas@ == old(self).sat_nominal_handling_datas@,
            final(self).nominal_conn_sets@ == old(self).nominal_conn_sets@,
            final(self).sat_indi_node_datatype_datas@ == old(self).sat_indi_node_datatype_datas@,
            final(self).role_backward_sat_prop_hashes@ == old(self).role_backward_sat_prop_hashes@,
            final(self).backward_sat_prop_links@ == old(self).backward_sat_prop_links@,
            final(self).used_mem_man == old(self).used_mem_man,
            final(self).used_process_stat_gath == old(self).used_process_stat_gath,
            final(self).epochs@ == old(self).epochs@,
    {
        &mut self.used_process_tagger
    }

    /// The element `id` of the individual nodes.
    pub fn node(&self, id: Id) -> (r: &IndividualProcessNode)
        requires
            valid_in(id, self.nodes@.len()),
        ensures
            *r == self.nodes@[id.index()],
    {
        &self.nodes[id.raw()]
    }

    /// The element `id` of the individual nodes, to change in place.
    pub fn node_mut(&mut self, id: Id) -> (r: &mut IndividualProcessNode)
        requires
            valid_in(id, old(self).nodes@.len()),
        ensures
            *r == old(self).nodes@[id.index()],
            final(self).nodes@ == old(self).nodes@.update(id.index(), *final(r)),
            final(self).agrees_except(*old(self), set![ArenaKind::Nodes]),
    {
        &mut self.nodes[id.raw()]
    }

    /// Adds `v` to the individual nodes; its handle is the next free index.
    pub fn alloc_node(&mut self, v: IndividualProcessNode) -> (r: Id)
        requires
            old(self).nodes@.len() < usize::MAX,
        ensures
            r == Id::At(old(self).nodes@.len() as usize),
            final(self).nodes@ == old(self).nodes@.push(v),
            final(self).agrees_except(*old(self), set![ArenaKind::Nodes]),
    {
        let r = Id::new(self.nodes.len());
        self.nodes.push(v);
        r
    }

    /// The element `id` of the individual links.
    pub fn edge(&self, id: Id) -> (r: &IndividualLinkEdge)
        requires
            valid_in(id, self.edges@.len()),
        ensures
            *r == self.edges@[id.index()],
    {
        &self.edges[id.raw()]
    }

    /// The element `id` of the individual links, to change in place.
    pub fn edge_mut(&mut self, id: Id) -> (r: &mut IndividualLinkEdge)
        requires
            valid_in(id, old(self).edges@.len()),
        ensures
            *r == old(self).edges@[id.index()],
            final(self).edges@ == old(self).edges@.update(id.index(), *final(r)),
            final(self).agrees_except(*old(self), set![ArenaKind::Edges]),
    {
        &mut self.edges[id.raw()]
    }

    /// Adds `v` to the individual links; its handle is the next free index.
    pub fn alloc_edge(&mut self, v: IndividualLinkEdge) -> (r: Id)
        requires
            old(self).edges@.len() < usize::MAX,
        ensures
            r == Id::At(old(self).edges@.len() as usize),
            final(self).edges@ == old(self).edges@.push(v),
            final(self).agrees_except(*old(self), set![ArenaKind::Edges]),
    {
        let r = Id::new(self.edges.len());
        self.edges.push(v);
        r
    }

    /// The element `id` of the concept descriptors.
    pub fn con_desc(&self, id: Id) -> (r: &ConceptDescriptor)
        requires
            valid_in(id, self.con_descs@.len()),
        ensures
            *r == self.con_descs@[id.index()],
    {
        &self.con_descs[id.raw()]
    }

    /// The element `id` of the concept descriptors, to change in place.
    pub fn con_desc_mut(&mut self, id: Id) -> (r: &mut ConceptDescriptor)
        requires
            valid_in(id, old(self).con_descs@.len()),
        ensures
            *r == old(self).con_descs@[id.index()],
            final(self).con_descs@ == old(self).con_descs@.update(id.index(), *final(r)),
            final(self).agrees_except(*old(self), set![ArenaKind::ConDescs]),
    {
        &mut self.con_descs[id.raw()]
    }

    /// Adds `v` to the concept descriptors; its handle is the next free index.
    pub fn alloc_con_desc(&mut self, v: ConceptDescriptor) -> (r: Id)
        requires
            old(self).con_descs@.len() < usize::MAX,
        ensures
            r == Id::At(old(self).con_descs@.len() as usize),
            final(self).con_descs@ == old(self).con_descs@.push(v),
            final(self).agrees_except(*old(self), set![ArenaKind::ConDescs]),
    {
        let r = Id::new(self.con_descs.len());
        self.con_descs.push(v);
        r
    }

    /// The element `id` of the merging candidate linkers.
    pub fn branching_merging_candidate_linker(&self, id: Id) -> (r: &BranchingMergingIndividualNodeCandidateLinker)
        requires
            valid_in(id, self.branching_merging_candidate_linkers@.len()),
        ensures
            *r == self.branching_merging_candidate_linkers@[id.index()],
    {
        &self.branching_merging_candidate_linkers[id.raw()]
    }

    /// The element `id` of the merging candidate linkers, to change in place.
    pub fn branching_merging_candidate_linker_mut(&mut self, id: Id) -> (r: &mut BranchingMergingIndividualNodeCandidateLinker)
        requires
            valid_in(id, old(self).branching_merging_candidate_linkers@.len()),
        ensures
            *r == old(self).branching_merging_candidate_linkers@[id.index()],
            final(self).branching_merging_candidate_linkers@ == old(self).branching_merging_candidate_linkers@.update(id.index(), *final(r)),
            final(self).agrees_except(*old(self), set![ArenaKind::CandidateLinkers]),
    {
        &mut self.branching_merging_candidate_linkers[id.raw()]
    }

    /// Adds `v` to the merging candidate linkers; its handle is the next free index.
    pub fn alloc_branching_merging_candidate_linker(&mut self, v: BranchingMergingIndividualNodeCandidateLinker) -> (r: Id)
        requires
            old(self).branching_merging_candidate_linkers@.len() < usize::MAX,
        ensures
            r == Id::At(old(self).branching_merging_candidate_linkers@.len() as usize),
            final(self).branching_merging_candidate_linkers@ == old(self).branching_merging_candidate_linkers@.push(v),
            final(self).agrees_except(*old(self), set![ArenaKind::CandidateLinkers]),
    {
        let r = Id::new(self.branching_merging_candidate_linkers.len());
        self.branching_merging_candidate_linkers.push(v);
        r
    }

    /// The element `id` of the condensed reapply descriptors.
    pub fn cond_reapply_con_desc(&self, id: Id) -> (r: &CondensedReapplyConceptDescriptor)
        requires
            valid_in(id, self.cond_reapply_con_descs@.len()),
        ensures
            *r == self.cond_reapply_con_descs@[id.index()],
    {
        &self.cond_reapply_con_descs[id.raw()]
    }

    /// The element `id` of the condensed reapply descriptors, to change in place.
    pub fn cond_reapply_con_desc_mut(&mut self, id: Id) -> (r: &mut CondensedReapplyConceptDescriptor)
        requires
            valid_in(id, old(self).cond_reapply_con_descs@.len()),
        ensures
            *r == old(self).cond_reapply_con_descs@[id.index()],
            final(self).cond_reapply_con_descs@ == old(self).cond_reapply_con_descs@.update(id.index(), *final(r)),
            final(self).agrees_except(*old(self), set![ArenaKind::CondReapplyConDescs]),
    {
        &mut self.cond_reapply_con_descs[id.raw()]
    }

    /// Adds `v` to the condensed reapply descriptors; its handle is the next free index.
    pub fn alloc_cond_reapply_con_desc(&mut self, v: CondensedReapplyConceptDescriptor) -> (r: Id)
        requires
            old(self).cond_reapply_con_descs@.len() < usize::MAX,
        ensures
            r == Id::At(old(self).cond_reapply_con_descs@.len() as usize),
            final(self).cond_reapply_con_descs@ == old(self).cond_reapply_con_descs@.push(v),
            final(self).agrees_except(*old(self), set![ArenaKind::CondReapplyConDescs]),
    {
        let r = Id::new(self.cond_reapply_con_descs.len());
        self.cond_reapply_con_descs.push(v);
        r
    }

    /// The element `id` of the branch-tree nodes.
    pub fn branch_node(&self, id: Id) -> (r: &BranchTreeNode)
        requires
            valid_in(id, self.branch_nodes@.len()),
        ensures
            *r == self.branch_nodes@[id.index()],
    {
        &self.branch_nodes[id.raw()]
    }

    /// The element `id` of the branch-tree nodes, to change in place.
    pub fn branch_node_mut(&mut self, id: Id) -> (r: &mut BranchTreeNode)
        requires
            valid_in(id, old(self).branch_nodes@.len()),
        ensures
            *r == old(self).branch_nodes@[id.index()],
            final(self).branch_nodes@ == old(self).branch_nodes@.update(id.index(), *final(r)),
            final(self).agrees_except(*old(self), set![ArenaKind::BranchNodes]),
    {
        &mut self.branch_nodes[id.raw()]
    }

    /// Adds `v` to the branch-tree nodes; its handle is the next free index.
    pub fn alloc_branch_node(&mut self, v: BranchTreeNode) -> (r: Id)
        requires
            old(self).branch_nodes@.len() < usize::MAX,
        ensures
            r == Id::At(old(self).branch_nodes@.len() as usize),
            final(self).branch_nodes@ == old(self).branch_nodes@.push(v),
            final(self).agrees_except(*old(self), set![ArenaKind::BranchNodes]),
    {
        let r = Id::new(self.branch_nodes.len());
        self.branch_nodes.push(v);
        r
    }

    /// The element `id` of the dependency nodes.
    pub fn dep_node(&self, id: Id) -> (r: &DependencyNode)
        requires
            valid_in(id, self.dep_nodes@.len()),
        ensures
            *r == self.dep_nodes@[id.index()],
    {
        &self.dep_nodes[id.raw()]
    }

    /// The element `id` of the dependency nodes, to change in place.
    pub fn dep_node_mut(&mut self, id: Id) -> (r: &mut DependencyNode)
        requires
            valid_in(id, old(self).dep_nodes@.len()),
        ensures
            *r == old(self).dep_nodes@[id.index()],
            final(self).dep_nodes@ == old(self).dep_nodes@.update(id.index(), *final(r)),
            final(self).agrees_except(*old(self), set![ArenaKind::DepNodes]),
    {
        &mut self.dep_nodes[id.raw()]
    }

    /// Adds `v` to the dependency nodes; its handle is the next free index.
    pub fn alloc_dep_node(&mut self, v: DependencyNode) -> (r: Id)
        requires
            old(self).dep_nodes@.len() < usize::MAX,
        ensures
            r == Id::At(old(self).dep_nodes@.len() as usize),
            final(self).dep_nodes@ == old(self).dep_nodes@.push(v),
            final(self).agrees_except(*old(self), set![ArenaKind::DepNodes]),
    {
        let r = Id::new(self.dep_nodes.len());
        self.dep_nodes.push(v);
        r
    }

    /// The element `id` of the variable-binding path sets.
    pub fn vbpath_set(&self, id: Id) -> (r: &VariableBindingPathSet)
        requires
            valid_in(id, self.var_binding_path_sets@.len()),
        ensures
            *r == self.var_binding_path_sets@[id.index()],
    {
        &self.var_binding_path_sets[id.raw()]
    }

    /// The element `id` of the variable-binding path sets, to change in place.
    pub fn vbpath_set_mut(&mut self, id: Id) -> (r: &mut VariableBindingPathSet)
        requires
            valid_in(id, old(self).var_binding_path_sets@.len()),
        ensures
            *r == old(self).var_binding_path_sets@[id.index()],
            final(self).var_binding_path_sets@ == old(self).var_binding_path_sets@.update(id.index(), *final(r)),
            final(self).agrees_except(*old(self), set![ArenaKind::VarBindingPathSets]),
    {
        &mut self.var_binding_path_sets[id.raw()]
    }

    /// Adds `v` to the variable-binding path sets; its handle is the next free index.
    pub fn alloc_vbpath_set(&mut self, v: VariableBindingPathSet) -> (r: Id)
        requires
            old(self).var_binding_path_sets@.len() < usize::MAX,
        ensures
            r == Id::At(old(self).var_binding_path_sets@.len() as usize),
            final(self).var_binding_path_sets@ == old(self).var_binding_path_sets@.push(v),
            final(self).agrees_except(*old(self), set![ArenaKind::VarBindingPathSets]),
    {
        let r = Id::new(self.var_binding_path_sets.len());
        self.var_binding_path_sets.push(v);
        r
    }

    /// The element `id` of the propagation binding sets.
    pub fn prop_binding_set(&self, id: Id) -> (r: &PropagationBindingSet)
        requires
            valid_in(id, self.prop_binding_sets@.len()),
        ensures
            *r == self.prop_binding_sets@[id.index()],
    {
        &self.prop_binding_sets[id.raw()]
    }

    /// The element `id` of the propagation binding sets, to change in place.
    pub fn prop_binding_set_mut(&mut self, id: Id) -> (r: &mut PropagationBindingSet)
        requires
            valid_in(id, old(self).prop_binding_sets@.len()),
        ensures
            *r == old(self).prop_binding_sets@[id.index()],
            final(self).prop_binding_sets@ == old(self).prop_binding_sets@.update(id.index(), *final(r)),
            final(self).agrees_except(*old(self), set![ArenaKind::PropBindingSets]),
    {
        &mut self.prop_binding_sets[id.raw()]
    }

    /// Adds `v` to the propagation binding sets; its handle is the next free index.
    pub fn alloc_prop_binding_set(&mut self, v: PropagationBindingSet) -> (r: Id)
        requires
            old(self).prop_binding_sets@.len() < usize::MAX,
        ensures
            r == Id::At(old(self).prop_binding_sets@.len() as usize),
            final(self).prop_binding_sets@ == old(self).prop_binding_sets@.push(v),
            final(self).agrees_except(*old(self), set![ArenaKind::PropBindingSets]),
    {
        let r = Id::new(self.prop_binding_sets.len());
        self.prop_binding_sets.push(v);
        r
    }

    /// The element `id` of the analysed expansion data.
    pub fn analized_con_exp_data(&self, id: Id) -> (r: &IndividualNodeAnalizedConceptExpansionData)
        requires
            valid_in(id, self.analized_con_exp_datas@.len()),
        ensures
            *r == self.analized_con_exp_datas@[id.index()],
    {
        &self.analized_con_exp_datas[id.raw()]
    }

    /// The element `id` of the analysed expansion data, to change in place.
    pub fn analized_con_exp_data_mut(&mut self, id: Id) -> (r: &mut IndividualNodeAnalizedConceptExpansionData)
        requires
            valid_in(id, old(self).analized_con_exp_datas@.len()),
        ensures
            *r == old(self).analized_con_exp_datas@[id.index()],
            final(self).analized_con_exp_datas@ == old(self).analized_con_exp_datas@.update(id.index(), *final(r)),
            final(self).agrees_except(*old(self), set![ArenaKind::AnalizedConExpDatas]),
    {
        &mut self.analized_con_exp_datas[id.raw()]
    }

    /// Adds `v` to the analysed expansion data; its handle is the next free index.
    pub fn alloc_analized_con_exp_data(&mut self, v: IndividualNodeAnalizedConceptExpansionData) -> (r: Id)
        requires
            old(self).analized_con_exp_datas@.len() < usize::MAX,
        ensures
            r == Id::At(old(self).analized_con_exp_datas@.len() as usize),
            final(self).analized_con_exp_datas@ == old(self).analized_con_exp_datas@.push(v),
            final(self).agrees_except(*old(self), set![ArenaKind::AnalizedConExpDatas]),
    {
        let r = Id::new(self.analized_con_exp_datas.len());
        self.analized_con_exp_datas.push(v);
        r
    }

    /// The element `id` of the analysed expansion linkers.
    pub fn analized_con_exp_linker(&self, id: Id) -> (r: &AnalizedConceptExpansionLinker)
        requires
            valid_in(id, self.analized_con_exp_linkers@.len()),
        ensures
            *r == self.analized_con_exp_linkers@[id.index()],
    {
        &self.analized_con_exp_linkers[id.raw()]
    }

    /// The element `id` of the analysed expansion linkers, to change in place.
    pub fn analized_con_exp_linker_mut(&mut self, id: Id) -> (r: &mut AnalizedConceptExpansionLinker)
        requires
            valid_in(id, old(self).analized_con_exp_linkers@.len()),
        ensures
            *r == old(self).analized_con_exp_linkers@[id.index()],
            final(self).analized_con_exp_linkers@ == old(self).analized_con_exp_linkers@.update(id.index(), *final(r)),
            final(self).agrees_except(*old(self), set![ArenaKind::AnalizedConExpLinkers]),
    {
        &mut self.analized_con_exp_linkers[id.raw()]
    }

    /// Adds `v` to the analysed expansion linkers; its handle is the next free index.
    pub fn alloc_analized_con_exp_linker(&mut self, v: AnalizedConceptExpansionLinker) -> (r: Id)
        requires
            old(self).analized_con_exp_linkers@.len() < usize::MAX,
        ensures
            r == Id::At(old(self).analized_con_exp_linkers@.len() as usize),
            final(self).analized_con_exp_linkers@ == old(self).analized_con_exp_linkers@.push(v),
            final(self).agrees_except(*old(self), set![ArenaKind::AnalizedConExpLinkers]),
    {
        let r = Id::new(self.analized_con_exp_linkers.len());
        self.analized_con_exp_linkers.push(v);
        r
    }

    /// The element `id` of the backend synchronisation data.
    pub fn backend_sync_data(&self, id: Id) -> (r: &IndividualNodeBackendCacheSynchronisationData)
        requires
            valid_in(id, self.backend_sync_datas@.len()),
        ensures
            *r == self.backend_sync_datas@[id.index()],
    {
        &self.backend_sync_datas[id.raw()]
    }

    /// The element `id` of the backend synchronisation data, to change in place.
    pub fn backend_sync_data_mut(&mut self, id: Id) -> (r: &mut IndividualNodeBackendCacheSynchronisationData)
        requires
            valid_in(id, old(self).backend_sync_datas@.len()),
        ensures
            *r == old(self).backend_sync_datas@[id.index()],
            final(self).backend_sync_datas@ == old(self).backend_sync_datas@.update(id.index(), *final(r)),
            final(self).agrees_except(*old(self), set![ArenaKind::BackendSyncDatas]),
    {
        &mut self.backend_sync_datas[id.raw()]
    }

    /// Adds `v` to the backend synchronisation data; its handle is the next free index.
    pub fn alloc_backend_sync_data(&mut self, v: IndividualNodeBackendCacheSynchronisationData) -> (r: Id)
        requires
            old(self).backend_sync_datas@.len() < usize::MAX,
        ensures
            r == Id::At(old(self).backend_sync_datas@.len() as usize),
            final(self).backend_sync_datas@ == old(self).backend_sync_datas@.push(v),
            final(self).agrees_except(*old(self), set![ArenaKind::BackendSyncDatas]),
    {
        let r = Id::new(self.backend_sync_datas.len());
        self.backend_sync_datas.push(v);
        r
    }

    /// The element `id` of the backend neighbour-expansion controlling data.
    pub fn backend_neighbour_expansion_controlling_data(&self, id: Id) -> (r: &BackendNeighbourExpansionControllingData)
        requires
            valid_in(id, self.backend_neighbour_expansion_controlling_datas@.len()),
        ensures
            *r == self.backend_neighbour_expansion_controlling_datas@[id.index()],
    {
        &self.backend_neighbour_expansion_controlling_datas[id.raw()]
    }

    /// The element `id` of the backend neighbour-expansion controlling data, to change in place.
    pub fn backend_neighbour_expansion_controlling_data_mut(&mut self, id: Id) -> (r: &mut BackendNeighbourExpansionControllingData)
        requires
            valid_in(id, old(self).backend_neighbour_expansion_controlling_datas@.len()),
        ensures
            *r == old(self).backend_neighbour_expansion_controlling_datas@[id.index()],
            final(self).backend_neighbour_expansion_controlling_datas@ == old(self).backend_neighbour_expansion_controlling_datas@.update(id.index(), *final(r)),
            final(self).agrees_except(*old(self), set![ArenaKind::BackendControllingDatas]),
    {
        &mut self.backend_neighbour_expansion_controlling_datas[id.raw()]
    }

    /// Adds `v` to the backend neighbour-expansion controlling data; its handle is the next free index.
    pub fn alloc_backend_neighbour_expansion_controlling_data(&mut self, v: BackendNeighbourExpansionControllingData) -> (r: Id)
        requires
            old(self).backend_neighbour_expansion_controlling_datas@.len() < usize::MAX,
        ensures
            r == Id::At(old(self).backend_neighbour_expansion_controlling_datas@.len() as usize),
            final(self).backend_neighbour_expansion_controlling_datas@ == old(self).backend_neighbour_expansion_controlling_datas@.push(v),
            final(self).agrees_except(*old(self), set![ArenaKind::BackendControllingDatas]),
    {
        let r = Id::new(self.backend_neighbour_expansion_controlling_datas.len());
        self.backend_neighbour_expansion_controlling_datas.push(v);
        r
    }

    /// The element `id` of the blocking-follow sets.
    pub fn blocking_follow_set(&self, id: Id) -> (r: &BlockingFollowSet)
        requires
            valid_in(id, self.blocking_follow_sets@.len()),
        ensures
            *r == self.blocking_follow_sets@[id.index()],
    {
        &self.blocking_follow_sets[id.raw()]
    }

    /// The element `id` of the blocking-follow sets, to change in place.
    pub fn blocking_follow_set_mut(&mut self, id: Id) -> (r: &mut BlockingFollowSet)
        requires
            valid_in(id, old(self).blocking_follow_sets@.len()),
        ensures
            *r == old(self).blocking_follow_sets@[id.index()],
            final(self).blocking_follow_sets@ == old(self).blocking_follow_sets@.update(id.index(), *final(r)),
            final(self).agrees_except(*old(self), set![ArenaKind::BlockingFollowSets]),
    {
        &mut self.blocking_follow_sets[id.raw()]
    }

    /// Adds `v` to the blocking-follow sets; its handle is the next free index.
    pub fn alloc_blocking_follow_set(&mut self, v: BlockingFollowSet) -> (r: Id)
        requires
            old(self).blocking_follow_sets@.len() < usize::MAX,
        ensures
            r == Id::At(old(self).blocking_follow_sets@.len() as usize),
            final(self).blocking_follow_sets@ == old(self).blocking_follow_sets@.push(v),
            final(self).agrees_except(*old(self), set![ArenaKind::BlockingFollowSets]),
    {
        let r = Id::new(self.blocking_follow_sets.len());
        self.blocking_follow_sets.push(v);
        r
    }

    /// The element `id` of the branching trees.
    pub fn branching_tree(&self, id: Id) -> (r: &BranchingTree)
        requires
            valid_in(id, self.branching_trees@.len()),
        ensures
            *r == self.branching_trees@[id.index()],
    {
        &self.branching_trees[id.raw()]
    }

    /// The element `id` of the branching trees, to change in place.
    pub fn branching_tree_mut(&mut self, id: Id) -> (r: &mut BranchingTree)
        requires
            valid_in(id, old(self).branching_trees@.len()),
        ensures
            *r == old(self).branching_trees@[id.index()],
            final(self).branching_trees@ == old(self).branching_trees@.update(id.index(), *final(r)),
            final(self).agrees_except(*old(self), set![ArenaKind::BranchingTrees]),
    {
        &mut self.branching_trees[id.raw()]
    }

    /// Adds `v` to the branching trees; its handle is the next free index.
    pub fn alloc_branching_tree(&mut self, v: BranchingTree) -> (r: Id)
        requires
            old(self).branching_trees@.len() < usize::MAX,
        ensures
            r == Id::At(old(self).branching_trees@.len() as usize),
            final(self).branching_trees@ == old(self).branching_trees@.push(v),
            final(self).agrees_except(*old(self), set![ArenaKind::BranchingTrees]),
    {
        let r = Id::new(self.branching_trees.len());
        self.branching_trees.push(v);
        r
    }

    /// The element `id` of the concept process linkers.
    pub fn concept_process_linker(&self, id: Id) -> (r: &ConceptProcessLinker)
        requires
            valid_in(id, self.concept_process_linkers@.len()),
        ensures
            *r == self.concept_process_linkers@[id.index()],
    {
        &self.concept_process_linkers[id.raw()]
    }

    /// The element `id` of the concept process linkers, to change in place.
    pub fn concept_process_linker_mut(&mut self, id: Id) -> (r: &mut ConceptProcessLinker)
        requires
            valid_in(id, old(self).concept_process_linkers@.len()),
        ensures
            *r == old(self).concept_process_linkers@[id.index()],
            final(self).concept_process_linkers@ == old(self).concept_process_linkers@.update(id.index(), *final(r)),
            final(self).agrees_except(*old(self), set![ArenaKind::ConceptProcessLinkers]),
    {
        &mut self.concept_process_linkers[id.raw()]
    }

    /// Adds `v` to the concept process linkers; its handle is the next free index.
    pub fn alloc_concept_process_linker(&mut self, v: ConceptProcessLinker) -> (r: Id)
        requires
            old(self).concept_process_linkers@.len() < usize::MAX,
        ensures
            r == Id::At(old(self).concept_process_linkers@.len() as usize),
            final(self).concept_process_linkers@ == old(self).concept_process_linkers@.push(v),
            final(self).agrees_except(*old(self), set![ArenaKind::ConceptProcessLinkers]),
    {
        let r = Id::new(self.concept_process_linkers.len());
        self.concept_process_linkers.push(v);
        r
    }

    /// The element `id` of the concept variable-binding path-set hashes.
    pub fn con_var_bind_path_set_hash(&self, id: Id) -> (r: &ConceptVariableBindingPathSetHash)
        requires
            valid_in(id, self.con_var_bind_path_set_hashes@.len()),
        ensures
            *r == self.con_var_bind_path_set_hashes@[id.index()],
    {
        &self.con_var_bind_path_set_hashes[id.raw()]
    }

    /// The element `id` of the concept variable-binding path-set hashes, to change in place.
    pub fn con_var_bind_path_set_hash_mut(&mut self, id: Id) -> (r: &mut ConceptVariableBindingPathSetHash)
        requires
            valid_in(id, old(self).con_var_bind_path_set_hashes@.len()),
        ensures
            *r == old(self).con_var_bind_path_set_hashes@[id.index()],
            final(self).con_var_bind_path_set_hashes@ == old(self).con_var_bind_path_set_hashes@.update(id.index(), *final(r)),
            final(self).agrees_except(*old(self), set![ArenaKind::ConVarBindPathSetHashes]),
    {
        &mut self.con_var_bind_path_set_hashes[id.raw()]
    }

    /// Adds `v` to the concept variable-binding path-set hashes; its handle is the next free index.
    pub fn alloc_con_var_bind_path_set_hash(&mut self, v: ConceptVariableBindingPathSetHash) -> (r: Id)
        requires
            old(self).con_var_bind_path_set_hashes@.len() < usize::MAX,
        ensures
            r == Id::At(old(self).con_var_bind_path_set_hashes@.len() as usize),
            final(self).con_var_bind_path_set_hashes@ == old(self).con_var_bind_path_set_hashes@.push(v),
            final(self).agrees_except(*old(self), set![ArenaKind::ConVarBindPathSetHashes]),
    {
        let r = Id::new(self.con_var_bind_path_set_hashes.len());
        self.con_var_bind_path_set_hashes.push(v);
        r
    }

    /// The element `id` of the concept propagation-binding-set hashes.
    pub fn con_prop_binding_set_hash(&self, id: Id) -> (r: &ConceptPropagationBindingSetHash)
        requires
            valid_in(id, self.con_prop_binding_set_hashes@.len()),
        ensures
            *r == self.con_prop_binding_set_hashes@[id.index()],
    {
        &self.con_prop_binding_set_hashes[id.raw()]
    }

    /// The element `id` of the concept propagation-binding-set hashes, to change in place.
    pub fn con_prop_binding_set_hash_mut(&mut self, id: Id) -> (r: &mut ConceptPropagationBindingSetHash)
        requires
            valid_in(id, old(self).con_prop_binding_set_hashes@.len()),
        ensures
            *r == old(self).con_prop_binding_set_hashes@[id.index()],
            final(self).con_prop_binding_set_hashes@ == old(self).con_prop_binding_set_hashes@.update(id.index(), *final(r)),
            final(self).agrees_except(*old(self), set![ArenaKind::ConPropBindingSetHashes]),
    {
        &mut self.con_prop_binding_set_hashes[id.raw()]
    }

    /// Adds `v` to the concept propagation-binding-set hashes; its handle is the next free index.
    pub fn alloc_con_prop_binding_set_hash(&mut self, v: ConceptPropagationBindingSetHash) -> (r: Id)
        requires
            old(self).con_prop_binding_set_hashes@.len() < usize::MAX,
        ensures
            r == Id::At(old(self).con_prop_binding_set_hashes@.len() as usize),
            final(self).con_prop_binding_set_hashes@ == old(self).con_prop_binding_set_hashes@.push(v),
            final(self).agrees_except(*old(self), set![ArenaKind::ConPropBindingSetHashes]),
    {
        let r = Id::new(self.con_prop_binding_set_hashes.len());
        self.con_prop_binding_set_hashes.push(v);
        r
    }

    /// The element `id` of the blocking candidate hashes.
    pub fn blocking_indi_node_cand_hash(&self, id: Id) -> (r: &BlockingIndividualNodeCandidateHash)
        requires
            valid_in(id, self.blocking_indi_node_cand_hashes@.len()),
        ensures
            *r == self.blocking_indi_node_cand_hashes@[id.index()],
    {
        &self.blocking_indi_node_cand_hashes[id.raw()]
    }

    /// The element `id` of the blocking candidate hashes, to change in place.
    pub fn blocking_indi_node_cand_hash_mut(&mut self, id: Id) -> (r: &mut BlockingIndividualNodeCandidateHash)
        requires
            valid_in(id, old(self).blocking_indi_node_cand_hashes@.len()),
        ensures
            *r == old(self).blocking_indi_node_cand_hashes@[id.index()],
            final(self).blocking_indi_node_cand_hashes@ == old(self).blocking_indi_node_cand_hashes@.update(id.index(), *final(r)),
            final(self).agrees_except(*old(self), set![ArenaKind::BlockingCandHashes]),
    {
        &mut self.blocking_indi_node_cand_hashes[id.raw()]
    }

    /// Adds `v` to the blocking candidate hashes; its handle is the next free index.
    pub fn alloc_blocking_indi_node_cand_hash(&mut self, v: BlockingIndividualNodeCandidateHash) -> (r: Id)
        requires
            old(self).blocking_indi_node_cand_hashes@.len() < usize::MAX,
        ensures
            r == Id::At(old(self).blocking_indi_node_cand_hashes@.len() as usize),
            final(self).blocking_indi_node_cand_hashes@ == old(self).blocking_indi_node_cand_hashes@.push(v),
            final(self).agrees_except(*old(self), set![ArenaKind::BlockingCandHashes]),
    {
        let r = Id::new(self.blocking_indi_node_cand_hashes.len());
        self.blocking_indi_node_cand_hashes.push(v);
        r
    }

    /// The element `id` of the blocking candidate data.
    pub fn blocking_indi_node_cand_data(&self, id: Id) -> (r: &BlockingIndividualNodeCandidateData)
        requires
            valid_in(id, self.blocking_indi_node_cand_datas@.len()),
        ensures
            *r == self.blocking_indi_node_cand_datas@[id.index()],
    {
        &self.blocking_indi_node_cand_datas[id.raw()]
    }

    /// The element `id` of the blocking candidate data, to change in place.
    pub fn blocking_indi_node_cand_data_mut(&mut self, id: Id) -> (r: &mut BlockingIndividualNodeCandidateData)
        requires
            valid_in(id, old(self).blocking_indi_node_cand_datas@.len()),
        ensures
            *r == old(self).blocking_indi_node_cand_datas@[id.index()],
            final(self).blocking_indi_node_cand_datas@ == old(self).blocking_indi_node_cand_datas@.update(id.index(), *final(r)),
            final(self).agrees_except(*old(self), set![ArenaKind::BlockingCandDatas]),
    {
        &mut self.blocking_indi_node_cand_datas[id.raw()]
    }

    /// Adds `v` to the blocking candidate data; its handle is the next free index.
    pub fn alloc_blocking_indi_node_cand_data(&mut self, v: BlockingIndividualNodeCandidateData) -> (r: Id)
        requires
            old(self).blocking_indi_node_cand_datas@.len() < usize::MAX,
        ensures
            r == Id::At(old(self).blocking_indi_node_cand_datas@.len() as usize),
            final(self).blocking_indi_node_cand_datas@ == old(self).blocking_indi_node_cand_datas@.push(v),
            final(self).agrees_except(*old(self), set![ArenaKind::BlockingCandDatas]),
    {
        let r = Id::new(self.blocking_indi_node_cand_datas.len());
        self.blocking_indi_node_cand_datas.push(v);
        r
    }

    /// The element `id` of the linked blocking candidate hashes.
    pub fn blocking_indi_node_linked_cand_hash(&self, id: Id) -> (r: &BlockingIndividualNodeLinkedCandidateHash)
        requires
            valid_in(id, self.blocking_indi_node_linked_cand_hashes@.len()),
        ensures
            *r == self.blocking_indi_node_linked_cand_hashes@[id.index()],
    {
        &self.blocking_indi_node_linked_cand_hashes[id.raw()]
    }

    /// The element `id` of the linked blocking candidate hashes, to change in place.
    pub fn blocking_indi_node_linked_cand_hash_mut(&mut self, id: Id) -> (r: &mut BlockingIndividualNodeLinkedCandidateHash)
        requires
            valid_in(id, old(self).blocking_indi_node_linked_cand_hashes@.len()),
        ensures
            *r == old(self).blocking_indi_node_linked_cand_hashes@[id.index()],
            final(self).blocking_indi_node_linked_cand_hashes@ == old(self).blocking_indi_node_linked_cand_hashes@.update(id.index(), *final(r)),
            final(self).agrees_except(*old(self), set![ArenaKind::BlockingLinkedCandHashes]),
    {
        &mut self.blocking_indi_node_linked_cand_hashes[id.raw()]
    }

    /// Adds `v` to the linked blocking candidate hashes; its handle is the next free index.
    pub fn alloc_blocking_indi_node_linked_cand_hash(&mut self, v: BlockingIndividualNodeLinkedCandidateHash) -> (r: Id)
        requires
            old(self).blocking_indi_node_linked_cand_hashes@.len() < usize::MAX,
        ensures
            r == Id::At(old(self).blocking_indi_node_linked_cand_hashes@.len() as usize),
            final(self).blocking_indi_node_linked_cand_hashes@ == old(self).blocking_indi_node_linked_cand_hashes@.push(v),
            final(self).agrees_except(*old(self), set![ArenaKind::BlockingLinkedCandHashes]),
    {
        let r = Id::new(self.blocking_indi_node_linked_cand_hashes.len());
        self.blocking_indi_node_linked_cand_hashes.push(v);
        r
    }

    /// The element `id` of the linked blocking candidate data.
    pub fn blocking_indi_node_linked_cand_data(&self, id: Id) -> (r: &BlockingIndividualNodeLinkedCandidateData)
        requires
            valid_in(id, self.blocking_indi_node_linked_cand_datas@.len()),
        ensures
            *r == self.blocking_indi_node_linked_cand_datas@[id.index()],
    {
        &self.blocking_indi_node_linked_cand_datas[id.raw()]
    }

    /// The element `id` of the linked blocking candidate data, to change in place.
    pub fn blocking_indi_node_linked_cand_data_mut(&mut self, id: Id) -> (r: &mut BlockingIndividualNodeLinkedCandidateData)
        requires
            valid_in(id, old(self).blocking_indi_node_linked_cand_datas@.len()),
        ensures
            *r == old(self).blocking_indi_node_linked_cand_datas@[id.index()],
            final(self).blocking_indi_node_linked_cand_datas@ == old(self).blocking_indi_node_linked_cand_datas@.update(id.index(), *final(r)),
            final(self).agrees_except(*old(self), set![ArenaKind::BlockingLinkedCandDatas]),
    {
        &mut self.blocking_indi_node_linked_cand_datas[id.raw()]
    }

    /// Adds `v` to the linked blocking candidate data; its handle is the next free index.
    pub fn alloc_blocking_indi_node_linked_cand_data(&mut self, v: BlockingIndividualNodeLinkedCandidateData) -> (r: Id)
        requires
            old(self).blocking_indi_node_linked_cand_datas@.len() < usize::MAX,
        ensures
            r == Id::At(old(self).blocking_indi_node_linked_cand_datas@.len() as usize),
            final(self).blocking_indi_node_linked_cand_datas@ == old(self).blocking_indi_node_linked_cand_datas@.push(v),
            final(self).agrees_except(*old(self), set![ArenaKind::BlockingLinkedCandDatas]),
    {
        let r = Id::new(self.blocking_indi_node_linked_cand_datas.len());
        self.blocking_indi_node_linked_cand_datas.push(v);
        r
    }

    /// The element `id` of the blocking candidate linkers.
    pub fn blocking_indi_node_linker(&self, id: Id) -> (r: &BlockingIndividualNodeLinker)
        requires
            valid_in(id, self.blocking_indi_node_linkers@.len()),
        ensures
            *r == self.blocking_indi_node_linkers@[id.index()],
    {
        &self.blocking_indi_node_linkers[id.raw()]
    }

    /// The element `id` of the blocking candidate linkers, to change in place.
    pub fn blocking_indi_node_linker_mut(&mut self, id: Id) -> (r: &mut BlockingIndividualNodeLinker)
        requires
            valid_in(id, old(self).blocking_indi_node_linkers@.len()),
        ensures
            *r == old(self).blocking_indi_node_linkers@[id.index()],
            final(self).blocking_indi_node_linkers@ == old(self).blocking_indi_node_linkers@.update(id.index(), *final(r)),
            final(self).agrees_except(*old(self), set![ArenaKind::BlockingLinkers]),
    {
        &mut self.blocking_indi_node_linkers[id.raw()]
    }

    /// Adds `v` to the blocking candidate linkers; its handle is the next free index.
    pub fn alloc_blocking_indi_node_linker(&mut self, v: BlockingIndividualNodeLinker) -> (r: Id)
        requires
            old(self).blocking_indi_node_linkers@.len() < usize::MAX,
        ensures
            r == Id::At(old(self).blocking_indi_node_linkers@.len() as usize),
            final(self).blocking_indi_node_linkers@ == old(self).blocking_indi_node_linkers@.push(v),
            final(self).agrees_except(*old(self), set![ArenaKind::BlockingLinkers]),
    {
        let r = Id::new(self.blocking_indi_node_linkers.len());
        self.blocking_indi_node_linkers.push(v);
        r
    }

    /// The element `id` of the signature-blocking expansion data.
    pub fn sig_block_con_exp_data(&self, id: Id) -> (r: &SignatureBlockingIndividualNodeConceptExpansionData)
        requires
            valid_in(id, self.sig_block_con_exp_datas@.len()),
        ensures
            *r == self.sig_block_con_exp_datas@[id.index()],
    {
        &self.sig_block_con_exp_datas[id.raw()]
    }

    /// The element `id` of the signature-blocking expansion data, to change in place.
    pub fn sig_block_con_exp_data_mut(&mut self, id: Id) -> (r: &mut SignatureBlockingIndividualNodeConceptExpansionData)
        requires
            valid_in(id, old(self).sig_block_con_exp_datas@.len()),
        ensures
            *r == old(self).sig_block_con_exp_datas@[id.index()],
            final(self).sig_block_con_exp_datas@ == old(self).sig_block_con_exp_datas@.update(id.index(), *final(r)),
            final(self).agrees_except(*old(self), set![ArenaKind::SigBlockConExpDatas]),
    {
        &mut self.sig_block_con_exp_datas[id.raw()]
    }

    /// Adds `v` to the signature-blocking expansion data; its handle is the next free index.
    pub fn alloc_sig_block_con_exp_data(&mut self, v: SignatureBlockingIndividualNodeConceptExpansionData) -> (r: Id)
        requires
            old(self).sig_block_con_exp_datas@.len() < usize::MAX,
        ensures
            r == Id::At(old(self).sig_block_con_exp_datas@.len() as usize),
            final(self).sig_block_con_exp_datas@ == old(self).sig_block_con_exp_datas@.push(v),
            final(self).agrees_except(*old(self), set![ArenaKind::SigBlockConExpDatas]),
    {
        let r = Id::new(self.sig_block_con_exp_datas.len());
        self.sig_block_con_exp_datas.push(v);
        r
    }

    /// The element `id` of the reusing expansion data.
    pub fn reusing_con_exp_data(&self, id: Id) -> (r: &ReusingIndividualNodeConceptExpansionData)
        requires
            valid_in(id, self.reusing_con_exp_datas@.len()),
        ensures
            *r == self.reusing_con_exp_datas@[id.index()],
    {
        &self.reusing_con_exp_datas[id.raw()]
    }

    /// The element `id` of the reusing expansion data, to change in place.
    pub fn reusing_con_exp_data_mut(&mut self, id: Id) -> (r: &mut ReusingIndividualNodeConceptExpansionData)
        requires
            valid_in(id, old(self).reusing_con_exp_datas@.len()),
        ensures
            *r == old(self).reusing_con_exp_datas@[id.index()],
            final(self).reusing_con_exp_datas@ == old(self).reusing_con_exp_datas@.update(id.index(), *final(r)),
            final(self).agrees_except(*old(self), set![ArenaKind::ReusingConExpDatas]),
    {
        &mut self.reusing_con_exp_datas[id.raw()]
    }

    /// Adds `v` to the reusing expansion data; its handle is the next free index.
    pub fn alloc_reusing_con_exp_data(&mut self, v: ReusingIndividualNodeConceptExpansionData) -> (r: Id)
        requires
            old(self).reusing_con_exp_datas@.len() < usize::MAX,
        ensures
            r == Id::At(old(self).reusing_con_exp_datas@.len() as usize),
            final(self).reusing_con_exp_datas@ == old(self).reusing_con_exp_datas@.push(v),
            final(self).agrees_except(*old(self), set![ArenaKind::ReusingConExpDatas]),
    {
        let r = Id::new(self.reusing_con_exp_datas.len());
        self.reusing_con_exp_datas.push(v);
        r
    }

    /// The element `id` of the signature-blocking review sets.
    pub fn signature_blocking_review_set(&self, id: Id) -> (r: &SignatureBlockingReviewSet)
        requires
            valid_in(id, self.signature_blocking_review_sets@.len()),
        ensures
            *r == self.signature_blocking_review_sets@[id.index()],
    {
        &self.signature_blocking_review_sets[id.raw()]
    }

    /// The element `id` of the signature-blocking review sets, to change in place.
    pub fn signature_blocking_review_set_mut(&mut self, id: Id) -> (r: &mut SignatureBlockingReviewSet)
        requires
            valid_in(id, old(self).signature_blocking_review_sets@.len()),
        ensures
            *r == old(self).signature_blocking_review_sets@[id.index()],
            final(self).signature_blocking_review_sets@ == old(self).signature_blocking_review_sets@.update(id.index(), *final(r)),
            final(self).agrees_except(*old(self), set![ArenaKind::SigBlockReviewSets]),
    {
        &mut self.signature_blocking_review_sets[id.raw()]
    }

    /// Adds `v` to the signature-blocking review sets; its handle is the next free index.
    pub fn alloc_signature_blocking_review_set(&mut self, v: SignatureBlockingReviewSet) -> (r: Id)
        requires
            old(self).signature_blocking_review_sets@.len() < usize::MAX,
        ensures
            r == Id::At(old(self).signature_blocking_review_sets@.len() as usize),
            final(self).signature_blocking_review_sets@ == old(self).signature_blocking_review_sets@.push(v),
            final(self).agrees_except(*old(self), set![ArenaKind::SigBlockReviewSets]),
    {
        let r = Id::new(self.signature_blocking_review_sets.len());
        self.signature_blocking_review_sets.push(v);
        r
    }

    /// The element `id` of the reusing review data.
    pub fn reusing_review_data(&self, id: Id) -> (r: &ReusingReviewData)
        requires
            valid_in(id, self.reusing_review_datas@.len()),
        ensures
            *r == self.reusing_review_datas@[id.index()],
    {
        &self.reusing_review_datas[id.raw()]
    }

    /// The element `id` of the reusing review data, to change in place.
    pub fn reusing_review_data_mut(&mut self, id: Id) -> (r: &mut ReusingReviewData)
        requires
            valid_in(id, old(self).reusing_review_datas@.len()),
        ensures
            *r == old(self).reusing_review_datas@[id.index()],
            final(self).reusing_review_datas@ == old(self).reusing_review_datas@.update(id.index(), *final(r)),
            final(self).agrees_except(*old(self), set![ArenaKind::ReusingReviewDatas]),
    {
        &mut self.reusing_review_datas[id.raw()]
    }

    /// Adds `v` to the reusing review data; its handle is the next free index.
    pub fn alloc_reusing_review_data(&mut self, v: ReusingReviewData) -> (r: Id)
        requires
            old(self).reusing_review_datas@.len() < usize::MAX,
        ensures
            r == Id::At(old(self).reusing_review_datas@.len() as usize),
            final(self).reusing_review_datas@ == old(self).reusing_review_datas@.push(v),
            final(self).agrees_except(*old(self), set![ArenaKind::ReusingReviewDatas]),
    {
        let r = Id::new(self.reusing_review_datas.len());
        self.reusing_review_datas.push(v);
        r
    }

    /// The element `id` of the individual process-node linkers.
    pub fn individual_process_node_linker(&self, id: Id) -> (r: &IndividualProcessNodeLinker)
        requires
            valid_in(id, self.individual_process_node_linkers@.len()),
        ensures
            *r == self.individual_process_node_linkers@[id.index()],
    {
        &self.individual_process_node_linkers[id.raw()]
    }

    /// The element `id` of the individual process-node linkers, to change in place.
    pub fn individual_process_node_linker_mut(&mut self, id: Id) -> (r: &mut IndividualProcessNodeLinker)
        requires
            valid_in(id, old(self).individual_process_node_linkers@.len()),
        ensures
            *r == old(self).individual_process_node_linkers@[id.index()],
            final(self).individual_process_node_linkers@ == old(self).individual_process_node_linkers@.update(id.index(), *final(r)),
            final(self).agrees_except(*old(self), set![ArenaKind::IndiProcessNodeLinkers]),
    {
        &mut self.individual_process_node_linkers[id.raw()]
    }

    /// Adds `v` to the individual process-node linkers; its handle is the next free index.
    pub fn alloc_individual_process_node_linker(&mut self, v: IndividualProcessNodeLinker) -> (r: Id)
        requires
            old(self).individual_process_node_linkers@.len() < usize::MAX,
        ensures
            r == Id::At(old(self).individual_process_node_linkers@.len() as usize),
            final(self).individual_process_node_linkers@ == old(self).individual_process_node_linkers@.push(v),
            final(self).agrees_except(*old(self), set![ArenaKind::IndiProcessNodeLinkers]),
    {
        let r = Id::new(self.individual_process_node_linkers.len());
        self.individual_process_node_linkers.push(v);
        r
    }

    /// The element `id` of the signature-blocking candidate hashes.
    pub fn sig_block_cand_hash(&self, id: Id) -> (r: &SignatureBlockingCandidateHash)
        requires
            valid_in(id, self.sig_block_cand_hashes@.len()),
        ensures
            *r == self.sig_block_cand_hashes@[id.index()],
    {
        &self.sig_block_cand_hashes[id.raw()]
    }

    /// The element `id` of the signature-blocking candidate hashes, to change in place.
    pub fn sig_block_cand_hash_mut(&mut self, id: Id) -> (r: &mut SignatureBlockingCandidateHash)
        requires
            valid_in(id, old(self).sig_block_cand_hashes@.len()),
        ensures
            *r == old(self).sig_block_cand_hashes@[id.index()],
            final(self).sig_block_cand_hashes@ == old(self).sig_block_cand_hashes@.update(id.index(), *final(r)),
            final(self).agrees_except(*old(self), set![ArenaKind::SigBlockCandHashes]),
    {
        &mut self.sig_block_cand_hashes[id.raw()]
    }

    /// Adds `v` to the signature-blocking candidate hashes; its handle is the next free index.
    pub fn alloc_sig_block_cand_hash(&mut self, v: SignatureBlockingCandidateHash) -> (r: Id)
        requires
            old(self).sig_block_cand_hashes@.len() < usize::MAX,
        ensures
            r == Id::At(old(self).sig_block_cand_hashes@.len() as usize),
            final(self).sig_block_cand_hashes@ == old(self).sig_block_cand_hashes@.push(v),
            final(self).agrees_except(*old(self), set![ArenaKind::SigBlockCandHashes]),
    {
        let r = Id::new(self.sig_block_cand_hashes.len());
        self.sig_block_cand_hashes.push(v);
        r
    }

}

impl ProcessContext {
    /// The analysed-expansion linkers of `self` are those of `old` with at
    /// most their `next` handles changed, and every other arena is kept.
    pub open spec fn analized_con_exp_linkers_changed_only_in_next(self, old: Self) -> bool {
        &&& self.agrees_except(old, set![ArenaKind::AnalizedConExpLinkers])
        &&& self.analized_con_exp_linkers@.len() == old.analized_con_exp_linkers@.len()
        &&& forall|i: int| 0 <= i < old.analized_con_exp_linkers@.len() ==> {
            &&& (#[trigger] self.analized_con_exp_linkers@[i]).con_des == old.analized_con_exp_linkers@[i].con_des
            &&& self.analized_con_exp_linkers@[i].dependend_con_des_linker
                == old.analized_con_exp_linkers@[i].dependend_con_des_linker
        }
    }

    /// The individual process-node linkers of `self` are those of `old`
    /// with at most their `next` handles changed, and every other arena is
    /// kept.
    pub open spec fn individual_process_node_linkers_changed_only_in_next(self, old: Self) -> bool {
        &&& self.agrees_except(old, set![ArenaKind::IndiProcessNodeLinkers])
        &&& self.individual_process_node_linkers@.len() == old.individual_process_node_linkers@.len()
        &&& forall|i: int| 0 <= i < old.individual_process_node_linkers@.len() ==> {
            &&& (#[trigger] self.individual_process_node_linkers@[i]).processing_individual
                == old.individual_process_node_linkers@[i].processing_individual
            &&& self.individual_process_node_linkers@[i].processing_queued
                == old.individual_process_node_linkers@[i].processing_queued
        }
    }

    /// The number of analysed-expansion linkers on the chain from `linker`.
    pub fn analized_con_exp_linker_count(&self, linker: AnalizedConceptExpansionLinkerId) -> (r: Cint64)
        requires
            exists|n: nat| chain_len_is(self.analized_con_exp_linker_nexts(), linker, n) && n <= i64::MAX,
        ensures
            chain_ok(self.analized_con_exp_linker_nexts(), linker),
            r == chain_len(self.analized_con_exp_linker_nexts(), linker),
    {
        let ghost nexts = self.analized_con_exp_linker_nexts();
        let ghost n = choose|n: nat| chain_len_is(nexts, linker, n) && n <= i64::MAX;
        proof {
            lemma_chain_len(nexts, linker, n);
        }
        let mut count: i64 = 0;
        let mut cur = linker;
        while cur.is_some()
            invariant
                nexts == self.analized_con_exp_linker_nexts(),
                chain_len_is(nexts, linker, n),
                n <= i64::MAX,
                0 <= count <= n,
                cur == walk(nexts, linker, count as nat),
            decreases n - count,
        {
            assert(count < n);
            assert(valid_in(walk(nexts, linker, count as nat), nexts.len()));
            assert(walk(nexts, linker, (count + 1) as nat) == nexts[cur.index()]);
            cur = self.analized_con_exp_linker(cur).get_next();
            count = count + 1;
        }
        proof {
            if count < n {
                assert(valid_in(walk(nexts, linker, count as nat), nexts.len()));
            }
        }
        count
    }

    /// Links `appending_list` behind the last linker of the chain from
    /// `linker` and gives the head of the joined chain: `appending_list` when
    /// the chain is empty.
    pub fn analized_con_exp_linker_append(
        &mut self,
        linker: AnalizedConceptExpansionLinkerId,
        appending_list: AnalizedConceptExpansionLinkerId,
    ) -> (r: AnalizedConceptExpansionLinkerId)
        requires
            chain_ok(old(self).analized_con_exp_linker_nexts(), linker),
        ensures
            ({
                let nexts = old(self).analized_con_exp_linker_nexts();
                let n = chain_len(nexts, linker);
                &&& r == (if linker is At { linker } else { appending_list })
                &&& final(self).analized_con_exp_linker_nexts() == (if linker is At {
                    nexts.update(walk(nexts, linker, (n - 1) as nat).index(), appending_list)
                } else {
                    nexts
                })
            }),
            final(self).analized_con_exp_linkers_changed_only_in_next(*old(self)),
    {
        if linker.is_none() {
            proof {
                assert(self.analized_con_exp_linker_nexts() == old(self).analized_con_exp_linker_nexts());
            }
            return appending_list;
        }
        let ghost nexts = self.analized_con_exp_linker_nexts();
        let ghost n = chain_len(nexts, linker);
        proof {
            assert(chain_len_is(nexts, linker, n));
            if n == 0 {
                assert(walk(nexts, linker, 0) == linker);
            }
        }
        let mut last = linker;
        let ghost mut k: nat = 0;
        loop
            invariant
                nexts == self.analized_con_exp_linker_nexts(),
                *self == *old(self),
                chain_len_is(nexts, linker, n),
                k < n,
                last == walk(nexts, linker, k),
            ensures
                k + 1 == n,
                last == walk(nexts, linker, k),
            decreases n - k,
        {
            assert(valid_in(walk(nexts, linker, k), nexts.len()));
            assert(walk(nexts, linker, k + 1) == nexts[last.index()]);
            let next = self.analized_con_exp_linker(last).get_next();
            if next.is_none() {
                proof {
                    if k + 1 < n {
                        assert(valid_in(walk(nexts, linker, k + 1), nexts.len()));
                    }
                }
                break;
            }
            proof {
                if k + 1 == n {
                    assert(walk(nexts, linker, n) == Id::NONE);
                }
            }
            last = next;
            proof {
                k = k + 1;
            }
        }
        assert(valid_in(last, nexts.len()));
        self.analized_con_exp_linker_mut(last).set_next(appending_list);
        proof {
            assert(self.analized_con_exp_linker_nexts() =~= nexts.update(last.index(), appending_list));
        }
        linker
    }

    /// The number of individual process-node linkers on the chain from
    /// `linker`.
    pub fn individual_process_node_linker_count(&self, linker: Id) -> (r: Cint64)
        requires
            exists|n: nat| chain_len_is(self.individual_process_node_linker_nexts(), linker, n) && n <= i64::MAX,
        ensures
            chain_ok(self.individual_process_node_linker_nexts(), linker),
            r == chain_len(self.individual_process_node_linker_nexts(), linker),
    {
        let ghost nexts = self.individual_process_node_linker_nexts();
        let ghost n = choose|n: nat| chain_len_is(nexts, linker, n) && n <= i64::MAX;
        proof {
            lemma_chain_len(nexts, linker, n);
        }
        let mut count: i64 = 0;
        let mut cur = linker;
        while cur.is_some()
            invariant
                nexts == self.individual_process_node_linker_nexts(),
                chain_len_is(nexts, linker, n),
                n <= i64::MAX,
                0 <= count <= n,
                cur == walk(nexts, linker, count as nat),
            decreases n - count,
        {
            assert(count < n);
            assert(valid_in(walk(nexts, linker, count as nat), nexts.len()));
            assert(walk(nexts, linker, (count + 1) as nat) == nexts[cur.index()]);
            cur = self.individual_process_node_linker(cur).get_next();
            count = count + 1;
        }
        proof {
            if count < n {
                assert(valid_in(walk(nexts, linker, count as nat), nexts.len()));
            }
        }
        count
    }

    /// Links `appending_list` behind the last linker of the chain from
    /// `linker` and gives the head of the joined chain: `appending_list` when
    /// the chain is empty.
    pub fn append_individual_process_node_linker_chain(
        &mut self,
        linker: Id,
        appending_list: Id,
    ) -> (r: Id)
        requires
            chain_ok(old(self).individual_process_node_linker_nexts(), linker),
        ensures
            ({
                let nexts = old(self).individual_process_node_linker_nexts();
                let n = chain_len(nexts, linker);
                &&& r == (if linker is At { linker } else { appending_list })
                &&& final(self).individual_process_node_linker_nexts() == (if linker is At {
                    nexts.update(walk(nexts, linker, (n - 1) as nat).index(), appending_list)
                } else {
                    nexts
                })
            }),
            final(self).individual_process_node_linkers_changed_only_in_next(*old(self)),
    {
        if linker.is_none() {
            proof {
                assert(self.individual_process_node_linker_nexts() == old(self).individual_process_node_linker_nexts());
            }
            return appending_list;
        }
        let ghost nexts = self.individual_process_node_linker_nexts();
        let ghost n = chain_len(nexts, linker);
        proof {
            assert(chain_len_is(nexts, linker, n));
            if n == 0 {
                assert(walk(nexts, linker, 0) == linker);
            }
        }
        let mut last = linker;
        let ghost mut k: nat = 0;
        loop
            invariant
                nexts == self.individual_process_node_linker_nexts(),
                *self == *old(self),
                chain_len_is(nexts, linker, n),
                k < n,
                last == walk(nexts, linker, k),
            ensures
                k + 1 == n,
                last == walk(nexts, linker, k),
            decreases n - k,
        {
            assert(valid_in(walk(nexts, linker, k), nexts.len()));
            assert(walk(nexts, linker, k + 1) == nexts[last.index()]);
            let next = self.individual_process_node_linker(last).get_next();
            if next.is_none() {
                proof {
                    if k + 1 < n {
                        assert(valid_in(walk(nexts, linker, k + 1), nexts.len()));
                    }
                }
                break;
            }
            proof {
                if k + 1 == n {
                    assert(walk(nexts, linker, n) == Id::NONE);
                }
            }
            last = next;
            proof {
                k = k + 1;
            }
        }
        assert(valid_in(last, nexts.len()));
        self.individual_process_node_linker_mut(last).set_next(appending_list);
        proof {
            assert(self.individual_process_node_linker_nexts() =~= nexts.update(last.index(), appending_list));
        }
        linker
    }
}


/// What inserting the concept of `con_sat_des` under `con_tag` into the
/// reapply label `label_set` of `old` gives: the context `new` and the
/// result `r` (clash, insertion, waiting implications).
pub open spec fn label_insert_outcome(
    old: ProcessContext,
    new: ProcessContext,
    label_set: Id,
    con_sat_des: Id,
    con_tag: i64,
    r: (bool, bool, Id),
) -> bool {
    let ls = old.reapply_con_sat_label_sets@[label_set.index()];
    let e = ls.effective_entry(con_tag);
    let descs = old.con_sat_descs@;
    let nexts = old.con_sat_desc_nexts();
    let nls = new.reapply_con_sat_label_sets@[label_set.index()];
    &&& r.0 == (e.con_sat_des is At && descs[e.con_sat_des.index()].negated != descs[con_sat_des.index()].negated)
    &&& r.1 == (e.con_sat_des is NONE)
    &&& r.2 == e.imp_reapply_con_sat_des
    &&& new.reapply_con_sat_label_sets@ == old.reapply_con_sat_label_sets@.update(label_set.index(), nls)
    &&& if e.con_sat_des is NONE {
        &&& nls.concept_des_dep_hash@ == ls.concept_des_dep_hash@.insert(con_tag,
            ConceptSaturationDescriptorReapplyData {
                con_sat_des: con_sat_des,
                imp_reapply_con_sat_des: e.imp_reapply_con_sat_des,
            })
        &&& nls.concept_sat_des_linker == con_sat_des
        &&& nls.concept_count == ls.concept_count + 1
        &&& nls.totel_count == ls.totel_count + 1
        &&& nls.keeps_all_but_main_chain_counts(&ls)
        &&& new.con_sat_desc_nexts() == nexts.update(
            walk(nexts, con_sat_des, (chain_len(nexts, con_sat_des) - 1) as nat).index(),
            ls.concept_sat_des_linker)
    } else {
        &&& nls.concept_des_dep_hash@ == ls.concept_des_dep_hash@.insert(con_tag, e)
        &&& nls.keeps_all_but_main(&ls)
        &&& new.con_sat_descs@ == descs
    }
    &&& new.con_sat_descs@.len() == descs.len()
    &&& forall|i: int| 0 <= i < descs.len() ==> {
        &&& (#[trigger] new.con_sat_descs@[i]).concept == descs[i].concept
        &&& new.con_sat_descs@[i].negated == descs[i].negated
    }
    &&& new.agrees_except(old, set![ArenaKind::ConSatDescs, ArenaKind::ReapplyConSatLabelSets])
}

/// What asking the successor extensions `linked` of `old` for the
/// extension of `role`, creating it if needed, gives: the context `new` and
/// the extension `r`. An inline extension of another role first moves into
/// the hash. Then the extension held for `role` is returned if there is one;
/// else a fresh extension with a fresh concept extension map is allocated
/// for the node of `linked` and recorded for `role`: in the hash when the
/// hash holds extensions, else inline.
pub open spec fn role_extension_outcome(
    old: ProcessContext,
    new: ProcessContext,
    linked: Id,
    role: Id,
    r: Id,
) -> bool {
    let l = old.sat_linked_succ_indi_all_concept_ext_datas@[linked.index()];
    let nl = new.sat_linked_succ_indi_all_concept_ext_datas@[linked.index()];
    let h = l.hash_after_release(role);
    let only_role = if l.other_role_inline(role) { Id::NONE } else { l.only_role };
    let only_data = if l.other_role_inline(role) { Id::NONE } else { l.only_all_concept_ext_data };
    let datas = old.sat_successor_all_concept_ext_datas@;
    let maps = old.sat_successor_concept_extension_maps@;
    let allocated = {
        &&& r == Id::At(datas.len() as usize)
        &&& new.sat_successor_all_concept_ext_datas@ == datas.push(SaturationSuccessorAllConceptExtensionData {
            role: role,
            indi_proc_sat_node: l.indi_proc_sat_node,
            concept_extension_map: Id::At(maps.len() as usize),
        })
        &&& new.sat_successor_concept_extension_maps@.len() == maps.len() + 1
        &&& new.sat_successor_concept_extension_maps@.drop_last() == maps
        &&& new.sat_successor_concept_extension_maps@.last().extensions@ == Map::<i64, Id>::empty()
    };
    let kept = {
        &&& new.sat_successor_all_concept_ext_datas@ == datas
        &&& new.sat_successor_concept_extension_maps@ == maps
    };
    &&& new.sat_linked_succ_indi_all_concept_ext_datas@
        == old.sat_linked_succ_indi_all_concept_ext_datas@.update(linked.index(), nl)
    &&& nl.indi_proc_sat_node == l.indi_proc_sat_node
    &&& if !(h.dom() =~= Set::<Id>::empty()) {
        &&& nl.only_role == only_role
        &&& nl.only_all_concept_ext_data == only_data
        &&& if h.contains_key(role) {
            &&& r == h[role]
            &&& kept
            &&& nl.role_concept_extension_hash@ == h
        } else {
            &&& allocated
            &&& nl.role_concept_extension_hash@ == h.insert(role, r)
        }
    } else if only_role is NONE {
        &&& allocated
        &&& nl.role_concept_extension_hash@ == h
        &&& nl.only_role == role
        &&& nl.only_all_concept_ext_data == r
    } else {
        &&& r == only_data
        &&& kept
        &&& nl.role_concept_extension_hash@ == h
        &&& nl.only_role == only_role
        &&& nl.only_all_concept_ext_data == only_data
    }
    &&& new.agrees_except(old, set![ArenaKind::SatLinkedSuccAllExtDatas, ArenaKind::SatSuccAllExtDatas,
        ArenaKind::SatSuccConceptExtMaps])
}

/// What adding the links from `link` for `role` to the backward-propagation
/// hash `hash` of `old` gives: the context `new` and the result `r`.
pub open spec fn back_link_outcome(old: ProcessContext, new: ProcessContext, hash: Id, role: Id, link: Id, r: Id) -> bool {
    let h = old.role_backward_prop_hashes@[hash.index()];
    let d = h.data_of(role);
    let links = old.backward_prop_links@;
    let nexts = old.backward_prop_link_nexts();
    let same_source = d.link_linker is At
        && links[d.link_linker.index()].source_individual == links[link.index()].source_individual;
    if hash is NONE || link is NONE || same_source {
        r is NONE && new.agrees_except(old, Set::<ArenaKind>::empty())
    } else {
        let nh = new.role_backward_prop_hashes@[hash.index()];
        &&& r == d.reapply_linker
        &&& nh.context == h.context
        &&& nh.role_back_prop_data_hash@ == h.role_back_prop_data_hash@.insert(role,
            RoleBackwardPropagationHashData { link_linker: link, reapply_linker: d.reapply_linker })
        &&& new.role_backward_prop_hashes@
            == old.role_backward_prop_hashes@.update(hash.index(), nh)
        &&& new.backward_prop_link_nexts() == nexts.update(
            walk(nexts, link, (chain_len(nexts, link) - 1) as nat).index(), d.link_linker)
        &&& new.backward_prop_links@.len() == links.len()
        &&& forall|i: int| 0 <= i < links.len()
            ==> (#[trigger] new.backward_prop_links@[i]).source_individual
                == links[i].source_individual
        &&& new.agrees_except(old, set![ArenaKind::RoleBackPropHashes, ArenaKind::BackPropLinks])
    }
}

/// What adding the descriptors from `reapply_con_des` for `role` to the
/// backward-propagation hash `hash` of `old` gives: the context `new` and the
/// result `r`.
pub open spec fn back_desc_outcome(old: ProcessContext, new: ProcessContext, hash: Id, role: Id, reapply_con_des: Id, r: Id) -> bool {
    let h = old.role_backward_prop_hashes@[hash.index()];
    let d = h.data_of(role);
    let nexts = old.backward_prop_reapply_desc_nexts();
    if hash is NONE || reapply_con_des is NONE {
        r is NONE && new.agrees_except(old, Set::<ArenaKind>::empty())
    } else {
        let nh = new.role_backward_prop_hashes@[hash.index()];
        &&& r == d.link_linker
        &&& nh.context == h.context
        &&& nh.role_back_prop_data_hash@ == h.role_back_prop_data_hash@.insert(role,
            RoleBackwardPropagationHashData { link_linker: d.link_linker, reapply_linker: reapply_con_des })
        &&& new.role_backward_prop_hashes@
            == old.role_backward_prop_hashes@.update(hash.index(), nh)
        &&& new.backward_prop_reapply_desc_nexts() == nexts.update(
            walk(nexts, reapply_con_des, (chain_len(nexts, reapply_con_des) - 1) as nat).index(),
            d.reapply_linker)
        &&& new.backward_prop_reapply_descs@.len() == old.backward_prop_reapply_descs@.len()
        &&& new.agrees_except(old,
            set![ArenaKind::RoleBackPropHashes, ArenaKind::BackPropReapplyDescs])
    }
}

/// What copying the reapply label `source` of `old` into the label
/// `target` gives, as the context `new`: the source is flattened first when
/// `flattens_on_copy` says so (its additional map becomes the merge of its
/// two maps and its main map is emptied); then the target takes the
/// source's counts, flags, maps, chain head and last nominal-independent
/// descriptor, and keeps its update linkers.
pub open spec fn label_copy_outcome(
    old: ProcessContext,
    new: ProcessContext,
    target: Id,
    source: Id,
    try_flat_label_copy: bool,
    additional_copy_size: usize,
) -> bool {
    let s = old.reapply_con_sat_label_sets@[source.index()];
    let t = old.reapply_con_sat_label_sets@[target.index()];
    let ns = new.reapply_con_sat_label_sets@[source.index()];
    let nt = new.reapply_con_sat_label_sets@[target.index()];
    &&& if flattens_on_copy(&s, try_flat_label_copy, additional_copy_size) {
        &&& ns.additional_concept_des_dep_hash@ == flattened_additional(&s)
        &&& ns.has_additional_concept_des_dep_hash
        &&& ns.concept_des_dep_hash.entries@.len() == 0
        &&& ns.concept_des_dep_hash@ == Map::<i64, ConceptSaturationDescriptorReapplyData>::empty()
    } else {
        &&& ns.concept_des_dep_hash.entries@ == s.concept_des_dep_hash.entries@
        &&& ns.additional_concept_des_dep_hash.entries@ == s.additional_concept_des_dep_hash.entries@
        &&& ns.has_additional_concept_des_dep_hash == s.has_additional_concept_des_dep_hash
    }
    &&& ns.concept_count == s.concept_count
    &&& ns.totel_count == s.totel_count
    &&& ns.concept_flags == s.concept_flags
    &&& ns.concept_sat_des_linker == s.concept_sat_des_linker
    &&& ns.last_nominal_indep_con_sat_des == s.last_nominal_indep_con_sat_des
    &&& ns.modified_update_linker == s.modified_update_linker
    &&& nt.concept_count == s.concept_count
    &&& nt.totel_count == s.totel_count
    &&& nt.concept_flags == s.concept_flags
    &&& nt.concept_des_dep_hash.entries@ == ns.concept_des_dep_hash.entries@
    &&& nt.concept_des_dep_hash@ == ns.concept_des_dep_hash@
    &&& nt.additional_concept_des_dep_hash.entries@ == ns.additional_concept_des_dep_hash.entries@
    &&& nt.additional_concept_des_dep_hash@ == ns.additional_concept_des_dep_hash@
    &&& nt.has_additional_concept_des_dep_hash == ns.has_additional_concept_des_dep_hash
    &&& nt.concept_sat_des_linker == s.concept_sat_des_linker
    &&& nt.last_nominal_indep_con_sat_des == s.last_nominal_indep_con_sat_des
    &&& nt.modified_update_linker == t.modified_update_linker
    &&& new.reapply_con_sat_label_sets@.len() == old.reapply_con_sat_label_sets@.len()
    &&& forall|i: int| 0 <= i < old.reapply_con_sat_label_sets@.len() && i != source.index() && i != target.index()
        ==> #[trigger] new.reapply_con_sat_label_sets@[i] == old.reapply_con_sat_label_sets@[i]
    &&& new.agrees_except(old, set![ArenaKind::ReapplyConSatLabelSets])
}

/// The handle a lazily made satellite gets: the one held, else the next
/// free index when it is to be made, else none.
pub open spec fn lazy_handle(held: Id, create: bool, len: nat) -> Id {
    if held is At { held } else if create { Id::At(len as usize) } else { Id::NONE }
}

/// What asking `old` for the extension data of the saturation node `node`
/// gives: the context `new` and the handle `r` (see
/// `sat_node_individual_extension_data`).
pub open spec fn sat_ext_outcome(old: ProcessContext, new: ProcessContext, node: Id, create: bool, r: Id) -> bool {
    if node is NONE {
        r is NONE && new.agrees_except(old, Set::<ArenaKind>::empty())
    } else {
        let n = old.sat_nodes@[node.index()];
        let exts = old.indi_sat_node_ext_datas@;
        &&& r == lazy_handle(n.indi_extension_data, create, exts.len())
        &&& if n.indi_extension_data is NONE && create {
            &&& new.indi_sat_node_ext_datas@ == exts.push(IndividualSaturationProcessNodeExtensionData {
                indi_node: node,
                nominal_handling_data: Id::NONE,
                applied_datatype_data: Id::NONE,
            })
            &&& new.sat_nodes@.len() == old.sat_nodes@.len()
            &&& new.sat_nodes@[node.index()].with_handles(&n, n.role_back_prop_hash, n.reapply_con_sat_label_set, r)
            &&& forall|i: int| 0 <= i < old.sat_nodes@.len() && i != node.index()
                ==> #[trigger] new.sat_nodes@[i] == old.sat_nodes@[i]
            &&& new.agrees_except(old, set![ArenaKind::SatNodes, ArenaKind::SatNodeExtDatas])
        } else {
            new.agrees_except(old, Set::<ArenaKind>::empty())
        }
    }
}

/// What asking `old` for the nominal handling data of the saturation node
/// `node` gives: the extension data is obtained first (see
/// `sat_ext_outcome`); then, when there is one, its nominal handling data,
/// made for `node` when missing and `create` is set.
pub open spec fn sat_nominal_handling_outcome(old: ProcessContext, new: ProcessContext, node: Id, create: bool, r: Id) -> bool {
    exists|mid: ProcessContext, ext: Id| {
        &&& #[trigger] sat_ext_outcome(old, mid, node, create, ext)
        &&& if ext is NONE {
            r is NONE && new.agrees_except(mid, Set::<ArenaKind>::empty())
        } else {
            let e = mid.indi_sat_node_ext_datas@[ext.index()];
            let datas = mid.sat_nominal_handling_datas@;
            &&& r == lazy_handle(e.nominal_handling_data, create, datas.len())
            &&& if e.nominal_handling_data is NONE && create {
                &&& new.sat_nominal_handling_datas@ == datas.push(SaturationIndividualNodeNominalHandlingData {
                    indi_node: node,
                    succ_connected_nominal_set: Id::NONE,
                })
                &&& new.indi_sat_node_ext_datas@ == mid.indi_sat_node_ext_datas@.update(ext.index(),
                    IndividualSaturationProcessNodeExtensionData { nominal_handling_data: r, ..e })
                &&& new.agrees_except(mid, set![ArenaKind::SatNominalHandlingDatas, ArenaKind::SatNodeExtDatas])
            } else {
                new.agrees_except(mid, Set::<ArenaKind>::empty())
            }
        }
    }
}

/// What asking `old` for the successor-connected nominal set of the
/// saturation node `node` gives: the nominal handling data is obtained
/// first (see `sat_nominal_handling_outcome`); then, when there is one, its
/// set, made empty when missing and `create` is set.
pub open spec fn sat_nominal_set_outcome(old: ProcessContext, new: ProcessContext, node: Id, create: bool, r: Id) -> bool {
    exists|mid: ProcessContext, nh: Id| {
        &&& #[trigger] sat_nominal_handling_outcome(old, mid, node, create, nh)
        &&& if nh is NONE {
            r is NONE && new.agrees_except(mid, Set::<ArenaKind>::empty())
        } else {
            let h = mid.sat_nominal_handling_datas@[nh.index()];
            let sets = mid.nominal_conn_sets@;
            &&& r == lazy_handle(h.succ_connected_nominal_set, create, sets.len())
            &&& if h.succ_connected_nominal_set is NONE && create {
                &&& new.nominal_conn_sets@.len() == sets.len() + 1
                &&& new.nominal_conn_sets@.drop_last() == sets
                &&& new.nominal_conn_sets@.last().nominals@ == Set::<i64>::empty()
                &&& new.nominal_conn_sets@.last().nominals.elems@.len() == 0
                &&& new.sat_nominal_handling_datas@ == mid.sat_nominal_handling_datas@.update(nh.index(),
                    SaturationIndividualNodeNominalHandlingData { succ_connected_nominal_set: r, ..h })
                &&& new.agrees_except(mid, set![ArenaKind::NominalConnSets, ArenaKind::SatNominalHandlingDatas])
            } else {
                new.agrees_except(mid, Set::<ArenaKind>::empty())
            }
        }
    }
}

/// What asking `old` for the applied datatype of the saturation node
/// `node` gives: the extension data is obtained first (see
/// `sat_ext_outcome`); then, when there is one, its applied datatype data,
/// made for `node` when missing and `create` is set.
pub open spec fn sat_datatype_outcome(old: ProcessContext, new: ProcessContext, node: Id, create: bool, r: Id) -> bool {
    exists|mid: ProcessContext, ext: Id| {
        &&& #[trigger] sat_ext_outcome(old, mid, node, create, ext)
        &&& if ext is NONE {
            r is NONE && new.agrees_except(mid, Set::<ArenaKind>::empty())
        } else {
            let e = mid.indi_sat_node_ext_datas@[ext.index()];
            let datas = mid.sat_indi_node_datatype_datas@;
            &&& r == lazy_handle(e.applied_datatype_data, create, datas.len())
            &&& if e.applied_datatype_data is NONE && create {
                &&& new.sat_indi_node_datatype_datas@ == datas.push(SaturationIndividualNodeDatatypeData {
                    indi_node: node,
                    applied_data_literal: Id::NONE,
                    applied_datatype: Id::NONE,
                })
                &&& new.indi_sat_node_ext_datas@ == mid.indi_sat_node_ext_datas@.update(ext.index(),
                    IndividualSaturationProcessNodeExtensionData { applied_datatype_data: r, ..e })
                &&& new.agrees_except(mid, set![ArenaKind::SatDatatypeDatas, ArenaKind::SatNodeExtDatas])
            } else {
                new.agrees_except(mid, Set::<ArenaKind>::empty())
            }
        }
    }
}

/// Whether key `k` occurs among the first `i` entries of `entries`.
pub open spec fn key_seen<V>(entries: Seq<(Id, V)>, k: Id, i: int) -> bool {
    exists|j: int| 0 <= j < i && #[trigger] entries[j].0 == k
}

/// The state of a backward-propagation hash `nh` copied from `sh` whose
/// self-connected roles among `done` got their own link: every role keeps
/// its data without links, except that a self-connected role of a
/// self-connected hash in `done` links to a new link from `new_indi_node`
/// over that role, allocated at or after `links0_len` in `links`.
pub open spec fn back_sat_copy_state(
    sh: RoleBackwardSaturationPropagationHash,
    nh: RoleBackwardSaturationPropagationHash,
    links: Seq<BackwardSaturationPropagationLink>,
    links0_len: nat,
    new_indi_node: Id,
    done: spec_fn(Id) -> bool,
) -> bool {
    &&& nh.role_back_prop_data_hash@.dom() == sh.role_back_prop_data_hash@.dom()
    &&& forall|role: Id| #[trigger] sh.role_back_prop_data_hash@.contains_key(role) ==> {
        let d = sh.role_back_prop_data_hash@[role];
        let nd = nh.role_back_prop_data_hash@[role];
        &&& nd.reapply_linker == d.reapply_linker
        &&& nd.self_connected == d.self_connected
        &&& nd.role_predecessor_merging_queuing_required == d.role_predecessor_merging_queuing_required
        &&& nd.role_predecessor_merging_processing_queued == d.role_predecessor_merging_processing_queued
        &&& if sh.self_connected && d.self_connected && done(role) {
            &&& nd.link_linker is At
            &&& links0_len <= nd.link_linker.index() < links.len()
            &&& links[nd.link_linker.index()] == (BackwardSaturationPropagationLink {
                source_individual: new_indi_node,
                role: role,
                next: Id::NONE,
            })
        } else {
            nd.link_linker is NONE
        }
    }
}

/// What copying the backward-propagation hash `source` of `old` into the
/// hash `target` gives, as the context `new`: the target takes the roles of
/// the source with their data but without links, and the source's
/// self-connection flag; when the source is self-connected, each of its
/// self-connected roles gets a new link from `new_indi_node` over that
/// role. Only new links are added to the link arena.
pub open spec fn back_sat_copy_outcome(old: ProcessContext, new: ProcessContext, target: Id, source: Id, new_indi_node: Id) -> bool {
    let sh = old.role_backward_sat_prop_hashes@[source.index()];
    let th = old.role_backward_sat_prop_hashes@[target.index()];
    let nh = new.role_backward_sat_prop_hashes@[target.index()];
    let links0 = old.backward_sat_prop_links@;
    let links = new.backward_sat_prop_links@;
    &&& new.role_backward_sat_prop_hashes@ == old.role_backward_sat_prop_hashes@.update(target.index(), nh)
    &&& nh.context == th.context
    &&& nh.self_connected == sh.self_connected
    &&& back_sat_copy_state(sh, nh, links, links0.len(), new_indi_node, |role: Id| true)
    &&& links0.len() <= links.len()
    &&& forall|i: int| 0 <= i < links0.len() ==> #[trigger] links[i] == links0[i]
    &&& forall|i: int| links0.len() <= i < links.len()
        ==> (#[trigger] links[i]).source_individual == new_indi_node && links[i].next is NONE
    &&& new.agrees_except(old, set![ArenaKind::RoleBackSatPropHashes, ArenaKind::BackSatPropLinks])
}

/// The successor-connected nominal set that `node` reaches through its
/// extension data and nominal handling data, if any.
pub open spec fn sat_set_of(c: ProcessContext, node: Id) -> Id {
    let ext = c.sat_nodes@[node.index()].indi_extension_data;
    if ext is At {
        let nh = c.indi_sat_node_ext_datas@[ext.index()].nominal_handling_data;
        if nh is At { c.sat_nominal_handling_datas@[nh.index()].succ_connected_nominal_set } else { Id::NONE }
    } else {
        Id::NONE
    }
}

/// The applied datatype data that `node` reaches through its extension
/// data, if any.
pub open spec fn sat_dt_of(c: ProcessContext, node: Id) -> Id {
    let ext = c.sat_nodes@[node.index()].indi_extension_data;
    if ext is At { c.indi_sat_node_ext_datas@[ext.index()].applied_datatype_data } else { Id::NONE }
}

/// Every satellite handle of the saturation node `node` names an element
/// of its arena.
pub open spec fn sat_node_ok(c: ProcessContext, node: Id) -> bool {
    let n = c.sat_nodes@[node.index()];
    &&& valid_in(node, c.sat_nodes@.len())
    &&& n.role_back_prop_hash is At ==> valid_in(n.role_back_prop_hash, c.role_backward_sat_prop_hashes@.len())
    &&& n.reapply_con_sat_label_set is At ==> valid_in(n.reapply_con_sat_label_set, c.reapply_con_sat_label_sets@.len())
    &&& n.indi_extension_data is At ==> {
        let e = c.indi_sat_node_ext_datas@[n.indi_extension_data.index()];
        &&& valid_in(n.indi_extension_data, c.indi_sat_node_ext_datas@.len())
        &&& e.nominal_handling_data is At ==> {
            &&& valid_in(e.nominal_handling_data, c.sat_nominal_handling_datas@.len())
            &&& c.sat_nominal_handling_datas@[e.nominal_handling_data.index()].succ_connected_nominal_set is At
                ==> valid_in(c.sat_nominal_handling_datas@[e.nominal_handling_data.index()].succ_connected_nominal_set,
                    c.nominal_conn_sets@.len())
        }
        &&& e.applied_datatype_data is At ==> valid_in(e.applied_datatype_data, c.sat_indi_node_datatype_datas@.len())
    }
}

/// What initialising the saturation node `target` of `old` as a copy of the
/// node `source` gives, as the context `new`.
pub open spec fn sat_coping_outcome(
    old: ProcessContext,
    new: ProcessContext,
    target: Id,
    source: Id,
    try_flat_label_copy: bool,
    additional_copy_size: usize,
) -> bool {
    let s = old.sat_nodes@[source.index()];
    let t = old.sat_nodes@[target.index()];
    let ns = new.sat_nodes@[source.index()];
    let nt = new.sat_nodes@[target.index()];
    &&& s.role_back_prop_hash is At ==> {
        let sh = old.role_backward_sat_prop_hashes@[s.role_back_prop_hash.index()];
        let th = new.role_backward_sat_prop_hashes@[nt.role_back_prop_hash.index()];
        &&& nt.role_back_prop_hash is At
        &&& valid_in(nt.role_back_prop_hash, new.role_backward_sat_prop_hashes@.len())
        &&& th.self_connected == sh.self_connected
        &&& back_sat_copy_state(sh, th, new.backward_sat_prop_links@, old.backward_sat_prop_links@.len(), target,
            |role: Id| true)
    }
    &&& s.role_back_prop_hash is NONE ==> nt.role_back_prop_hash == t.role_back_prop_hash
    &&& s.reapply_con_sat_label_set is At ==> {
        let sl = old.reapply_con_sat_label_sets@[s.reapply_con_sat_label_set.index()];
        let tl = new.reapply_con_sat_label_sets@[nt.reapply_con_sat_label_set.index()];
        &&& nt.reapply_con_sat_label_set is At
        &&& valid_in(nt.reapply_con_sat_label_set, new.reapply_con_sat_label_sets@.len())
        &&& tl.concept_count == sl.concept_count
        &&& tl.totel_count == sl.totel_count
        &&& tl.concept_flags == sl.concept_flags
        &&& tl.concept_sat_des_linker == sl.concept_sat_des_linker
        &&& tl.last_nominal_indep_con_sat_des == sl.last_nominal_indep_con_sat_des
        &&& if flattens_on_copy(&sl, try_flat_label_copy, additional_copy_size) {
            &&& tl.concept_des_dep_hash.entries@.len() == 0
            &&& tl.has_additional_concept_des_dep_hash
            &&& tl.additional_concept_des_dep_hash@ == flattened_additional(&sl)
        } else {
            &&& tl.concept_des_dep_hash.entries@ == sl.concept_des_dep_hash.entries@
            &&& tl.additional_concept_des_dep_hash.entries@ == sl.additional_concept_des_dep_hash.entries@
            &&& tl.has_additional_concept_des_dep_hash == sl.has_additional_concept_des_dep_hash
        }
    }
    &&& s.reapply_con_sat_label_set is NONE ==> nt.reapply_con_sat_label_set == t.reapply_con_sat_label_set
    &&& sat_set_of(old, source) is At ==> {
        &&& sat_set_of(new, target) is At
        &&& valid_in(sat_set_of(new, target), new.nominal_conn_sets@.len())
        &&& new.nominal_conn_sets@[sat_set_of(new, target).index()].nominals.elems@
            == old.nominal_conn_sets@[sat_set_of(old, source).index()].nominals.elems@
    }
    &&& nt.integrated_nominal_indi == (if t.nominal_indi is At {
        t.nominal_indi
    } else if s.nominal_indi is At {
        s.nominal_indi
    } else {
        s.integrated_nominal_indi
    })
    &&& nt.nominal_indi == t.nominal_indi
    &&& nt.data_value_applied == s.data_value_applied
    &&& sat_dt_of(old, source) is At ==> {
        let sd = old.sat_indi_node_datatype_datas@[sat_dt_of(old, source).index()];
        let td = new.sat_indi_node_datatype_datas@[sat_dt_of(new, target).index()];
        &&& sat_dt_of(new, target) is At
        &&& valid_in(sat_dt_of(new, target), new.sat_indi_node_datatype_datas@.len())
        &&& td.applied_data_literal == sd.applied_data_literal
        &&& td.applied_datatype == sd.applied_datatype
    }
    &&& ns.copy_depending_individual_node_linkers@
        == s.copy_depending_individual_node_linkers@.push(NegLink { target: target, negated: true })
    &&& target != source ==> nt.copy_depending_individual_node_linkers@ == t.copy_depending_individual_node_linkers@
    &&& target != source ==> ns.same_but_copy_dependents(&s)
    &&& new.sat_nodes@.len() == old.sat_nodes@.len()
    &&& forall|i: int| 0 <= i < old.sat_nodes@.len() && i != source.index() && i != target.index()
        ==> #[trigger] new.sat_nodes@[i] == old.sat_nodes@[i]
    &&& new.agrees_except(old, set![ArenaKind::SatNodes, ArenaKind::SatNodeExtDatas, ArenaKind::SatNominalHandlingDatas,
        ArenaKind::NominalConnSets, ArenaKind::SatDatatypeDatas, ArenaKind::RoleBackSatPropHashes,
        ArenaKind::BackSatPropLinks, ArenaKind::ReapplyConSatLabelSets])
}

/// The saturation node `target` of `new` is the one of `old` except for
/// the fields named: its backward-propagation hash when `hash`, its reapply
/// label when `label`, its extension data when `ext`, its integration and
/// data-value flag when `fields`; every other node is kept, and both
/// `target` and `source` keep valid satellite handles.
pub open spec fn sat_step_frame(old: ProcessContext, new: ProcessContext, target: Id, source: Id,
    hash: bool, label: bool, ext: bool, fields: bool) -> bool {
    let t = old.sat_nodes@[target.index()];
    let nt = new.sat_nodes@[target.index()];
    &&& sat_node_ok(new, target)
    &&& sat_node_ok(new, source)
    &&& new.sat_nodes@.len() == old.sat_nodes@.len()
    &&& forall|i: int| 0 <= i < old.sat_nodes@.len() && i != target.index()
        ==> #[trigger] new.sat_nodes@[i] == old.sat_nodes@[i]
    &&& !hash ==> nt.role_back_prop_hash == t.role_back_prop_hash
    &&& !label ==> nt.reapply_con_sat_label_set == t.reapply_con_sat_label_set
    &&& !ext ==> nt.indi_extension_data == t.indi_extension_data
    &&& !fields ==> nt.integrated_nominal_indi == t.integrated_nominal_indi
    &&& !fields ==> nt.data_value_applied == t.data_value_applied
    &&& nt.nominal_indi == t.nominal_indi
    &&& nt.copy_depending_individual_node_linkers@ == t.copy_depending_individual_node_linkers@
    &&& old.indi_sat_node_ext_datas@.len() <= new.indi_sat_node_ext_datas@.len()
    &&& old.sat_nominal_handling_datas@.len() <= new.sat_nominal_handling_datas@.len()
    &&& old.nominal_conn_sets@.len() <= new.nominal_conn_sets@.len()
    &&& old.sat_indi_node_datatype_datas@.len() <= new.sat_indi_node_datatype_datas@.len()
    &&& old.role_backward_sat_prop_hashes@.len() <= new.role_backward_sat_prop_hashes@.len()
    &&& old.reapply_con_sat_label_sets@.len() <= new.reapply_con_sat_label_sets@.len()
}

/// `new` is `old` with one element added at its end.
pub open spec fn pushed_one<T>(old: Seq<T>, new: Seq<T>) -> bool {
    &&& new.len() == old.len() + 1
    &&& forall|i: int| 0 <= i < old.len() ==> #[trigger] new[i] == old[i]
}

/// The element that `prev` names in `s`, if it names one.
pub open spec fn named<T>(s: Seq<T>, prev: Id) -> Option<T> {
    if prev is At { Some(s[prev.index()]) } else { None }
}

/// `s` holds the review queues of `prev`, or empty queues.
pub open spec fn review_set_inherits(s: SignatureBlockingReviewSet, prev: Option<SignatureBlockingReviewSet>) -> bool {
    match prev {
        Some(p) => {
            &&& s.subset_reviews.individual_set@ == p.subset_reviews.individual_set@
            &&& s.subset_reviews.depth_individual_map@ == p.subset_reviews.depth_individual_map@
            &&& s.non_subset_reviews.individual_set@ == p.non_subset_reviews.individual_set@
            &&& s.non_subset_reviews.depth_individual_map@ == p.non_subset_reviews.depth_individual_map@
        },
        None => {
            &&& s.subset_reviews.individual_set@ == Set::<i64>::empty()
            &&& s.subset_reviews.depth_individual_map@.len() == 0
            &&& s.non_subset_reviews.individual_set@ == Set::<i64>::empty()
            &&& s.non_subset_reviews.depth_individual_map@.len() == 0
        },
    }
}

/// `s` holds the reviewed individuals and the review queue of `prev`, or
/// none.
pub open spec fn reusing_review_inherits(s: ReusingReviewData, prev: Option<ReusingReviewData>) -> bool {
    match prev {
        Some(p) => s.individual_set@ == p.individual_set@ && s.depth_individual_map@ == p.depth_individual_map@,
        None => s.individual_set@ == Set::<i64>::empty() && s.depth_individual_map@.len() == 0,
    }
}

/// `s` holds the blocking state, the counts, the dependency and the last
/// expansions of `prev`, or none, and no failed reuse.
pub open spec fn reusing_expansion_inherits(
    s: ReusingIndividualNodeConceptExpansionData,
    prev: Option<ReusingIndividualNodeConceptExpansionData>,
) -> bool {
    &&& s.reused_individuals@ == Set::<i64>::empty()
    &&& s.reused_concept_set_signatures@ == Set::<i64>::empty()
    &&& match prev {
        Some(p) => {
            &&& s.blocking_expansion_data == p.blocking_expansion_data
            &&& s.reusing_tried_count == p.reusing_tried_count
            &&& s.reusing_failed_count == p.reusing_failed_count
            &&& s.reuse_concepts_dependency_track_point == p.reuse_concepts_dependency_track_point
            &&& s.last_non_det_expansion_linker@ == p.last_non_det_expansion_linker@
        },
        None => s.is_initial(),
    }
}

/// `s` holds the expansion control state of `prev`, or the initial state.
pub open spec fn controlling_inherits(
    s: BackendNeighbourExpansionControllingData,
    prev: Option<BackendNeighbourExpansionControllingData>,
) -> bool {
    match prev {
        Some(c) => {
            &&& s.expanded_neighbour_link_count == c.expanded_neighbour_link_count
            &&& s.reuse_modes_dep_node == c.reuse_modes_dep_node
            &&& s.fixed_reuse_expansion_mode == c.fixed_reuse_expansion_mode
            &&& s.prioritized_reuse_expansion_mode == c.prioritized_reuse_expansion_mode
            &&& s.reuse_continuing_dependency_track_point == c.reuse_continuing_dependency_track_point
            &&& s.last_backend_expanded_ensuring_existing_individual_links_linker@
                == c.last_backend_expanded_ensuring_existing_individual_links_linker@
            &&& s.cut_backend_neighbour_expansion_individual_linker@ == c.cut_backend_neighbour_expansion_individual_linker@
            &&& s.last_cut_backend_neighbour_expansion_ensuring_existing_individual_links_linker@
                == c.last_cut_backend_neighbour_expansion_ensuring_existing_individual_links_linker@
        },
        None => s.is_initial(),
    }
}

/// `s` holds the synchronisation state of `prev`, or the initial state.
pub open spec fn sync_inherits(
    s: IndividualNodeBackendCacheSynchronisationData,
    prev: Option<IndividualNodeBackendCacheSynchronisationData>,
) -> bool {
    match prev {
        Some(p) => s.same_state(&p),
        None => s.is_initial(),
    }
}

/// The tree a task starts from `prev`: without a current node, continuing
/// from the last current node, root and base dependency of `prev`.
pub open spec fn tree_from(prev: Option<BranchingTree>) -> BranchingTree {
    match prev {
        Some(t) => BranchingTree {
            process_context: INVALID,
            root_node: t.root_node,
            curr_node: Id::NONE,
            prev_curr_node: t.prev_curr_node,
            base_dep_node: t.base_dep_node,
        },
        None => BranchingTree::spec_new(INVALID),
    }
}

/// A root branch node stored at `id` for task `task`.
pub open spec fn root_branch_node(id: Id, task: Cint64) -> BranchTreeNode {
    BranchTreeNode { parent: Id::NONE, root: id, branching_level: 0, sat_calc_task: task }
}

/// The branch node stored at `id` that stands for `copy` (stored at
/// `copy_id`) in task `task`: same parent and level; its own root when
/// `copy` was its own root.
pub open spec fn copied_branch_node(copy: BranchTreeNode, copy_id: Id, id: Id, task: Cint64) -> BranchTreeNode {
    BranchTreeNode {
        parent: copy.parent,
        root: if copy.root == copy_id { id } else { copy.root },
        branching_level: copy.branching_level,
        sat_calc_task: task,
    }
}

/// A child of `parent` (stored at `parent_id`) for task `task`: one level
/// deeper, under the same root.
pub open spec fn child_branch_node(parent: BranchTreeNode, parent_id: Id, task: Cint64) -> BranchTreeNode {
    BranchTreeNode {
        parent: parent_id,
        root: parent.root,
        branching_level: (parent.branching_level + 1) as i64,
        sat_calc_task: task,
    }
}

/// The tree, the branch nodes and the current node after asking tree `t`
/// for the branch node of task `task`: the current node, replaced by a copy
/// when it belongs to another task, and followed by a new child when
/// `force` asks for one; without a current node, a child of the last
/// current node, or a new root.
pub open spec fn branch_step(t: BranchingTree, nodes: Seq<BranchTreeNode>, task: Cint64, force: bool)
    -> (BranchingTree, Seq<BranchTreeNode>, Id)
{
    if t.curr_node is At {
        let c = nodes[t.curr_node.index()];
        let copied = c.sat_calc_task != task;
        let id1 = Id::At(nodes.len() as usize);
        let n1 = copied_branch_node(c, t.curr_node, id1, task);
        let t1 = if copied {
            BranchingTree {
                curr_node: id1,
                prev_curr_node: id1,
                root_node: if n1.parent is NONE { id1 } else { t.root_node },
                ..t
            }
        } else {
            t
        };
        let nodes1 = if copied { nodes.push(n1) } else { nodes };
        let cur = if copied { id1 } else { t.curr_node };
        if force {
            let id2 = Id::At(nodes1.len() as usize);
            (BranchingTree { curr_node: id2, prev_curr_node: id2, ..t1 },
                nodes1.push(child_branch_node(nodes1[cur.index()], cur, task)), id2)
        } else {
            (t1, nodes1, cur)
        }
    } else {
        let id = Id::At(nodes.len() as usize);
        if t.prev_curr_node is At {
            (BranchingTree { curr_node: id, prev_curr_node: id, ..t },
                nodes.push(child_branch_node(nodes[t.prev_curr_node.index()], t.prev_curr_node, task)), id)
        } else {
            (BranchingTree { curr_node: id, prev_curr_node: id, root_node: id, ..t },
                nodes.push(root_branch_node(id, task)), id)
        }
    }
}

/// What asking tree `tree_id` for its base dependency node leaves: `r` and
/// the context `new_ctx` after the call on `old_ctx`.
pub open spec fn base_dep_outcome(old_ctx: ProcessContext, new_ctx: ProcessContext, tree_id: Id, create: bool, r: Id) -> bool {
    let t = old_ctx.branching_trees@[tree_id.index()];
    if t.base_dep_node is NONE && create {
        &&& r == Id::At(old_ctx.dep_nodes@.len() as usize)
        &&& new_ctx.dep_nodes@ == old_ctx.dep_nodes@.push(DependencyNode { independent_base: true })
        &&& new_ctx.branching_trees@ == old_ctx.branching_trees@.update(tree_id.index(),
            BranchingTree { base_dep_node: r, ..t })
        &&& new_ctx.agrees_except(old_ctx, set![ArenaKind::BranchingTrees, ArenaKind::DepNodes])
    } else {
        &&& r == t.base_dep_node
        &&& new_ctx.agrees_except(old_ctx, Set::empty())
    }
}

impl ProcessContext {
    /// The number of individual nodes.
    pub fn node_count(&self) -> (r: usize)
        ensures
            r == self.nodes@.len(),
    {
        self.nodes.len()
    }

    /// The number of concept descriptors.
    pub fn con_desc_count(&self) -> (r: usize)
        ensures
            r == self.con_descs@.len(),
    {
        self.con_descs.len()
    }

    /// Adds a review set holding the queues of review set `prev`, if
    /// present.
    pub fn alloc_signature_blocking_review_set_from_prev(&mut self, prev: Id) -> (r: Id)
        requires
            old(self).signature_blocking_review_sets@.len() < usize::MAX,
            prev is At ==> valid_in(prev, old(self).signature_blocking_review_sets@.len()),
        ensures
            r == Id::At(old(self).signature_blocking_review_sets@.len() as usize),
            pushed_one(old(self).signature_blocking_review_sets@, final(self).signature_blocking_review_sets@),
            review_set_inherits(final(self).signature_blocking_review_sets@[r.index()],
                named(old(self).signature_blocking_review_sets@, prev)),
            final(self).agrees_except(*old(self), set![ArenaKind::SigBlockReviewSets]),
    {
        let mut set = SignatureBlockingReviewSet::new();
        if prev.is_some() {
            set.init_signature_blocking_review_set(Some(self.signature_blocking_review_set(prev)));
        } else {
            set.init_signature_blocking_review_set(None);
        }
        self.alloc_signature_blocking_review_set(set)
    }

    /// Adds reusing review data holding the reviews of `prev`, if present.
    pub fn alloc_reusing_review_data_from_prev(&mut self, prev: Id) -> (r: Id)
        requires
            old(self).reusing_review_datas@.len() < usize::MAX,
            prev is At ==> valid_in(prev, old(self).reusing_review_datas@.len()),
        ensures
            r == Id::At(old(self).reusing_review_datas@.len() as usize),
            pushed_one(old(self).reusing_review_datas@, final(self).reusing_review_datas@),
            reusing_review_inherits(final(self).reusing_review_datas@[r.index()],
                named(old(self).reusing_review_datas@, prev)),
            final(self).agrees_except(*old(self), set![ArenaKind::ReusingReviewDatas]),
    {
        let mut data = ReusingReviewData::new();
        if prev.is_some() {
            data.init_review_data(Some(self.reusing_review_data(prev)));
        } else {
            data.init_review_data(None);
        }
        self.alloc_reusing_review_data(data)
    }

    /// Adds a branching tree started from tree `prev`, if present.
    pub fn alloc_branching_tree_from_prev(&mut self, prev: Id) -> (r: Id)
        requires
            old(self).branching_trees@.len() < usize::MAX,
            prev is At ==> valid_in(prev, old(self).branching_trees@.len()),
        ensures
            r == Id::At(old(self).branching_trees@.len() as usize),
            final(self).branching_trees@ == old(self).branching_trees@.push(
                tree_from(named(old(self).branching_trees@, prev))),
            final(self).agrees_except(*old(self), set![ArenaKind::BranchingTrees]),
    {
        let mut tree = BranchingTree::new(INVALID);
        if prev.is_some() {
            tree.init_branching_tree(Some(self.branching_tree(prev)));
        } else {
            tree.init_branching_tree(None);
        }
        self.alloc_branching_tree(tree)
    }

    /// Adds reusing expansion data started from data `prev`, if present.
    pub fn alloc_reusing_con_exp_data_from_prev(&mut self, prev: Id) -> (r: Id)
        requires
            old(self).reusing_con_exp_datas@.len() < usize::MAX,
            prev is At ==> valid_in(prev, old(self).reusing_con_exp_datas@.len()),
        ensures
            r == Id::At(old(self).reusing_con_exp_datas@.len() as usize),
            pushed_one(old(self).reusing_con_exp_datas@, final(self).reusing_con_exp_datas@),
            reusing_expansion_inherits(final(self).reusing_con_exp_datas@[r.index()],
                named(old(self).reusing_con_exp_datas@, prev)),
            final(self).agrees_except(*old(self), set![ArenaKind::ReusingConExpDatas]),
    {
        let mut data = ReusingIndividualNodeConceptExpansionData::new();
        if prev.is_some() {
            data.init_reusing_expansion_data(Some(self.reusing_con_exp_data(prev)));
        } else {
            data.init_reusing_expansion_data(None);
        }
        self.alloc_reusing_con_exp_data(data)
    }

    /// Adds neighbour-expansion controlling data started from data `prev`,
    /// if present.
    pub fn alloc_backend_neighbour_expansion_controlling_data_from_prev(&mut self, prev: Id) -> (r: Id)
        requires
            old(self).backend_neighbour_expansion_controlling_datas@.len() < usize::MAX,
            prev is At ==> valid_in(prev, old(self).backend_neighbour_expansion_controlling_datas@.len()),
        ensures
            r == Id::At(old(self).backend_neighbour_expansion_controlling_datas@.len() as usize),
            pushed_one(old(self).backend_neighbour_expansion_controlling_datas@,
                final(self).backend_neighbour_expansion_controlling_datas@),
            controlling_inherits(final(self).backend_neighbour_expansion_controlling_datas@[r.index()],
                named(old(self).backend_neighbour_expansion_controlling_datas@, prev)),
            final(self).agrees_except(*old(self), set![ArenaKind::BackendControllingDatas]),
    {
        let mut data = BackendNeighbourExpansionControllingData::new();
        if prev.is_some() {
            data.init_expansion_controlling_data(Some(self.backend_neighbour_expansion_controlling_data(prev)));
        } else {
            data.init_expansion_controlling_data(None);
        }
        self.alloc_backend_neighbour_expansion_controlling_data(data)
    }

    /// Adds backend synchronisation data started from the snapshot `prev`,
    /// if present.
    pub fn alloc_backend_sync_data_from_prev(&mut self, prev: Id) -> (r: Id)
        requires
            old(self).backend_sync_datas@.len() < usize::MAX,
            prev is At ==> valid_in(prev, old(self).backend_sync_datas@.len()),
        ensures
            r == Id::At(old(self).backend_sync_datas@.len() as usize),
            pushed_one(old(self).backend_sync_datas@, final(self).backend_sync_datas@),
            sync_inherits(final(self).backend_sync_datas@[r.index()], named(old(self).backend_sync_datas@, prev)),
            final(self).agrees_except(*old(self), set![ArenaKind::BackendSyncDatas]),
    {
        let mut data = IndividualNodeBackendCacheSynchronisationData::new();
        if prev.is_some() {
            data.init_synchronisation_data(Some(self.backend_sync_data(prev)));
        } else {
            data.init_synchronisation_data(None);
        }
        self.alloc_backend_sync_data(data)
    }

    /// Adds node `candidate_indi` to candidate data `data`, keyed by its
    /// negated individual identifier.
    pub fn blocking_indi_node_cand_data_insert_blocking_candidate_individual_node(
        &mut self,
        data: Id,
        candidate_indi: NodeId,
    )
        requires
            valid_in(data, old(self).blocking_indi_node_cand_datas@.len()),
            valid_in(candidate_indi, old(self).nodes@.len()),
            old(self).nodes@[candidate_indi.index()].individual_node_id != i64::MIN,
        ensures
            ({
                let d = old(self).blocking_indi_node_cand_datas@[data.index()];
                let e = final(self).blocking_indi_node_cand_datas@[data.index()];
                &&& e.candidate_indi_map@ == d.candidate_indi_map@.insert(
                    -old(self).nodes@[candidate_indi.index()].individual_node_id as i64, candidate_indi)
                &&& (ascending(d.candidate_indi_map.entries@) ==> ascending(e.candidate_indi_map.entries@))
                &&& e.node_switch_tag == d.node_switch_tag
                &&& e.modification_tag == d.modification_tag
                &&& e.max_valid_individual_id == d.max_valid_individual_id
                &&& e.context == d.context
                &&& e.mem_man == d.mem_man
            }),
            final(self).blocking_indi_node_cand_datas@.len() == old(self).blocking_indi_node_cand_datas@.len(),
            forall|i: int| 0 <= i < old(self).blocking_indi_node_cand_datas@.len() && i != data.index()
                ==> #[trigger] final(self).blocking_indi_node_cand_datas@[i] == old(self).blocking_indi_node_cand_datas@[i],
            final(self).agrees_except(*old(self), set![ArenaKind::BlockingCandDatas]),
    {
        let candidate_individual_id = self.node(candidate_indi).individual_node_id();
        self.blocking_indi_node_cand_data_mut(data).candidate_indi_map.insert(-candidate_individual_id, candidate_indi);
    }

    /// Puts a new linker of node `candidate_indi` in front of the candidate
    /// chain of linked data `data` and counts it.
    pub fn blocking_indi_node_linked_cand_data_add_blocking_candidate_individual_node(
        &mut self,
        data: Id,
        candidate_indi: NodeId,
    )
        requires
            valid_in(data, old(self).blocking_indi_node_linked_cand_datas@.len()),
            old(self).blocking_indi_node_linkers@.len() < usize::MAX,
            old(self).blocking_indi_node_linked_cand_datas@[data.index()].candidate_count < i64::MAX,
        ensures
            ({
                let d = old(self).blocking_indi_node_linked_cand_datas@[data.index()];
                let l = Id::At(old(self).blocking_indi_node_linkers@.len() as usize);
                &&& final(self).blocking_indi_node_linkers@ == old(self).blocking_indi_node_linkers@.push(
                    BlockingIndividualNodeLinker {
                        candidate_individual_node: candidate_indi,
                        next: d.cand_linker,
                        last_failed_subset_con_des: Id::NONE,
                    })
                &&& final(self).blocking_indi_node_linked_cand_datas@ == old(self).blocking_indi_node_linked_cand_datas@.update(
                    data.index(),
                    BlockingIndividualNodeLinkedCandidateData { cand_linker: l, candidate_count: (d.candidate_count + 1) as i64, ..d })
            }),
            final(self).agrees_except(*old(self),
                set![ArenaKind::BlockingLinkers, ArenaKind::BlockingLinkedCandDatas]),
    {
        let mut fresh = BlockingIndividualNodeLinker::new();
        fresh.init_blocking_individual_node_linker(candidate_indi);
        let linker = self.alloc_blocking_indi_node_linker(fresh);
        let old_head = self.blocking_indi_node_linked_cand_data(data).get_blocking_candidates_individual_node_linker();
        self.blocking_indi_node_linker_mut(linker).append(old_head);
        let data_ref = self.blocking_indi_node_linked_cand_data_mut(data);
        data_ref.cand_linker = linker;
        data_ref.candidate_count = data_ref.candidate_count + 1;
    }

    /// The current branch node of tree `tree_id` for task `sat_calc_task`
    /// (see [`branch_step`]).
    pub fn branching_tree_branch_tree_node(
        &mut self,
        tree_id: Id,
        sat_calc_task: Cint64,
        force_branch_creation: bool,
    ) -> (r: BranchNodeId)
        requires
            valid_in(tree_id, old(self).branching_trees@.len()),
            old(self).branch_nodes@.len() + 2 < usize::MAX,
            ({
                let t = old(self).branching_trees@[tree_id.index()];
                let nodes = old(self).branch_nodes@;
                &&& t.curr_node is At ==> valid_in(t.curr_node, nodes.len())
                &&& t.curr_node is At && force_branch_creation
                    ==> nodes[t.curr_node.index()].branching_level < i64::MAX
                &&& t.curr_node is NONE && t.prev_curr_node is At ==> valid_in(t.prev_curr_node, nodes.len())
                    && nodes[t.prev_curr_node.index()].branching_level < i64::MAX
            }),
        ensures
            ({
                let step = branch_step(old(self).branching_trees@[tree_id.index()], old(self).branch_nodes@,
                    sat_calc_task, force_branch_creation);
                &&& final(self).branching_trees@ == old(self).branching_trees@.update(tree_id.index(), step.0)
                &&& final(self).branch_nodes@ == step.1
                &&& r == step.2
            }),
            final(self).agrees_except(*old(self), set![ArenaKind::BranchingTrees, ArenaKind::BranchNodes]),
    {
        let ghost t0 = self.branching_trees@[tree_id.index()];
        let ghost nodes0 = self.branch_nodes@;
        let mut curr_node = self.branching_tree(tree_id).curr_node;
        if curr_node.is_some() {
            let c = *self.branch_node(curr_node);
            if c.sat_calc_task != sat_calc_task {
                let id = Id::new(self.branch_nodes.len());
                let copy = BranchTreeNode {
                    parent: c.parent,
                    root: if c.root == curr_node { id } else { c.root },
                    branching_level: c.branching_level,
                    sat_calc_task,
                };
                let branch_node = self.alloc_branch_node(copy);
                let tree = self.branching_tree_mut(tree_id);
                tree.curr_node = branch_node;
                tree.prev_curr_node = branch_node;
                if copy.parent.is_none() {
                    tree.root_node = branch_node;
                }
                curr_node = branch_node;
            }
            if force_branch_creation {
                let p = *self.branch_node(curr_node);
                let child = BranchTreeNode {
                    parent: curr_node,
                    root: p.root,
                    branching_level: p.branching_level + 1,
                    sat_calc_task,
                };
                let branch_node = self.alloc_branch_node(child);
                let tree = self.branching_tree_mut(tree_id);
                tree.curr_node = branch_node;
                tree.prev_curr_node = branch_node;
                curr_node = branch_node;
            }
        } else {
            let prev_curr_node = self.branching_tree(tree_id).prev_curr_node;
            let branch_node = if prev_curr_node.is_some() {
                let p = *self.branch_node(prev_curr_node);
                let child = BranchTreeNode {
                    parent: prev_curr_node,
                    root: p.root,
                    branching_level: p.branching_level + 1,
                    sat_calc_task,
                };
                self.alloc_branch_node(child)
            } else {
                let id = Id::new(self.branch_nodes.len());
                let branch_node = self.alloc_branch_node(
                    BranchTreeNode { parent: Id::NONE, root: id, branching_level: 0, sat_calc_task });
                self.branching_tree_mut(tree_id).root_node = branch_node;
                branch_node
            };
            let tree = self.branching_tree_mut(tree_id);
            tree.curr_node = branch_node;
            tree.prev_curr_node = branch_node;
            curr_node = branch_node;
        }
        proof {
            let step = branch_step(t0, nodes0, sat_calc_task, force_branch_creation);
            assert(self.branching_trees@ =~= old(self).branching_trees@.update(tree_id.index(), step.0));
            assert(self.branch_nodes@ =~= step.1);
        }
        curr_node
    }

    /// Allocates a branch node for task `sat_calc_task`: a child of
    /// `parent_branch_tree_node`, one level deeper under the same root, or a
    /// new root at level 0 when there is no parent.
    pub fn alloc_branch_child_node(&mut self, parent_branch_tree_node: BranchNodeId, sat_calc_task: Cint64) -> (r: BranchNodeId)
        requires
            old(self).branch_nodes@.len() < usize::MAX,
            parent_branch_tree_node is At ==> valid_in(parent_branch_tree_node, old(self).branch_nodes@.len()),
            parent_branch_tree_node is At
                ==> old(self).branch_nodes@[parent_branch_tree_node.index()].branching_level < i64::MAX,
        ensures
            r == Id::At(old(self).branch_nodes@.len() as usize),
            final(self).branch_nodes@ == old(self).branch_nodes@.push(if parent_branch_tree_node is At {
                BranchTreeNode {
                    parent: parent_branch_tree_node,
                    root: old(self).branch_nodes@[parent_branch_tree_node.index()].root,
                    branching_level: (old(self).branch_nodes@[parent_branch_tree_node.index()].branching_level + 1) as i64,
                    sat_calc_task: sat_calc_task,
                }
            } else {
                BranchTreeNode { parent: Id::NONE, root: r, branching_level: 0, sat_calc_task: sat_calc_task }
            }),
            final(self).agrees_except(*old(self), set![ArenaKind::BranchNodes]),
    {
        let id = Id::new(self.branch_nodes.len());
        let node = if parent_branch_tree_node.is_some() {
            let p = *self.branch_node(parent_branch_tree_node);
            BranchTreeNode {
                parent: parent_branch_tree_node,
                root: p.root,
                branching_level: p.branching_level + 1,
                sat_calc_task,
            }
        } else {
            BranchTreeNode { parent: Id::NONE, root: id, branching_level: 0, sat_calc_task }
        };
        self.alloc_branch_node(node)
    }

    /// The base dependency node of tree `tree_id`; with `create`, a tree
    /// without one gets a new independent base dependency node.
    pub fn branching_tree_base_dependency_node(&mut self, tree_id: Id, create: bool) -> (r: DependencyId)
        requires
            valid_in(tree_id, old(self).branching_trees@.len()),
            old(self).dep_nodes@.len() < usize::MAX,
        ensures
            base_dep_outcome(*old(self), *final(self), tree_id, create, r),
    {
        let base_dep_node = self.branching_tree(tree_id).base_dep_node;
        if base_dep_node.is_none() && create {
            let mut node = DependencyNode::new();
            node.init_independent_base_dependency_node();
            let dep_node = self.alloc_dep_node(node);
            self.branching_tree_mut(tree_id).base_dep_node = dep_node;
            dep_node
        } else {
            base_dep_node
        }
    }

    /// The blocking-follow set in use at node `node` and what it holds once
    /// a set has been localised there: a node without a localised set gets
    /// the next free handle and the followers of the parent's set.
    pub open spec fn localized_follow_set(self, node: Id) -> (Id, Set<i64>) {
        let n = self.nodes@[node.index()];
        if n.sig_block_follow_set is NONE {
            (Id::At(self.blocking_follow_sets@.len() as usize),
                if n.prev_sig_block_follow_set is At {
                    self.blocking_follow_sets@[n.prev_sig_block_follow_set.index()]@
                } else {
                    Set::<i64>::empty()
                })
        } else {
            (n.use_sig_block_follow_set, self.blocking_follow_sets@[n.use_sig_block_follow_set.index()]@)
        }
    }

    /// The update tag of the blocking-follow set in use at node `node` once
    /// a set has been localised there.
    pub open spec fn localized_follow_tag(self, node: Id) -> Cint64 {
        let n = self.nodes@[node.index()];
        if n.sig_block_follow_set is NONE {
            if n.prev_sig_block_follow_set is At {
                self.blocking_follow_sets@[n.prev_sig_block_follow_set.index()].update_tag.blocking_follow_tag
            } else {
                self.used_process_tagger.current_blocking_follow_tag
            }
        } else {
            self.blocking_follow_sets@[n.use_sig_block_follow_set.index()].update_tag.blocking_follow_tag
        }
    }

    /// The follow sets and nodes of `new` are those of `old` after localising
    /// a set at node `node`, with the set in use there holding `contents`.
    pub open spec fn follow_set_written(self, old: Self, node: Id, contents: Set<i64>) -> bool {
        let n = old.nodes@[node.index()];
        let h = old.localized_follow_set(node).0;
        let sets = old.blocking_follow_sets@;
        &&& self.blocking_follow_sets@.len() == (if n.sig_block_follow_set is NONE { sets.len() + 1 } else { sets.len() })
        &&& forall|i: int| 0 <= i < sets.len() && i != h.index() ==> #[trigger] self.blocking_follow_sets@[i] == sets[i]
        &&& self.blocking_follow_sets@[h.index()]@ == contents
        &&& self.blocking_follow_sets@[h.index()].update_tag.blocking_follow_tag == old.localized_follow_tag(node)
        &&& self.nodes@ == (if n.sig_block_follow_set is NONE {
            old.nodes@.update(node.index(), IndividualProcessNode { sig_block_follow_set: h, use_sig_block_follow_set: h, ..n })
        } else {
            old.nodes@
        })
        &&& self.agrees_except(old, set![ArenaKind::Nodes, ArenaKind::BlockingFollowSets])
    }

    /// The blocking-follow set in use at node `node`. With
    /// `create_or_localize`, a node without a localised set gets a new set
    /// with the followers and tag of the parent's set, or an empty set with
    /// the current tag of the tagger; it becomes localised and in use.
    pub fn node_blocking_follow_set(&mut self, node: NodeId, create_or_localize: bool) -> (r: Id)
        requires
            valid_in(node, old(self).nodes@.len()),
            old(self).blocking_follow_sets@.len() < usize::MAX,
            ({
                let n = old(self).nodes@[node.index()];
                create_or_localize && n.sig_block_follow_set is NONE && n.prev_sig_block_follow_set is At
                    ==> valid_in(n.prev_sig_block_follow_set, old(self).blocking_follow_sets@.len())
            }),
        ensures
            ({
                let n = old(self).nodes@[node.index()];
                let sets = old(self).blocking_follow_sets@;
                if n.sig_block_follow_set is NONE && create_or_localize {
                    &&& r == Id::At(sets.len() as usize)
                    &&& pushed_one(sets, final(self).blocking_follow_sets@)
                    &&& final(self).blocking_follow_sets@[r.index()]@ == old(self).localized_follow_set(node).1
                    &&& final(self).blocking_follow_sets@[r.index()].update_tag.blocking_follow_tag == (
                        if n.prev_sig_block_follow_set is At {
                            sets[n.prev_sig_block_follow_set.index()].update_tag.blocking_follow_tag
                        } else {
                            old(self).used_process_tagger.current_blocking_follow_tag
                        })
                    &&& final(self).nodes@ == old(self).nodes@.update(node.index(),
                        IndividualProcessNode { sig_block_follow_set: r, use_sig_block_follow_set: r, ..n })
                    &&& final(self).agrees_except(*old(self), set![ArenaKind::Nodes, ArenaKind::BlockingFollowSets])
                } else {
                    &&& r == n.use_sig_block_follow_set
                    &&& final(self).agrees_except(*old(self), Set::empty())
                }
            }),
    {
        let n = *self.node(node);
        if n.sig_block_follow_set.is_none() && create_or_localize {
            let current_tag = self.used_process_tagger().get_current_blocking_follow_tag();
            let mut new_set = BlockingFollowSet::new();
            if n.prev_sig_block_follow_set.is_some() {
                new_set.init_blocking_follow_set(Some(self.blocking_follow_set(n.prev_sig_block_follow_set)), current_tag);
            } else {
                new_set.init_blocking_follow_set(None, current_tag);
            }
            let new_set_id = self.alloc_blocking_follow_set(new_set);
            let nm = self.node_mut(node);
            nm.sig_block_follow_set = new_set_id;
            nm.use_sig_block_follow_set = new_set_id;
            new_set_id
        } else {
            n.use_sig_block_follow_set
        }
    }

    /// The blocking-follow set in use at node `node`, without localising.
    pub fn node_blocking_follow_set_existing(&self, node: NodeId) -> (r: Id)
        requires
            valid_in(node, self.nodes@.len()),
        ensures
            r == self.nodes@[node.index()].use_sig_block_follow_set,
    {
        self.node(node).use_sig_block_follow_set
    }

    /// Whether node `node` has a blocking-follow set in use with a follower.
    pub fn node_has_blocking_follower(&self, node: NodeId) -> (r: bool)
        requires
            valid_in(node, self.nodes@.len()),
            self.nodes@[node.index()].use_sig_block_follow_set is At
                ==> valid_in(self.nodes@[node.index()].use_sig_block_follow_set, self.blocking_follow_sets@.len()),
        ensures
            ({
                let f = self.nodes@[node.index()].use_sig_block_follow_set;
                r == (f is At && self.blocking_follow_sets@[f.index()]@ != Set::<i64>::empty())
            }),
    {
        let follow_set = self.node_blocking_follow_set_existing(node);
        if follow_set.is_some() {
            let empty = self.blocking_follow_set(follow_set).is_empty();
            proof {
                if !empty {
                    assert(self.blocking_follow_sets@[follow_set.index()]@ != Set::<i64>::empty());
                }
            }
            !empty
        } else {
            false
        }
    }

    /// Adds individual `individual_node_id` to the blocking-follow set of
    /// node `node`, localising the set first; tells whether it was new.
    pub fn node_add_blocking_follower(&mut self, node: NodeId, individual_node_id: Cint64) -> (r: bool)
        requires
            valid_in(node, old(self).nodes@.len()),
            old(self).blocking_follow_sets@.len() < usize::MAX,
            ({
                let n = old(self).nodes@[node.index()];
                &&& n.sig_block_follow_set is NONE && n.prev_sig_block_follow_set is At
                    ==> valid_in(n.prev_sig_block_follow_set, old(self).blocking_follow_sets@.len())
                &&& n.sig_block_follow_set is At
                    ==> valid_in(n.use_sig_block_follow_set, old(self).blocking_follow_sets@.len())
            }),
        ensures
            ({
                let (h, before) = old(self).localized_follow_set(node);
                &&& r == !before.contains(individual_node_id)
                &&& final(self).follow_set_written(*old(self), node, before.insert(individual_node_id))
            }),
    {
        let follow_set = self.node_blocking_follow_set(node, true);
        self.blocking_follow_set_mut(follow_set).insert(individual_node_id)
    }

    /// Removes individual `individual_node_id` from the blocking-follow set
    /// of node `node`, localising the set first; tells whether it was there.
    pub fn node_remove_blocking_follower(&mut self, node: NodeId, individual_node_id: Cint64) -> (r: bool)
        requires
            valid_in(node, old(self).nodes@.len()),
            old(self).blocking_follow_sets@.len() < usize::MAX,
            ({
                let n = old(self).nodes@[node.index()];
                &&& n.sig_block_follow_set is NONE && n.prev_sig_block_follow_set is At
                    ==> valid_in(n.prev_sig_block_follow_set, old(self).blocking_follow_sets@.len())
                &&& n.sig_block_follow_set is At
                    ==> valid_in(n.use_sig_block_follow_set, old(self).blocking_follow_sets@.len())
            }),
        ensures
            ({
                let (h, before) = old(self).localized_follow_set(node);
                &&& r == before.contains(individual_node_id)
                &&& final(self).follow_set_written(*old(self), node, before.remove(individual_node_id))
            }),
    {
        let follow_set = self.node_blocking_follow_set(node, true);
        self.blocking_follow_set_mut(follow_set).remove(individual_node_id)
    }

    /// The followers in the blocking-follow set in use at node `node`, or
    /// none without a set.
    pub fn node_blocking_followers(&self, node: NodeId) -> (r: Vec<Cint64>)
        requires
            valid_in(node, self.nodes@.len()),
            self.nodes@[node.index()].use_sig_block_follow_set is At
                ==> valid_in(self.nodes@[node.index()].use_sig_block_follow_set, self.blocking_follow_sets@.len()),
        ensures
            ({
                let f = self.nodes@[node.index()].use_sig_block_follow_set;
                r@ == (if f is At { self.blocking_follow_sets@[f.index()].follow_set.elems@ } else { Seq::<i64>::empty() })
            }),
    {
        let follow_set = self.node_blocking_follow_set_existing(node);
        if follow_set.is_some() {
            self.blocking_follow_set(follow_set).iter_snapshot()
        } else {
            Vec::new()
        }
    }

    /// The concept variable-binding path-set hash in use at node `node`; a
    /// node without a localised hash gets a new hash with the entries of the
    /// parent's hash, which becomes localised and in use.
    pub fn node_concept_variable_binding_path_set_hash(&mut self, node: NodeId) -> (r: Id)
        requires
            valid_in(node, old(self).nodes@.len()),
            old(self).con_var_bind_path_set_hashes@.len() < usize::MAX,
            ({
                let n = old(self).nodes@[node.index()];
                n.concept_var_bind_path_set_hash is NONE && n.prev_concept_var_bind_path_set_hash is At
                    ==> valid_in(n.prev_concept_var_bind_path_set_hash, old(self).con_var_bind_path_set_hashes@.len())
            }),
        ensures
            ({
                let n = old(self).nodes@[node.index()];
                let hashes = old(self).con_var_bind_path_set_hashes@;
                if n.concept_var_bind_path_set_hash is NONE {
                    let h = final(self).con_var_bind_path_set_hashes@[r.index()];
                    &&& r == Id::At(hashes.len() as usize)
                    &&& pushed_one(hashes, final(self).con_var_bind_path_set_hashes@)
                    &&& h.process_context == INVALID
                    &&& h.map@ == (if n.prev_concept_var_bind_path_set_hash is At {
                        hashes[n.prev_concept_var_bind_path_set_hash.index()].map@
                    } else {
                        Map::empty()
                    })
                    &&& h.last_var_bind_des_linker == (if n.prev_concept_var_bind_path_set_hash is At {
                        hashes[n.prev_concept_var_bind_path_set_hash.index()].last_var_bind_des_linker
                    } else {
                        Id::NONE
                    })
                    &&& final(self).nodes@ == old(self).nodes@.update(node.index(), IndividualProcessNode {
                        concept_var_bind_path_set_hash: r, use_concept_var_bind_path_set_hash: r, ..n })
                    &&& final(self).agrees_except(*old(self), set![ArenaKind::Nodes, ArenaKind::ConVarBindPathSetHashes])
                } else {
                    &&& r == n.use_concept_var_bind_path_set_hash
                    &&& final(self).agrees_except(*old(self), Set::empty())
                }
            }),
    {
        let n = *self.node(node);
        if n.concept_var_bind_path_set_hash.is_none() {
            let mut hash = ConceptVariableBindingPathSetHash::new(INVALID);
            if n.prev_concept_var_bind_path_set_hash.is_some() {
                hash.init_concept_variable_binding_path_set_hash(
                    Some(self.con_var_bind_path_set_hash(n.prev_concept_var_bind_path_set_hash)));
            } else {
                hash.init_concept_variable_binding_path_set_hash(None);
            }
            let new_id = self.alloc_con_var_bind_path_set_hash(hash);
            let nm = self.node_mut(node);
            nm.concept_var_bind_path_set_hash = new_id;
            nm.use_concept_var_bind_path_set_hash = new_id;
            new_id
        } else {
            n.use_concept_var_bind_path_set_hash
        }
    }

    /// The concept propagation-binding-set hash in use at node `node`; a
    /// node without a localised hash gets a new hash with the entries of the
    /// parent's hash, which becomes localised and in use.
    pub fn node_concept_propagation_binding_set_hash(&mut self, node: NodeId) -> (r: Id)
        requires
            valid_in(node, old(self).nodes@.len()),
            old(self).con_prop_binding_set_hashes@.len() < usize::MAX,
            ({
                let n = old(self).nodes@[node.index()];
                n.concept_prop_binding_set_hash is NONE && n.prev_concept_prop_binding_set_hash is At
                    ==> valid_in(n.prev_concept_prop_binding_set_hash, old(self).con_prop_binding_set_hashes@.len())
            }),
        ensures
            ({
                let n = old(self).nodes@[node.index()];
                let hashes = old(self).con_prop_binding_set_hashes@;
                if n.concept_prop_binding_set_hash is NONE {
                    let h = final(self).con_prop_binding_set_hashes@[r.index()];
                    &&& r == Id::At(hashes.len() as usize)
                    &&& pushed_one(hashes, final(self).con_prop_binding_set_hashes@)
                    &&& h.process_context == INVALID
                    &&& h.map@ == (if n.prev_concept_prop_binding_set_hash is At {
                        hashes[n.prev_concept_prop_binding_set_hash.index()].map@
                    } else {
                        Map::empty()
                    })
                    &&& h.last_propagation_binding_descriptor == (if n.prev_concept_prop_binding_set_hash is At {
                        hashes[n.prev_concept_prop_binding_set_hash.index()].last_propagation_binding_descriptor
                    } else {
                        Id::NONE
                    })
                    &&& final(self).nodes@ == old(self).nodes@.update(node.index(), IndividualProcessNode {
                        concept_prop_binding_set_hash: r, use_concept_prop_binding_set_hash: r, ..n })
                    &&& final(self).agrees_except(*old(self), set![ArenaKind::Nodes, ArenaKind::ConPropBindingSetHashes])
                } else {
                    &&& r == n.use_concept_prop_binding_set_hash
                    &&& final(self).agrees_except(*old(self), Set::empty())
                }
            }),
    {
        let n = *self.node(node);
        if n.concept_prop_binding_set_hash.is_none() {
            let mut hash = ConceptPropagationBindingSetHash::new(INVALID);
            if n.prev_concept_prop_binding_set_hash.is_some() {
                hash.init_concept_propagation_binding_set_hash(
                    Some(self.con_prop_binding_set_hash(n.prev_concept_prop_binding_set_hash)));
            } else {
                hash.init_concept_propagation_binding_set_hash(None);
            }
            let new_id = self.alloc_con_prop_binding_set_hash(hash);
            let nm = self.node_mut(node);
            nm.concept_prop_binding_set_hash = new_id;
            nm.use_concept_prop_binding_set_hash = new_id;
            new_id
        } else {
            n.use_concept_prop_binding_set_hash
        }
    }
}

impl ProcessContext {
    /// Adds a signature candidate hash holding the candidates of hash
    /// `prev`, if present.
    pub fn alloc_sig_block_cand_hash_from_prev(&mut self, prev: Id) -> (r: Id)
        requires
            old(self).sig_block_cand_hashes@.len() < usize::MAX,
            prev is At ==> valid_in(prev, old(self).sig_block_cand_hashes@.len()),
        ensures
            ({
                let hashes = old(self).sig_block_cand_hashes@;
                let h = final(self).sig_block_cand_hashes@[r.index()];
                &&& r == Id::At(hashes.len() as usize)
                &&& pushed_one(hashes, final(self).sig_block_cand_hashes@)
                &&& h.context == INVALID
                &&& h.candidates@ == (if prev is At { hashes[prev.index()].candidates@ } else { Seq::empty() })
            }),
            final(self).agrees_except(*old(self), set![ArenaKind::SigBlockCandHashes]),
    {
        let mut hash = SignatureBlockingCandidateHash::new(INVALID);
        if prev.is_some() {
            hash.init_signature_blocking_candidate_hash(Some(self.sig_block_cand_hash(prev)));
        } else {
            hash.init_signature_blocking_candidate_hash(None);
        }
        self.alloc_sig_block_cand_hash(hash)
    }

    /// The signature-blocking candidate hash in use by `data_box`; with
    /// `create`, a box without a localised hash gets a new hash holding the
    /// candidates of the inherited one, which becomes localised and in use.
    pub fn processing_data_box_signature_blocking_candidate_hash(
        &mut self,
        data_box: &mut ProcessingDataBox,
        create: bool,
    ) -> (r: Id)
        requires
            old(self).sig_block_cand_hashes@.len() < usize::MAX,
            old(data_box).signature_blocking_candidate_hash is NONE && create
                && old(data_box).prev_signature_blocking_candidate_hash is At
                ==> valid_in(old(data_box).prev_signature_blocking_candidate_hash, old(self).sig_block_cand_hashes@.len()),
        ensures
            ({
                let b = *old(data_box);
                let hashes = old(self).sig_block_cand_hashes@;
                if b.signature_blocking_candidate_hash is NONE && create {
                    let prev = b.prev_signature_blocking_candidate_hash;
                    let h = final(self).sig_block_cand_hashes@[r.index()];
                    &&& r == Id::At(hashes.len() as usize)
                    &&& pushed_one(hashes, final(self).sig_block_cand_hashes@)
                    &&& h.context == INVALID
                    &&& h.candidates@ == (if prev is At { hashes[prev.index()].candidates@ } else { Seq::empty() })
                    &&& *final(data_box) == (ProcessingDataBox {
                        signature_blocking_candidate_hash: r,
                        use_signature_blocking_candidate_hash: r,
                        ..b
                    })
                    &&& final(self).agrees_except(*old(self), set![ArenaKind::SigBlockCandHashes])
                } else {
                    &&& r == b.use_signature_blocking_candidate_hash
                    &&& *final(data_box) == b
                    &&& final(self).agrees_except(*old(self), Set::empty())
                }
            }),
    {
        if data_box.signature_blocking_candidate_hash.is_none() && create {
            let new_hash = self.alloc_sig_block_cand_hash_from_prev(data_box.prev_signature_blocking_candidate_hash);
            data_box.signature_blocking_candidate_hash = new_hash;
            data_box.use_signature_blocking_candidate_hash = new_hash;
        }
        data_box.use_signature_blocking_candidate_hash
    }

    /// The signature nominal-delaying candidate hash in use by `data_box`;
    /// with `create`, a box without a localised hash gets a new hash holding
    /// the candidates of the inherited one, which becomes localised and in
    /// use.
    pub fn processing_data_box_signature_nominal_delaying_candidate_hash(
        &mut self,
        data_box: &mut ProcessingDataBox,
        create: bool,
    ) -> (r: Id)
        requires
            old(self).sig_block_cand_hashes@.len() < usize::MAX,
            old(data_box).signature_nominal_delaying_candidate_hash is NONE && create
                && old(data_box).prev_signature_nominal_delaying_candidate_hash is At
                ==> valid_in(old(data_box).prev_signature_nominal_delaying_candidate_hash,
                    old(self).sig_block_cand_hashes@.len()),
        ensures
            ({
                let b = *old(data_box);
                let hashes = old(self).sig_block_cand_hashes@;
                if b.signature_nominal_delaying_candidate_hash is NONE && create {
                    let prev = b.prev_signature_nominal_delaying_candidate_hash;
                    let h = final(self).sig_block_cand_hashes@[r.index()];
                    &&& r == Id::At(hashes.len() as usize)
                    &&& pushed_one(hashes, final(self).sig_block_cand_hashes@)
                    &&& h.context == INVALID
                    &&& h.candidates@ == (if prev is At { hashes[prev.index()].candidates@ } else { Seq::empty() })
                    &&& *final(data_box) == (ProcessingDataBox {
                        signature_nominal_delaying_candidate_hash: r,
                        use_signature_nominal_delaying_candidate_hash: r,
                        ..b
                    })
                    &&& final(self).agrees_except(*old(self), set![ArenaKind::SigBlockCandHashes])
                } else {
                    &&& r == b.use_signature_nominal_delaying_candidate_hash
                    &&& *final(data_box) == b
                    &&& final(self).agrees_except(*old(self), Set::empty())
                }
            }),
    {
        if data_box.signature_nominal_delaying_candidate_hash.is_none() && create {
            let new_hash = self.alloc_sig_block_cand_hash_from_prev(data_box.prev_signature_nominal_delaying_candidate_hash);
            data_box.signature_nominal_delaying_candidate_hash = new_hash;
            data_box.use_signature_nominal_delaying_candidate_hash = new_hash;
        }
        data_box.use_signature_nominal_delaying_candidate_hash
    }

    /// The individual links, in the order they were added.
    pub fn edges(&self) -> (r: &[IndividualLinkEdge])
        ensures
            r@ == self.edges@,
    {
        self.edges.as_slice()
    }
}

impl ProcessContext {
    /// Opens a branch epoch: a snapshot of every journaled arena is kept;
    /// the concept descriptors, branch nodes and dependency nodes are shared
    /// by every alternative and are not journaled.
    pub fn push_branch_epoch(&mut self)
        requires
            old(self).epochs@.len() < usize::MAX,
        ensures
            epoch_opened(*old(self), *final(self)),
    {
        let snapshot = take_snapshot(self);
        self.epochs.push(snapshot);
        assert(self.epochs@.drop_last() =~= old(self).epochs@);
        assert(*self == (ProcessContext { epochs: self.epochs, ..*old(self) }));
    }

    /// Closes the innermost branch epoch: every journaled arena gets back
    /// what it held when the epoch was opened, which drops every object
    /// allocated and undoes every change made under the epoch; the shared
    /// arenas keep what was added to them.
    pub fn pop_branch_epoch(&mut self)
        requires
            old(self).epochs@.len() > 0,
        ensures
            epoch_closed(*old(self), *final(self)),
    {
        let popped = self.epochs.pop();
        match popped {
            Some(s) => {
                self.nodes = s.nodes;
                self.edges = s.edges;
                self.branching_merging_candidate_linkers = s.branching_merging_candidate_linkers;
                self.cond_reapply_con_descs = s.cond_reapply_con_descs;
                self.var_binding_path_sets = s.var_binding_path_sets;
                self.prop_binding_sets = s.prop_binding_sets;
                self.analized_con_exp_datas = s.analized_con_exp_datas;
                self.analized_con_exp_linkers = s.analized_con_exp_linkers;
                self.backend_sync_datas = s.backend_sync_datas;
                self.backend_neighbour_expansion_controlling_datas = s.backend_neighbour_expansion_controlling_datas;
                self.blocking_follow_sets = s.blocking_follow_sets;
                self.branching_trees = s.branching_trees;
                self.concept_process_linkers = s.concept_process_linkers;
                self.con_var_bind_path_set_hashes = s.con_var_bind_path_set_hashes;
                self.con_prop_binding_set_hashes = s.con_prop_binding_set_hashes;
                self.blocking_indi_node_cand_hashes = s.blocking_indi_node_cand_hashes;
                self.blocking_indi_node_cand_datas = s.blocking_indi_node_cand_datas;
                self.blocking_indi_node_linked_cand_hashes = s.blocking_indi_node_linked_cand_hashes;
                self.blocking_indi_node_linked_cand_datas = s.blocking_indi_node_linked_cand_datas;
                self.blocking_indi_node_linkers = s.blocking_indi_node_linkers;
                self.sig_block_con_exp_datas = s.sig_block_con_exp_datas;
                self.reusing_con_exp_datas = s.reusing_con_exp_datas;
                self.signature_blocking_review_sets = s.signature_blocking_review_sets;
                self.reusing_review_datas = s.reusing_review_datas;
                self.individual_process_node_linkers = s.individual_process_node_linkers;
                self.sig_block_cand_hashes = s.sig_block_cand_hashes;
                self.con_sat_descs = s.con_sat_descs;
                self.reapply_con_sat_label_sets = s.reapply_con_sat_label_sets;
                self.imp_reapply_con_sat_descs = s.imp_reapply_con_sat_descs;
                self.sat_linked_succ_indi_all_concept_ext_datas = s.sat_linked_succ_indi_all_concept_ext_datas;
                self.sat_successor_all_concept_ext_datas = s.sat_successor_all_concept_ext_datas;
                self.sat_successor_concept_extension_maps = s.sat_successor_concept_extension_maps;
                self.sat_indi_node_all_concept_ext_datas = s.sat_indi_node_all_concept_ext_datas;
                self.sat_modified_process_update_linkers = s.sat_modified_process_update_linkers;
                self.role_backward_prop_hashes = s.role_backward_prop_hashes;
                self.backward_prop_links = s.backward_prop_links;
                self.backward_prop_reapply_descs = s.backward_prop_reapply_descs;
                self.sat_nodes = s.sat_nodes;
                self.indi_sat_node_ext_datas = s.indi_sat_node_ext_datas;
                self.sat_nominal_handling_datas = s.sat_nominal_handling_datas;
                self.nominal_conn_sets = s.nominal_conn_sets;
                self.sat_indi_node_datatype_datas = s.sat_indi_node_datatype_datas;
                self.role_backward_sat_prop_hashes = s.role_backward_sat_prop_hashes;
                self.backward_sat_prop_links = s.backward_sat_prop_links;
            },
            None => {},
        }
    }

    /// The number of open branch epochs.
    pub fn branch_epoch_depth(&self) -> (r: usize)
        ensures
            r == self.epochs@.len(),
    {
        self.epochs.len()
    }
}

impl Default for ProcessContext {
    fn default() -> (r: Self)
        ensures
            r.is_empty_context(),
    {
        Self::new()
    }
}


impl ProcessContext {
    /// The blocking candidate hash in use by `data_box`; with `create`, a
    /// box without a localised hash gets a new hash holding the buckets of
    /// the inherited hash with nothing localised, which becomes localised and
    /// in use.
    pub fn processing_data_box_blocking_individual_node_candidate_hash(
        &mut self,
        data_box: &mut ProcessingDataBox,
        create: bool,
    ) -> (r: Id)
        requires
            old(self).blocking_indi_node_cand_hashes@.len() < usize::MAX,
            old(data_box).blocking_indi_node_candidate_hash is NONE && create
                && old(data_box).prev_blocking_indi_node_candidate_hash is At
                ==> valid_in(old(data_box).prev_blocking_indi_node_candidate_hash,
                    old(self).blocking_indi_node_cand_hashes@.len()),
        ensures
            ({
                let b = *old(data_box);
                let hashes = old(self).blocking_indi_node_cand_hashes@;
                if b.blocking_indi_node_candidate_hash is NONE && create {
                    let h = final(self).blocking_indi_node_cand_hashes@[r.index()];
                    &&& r == Id::At(hashes.len() as usize)
                    &&& pushed_one(hashes, final(self).blocking_indi_node_cand_hashes@)
                    &&& h.context == INVALID
                    &&& h.mem_man == INVALID
                    &&& h.block_candidate_hash@ == (if b.prev_blocking_indi_node_candidate_hash is At {
                        hashes[b.prev_blocking_indi_node_candidate_hash.index()].block_candidate_hash@.map_values(
                            |d: BlockingCandidateHashData| unlocalized(d))
                    } else {
                        Map::empty()
                    })
                    &&& *final(data_box) == (ProcessingDataBox {
                        blocking_indi_node_candidate_hash: r,
                        use_blocking_indi_node_candidate_hash: r,
                        ..b
                    })
                    &&& final(self).agrees_except(*old(self), set![ArenaKind::BlockingCandHashes])
                } else {
                    &&& r == b.use_blocking_indi_node_candidate_hash
                    &&& *final(data_box) == b
                    &&& final(self).agrees_except(*old(self), Set::empty())
                }
            }),
    {
        if data_box.blocking_indi_node_candidate_hash.is_none() && create {
            let prev = data_box.prev_blocking_indi_node_candidate_hash;
            let mut hash = BlockingIndividualNodeCandidateHash::new(INVALID);
            if prev.is_some() {
                hash.init_blocking_individual_node_candidate_hash(Some(self.blocking_indi_node_cand_hash(prev)));
            } else {
                hash.init_blocking_individual_node_candidate_hash(None);
            }
            let new_hash = self.alloc_blocking_indi_node_cand_hash(hash);
            data_box.blocking_indi_node_candidate_hash = new_hash;
            data_box.use_blocking_indi_node_candidate_hash = new_hash;
        }
        data_box.use_blocking_indi_node_candidate_hash
    }

    /// The linked blocking candidate hash in use by `data_box`; with
    /// `create`, a box without a localised hash gets a new hash holding the
    /// buckets of the inherited hash with nothing localised, which becomes
    /// localised and in use.
    pub fn processing_data_box_blocking_individual_node_linked_candidate_hash(
        &mut self,
        data_box: &mut ProcessingDataBox,
        create: bool,
    ) -> (r: Id)
        requires
            old(self).blocking_indi_node_linked_cand_hashes@.len() < usize::MAX,
            old(data_box).blocking_indi_node_linked_candidate_hash is NONE && create
                && old(data_box).prev_blocking_indi_node_linked_candidate_hash is At
                ==> valid_in(old(data_box).prev_blocking_indi_node_linked_candidate_hash,
                    old(self).blocking_indi_node_linked_cand_hashes@.len()),
        ensures
            ({
                let b = *old(data_box);
                let hashes = old(self).blocking_indi_node_linked_cand_hashes@;
                if b.blocking_indi_node_linked_candidate_hash is NONE && create {
                    let h = final(self).blocking_indi_node_linked_cand_hashes@[r.index()];
                    &&& r == Id::At(hashes.len() as usize)
                    &&& pushed_one(hashes, final(self).blocking_indi_node_linked_cand_hashes@)
                    &&& h.context == INVALID
                    &&& h.mem_man == INVALID
                    &&& h.block_candidate_hash@ == (if b.prev_blocking_indi_node_linked_candidate_hash is At {
                        hashes[b.prev_blocking_indi_node_linked_candidate_hash.index()].block_candidate_hash@.map_values(
                            |d: BlockingLinkedCandidateHashData| unlocalized_linked(d))
                    } else {
                        Map::empty()
                    })
                    &&& *final(data_box) == (ProcessingDataBox {
                        blocking_indi_node_linked_candidate_hash: r,
                        use_blocking_indi_node_linked_candidate_hash: r,
                        ..b
                    })
                    &&& final(self).agrees_except(*old(self), set![ArenaKind::BlockingLinkedCandHashes])
                } else {
                    &&& r == b.use_blocking_indi_node_linked_candidate_hash
                    &&& *final(data_box) == b
                    &&& final(self).agrees_except(*old(self), Set::empty())
                }
            }),
    {
        if data_box.blocking_indi_node_linked_candidate_hash.is_none() && create {
            let prev = data_box.prev_blocking_indi_node_linked_candidate_hash;
            let mut hash = BlockingIndividualNodeLinkedCandidateHash::new(INVALID);
            if prev.is_some() {
                hash.init_blocking_individual_node_candidate_hash(Some(self.blocking_indi_node_linked_cand_hash(prev)));
            } else {
                hash.init_blocking_individual_node_candidate_hash(None);
            }
            let new_hash = self.alloc_blocking_indi_node_linked_cand_hash(hash);
            data_box.blocking_indi_node_linked_candidate_hash = new_hash;
            data_box.use_blocking_indi_node_linked_candidate_hash = new_hash;
        }
        data_box.use_blocking_indi_node_linked_candidate_hash
    }

    /// The branching tree in use by `data_box`; with `create`, a box without
    /// a localised tree gets a new tree started from the inherited one,
    /// which becomes localised and in use.
    pub fn processing_data_box_branching_tree(&mut self, data_box: &mut ProcessingDataBox, create: bool) -> (r: Id)
        requires
            old(self).branching_trees@.len() < usize::MAX,
            old(data_box).branching_tree is NONE && create && old(data_box).prev_branching_tree is At
                ==> valid_in(old(data_box).prev_branching_tree, old(self).branching_trees@.len()),
        ensures
            ({
                let b = *old(data_box);
                if b.branching_tree is NONE && create {
                    &&& r == Id::At(old(self).branching_trees@.len() as usize)
                    &&& final(self).branching_trees@ == old(self).branching_trees@.push(
                        tree_from(named(old(self).branching_trees@, b.prev_branching_tree)))
                    &&& *final(data_box) == (ProcessingDataBox { branching_tree: r, use_branching_tree: r, ..b })
                    &&& final(self).agrees_except(*old(self), set![ArenaKind::BranchingTrees])
                } else {
                    &&& r == b.use_branching_tree
                    &&& *final(data_box) == b
                    &&& final(self).agrees_except(*old(self), Set::empty())
                }
            }),
    {
        if data_box.branching_tree.is_none() && create {
            let tree = self.alloc_branching_tree_from_prev(data_box.prev_branching_tree);
            data_box.branching_tree = tree;
            data_box.use_branching_tree = tree;
        }
        data_box.use_branching_tree
    }
}

impl ProcessContext {
    /// The element `id` of the saturation concept descriptors.
    pub fn con_sat_desc(&self, id: Id) -> (r: &ConceptSaturationDescriptor)
        requires
            valid_in(id, self.con_sat_descs@.len()),
        ensures
            *r == self.con_sat_descs@[id.index()],
    {
        &self.con_sat_descs[id.raw()]
    }

    /// The element `id` of the saturation concept descriptors, to change in place.
    pub fn con_sat_desc_mut(&mut self, id: Id) -> (r: &mut ConceptSaturationDescriptor)
        requires
            valid_in(id, old(self).con_sat_descs@.len()),
        ensures
            *r == old(self).con_sat_descs@[id.index()],
            final(self).con_sat_descs@ == old(self).con_sat_descs@.update(id.index(), *final(r)),
            final(self).agrees_except(*old(self), set![ArenaKind::ConSatDescs]),
    {
        &mut self.con_sat_descs[id.raw()]
    }

    /// Adds `v` to the saturation concept descriptors; its handle is the next free index.
    pub fn alloc_con_sat_desc(&mut self, v: ConceptSaturationDescriptor) -> (r: Id)
        requires
            old(self).con_sat_descs@.len() < usize::MAX,
        ensures
            r == Id::At(old(self).con_sat_descs@.len() as usize),
            final(self).con_sat_descs@ == old(self).con_sat_descs@.push(v),
            final(self).agrees_except(*old(self), set![ArenaKind::ConSatDescs]),
    {
        let r = Id::new(self.con_sat_descs.len());
        self.con_sat_descs.push(v);
        r
    }

    /// The number of saturation concept descriptors.
    pub fn con_sat_desc_count(&self) -> (r: usize)
        ensures
            r == self.con_sat_descs@.len(),
    {
        self.con_sat_descs.len()
    }

    /// The element `id` of the saturation reapply labels.
    pub fn reapply_con_sat_label_set(&self, id: Id) -> (r: &ReapplyConceptSaturationLabelSet)
        requires
            valid_in(id, self.reapply_con_sat_label_sets@.len()),
        ensures
            *r == self.reapply_con_sat_label_sets@[id.index()],
    {
        &self.reapply_con_sat_label_sets[id.raw()]
    }

    /// The element `id` of the saturation reapply labels, to change in place.
    pub fn reapply_con_sat_label_set_mut(&mut self, id: Id) -> (r: &mut ReapplyConceptSaturationLabelSet)
        requires
            valid_in(id, old(self).reapply_con_sat_label_sets@.len()),
        ensures
            *r == old(self).reapply_con_sat_label_sets@[id.index()],
            final(self).reapply_con_sat_label_sets@ == old(self).reapply_con_sat_label_sets@.update(id.index(), *final(r)),
            final(self).agrees_except(*old(self), set![ArenaKind::ReapplyConSatLabelSets]),
    {
        &mut self.reapply_con_sat_label_sets[id.raw()]
    }

    /// Adds `v` to the saturation reapply labels; its handle is the next free index.
    pub fn alloc_reapply_con_sat_label_set(&mut self, v: ReapplyConceptSaturationLabelSet) -> (r: Id)
        requires
            old(self).reapply_con_sat_label_sets@.len() < usize::MAX,
        ensures
            r == Id::At(old(self).reapply_con_sat_label_sets@.len() as usize),
            final(self).reapply_con_sat_label_sets@ == old(self).reapply_con_sat_label_sets@.push(v),
            final(self).agrees_except(*old(self), set![ArenaKind::ReapplyConSatLabelSets]),
    {
        let r = Id::new(self.reapply_con_sat_label_sets.len());
        self.reapply_con_sat_label_sets.push(v);
        r
    }

    /// The number of saturation reapply labels.
    pub fn reapply_con_sat_label_set_count(&self) -> (r: usize)
        ensures
            r == self.reapply_con_sat_label_sets@.len(),
    {
        self.reapply_con_sat_label_sets.len()
    }

    /// The `next` handle of every saturation concept descriptor.
    pub open spec fn con_sat_desc_nexts(self) -> Seq<Id> {
        Seq::new(self.con_sat_descs@.len(), |i: int| self.con_sat_descs@[i].next)
    }

    /// The saturation concept descriptors of `self` are those of `old` with
    /// at most their `next` handles changed, and every other arena is kept.
    pub open spec fn con_sat_descs_changed_only_in_next(self, old: Self) -> bool {
        &&& self.agrees_except(old, set![ArenaKind::ConSatDescs])
        &&& self.con_sat_descs@.len() == old.con_sat_descs@.len()
        &&& forall|i: int| 0 <= i < old.con_sat_descs@.len() ==> {
            &&& (#[trigger] self.con_sat_descs@[i]).concept == old.con_sat_descs@[i].concept
            &&& self.con_sat_descs@[i].negated == old.con_sat_descs@[i].negated
        }
    }

    /// Links `old_head` behind the last descriptor of the chain from `head`
    /// and gives the head of the joined chain: `old_head` when the chain is
    /// empty.
    pub fn append_concept_saturation_descriptor_chain(&mut self, head: Id, old_head: Id) -> (r: Id)
        requires
            chain_ok(old(self).con_sat_desc_nexts(), head),
        ensures
            ({
                let nexts = old(self).con_sat_desc_nexts();
                let n = chain_len(nexts, head);
                &&& r == (if head is At { head } else { old_head })
                &&& final(self).con_sat_desc_nexts() == (if head is At {
                    nexts.update(walk(nexts, head, (n - 1) as nat).index(), old_head)
                } else {
                    nexts
                })
            }),
            final(self).con_sat_descs_changed_only_in_next(*old(self)),
    {
        if head.is_none() {
            proof {
                assert(self.con_sat_desc_nexts() == old(self).con_sat_desc_nexts());
            }
            return old_head;
        }
        let ghost nexts = self.con_sat_desc_nexts();
        let ghost n = chain_len(nexts, head);
        proof {
            assert(chain_len_is(nexts, head, n));
            if n == 0 {
                assert(walk(nexts, head, 0) == head);
            }
        }
        let mut tail = head;
        let ghost mut k: nat = 0;
        loop
            invariant
                nexts == self.con_sat_desc_nexts(),
                *self == *old(self),
                chain_len_is(nexts, head, n),
                k < n,
                tail == walk(nexts, head, k),
            ensures
                k + 1 == n,
                tail == walk(nexts, head, k),
            decreases n - k,
        {
            assert(valid_in(walk(nexts, head, k), nexts.len()));
            assert(walk(nexts, head, k + 1) == nexts[tail.index()]);
            let next = self.con_sat_desc(tail).get_next();
            if next.is_none() {
                proof {
                    if k + 1 < n {
                        assert(valid_in(walk(nexts, head, k + 1), nexts.len()));
                    }
                }
                break;
            }
            proof {
                if k + 1 == n {
                    assert(walk(nexts, head, n) == Id::NONE);
                }
            }
            tail = next;
            proof {
                k = k + 1;
            }
        }
        assert(valid_in(tail, nexts.len()));
        self.con_sat_desc_mut(tail).set_next(old_head);
        proof {
            assert(self.con_sat_desc_nexts() =~= nexts.update(tail.index(), old_head));
        }
        head
    }

    /// Adds the concept of `con_sat_des` under `con_tag` to the reapply
    /// label `label_set`, unless the label already holds a descriptor for
    /// that tag. The lookup starts from the label's own entry for the tag,
    /// or, when that records nothing, from the entry of the additional map.
    /// A new descriptor is put in front of the label's descriptor chain and
    /// counted and `new_insertion` is set. The result tells whether the
    /// label already held the concept with the opposite polarity (a clash);
    /// `imp_reapply_con_sat_des` gets the head of the implications waiting
    /// for the concept.
    pub fn reapply_con_sat_label_set_insert_concept_return_clashed(
        &mut self,
        label_set: Id,
        con_sat_des: Id,
        con_tag: Cint64,
        new_insertion: &mut bool,
        imp_reapply_con_sat_des: &mut Id,
    ) -> (r: bool)
        requires
            valid_in(label_set, old(self).reapply_con_sat_label_sets@.len()),
            valid_in(con_sat_des, old(self).con_sat_descs@.len()),
            ({
                let ls = old(self).reapply_con_sat_label_sets@[label_set.index()];
                let e = ls.effective_entry(con_tag);
                &&& e.con_sat_des is At ==> valid_in(e.con_sat_des, old(self).con_sat_descs@.len())
                &&& e.con_sat_des is NONE ==> {
                    &&& chain_ok(old(self).con_sat_desc_nexts(), con_sat_des)
                    &&& ls.concept_count < i64::MAX
                    &&& ls.totel_count < i64::MAX
                }
            }),
        ensures
            ({
                let inserted = old(self).reapply_con_sat_label_sets@[label_set.index()]
                    .effective_entry(con_tag).con_sat_des is NONE;
                &&& label_insert_outcome(*old(self), *final(self), label_set, con_sat_des, con_tag,
                    (r, inserted, *final(imp_reapply_con_sat_des)))
                &&& *final(new_insertion) == (inserted || *old(new_insertion))
            }),
    {
        let e = self.reapply_con_sat_label_set(label_set).lookup_entry(con_tag);
        let new_negation = self.con_sat_desc(con_sat_des).get_negation();
        if e.con_sat_des.is_none() {
            let old_head = self.reapply_con_sat_label_set(label_set).get_concept_saturation_descriptor_linker();
            let new_head = self.append_concept_saturation_descriptor_chain(con_sat_des, old_head);
            let data = ConceptSaturationDescriptorReapplyData {
                con_sat_des: con_sat_des,
                imp_reapply_con_sat_des: e.imp_reapply_con_sat_des,
            };
            self.reapply_con_sat_label_set_mut(label_set).set_concept_entry(con_tag, data);
            self.reapply_con_sat_label_set_mut(label_set).add_concept_to_chain(new_head);
            proof {
                let nls = self.reapply_con_sat_label_sets@[label_set.index()];
                assert(self.reapply_con_sat_label_sets@
                    =~= old(self).reapply_con_sat_label_sets@.update(label_set.index(), nls));
            }
            *new_insertion = true;
            *imp_reapply_con_sat_des = e.imp_reapply_con_sat_des;
            false
        } else {
            let clashed = self.con_sat_desc(e.con_sat_des).get_negation() != new_negation;
            self.reapply_con_sat_label_set_mut(label_set).set_concept_entry(con_tag, e);
            proof {
                let nls = self.reapply_con_sat_label_sets@[label_set.index()];
                assert(self.reapply_con_sat_label_sets@
                    =~= old(self).reapply_con_sat_label_sets@.update(label_set.index(), nls));
            }
            *imp_reapply_con_sat_des = e.imp_reapply_con_sat_des;
            clashed
        }
    }

    /// Copies the reapply label `source` into the label `target` (see
    /// `label_copy_outcome`) and gives `target`; nothing changes when either
    /// handle is absent. `additional_copy_size` is the number of main
    /// entries from which a copied label is flattened.
    pub fn copy_reapply_concept_saturation_label_set(
        &mut self,
        target: Id,
        source: Id,
        try_flat_label_copy: bool,
        additional_copy_size: usize,
    ) -> (r: Id)
        requires
            target is At && source is At ==> {
                &&& valid_in(target, old(self).reapply_con_sat_label_sets@.len())
                &&& valid_in(source, old(self).reapply_con_sat_label_sets@.len())
            },
        ensures
            r == target,
            target is NONE || source is NONE ==> final(self).agrees_except(*old(self), Set::<ArenaKind>::empty()),
            target is At && source is At ==> label_copy_outcome(*old(self), *final(self), target, source,
                try_flat_label_copy, additional_copy_size),
    {
        if target.is_none() || source.is_none() {
            return target;
        }
        let main_len = self.reapply_con_sat_label_set(source).concept_des_dep_hash.len();
        if main_len >= additional_copy_size || (try_flat_label_copy && main_len > 0) {
            let additional = self.reapply_con_sat_label_set(source).flattened_additional_map();
            self.reapply_con_sat_label_set_mut(source).flatten_into(additional);
        }
        let ghost mid = self.reapply_con_sat_label_sets@;
        let copied = self.reapply_con_sat_label_set(source).duplicate();
        self.reapply_con_sat_label_set_mut(target).take_label_from(&copied);
        proof {
            assert(self.reapply_con_sat_label_sets@ =~= mid.update(target.index(),
                self.reapply_con_sat_label_sets@[target.index()]));
        }
        target
    }

    /// The element `id` of the waiting implications.
    pub fn imp_reapply_con_sat_desc(&self, id: Id) -> (r: &ImplicationReapplyConceptSaturationDescriptor)
        requires
            valid_in(id, self.imp_reapply_con_sat_descs@.len()),
        ensures
            *r == self.imp_reapply_con_sat_descs@[id.index()],
    {
        &self.imp_reapply_con_sat_descs[id.raw()]
    }

    /// The element `id` of the waiting implications, to change in place.
    pub fn imp_reapply_con_sat_desc_mut(&mut self, id: Id) -> (r: &mut ImplicationReapplyConceptSaturationDescriptor)
        requires
            valid_in(id, old(self).imp_reapply_con_sat_descs@.len()),
        ensures
            *r == old(self).imp_reapply_con_sat_descs@[id.index()],
            final(self).imp_reapply_con_sat_descs@ == old(self).imp_reapply_con_sat_descs@.update(id.index(), *final(r)),
            final(self).agrees_except(*old(self), set![ArenaKind::ImpReapplyConSatDescs]),
    {
        &mut self.imp_reapply_con_sat_descs[id.raw()]
    }

    /// Adds `v` to the waiting implications; its handle is the next free index.
    pub fn alloc_imp_reapply_con_sat_desc(&mut self, v: ImplicationReapplyConceptSaturationDescriptor) -> (r: Id)
        requires
            old(self).imp_reapply_con_sat_descs@.len() < usize::MAX,
        ensures
            r == Id::At(old(self).imp_reapply_con_sat_descs@.len() as usize),
            final(self).imp_reapply_con_sat_descs@ == old(self).imp_reapply_con_sat_descs@.push(v),
            final(self).agrees_except(*old(self), set![ArenaKind::ImpReapplyConSatDescs]),
    {
        let r = Id::new(self.imp_reapply_con_sat_descs.len());
        self.imp_reapply_con_sat_descs.push(v);
        r
    }

    /// The `next` handle of every waiting implication.
    pub open spec fn imp_reapply_con_sat_desc_nexts(self) -> Seq<Id> {
        Seq::new(self.imp_reapply_con_sat_descs@.len(), |i: int| self.imp_reapply_con_sat_descs@[i].next)
    }

    /// Links `old_head` behind the last implication of the chain from
    /// `head` and gives the head of the joined chain: `old_head` when the
    /// chain is empty.
    pub fn append_implication_reapply_concept_saturation_descriptor_chain(&mut self, head: Id, old_head: Id) -> (r: Id)
        requires
            chain_ok(old(self).imp_reapply_con_sat_desc_nexts(), head),
        ensures
            ({
                let nexts = old(self).imp_reapply_con_sat_desc_nexts();
                let n = chain_len(nexts, head);
                &&& r == (if head is At { head } else { old_head })
                &&& final(self).imp_reapply_con_sat_desc_nexts() == (if head is At {
                    nexts.update(walk(nexts, head, (n - 1) as nat).index(), old_head)
                } else {
                    nexts
                })
            }),
            final(self).imp_reapply_con_sat_descs@.len() == old(self).imp_reapply_con_sat_descs@.len(),
            final(self).agrees_except(*old(self), set![ArenaKind::ImpReapplyConSatDescs]),
    {
        if head.is_none() {
            proof {
                assert(self.imp_reapply_con_sat_desc_nexts() == old(self).imp_reapply_con_sat_desc_nexts());
            }
            return old_head;
        }
        let ghost nexts = self.imp_reapply_con_sat_desc_nexts();
        let ghost n = chain_len(nexts, head);
        proof {
            assert(chain_len_is(nexts, head, n));
            if n == 0 {
                assert(walk(nexts, head, 0) == head);
            }
        }
        let mut tail = head;
        let ghost mut k: nat = 0;
        loop
            invariant
                nexts == self.imp_reapply_con_sat_desc_nexts(),
                *self == *old(self),
                chain_len_is(nexts, head, n),
                k < n,
                tail == walk(nexts, head, k),
            ensures
                k + 1 == n,
                tail == walk(nexts, head, k),
            decreases n - k,
        {
            assert(valid_in(walk(nexts, head, k), nexts.len()));
            assert(walk(nexts, head, k + 1) == nexts[tail.index()]);
            let next = self.imp_reapply_con_sat_desc(tail).get_next();
            if next.is_none() {
                proof {
                    if k + 1 < n {
                        assert(valid_in(walk(nexts, head, k + 1), nexts.len()));
                    }
                }
                break;
            }
            proof {
                if k + 1 == n {
                    assert(walk(nexts, head, n) == Id::NONE);
                }
            }
            tail = next;
            proof {
                k = k + 1;
            }
        }
        assert(valid_in(tail, nexts.len()));
        self.imp_reapply_con_sat_desc_mut(tail).set_next(old_head);
        proof {
            assert(self.imp_reapply_con_sat_desc_nexts() =~= nexts.update(tail.index(), old_head));
        }
        head
    }

    /// Registers the implications from `reapply_imp_reapply_con_sat_des` as
    /// waiting for the concept `con_tag` of the reapply label `label_set`,
    /// in front of those already waiting. The lookup starts as for an
    /// insertion (see `reapply_con_sat_label_set_insert_concept_return_clashed`);
    /// an entry without waiting implications is counted once more. The
    /// result tells whether the label already holds the concept with the
    /// polarity `wanted_negation` (the implication is triggered at once);
    /// only then `con_sat_des` gets the descriptor the label holds for it.
    pub fn reapply_con_sat_label_set_insert_concept_reapplication_return_triggered(
        &mut self,
        label_set: Id,
        con_tag: Cint64,
        wanted_negation: bool,
        reapply_imp_reapply_con_sat_des: Id,
        con_sat_des: &mut Id,
    ) -> (r: bool)
        requires
            valid_in(label_set, old(self).reapply_con_sat_label_sets@.len()),
            chain_ok(old(self).imp_reapply_con_sat_desc_nexts(), reapply_imp_reapply_con_sat_des),
            ({
                let ls = old(self).reapply_con_sat_label_sets@[label_set.index()];
                let e = ls.effective_entry(con_tag);
                &&& e.con_sat_des is At ==> valid_in(e.con_sat_des, old(self).con_sat_descs@.len())
                &&& e.imp_reapply_con_sat_des is NONE ==> ls.totel_count < i64::MAX
            }),
        ensures
            ({
                let ls = old(self).reapply_con_sat_label_sets@[label_set.index()];
                let e = ls.effective_entry(con_tag);
                let nexts = old(self).imp_reapply_con_sat_desc_nexts();
                let h = reapply_imp_reapply_con_sat_des;
                let nls = final(self).reapply_con_sat_label_sets@[label_set.index()];
                let new_head = if h is At { h } else { e.imp_reapply_con_sat_des };
                &&& r == (e.con_sat_des is At
                    && old(self).con_sat_descs@[e.con_sat_des.index()].negated == wanted_negation)
                &&& *final(con_sat_des) == (if r { e.con_sat_des } else { *old(con_sat_des) })
                &&& final(self).reapply_con_sat_label_sets@ == old(self).reapply_con_sat_label_sets@.update(
                    label_set.index(), nls)
                &&& nls.concept_des_dep_hash@ == ls.concept_des_dep_hash@.insert(con_tag,
                    ConceptSaturationDescriptorReapplyData {
                        con_sat_des: e.con_sat_des,
                        imp_reapply_con_sat_des: new_head,
                    })
                &&& nls.totel_count == ls.totel_count + (if e.imp_reapply_con_sat_des is At { 0int } else { 1int })
                &&& nls.concept_count == ls.concept_count
                &&& nls.concept_sat_des_linker == ls.concept_sat_des_linker
                &&& nls.keeps_all_but_main_chain_counts(&ls)
                &&& final(self).imp_reapply_con_sat_desc_nexts() == (if h is At {
                    nexts.update(walk(nexts, h, (chain_len(nexts, h) - 1) as nat).index(), e.imp_reapply_con_sat_des)
                } else {
                    nexts
                })
            }),
            final(self).imp_reapply_con_sat_descs@.len() == old(self).imp_reapply_con_sat_descs@.len(),
            final(self).agrees_except(*old(self), set![ArenaKind::ImpReapplyConSatDescs, ArenaKind::ReapplyConSatLabelSets]),
    {
        let e = self.reapply_con_sat_label_set(label_set).lookup_entry(con_tag);
        let old_head = e.imp_reapply_con_sat_des;
        let direct = e.con_sat_des;
        let triggered = if direct.is_some() {
            self.con_sat_desc(direct).get_negation() == wanted_negation
        } else {
            false
        };
        if old_head.is_none() {
            self.reapply_con_sat_label_set_mut(label_set).count_entry();
        }
        let new_head = self.append_implication_reapply_concept_saturation_descriptor_chain(
            reapply_imp_reapply_con_sat_des, old_head);
        let data = ConceptSaturationDescriptorReapplyData { con_sat_des: direct, imp_reapply_con_sat_des: new_head };
        self.reapply_con_sat_label_set_mut(label_set).set_concept_entry(con_tag, data);
        if triggered {
            *con_sat_des = direct;
        }
        triggered
    }

    /// The element `id` of the successor extensions by role of the saturation nodes.
    pub fn sat_linked_succ_indi_all_concept_ext_data(&self, id: Id) -> (r: &SaturationLinkedSuccessorIndividualAllConceptsExtensionData)
        requires
            valid_in(id, self.sat_linked_succ_indi_all_concept_ext_datas@.len()),
        ensures
            *r == self.sat_linked_succ_indi_all_concept_ext_datas@[id.index()],
    {
        &self.sat_linked_succ_indi_all_concept_ext_datas[id.raw()]
    }

    /// The element `id` of the successor extensions by role of the saturation nodes, to change in place.
    pub fn sat_linked_succ_indi_all_concept_ext_data_mut(&mut self, id: Id) -> (r: &mut SaturationLinkedSuccessorIndividualAllConceptsExtensionData)
        requires
            valid_in(id, old(self).sat_linked_succ_indi_all_concept_ext_datas@.len()),
        ensures
            *r == old(self).sat_linked_succ_indi_all_concept_ext_datas@[id.index()],
            final(self).sat_linked_succ_indi_all_concept_ext_datas@ == old(self).sat_linked_succ_indi_all_concept_ext_datas@.update(id.index(), *final(r)),
            final(self).agrees_except(*old(self), set![ArenaKind::SatLinkedSuccAllExtDatas]),
    {
        &mut self.sat_linked_succ_indi_all_concept_ext_datas[id.raw()]
    }

    /// Adds `v` to the successor extensions by role of the saturation nodes; its handle is the next free index.
    pub fn alloc_sat_linked_succ_indi_all_concept_ext_data(&mut self, v: SaturationLinkedSuccessorIndividualAllConceptsExtensionData) -> (r: Id)
        requires
            old(self).sat_linked_succ_indi_all_concept_ext_datas@.len() < usize::MAX,
        ensures
            r == Id::At(old(self).sat_linked_succ_indi_all_concept_ext_datas@.len() as usize),
            final(self).sat_linked_succ_indi_all_concept_ext_datas@ == old(self).sat_linked_succ_indi_all_concept_ext_datas@.push(v),
            final(self).agrees_except(*old(self), set![ArenaKind::SatLinkedSuccAllExtDatas]),
    {
        let r = Id::new(self.sat_linked_succ_indi_all_concept_ext_datas.len());
        self.sat_linked_succ_indi_all_concept_ext_datas.push(v);
        r
    }

    /// The element `id` of the successor extensions for one role.
    pub fn sat_successor_all_concept_ext_data(&self, id: Id) -> (r: &SaturationSuccessorAllConceptExtensionData)
        requires
            valid_in(id, self.sat_successor_all_concept_ext_datas@.len()),
        ensures
            *r == self.sat_successor_all_concept_ext_datas@[id.index()],
    {
        &self.sat_successor_all_concept_ext_datas[id.raw()]
    }

    /// The element `id` of the successor extensions for one role, to change in place.
    pub fn sat_successor_all_concept_ext_data_mut(&mut self, id: Id) -> (r: &mut SaturationSuccessorAllConceptExtensionData)
        requires
            valid_in(id, old(self).sat_successor_all_concept_ext_datas@.len()),
        ensures
            *r == old(self).sat_successor_all_concept_ext_datas@[id.index()],
            final(self).sat_successor_all_concept_ext_datas@ == old(self).sat_successor_all_concept_ext_datas@.update(id.index(), *final(r)),
            final(self).agrees_except(*old(self), set![ArenaKind::SatSuccAllExtDatas]),
    {
        &mut self.sat_successor_all_concept_ext_datas[id.raw()]
    }

    /// Adds `v` to the successor extensions for one role; its handle is the next free index.
    pub fn alloc_sat_successor_all_concept_ext_data(&mut self, v: SaturationSuccessorAllConceptExtensionData) -> (r: Id)
        requires
            old(self).sat_successor_all_concept_ext_datas@.len() < usize::MAX,
        ensures
            r == Id::At(old(self).sat_successor_all_concept_ext_datas@.len() as usize),
            final(self).sat_successor_all_concept_ext_datas@ == old(self).sat_successor_all_concept_ext_datas@.push(v),
            final(self).agrees_except(*old(self), set![ArenaKind::SatSuccAllExtDatas]),
    {
        let r = Id::new(self.sat_successor_all_concept_ext_datas.len());
        self.sat_successor_all_concept_ext_datas.push(v);
        r
    }

    /// The element `id` of the concept extension maps of the successor extensions.
    pub fn sat_successor_concept_extension_map(&self, id: Id) -> (r: &SaturationSuccessorConceptExtensionMap)
        requires
            valid_in(id, self.sat_successor_concept_extension_maps@.len()),
        ensures
            *r == self.sat_successor_concept_extension_maps@[id.index()],
    {
        &self.sat_successor_concept_extension_maps[id.raw()]
    }

    /// The element `id` of the concept extension maps of the successor extensions, to change in place.
    pub fn sat_successor_concept_extension_map_mut(&mut self, id: Id) -> (r: &mut SaturationSuccessorConceptExtensionMap)
        requires
            valid_in(id, old(self).sat_successor_concept_extension_maps@.len()),
        ensures
            *r == old(self).sat_successor_concept_extension_maps@[id.index()],
            final(self).sat_successor_concept_extension_maps@ == old(self).sat_successor_concept_extension_maps@.update(id.index(), *final(r)),
            final(self).agrees_except(*old(self), set![ArenaKind::SatSuccConceptExtMaps]),
    {
        &mut self.sat_successor_concept_extension_maps[id.raw()]
    }

    /// Adds `v` to the concept extension maps of the successor extensions; its handle is the next free index.
    pub fn alloc_sat_successor_concept_extension_map(&mut self, v: SaturationSuccessorConceptExtensionMap) -> (r: Id)
        requires
            old(self).sat_successor_concept_extension_maps@.len() < usize::MAX,
        ensures
            r == Id::At(old(self).sat_successor_concept_extension_maps@.len() as usize),
            final(self).sat_successor_concept_extension_maps@ == old(self).sat_successor_concept_extension_maps@.push(v),
            final(self).agrees_except(*old(self), set![ArenaKind::SatSuccConceptExtMaps]),
    {
        let r = Id::new(self.sat_successor_concept_extension_maps.len());
        self.sat_successor_concept_extension_maps.push(v);
        r
    }

    /// The extension of the successors over `role` that the saturation
    /// node of `linked` propagates; with `create`, it is made if missing
    /// (see `role_extension_outcome`). Without `create` nothing changes and
    /// the extension is taken from the hash when it holds any, else from the
    /// inline slot when that is for `role`.
    pub fn sat_role_successor_all_concept_extension_data(&mut self, linked: Id, role: RoleId, create: bool) -> (r: Id)
        requires
            linked is At ==> valid_in(linked, old(self).sat_linked_succ_indi_all_concept_ext_datas@.len()),
            create ==> old(self).sat_successor_all_concept_ext_datas@.len() < usize::MAX,
            create ==> old(self).sat_successor_concept_extension_maps@.len() < usize::MAX,
        ensures
            linked is NONE ==> r is NONE && final(self).agrees_except(*old(self), Set::<ArenaKind>::empty()),
            linked is At && !create ==> {
                &&& r == old(self).sat_linked_succ_indi_all_concept_ext_datas@[linked.index()].lookup(role)
                &&& final(self).agrees_except(*old(self), Set::<ArenaKind>::empty())
            },
            linked is At && create ==> role_extension_outcome(*old(self), *final(self), linked, role, r),
    {
        if linked.is_none() {
            return Id::NONE;
        }
        if !create {
            let l = self.sat_linked_succ_indi_all_concept_ext_data(linked);
            if !l.role_concept_extension_hash.is_empty() {
                return match l.role_concept_extension_hash.get(&role) {
                    Some(d) => *d,
                    None => Id::NONE,
                };
            } else if l.only_role == role {
                return l.only_all_concept_ext_data;
            } else {
                return Id::NONE;
            }
        }
        self.sat_linked_succ_indi_all_concept_ext_data_mut(linked).release_only_role(role);
        let has_hash = !self.sat_linked_succ_indi_all_concept_ext_data(linked).role_concept_extension_hash.is_empty();
        if has_hash {
            let found = match self.sat_linked_succ_indi_all_concept_ext_data(linked).role_concept_extension_hash.get(&role) {
                Some(d) => Some(*d),
                None => None,
            };
            match found {
                Some(d) => {
                    proof {
                        let nl = self.sat_linked_succ_indi_all_concept_ext_datas@[linked.index()];
                        assert(self.sat_linked_succ_indi_all_concept_ext_datas@
                            =~= old(self).sat_linked_succ_indi_all_concept_ext_datas@.update(linked.index(), nl));
                    }
                    return d;
                },
                None => {},
            }
        }
        let node = self.sat_linked_succ_indi_all_concept_ext_data(linked).indi_proc_sat_node;
        let only_role = self.sat_linked_succ_indi_all_concept_ext_data(linked).only_role;
        if !has_hash && only_role.is_some() {
            let d = self.sat_linked_succ_indi_all_concept_ext_data(linked).only_all_concept_ext_data;
            proof {
                let nl = self.sat_linked_succ_indi_all_concept_ext_datas@[linked.index()];
                assert(self.sat_linked_succ_indi_all_concept_ext_datas@
                    =~= old(self).sat_linked_succ_indi_all_concept_ext_datas@.update(linked.index(), nl));
            }
            return d;
        }
        let map = self.alloc_sat_successor_concept_extension_map(SaturationSuccessorConceptExtensionMap::new());
        let mut data = SaturationSuccessorAllConceptExtensionData::new();
        data.init_successor_concept_extension_data(role, node, map);
        let d = self.alloc_sat_successor_all_concept_ext_data(data);
        if has_hash {
            self.sat_linked_succ_indi_all_concept_ext_data_mut(linked).insert_role_extension(role, d);
        } else {
            self.sat_linked_succ_indi_all_concept_ext_data_mut(linked).set_only_role_extension(role, d);
        }
        proof {
            let nl = self.sat_linked_succ_indi_all_concept_ext_datas@[linked.index()];
            assert(self.sat_linked_succ_indi_all_concept_ext_datas@
                =~= old(self).sat_linked_succ_indi_all_concept_ext_datas@.update(linked.index(), nl));
            assert(self.sat_successor_concept_extension_maps@.drop_last()
                =~= old(self).sat_successor_concept_extension_maps@);
        }
        d
    }

    /// The element `id` of the universal-restriction extensions of the saturation nodes.
    pub fn sat_indi_node_all_concept_ext_data(&self, id: Id) -> (r: &SaturationIndividualNodeAllConceptsExtensionData)
        requires
            valid_in(id, self.sat_indi_node_all_concept_ext_datas@.len()),
        ensures
            *r == self.sat_indi_node_all_concept_ext_datas@[id.index()],
    {
        &self.sat_indi_node_all_concept_ext_datas[id.raw()]
    }

    /// The element `id` of the universal-restriction extensions of the saturation nodes, to change in place.
    pub fn sat_indi_node_all_concept_ext_data_mut(&mut self, id: Id) -> (r: &mut SaturationIndividualNodeAllConceptsExtensionData)
        requires
            valid_in(id, old(self).sat_indi_node_all_concept_ext_datas@.len()),
        ensures
            *r == old(self).sat_indi_node_all_concept_ext_datas@[id.index()],
            final(self).sat_indi_node_all_concept_ext_datas@ == old(self).sat_indi_node_all_concept_ext_datas@.update(id.index(), *final(r)),
            final(self).agrees_except(*old(self), set![ArenaKind::SatNodeAllExtDatas]),
    {
        &mut self.sat_indi_node_all_concept_ext_datas[id.raw()]
    }

    /// Adds `v` to the universal-restriction extensions of the saturation nodes; its handle is the next free index.
    pub fn alloc_sat_indi_node_all_concept_ext_data(&mut self, v: SaturationIndividualNodeAllConceptsExtensionData) -> (r: Id)
        requires
            old(self).sat_indi_node_all_concept_ext_datas@.len() < usize::MAX,
        ensures
            r == Id::At(old(self).sat_indi_node_all_concept_ext_datas@.len() as usize),
            final(self).sat_indi_node_all_concept_ext_datas@ == old(self).sat_indi_node_all_concept_ext_datas@.push(v),
            final(self).agrees_except(*old(self), set![ArenaKind::SatNodeAllExtDatas]),
    {
        let r = Id::new(self.sat_indi_node_all_concept_ext_datas.len());
        self.sat_indi_node_all_concept_ext_datas.push(v);
        r
    }

    /// The element `id` of the update linkers of modified saturation nodes.
    pub fn sat_modified_process_update_linker(&self, id: Id) -> (r: &SaturationModifiedProcessUpdateLinker)
        requires
            valid_in(id, self.sat_modified_process_update_linkers@.len()),
        ensures
            *r == self.sat_modified_process_update_linkers@[id.index()],
    {
        &self.sat_modified_process_update_linkers[id.raw()]
    }

    /// The element `id` of the update linkers of modified saturation nodes, to change in place.
    pub fn sat_modified_process_update_linker_mut(&mut self, id: Id) -> (r: &mut SaturationModifiedProcessUpdateLinker)
        requires
            valid_in(id, old(self).sat_modified_process_update_linkers@.len()),
        ensures
            *r == old(self).sat_modified_process_update_linkers@[id.index()],
            final(self).sat_modified_process_update_linkers@ == old(self).sat_modified_process_update_linkers@.update(id.index(), *final(r)),
            final(self).agrees_except(*old(self), set![ArenaKind::SatModifiedUpdateLinkers]),
    {
        &mut self.sat_modified_process_update_linkers[id.raw()]
    }

    /// Adds `v` to the update linkers of modified saturation nodes; its handle is the next free index.
    pub fn alloc_sat_modified_process_update_linker(&mut self, v: SaturationModifiedProcessUpdateLinker) -> (r: Id)
        requires
            old(self).sat_modified_process_update_linkers@.len() < usize::MAX,
        ensures
            r == Id::At(old(self).sat_modified_process_update_linkers@.len() as usize),
            final(self).sat_modified_process_update_linkers@ == old(self).sat_modified_process_update_linkers@.push(v),
            final(self).agrees_except(*old(self), set![ArenaKind::SatModifiedUpdateLinkers]),
    {
        let r = Id::new(self.sat_modified_process_update_linkers.len());
        self.sat_modified_process_update_linkers.push(v);
        r
    }

    /// The number of waiting implications.
    pub fn imp_reapply_con_sat_desc_count(&self) -> (r: usize)
        ensures
            r == self.imp_reapply_con_sat_descs@.len(),
    {
        self.imp_reapply_con_sat_descs.len()
    }

    /// The number of successor extensions by role.
    pub fn sat_linked_succ_indi_all_concept_ext_data_count(&self) -> (r: usize)
        ensures
            r == self.sat_linked_succ_indi_all_concept_ext_datas@.len(),
    {
        self.sat_linked_succ_indi_all_concept_ext_datas.len()
    }

    /// The number of successor extensions for one role.
    pub fn sat_successor_all_concept_ext_data_count(&self) -> (r: usize)
        ensures
            r == self.sat_successor_all_concept_ext_datas@.len(),
    {
        self.sat_successor_all_concept_ext_datas.len()
    }

    /// The number of concept extension maps.
    pub fn sat_successor_concept_extension_map_count(&self) -> (r: usize)
        ensures
            r == self.sat_successor_concept_extension_maps@.len(),
    {
        self.sat_successor_concept_extension_maps.len()
    }

    /// The number of universal-restriction extensions of saturation nodes.
    pub fn sat_indi_node_all_concept_ext_data_count(&self) -> (r: usize)
        ensures
            r == self.sat_indi_node_all_concept_ext_datas@.len(),
    {
        self.sat_indi_node_all_concept_ext_datas.len()
    }

    /// The `next` handle of every modified-node update linker.
    pub open spec fn sat_modified_process_update_linker_nexts(self) -> Seq<Id> {
        Seq::new(self.sat_modified_process_update_linkers@.len(), |i: int| self.sat_modified_process_update_linkers@[i].next)
    }

    /// Links `old_head` behind the last linker of the chain from `head` and
    /// gives the head of the joined chain: `old_head` when the chain is
    /// empty.
    pub fn append_saturation_modified_process_update_linker_chain(&mut self, head: Id, old_head: Id) -> (r: Id)
        requires
            chain_ok(old(self).sat_modified_process_update_linker_nexts(), head),
        ensures
            ({
                let nexts = old(self).sat_modified_process_update_linker_nexts();
                let n = chain_len(nexts, head);
                &&& r == (if head is At { head } else { old_head })
                &&& final(self).sat_modified_process_update_linker_nexts() == (if head is At {
                    nexts.update(walk(nexts, head, (n - 1) as nat).index(), old_head)
                } else {
                    nexts
                })
            }),
            final(self).sat_modified_process_update_linkers@.len() == old(self).sat_modified_process_update_linkers@.len(),
            forall|i: int| 0 <= i < old(self).sat_modified_process_update_linkers@.len()
                ==> (#[trigger] final(self).sat_modified_process_update_linkers@[i]).node
                    == old(self).sat_modified_process_update_linkers@[i].node,
            final(self).agrees_except(*old(self), set![ArenaKind::SatModifiedUpdateLinkers]),
    {
        if head.is_none() {
            proof {
                assert(self.sat_modified_process_update_linker_nexts() == old(self).sat_modified_process_update_linker_nexts());
            }
            return old_head;
        }
        let ghost nexts = self.sat_modified_process_update_linker_nexts();
        let ghost n = chain_len(nexts, head);
        proof {
            assert(chain_len_is(nexts, head, n));
            if n == 0 {
                assert(walk(nexts, head, 0) == head);
            }
        }
        let mut tail = head;
        let ghost mut k: nat = 0;
        loop
            invariant
                nexts == self.sat_modified_process_update_linker_nexts(),
                *self == *old(self),
                chain_len_is(nexts, head, n),
                k < n,
                tail == walk(nexts, head, k),
            ensures
                k + 1 == n,
                tail == walk(nexts, head, k),
            decreases n - k,
        {
            assert(valid_in(walk(nexts, head, k), nexts.len()));
            assert(walk(nexts, head, k + 1) == nexts[tail.index()]);
            let next = self.sat_modified_process_update_linker(tail).get_next();
            if next.is_none() {
                proof {
                    if k + 1 < n {
                        assert(valid_in(walk(nexts, head, k + 1), nexts.len()));
                    }
                }
                break;
            }
            proof {
                if k + 1 == n {
                    assert(walk(nexts, head, n) == Id::NONE);
                }
            }
            tail = next;
            proof {
                k = k + 1;
            }
        }
        assert(valid_in(tail, nexts.len()));
        self.sat_modified_process_update_linker_mut(tail).set_next(old_head);
        proof {
            assert(self.sat_modified_process_update_linker_nexts() =~= nexts.update(tail.index(), old_head));
        }
        head
    }

    /// Puts the update linkers from `mod_update_linker` in front of those
    /// of the reapply label `label_set`; nothing changes when either handle
    /// is absent. Gives `label_set`.
    pub fn reapply_con_sat_label_set_add_modified_update_linker(&mut self, label_set: Id, mod_update_linker: Id) -> (r: Id)
        requires
            label_set is At && mod_update_linker is At ==> {
                &&& valid_in(label_set, old(self).reapply_con_sat_label_sets@.len())
                &&& chain_ok(old(self).sat_modified_process_update_linker_nexts(), mod_update_linker)
            },
        ensures
            r == label_set,
            label_set is NONE || mod_update_linker is NONE ==> final(self).agrees_except(*old(self), Set::<ArenaKind>::empty()),
            label_set is At && mod_update_linker is At ==> ({
                let nexts = old(self).sat_modified_process_update_linker_nexts();
                let ls = old(self).reapply_con_sat_label_sets@[label_set.index()];
                let nls = final(self).reapply_con_sat_label_sets@[label_set.index()];
                &&& nls.modified_update_linker == mod_update_linker
                &&& nls.concept_des_dep_hash == ls.concept_des_dep_hash
                &&& nls.concept_count == ls.concept_count
                &&& nls.totel_count == ls.totel_count
                &&& nls.concept_sat_des_linker == ls.concept_sat_des_linker
                &&& nls.concept_flags == ls.concept_flags
                &&& nls.additional_concept_des_dep_hash == ls.additional_concept_des_dep_hash
                &&& nls.has_additional_concept_des_dep_hash == ls.has_additional_concept_des_dep_hash
                &&& nls.last_nominal_indep_con_sat_des == ls.last_nominal_indep_con_sat_des
                &&& final(self).reapply_con_sat_label_sets@
                    == old(self).reapply_con_sat_label_sets@.update(label_set.index(), nls)
                &&& final(self).sat_modified_process_update_linker_nexts() == nexts.update(
                    walk(nexts, mod_update_linker, (chain_len(nexts, mod_update_linker) - 1) as nat).index(),
                    ls.modified_update_linker)
                &&& final(self).agrees_except(*old(self),
                    set![ArenaKind::ReapplyConSatLabelSets, ArenaKind::SatModifiedUpdateLinkers])
            }),
    {
        if label_set.is_none() || mod_update_linker.is_none() {
            return label_set;
        }
        let old_head = self.reapply_con_sat_label_set(label_set).get_modified_update_linker();
        let new_head = self.append_saturation_modified_process_update_linker_chain(mod_update_linker, old_head);
        self.reapply_con_sat_label_set_mut(label_set).set_modified_update_linker(new_head);
        proof {
            let nls = self.reapply_con_sat_label_sets@[label_set.index()];
            assert(self.reapply_con_sat_label_sets@
                =~= old(self).reapply_con_sat_label_sets@.update(label_set.index(), nls));
        }
        label_set
    }

    /// The extensions of the saturation node of `all_ext` linked to the
    /// successor `indi_node`; with `create`, made for that successor when
    /// missing and recorded under it.
    pub fn sat_all_linked_successor_individual_concepts_extension_data(
        &mut self,
        all_ext: Id,
        indi_node: Id,
        create: bool,
    ) -> (r: Id)
        requires
            all_ext is At ==> valid_in(all_ext, old(self).sat_indi_node_all_concept_ext_datas@.len()),
            create ==> old(self).sat_linked_succ_indi_all_concept_ext_datas@.len() < usize::MAX,
        ensures
            ({
                let hash = old(self).sat_indi_node_all_concept_ext_datas@[all_ext.index()]
                    .linked_successor_individual_all_concepts_extension_hash@;
                let linked = old(self).sat_linked_succ_indi_all_concept_ext_datas@;
                if all_ext is NONE {
                    r is NONE && final(self).agrees_except(*old(self), Set::<ArenaKind>::empty())
                } else if hash.contains_key(indi_node) {
                    r == hash[indi_node] && final(self).agrees_except(*old(self), Set::<ArenaKind>::empty())
                } else if !create {
                    r is NONE && final(self).agrees_except(*old(self), Set::<ArenaKind>::empty())
                } else {
                    let a = old(self).sat_indi_node_all_concept_ext_datas@[all_ext.index()];
                    let na = final(self).sat_indi_node_all_concept_ext_datas@[all_ext.index()];
                    &&& r == Id::At(linked.len() as usize)
                    &&& final(self).sat_linked_succ_indi_all_concept_ext_datas@.len() == linked.len() + 1
                    &&& final(self).sat_linked_succ_indi_all_concept_ext_datas@.drop_last() == linked
                    &&& final(self).sat_linked_succ_indi_all_concept_ext_datas@.last().is_fresh_for(indi_node)
                    &&& na.indi_process_node == a.indi_process_node
                    &&& na.linked_successor_individual_all_concepts_extension_hash@ == hash.insert(indi_node, r)
                    &&& final(self).sat_indi_node_all_concept_ext_datas@
                        == old(self).sat_indi_node_all_concept_ext_datas@.update(all_ext.index(), na)
                    &&& final(self).agrees_except(*old(self),
                        set![ArenaKind::SatNodeAllExtDatas, ArenaKind::SatLinkedSuccAllExtDatas])
                }
            }),
    {
        if all_ext.is_none() {
            return Id::NONE;
        }
        let found = match self.sat_indi_node_all_concept_ext_data(all_ext)
            .linked_successor_individual_all_concepts_extension_hash.get(&indi_node) {
            Some(d) => Some(*d),
            None => None,
        };
        match found {
            Some(d) => {
                return d;
            },
            None => {},
        }
        if !create {
            return Id::NONE;
        }
        let mut data = SaturationLinkedSuccessorIndividualAllConceptsExtensionData::new();
        data.init_linked_successor_individual_all_concepts_extension_data(indi_node);
        let d = self.alloc_sat_linked_succ_indi_all_concept_ext_data(data);
        self.sat_indi_node_all_concept_ext_data_mut(all_ext).insert_linked_extension(indi_node, d);
        proof {
            let na = self.sat_indi_node_all_concept_ext_datas@[all_ext.index()];
            assert(self.sat_indi_node_all_concept_ext_datas@
                =~= old(self).sat_indi_node_all_concept_ext_datas@.update(all_ext.index(), na));
            assert(self.sat_linked_succ_indi_all_concept_ext_datas@.drop_last()
                =~= old(self).sat_linked_succ_indi_all_concept_ext_datas@);
        }
        d
    }

    /// The element `id` of the backward-propagation hashes of the nodes.
    pub fn role_backward_prop_hash(&self, id: Id) -> (r: &RoleBackwardPropagationHash)
        requires
            valid_in(id, self.role_backward_prop_hashes@.len()),
        ensures
            *r == self.role_backward_prop_hashes@[id.index()],
    {
        &self.role_backward_prop_hashes[id.raw()]
    }

    /// The element `id` of the backward-propagation hashes of the nodes, to change in place.
    pub fn role_backward_prop_hash_mut(&mut self, id: Id) -> (r: &mut RoleBackwardPropagationHash)
        requires
            valid_in(id, old(self).role_backward_prop_hashes@.len()),
        ensures
            *r == old(self).role_backward_prop_hashes@[id.index()],
            final(self).role_backward_prop_hashes@ == old(self).role_backward_prop_hashes@.update(id.index(), *final(r)),
            final(self).agrees_except(*old(self), set![ArenaKind::RoleBackPropHashes]),
    {
        &mut self.role_backward_prop_hashes[id.raw()]
    }

    /// Adds `v` to the backward-propagation hashes of the nodes; its handle is the next free index.
    pub fn alloc_role_backward_prop_hash(&mut self, v: RoleBackwardPropagationHash) -> (r: Id)
        requires
            old(self).role_backward_prop_hashes@.len() < usize::MAX,
        ensures
            r == Id::At(old(self).role_backward_prop_hashes@.len() as usize),
            final(self).role_backward_prop_hashes@ == old(self).role_backward_prop_hashes@.push(v),
            final(self).agrees_except(*old(self), set![ArenaKind::RoleBackPropHashes]),
    {
        let r = Id::new(self.role_backward_prop_hashes.len());
        self.role_backward_prop_hashes.push(v);
        r
    }

    /// The element `id` of the backward-propagation links.
    pub fn backward_prop_link(&self, id: Id) -> (r: &BackwardPropagationLink)
        requires
            valid_in(id, self.backward_prop_links@.len()),
        ensures
            *r == self.backward_prop_links@[id.index()],
    {
        &self.backward_prop_links[id.raw()]
    }

    /// The element `id` of the backward-propagation links, to change in place.
    pub fn backward_prop_link_mut(&mut self, id: Id) -> (r: &mut BackwardPropagationLink)
        requires
            valid_in(id, old(self).backward_prop_links@.len()),
        ensures
            *r == old(self).backward_prop_links@[id.index()],
            final(self).backward_prop_links@ == old(self).backward_prop_links@.update(id.index(), *final(r)),
            final(self).agrees_except(*old(self), set![ArenaKind::BackPropLinks]),
    {
        &mut self.backward_prop_links[id.raw()]
    }

    /// Adds `v` to the backward-propagation links; its handle is the next free index.
    pub fn alloc_backward_prop_link(&mut self, v: BackwardPropagationLink) -> (r: Id)
        requires
            old(self).backward_prop_links@.len() < usize::MAX,
        ensures
            r == Id::At(old(self).backward_prop_links@.len() as usize),
            final(self).backward_prop_links@ == old(self).backward_prop_links@.push(v),
            final(self).agrees_except(*old(self), set![ArenaKind::BackPropLinks]),
    {
        let r = Id::new(self.backward_prop_links.len());
        self.backward_prop_links.push(v);
        r
    }

    /// The element `id` of the descriptors waiting for backward propagation.
    pub fn backward_prop_reapply_desc(&self, id: Id) -> (r: &BackwardPropagationReapplyDescriptor)
        requires
            valid_in(id, self.backward_prop_reapply_descs@.len()),
        ensures
            *r == self.backward_prop_reapply_descs@[id.index()],
    {
        &self.backward_prop_reapply_descs[id.raw()]
    }

    /// The element `id` of the descriptors waiting for backward propagation, to change in place.
    pub fn backward_prop_reapply_desc_mut(&mut self, id: Id) -> (r: &mut BackwardPropagationReapplyDescriptor)
        requires
            valid_in(id, old(self).backward_prop_reapply_descs@.len()),
        ensures
            *r == old(self).backward_prop_reapply_descs@[id.index()],
            final(self).backward_prop_reapply_descs@ == old(self).backward_prop_reapply_descs@.update(id.index(), *final(r)),
            final(self).agrees_except(*old(self), set![ArenaKind::BackPropReapplyDescs]),
    {
        &mut self.backward_prop_reapply_descs[id.raw()]
    }

    /// Adds `v` to the descriptors waiting for backward propagation; its handle is the next free index.
    pub fn alloc_backward_prop_reapply_desc(&mut self, v: BackwardPropagationReapplyDescriptor) -> (r: Id)
        requires
            old(self).backward_prop_reapply_descs@.len() < usize::MAX,
        ensures
            r == Id::At(old(self).backward_prop_reapply_descs@.len() as usize),
            final(self).backward_prop_reapply_descs@ == old(self).backward_prop_reapply_descs@.push(v),
            final(self).agrees_except(*old(self), set![ArenaKind::BackPropReapplyDescs]),
    {
        let r = Id::new(self.backward_prop_reapply_descs.len());
        self.backward_prop_reapply_descs.push(v);
        r
    }

    /// The `next` handle of every backward-propagation link.
    pub open spec fn backward_prop_link_nexts(self) -> Seq<Id> {
        Seq::new(self.backward_prop_links@.len(), |i: int| self.backward_prop_links@[i].next)
    }

    /// Links `old_head` behind the last element of the chain from `head`
    /// and gives the head of the joined chain: `old_head` when the chain is
    /// empty.
    pub fn append_backward_propagation_link_chain(&mut self, head: Id, old_head: Id) -> (r: Id)
        requires
            chain_ok(old(self).backward_prop_link_nexts(), head),
        ensures
            ({
                let nexts = old(self).backward_prop_link_nexts();
                let n = chain_len(nexts, head);
                &&& r == (if head is At { head } else { old_head })
                &&& final(self).backward_prop_link_nexts() == (if head is At {
                    nexts.update(walk(nexts, head, (n - 1) as nat).index(), old_head)
                } else {
                    nexts
                })
            }),
            final(self).backward_prop_links@.len() == old(self).backward_prop_links@.len(),
            forall|i: int| 0 <= i < old(self).backward_prop_links@.len()
                ==> (#[trigger] final(self).backward_prop_links@[i]).source_individual
                    == old(self).backward_prop_links@[i].source_individual,
            final(self).agrees_except(*old(self), set![ArenaKind::BackPropLinks]),
    {
        if head.is_none() {
            proof {
                assert(self.backward_prop_link_nexts() == old(self).backward_prop_link_nexts());
            }
            return old_head;
        }
        let ghost nexts = self.backward_prop_link_nexts();
        let ghost n = chain_len(nexts, head);
        proof {
            assert(chain_len_is(nexts, head, n));
            if n == 0 {
                assert(walk(nexts, head, 0) == head);
            }
        }
        let mut tail = head;
        let ghost mut k: nat = 0;
        loop
            invariant
                nexts == self.backward_prop_link_nexts(),
                *self == *old(self),
                chain_len_is(nexts, head, n),
                k < n,
                tail == walk(nexts, head, k),
            ensures
                k + 1 == n,
                tail == walk(nexts, head, k),
            decreases n - k,
        {
            assert(valid_in(walk(nexts, head, k), nexts.len()));
            assert(walk(nexts, head, k + 1) == nexts[tail.index()]);
            let next = self.backward_prop_link(tail).get_next();
            if next.is_none() {
                proof {
                    if k + 1 < n {
                        assert(valid_in(walk(nexts, head, k + 1), nexts.len()));
                    }
                }
                break;
            }
            proof {
                if k + 1 == n {
                    assert(walk(nexts, head, n) == Id::NONE);
                }
            }
            tail = next;
            proof {
                k = k + 1;
            }
        }
        assert(valid_in(tail, nexts.len()));
        self.backward_prop_link_mut(tail).set_next(old_head);
        proof {
            assert(self.backward_prop_link_nexts() =~= nexts.update(tail.index(), old_head));
        }
        head
    }

    /// The `next` handle of every descriptor waiting for backward propagation.
    pub open spec fn backward_prop_reapply_desc_nexts(self) -> Seq<Id> {
        Seq::new(self.backward_prop_reapply_descs@.len(), |i: int| self.backward_prop_reapply_descs@[i].next)
    }

    /// Links `old_head` behind the last element of the chain from `head`
    /// and gives the head of the joined chain: `old_head` when the chain is
    /// empty.
    pub fn append_backward_propagation_reapply_descriptor_chain(&mut self, head: Id, old_head: Id) -> (r: Id)
        requires
            chain_ok(old(self).backward_prop_reapply_desc_nexts(), head),
        ensures
            ({
                let nexts = old(self).backward_prop_reapply_desc_nexts();
                let n = chain_len(nexts, head);
                &&& r == (if head is At { head } else { old_head })
                &&& final(self).backward_prop_reapply_desc_nexts() == (if head is At {
                    nexts.update(walk(nexts, head, (n - 1) as nat).index(), old_head)
                } else {
                    nexts
                })
            }),
            final(self).backward_prop_reapply_descs@.len() == old(self).backward_prop_reapply_descs@.len(),
            final(self).agrees_except(*old(self), set![ArenaKind::BackPropReapplyDescs]),
    {
        if head.is_none() {
            proof {
                assert(self.backward_prop_reapply_desc_nexts() == old(self).backward_prop_reapply_desc_nexts());
            }
            return old_head;
        }
        let ghost nexts = self.backward_prop_reapply_desc_nexts();
        let ghost n = chain_len(nexts, head);
        proof {
            assert(chain_len_is(nexts, head, n));
            if n == 0 {
                assert(walk(nexts, head, 0) == head);
            }
        }
        let mut tail = head;
        let ghost mut k: nat = 0;
        loop
            invariant
                nexts == self.backward_prop_reapply_desc_nexts(),
                *self == *old(self),
                chain_len_is(nexts, head, n),
                k < n,
                tail == walk(nexts, head, k),
            ensures
                k + 1 == n,
                tail == walk(nexts, head, k),
            decreases n - k,
        {
            assert(valid_in(walk(nexts, head, k), nexts.len()));
            assert(walk(nexts, head, k + 1) == nexts[tail.index()]);
            let next = self.backward_prop_reapply_desc(tail).get_next();
            if next.is_none() {
                proof {
                    if k + 1 < n {
                        assert(valid_in(walk(nexts, head, k + 1), nexts.len()));
                    }
                }
                break;
            }
            proof {
                if k + 1 == n {
                    assert(walk(nexts, head, n) == Id::NONE);
                }
            }
            tail = next;
            proof {
                k = k + 1;
            }
        }
        assert(valid_in(tail, nexts.len()));
        self.backward_prop_reapply_desc_mut(tail).set_next(old_head);
        proof {
            assert(self.backward_prop_reapply_desc_nexts() =~= nexts.update(tail.index(), old_head));
        }
        head
    }

    /// The backward-propagation hash of `node`; with `create`, a node
    /// without one gets a new empty hash.
    pub fn node_role_backward_propagation_hash(&mut self, node: NodeId, create: bool) -> (r: Id)
        requires
            node is At ==> valid_in(node, old(self).nodes@.len()),
            node is At && create ==> old(self).role_backward_prop_hashes@.len() < usize::MAX,
        ensures
            ({
                let n = old(self).nodes@[node.index()];
                let hashes = old(self).role_backward_prop_hashes@;
                if node is NONE {
                    r is NONE && final(self).agrees_except(*old(self), Set::<ArenaKind>::empty())
                } else if n.role_back_prop_hash is NONE && create {
                    &&& r == Id::At(hashes.len() as usize)
                    &&& final(self).role_backward_prop_hashes@.len() == hashes.len() + 1
                    &&& final(self).role_backward_prop_hashes@.drop_last() == hashes
                    &&& final(self).role_backward_prop_hashes@.last().context == INVALID
                    &&& final(self).role_backward_prop_hashes@.last().role_back_prop_data_hash@
                        == Map::<Id, RoleBackwardPropagationHashData>::empty()
                    &&& final(self).nodes@ == old(self).nodes@.update(node.index(),
                        IndividualProcessNode { role_back_prop_hash: r, ..n })
                    &&& final(self).agrees_except(*old(self), set![ArenaKind::Nodes, ArenaKind::RoleBackPropHashes])
                } else {
                    r == n.role_back_prop_hash && final(self).agrees_except(*old(self), Set::<ArenaKind>::empty())
                }
            }),
    {
        if node.is_none() {
            return Id::NONE;
        }
        if self.node(node).role_back_prop_hash.is_none() && create {
            let hash = self.alloc_role_backward_prop_hash(RoleBackwardPropagationHash::new(INVALID));
            self.node_mut(node).role_back_prop_hash = hash;
            proof {
                assert(self.role_backward_prop_hashes@.drop_last() =~= old(self).role_backward_prop_hashes@);
            }
        }
        self.node(node).role_back_prop_hash
    }

    /// Puts the links from `link` in front of the links of `role` in the
    /// backward-propagation hash `hash` and gives the descriptors waiting
    /// for that role, which now have to be propagated over the new links.
    /// Nothing changes, and nothing is given, when either handle is absent
    /// or the first link of the role already comes from the individual
    /// that `link` comes from.
    pub fn role_backward_prop_hash_add_backward_propagation_link(&mut self, hash: Id, role: Id, link: Id) -> (r: Id)
        requires
            hash is At && link is At ==> {
                let d = old(self).role_backward_prop_hashes@[hash.index()].data_of(role);
                &&& valid_in(hash, old(self).role_backward_prop_hashes@.len())
                &&& valid_in(link, old(self).backward_prop_links@.len())
                &&& d.link_linker is At ==> valid_in(d.link_linker, old(self).backward_prop_links@.len())
                &&& chain_ok(old(self).backward_prop_link_nexts(), link)
            },
        ensures
            back_link_outcome(*old(self), *final(self), hash, role, link, r),
    {
        if hash.is_none() || link.is_none() {
            return Id::NONE;
        }
        let d = self.role_backward_prop_hash(hash).get_data(role);
        if d.link_linker.is_some()
            && self.backward_prop_link(d.link_linker).get_source_individual()
                == self.backward_prop_link(link).get_source_individual() {
            return Id::NONE;
        }
        let new_head = self.append_backward_propagation_link_chain(link, d.link_linker);
        let data = RoleBackwardPropagationHashData { link_linker: new_head, reapply_linker: d.reapply_linker };
        self.role_backward_prop_hash_mut(hash).set_data(role, data);
        proof {
            let nh = self.role_backward_prop_hashes@[hash.index()];
            assert(self.role_backward_prop_hashes@ =~= old(self).role_backward_prop_hashes@.update(hash.index(), nh));
        }
        d.reapply_linker
    }

    /// Puts the descriptors from `reapply_con_des` in front of those
    /// waiting for `role` in the backward-propagation hash `hash` and gives
    /// the links of that role, over which they have to be propagated.
    /// Nothing changes, and nothing is given, when either handle is absent.
    pub fn role_backward_prop_hash_add_backward_propagation_concept_descriptor(
        &mut self,
        hash: Id,
        role: Id,
        reapply_con_des: Id,
    ) -> (r: Id)
        requires
            hash is At && reapply_con_des is At ==> {
                &&& valid_in(hash, old(self).role_backward_prop_hashes@.len())
                &&& chain_ok(old(self).backward_prop_reapply_desc_nexts(), reapply_con_des)
            },
        ensures
            back_desc_outcome(*old(self), *final(self), hash, role, reapply_con_des, r),
    {
        if hash.is_none() || reapply_con_des.is_none() {
            return Id::NONE;
        }
        let d = self.role_backward_prop_hash(hash).get_data(role);
        let new_head = self.append_backward_propagation_reapply_descriptor_chain(reapply_con_des, d.reapply_linker);
        let data = RoleBackwardPropagationHashData { link_linker: d.link_linker, reapply_linker: new_head };
        self.role_backward_prop_hash_mut(hash).set_data(role, data);
        proof {
            let nh = self.role_backward_prop_hashes@[hash.index()];
            assert(self.role_backward_prop_hashes@ =~= old(self).role_backward_prop_hashes@.update(hash.index(), nh));
        }
        d.link_linker
    }

    /// The element `id` of the saturation nodes.
    pub fn sat_node(&self, id: Id) -> (r: &IndividualSaturationProcessNode)
        requires
            valid_in(id, self.sat_nodes@.len()),
        ensures
            *r == self.sat_nodes@[id.index()],
    {
        &self.sat_nodes[id.raw()]
    }

    /// The element `id` of the saturation nodes, to change in place.
    pub fn sat_node_mut(&mut self, id: Id) -> (r: &mut IndividualSaturationProcessNode)
        requires
            valid_in(id, old(self).sat_nodes@.len()),
        ensures
            *r == old(self).sat_nodes@[id.index()],
            final(self).sat_nodes@ == old(self).sat_nodes@.update(id.index(), *final(r)),
            final(self).agrees_except(*old(self), set![ArenaKind::SatNodes]),
    {
        &mut self.sat_nodes[id.raw()]
    }

    /// Adds `v` to the saturation nodes; its handle is the next free index.
    pub fn alloc_sat_node(&mut self, v: IndividualSaturationProcessNode) -> (r: Id)
        requires
            old(self).sat_nodes@.len() < usize::MAX,
        ensures
            r == Id::At(old(self).sat_nodes@.len() as usize),
            final(self).sat_nodes@ == old(self).sat_nodes@.push(v),
            final(self).agrees_except(*old(self), set![ArenaKind::SatNodes]),
    {
        let r = Id::new(self.sat_nodes.len());
        self.sat_nodes.push(v);
        r
    }

    /// The element `id` of the extension data of the saturation nodes.
    pub fn indi_sat_node_ext_data(&self, id: Id) -> (r: &IndividualSaturationProcessNodeExtensionData)
        requires
            valid_in(id, self.indi_sat_node_ext_datas@.len()),
        ensures
            *r == self.indi_sat_node_ext_datas@[id.index()],
    {
        &self.indi_sat_node_ext_datas[id.raw()]
    }

    /// The element `id` of the extension data of the saturation nodes, to change in place.
    pub fn indi_sat_node_ext_data_mut(&mut self, id: Id) -> (r: &mut IndividualSaturationProcessNodeExtensionData)
        requires
            valid_in(id, old(self).indi_sat_node_ext_datas@.len()),
        ensures
            *r == old(self).indi_sat_node_ext_datas@[id.index()],
            final(self).indi_sat_node_ext_datas@ == old(self).indi_sat_node_ext_datas@.update(id.index(), *final(r)),
            final(self).agrees_except(*old(self), set![ArenaKind::SatNodeExtDatas]),
    {
        &mut self.indi_sat_node_ext_datas[id.raw()]
    }

    /// Adds `v` to the extension data of the saturation nodes; its handle is the next free index.
    pub fn alloc_indi_sat_node_ext_data(&mut self, v: IndividualSaturationProcessNodeExtensionData) -> (r: Id)
        requires
            old(self).indi_sat_node_ext_datas@.len() < usize::MAX,
        ensures
            r == Id::At(old(self).indi_sat_node_ext_datas@.len() as usize),
            final(self).indi_sat_node_ext_datas@ == old(self).indi_sat_node_ext_datas@.push(v),
            final(self).agrees_except(*old(self), set![ArenaKind::SatNodeExtDatas]),
    {
        let r = Id::new(self.indi_sat_node_ext_datas.len());
        self.indi_sat_node_ext_datas.push(v);
        r
    }

    /// The element `id` of the nominal handling data of the saturation nodes.
    pub fn sat_nominal_handling_data(&self, id: Id) -> (r: &SaturationIndividualNodeNominalHandlingData)
        requires
            valid_in(id, self.sat_nominal_handling_datas@.len()),
        ensures
            *r == self.sat_nominal_handling_datas@[id.index()],
    {
        &self.sat_nominal_handling_datas[id.raw()]
    }

    /// The element `id` of the nominal handling data of the saturation nodes, to change in place.
    pub fn sat_nominal_handling_data_mut(&mut self, id: Id) -> (r: &mut SaturationIndividualNodeNominalHandlingData)
        requires
            valid_in(id, old(self).sat_nominal_handling_datas@.len()),
        ensures
            *r == old(self).sat_nominal_handling_datas@[id.index()],
            final(self).sat_nominal_handling_datas@ == old(self).sat_nominal_handling_datas@.update(id.index(), *final(r)),
            final(self).agrees_except(*old(self), set![ArenaKind::SatNominalHandlingDatas]),
    {
        &mut self.sat_nominal_handling_datas[id.raw()]
    }

    /// Adds `v` to the nominal handling data of the saturation nodes; its handle is the next free index.
    pub fn alloc_sat_nominal_handling_data(&mut self, v: SaturationIndividualNodeNominalHandlingData) -> (r: Id)
        requires
            old(self).sat_nominal_handling_datas@.len() < usize::MAX,
        ensures
            r == Id::At(old(self).sat_nominal_handling_datas@.len() as usize),
            final(self).sat_nominal_handling_datas@ == old(self).sat_nominal_handling_datas@.push(v),
            final(self).agrees_except(*old(self), set![ArenaKind::SatNominalHandlingDatas]),
    {
        let r = Id::new(self.sat_nominal_handling_datas.len());
        self.sat_nominal_handling_datas.push(v);
        r
    }

    /// The element `id` of the successor-connected nominal sets.
    pub fn nominal_conn_set(&self, id: Id) -> (r: &SuccessorConnectedNominalSet)
        requires
            valid_in(id, self.nominal_conn_sets@.len()),
        ensures
            *r == self.nominal_conn_sets@[id.index()],
    {
        &self.nominal_conn_sets[id.raw()]
    }

    /// The element `id` of the successor-connected nominal sets, to change in place.
    pub fn nominal_conn_set_mut(&mut self, id: Id) -> (r: &mut SuccessorConnectedNominalSet)
        requires
            valid_in(id, old(self).nominal_conn_sets@.len()),
        ensures
            *r == old(self).nominal_conn_sets@[id.index()],
            final(self).nominal_conn_sets@ == old(self).nominal_conn_sets@.update(id.index(), *final(r)),
            final(self).agrees_except(*old(self), set![ArenaKind::NominalConnSets]),
    {
        &mut self.nominal_conn_sets[id.raw()]
    }

    /// Adds `v` to the successor-connected nominal sets; its handle is the next free index.
    pub fn alloc_nominal_conn_set(&mut self, v: SuccessorConnectedNominalSet) -> (r: Id)
        requires
            old(self).nominal_conn_sets@.len() < usize::MAX,
        ensures
            r == Id::At(old(self).nominal_conn_sets@.len() as usize),
            final(self).nominal_conn_sets@ == old(self).nominal_conn_sets@.push(v),
            final(self).agrees_except(*old(self), set![ArenaKind::NominalConnSets]),
    {
        let r = Id::new(self.nominal_conn_sets.len());
        self.nominal_conn_sets.push(v);
        r
    }

    /// The element `id` of the applied datatypes of the saturation nodes.
    pub fn sat_indi_node_datatype_data(&self, id: Id) -> (r: &SaturationIndividualNodeDatatypeData)
        requires
            valid_in(id, self.sat_indi_node_datatype_datas@.len()),
        ensures
            *r == self.sat_indi_node_datatype_datas@[id.index()],
    {
        &self.sat_indi_node_datatype_datas[id.raw()]
    }

    /// The element `id` of the applied datatypes of the saturation nodes, to change in place.
    pub fn sat_indi_node_datatype_data_mut(&mut self, id: Id) -> (r: &mut SaturationIndividualNodeDatatypeData)
        requires
            valid_in(id, old(self).sat_indi_node_datatype_datas@.len()),
        ensures
            *r == old(self).sat_indi_node_datatype_datas@[id.index()],
            final(self).sat_indi_node_datatype_datas@ == old(self).sat_indi_node_datatype_datas@.update(id.index(), *final(r)),
            final(self).agrees_except(*old(self), set![ArenaKind::SatDatatypeDatas]),
    {
        &mut self.sat_indi_node_datatype_datas[id.raw()]
    }

    /// Adds `v` to the applied datatypes of the saturation nodes; its handle is the next free index.
    pub fn alloc_sat_indi_node_datatype_data(&mut self, v: SaturationIndividualNodeDatatypeData) -> (r: Id)
        requires
            old(self).sat_indi_node_datatype_datas@.len() < usize::MAX,
        ensures
            r == Id::At(old(self).sat_indi_node_datatype_datas@.len() as usize),
            final(self).sat_indi_node_datatype_datas@ == old(self).sat_indi_node_datatype_datas@.push(v),
            final(self).agrees_except(*old(self), set![ArenaKind::SatDatatypeDatas]),
    {
        let r = Id::new(self.sat_indi_node_datatype_datas.len());
        self.sat_indi_node_datatype_datas.push(v);
        r
    }

    /// The element `id` of the backward-propagation hashes of the saturation nodes.
    pub fn role_backward_sat_prop_hash(&self, id: Id) -> (r: &RoleBackwardSaturationPropagationHash)
        requires
            valid_in(id, self.role_backward_sat_prop_hashes@.len()),
        ensures
            *r == self.role_backward_sat_prop_hashes@[id.index()],
    {
        &self.role_backward_sat_prop_hashes[id.raw()]
    }

    /// The element `id` of the backward-propagation hashes of the saturation nodes, to change in place.
    pub fn role_backward_sat_prop_hash_mut(&mut self, id: Id) -> (r: &mut RoleBackwardSaturationPropagationHash)
        requires
            valid_in(id, old(self).role_backward_sat_prop_hashes@.len()),
        ensures
            *r == old(self).role_backward_sat_prop_hashes@[id.index()],
            final(self).role_backward_sat_prop_hashes@ == old(self).role_backward_sat_prop_hashes@.update(id.index(), *final(r)),
            final(self).agrees_except(*old(self), set![ArenaKind::RoleBackSatPropHashes]),
    {
        &mut self.role_backward_sat_prop_hashes[id.raw()]
    }

    /// Adds `v` to the backward-propagation hashes of the saturation nodes; its handle is the next free index.
    pub fn alloc_role_backward_sat_prop_hash(&mut self, v: RoleBackwardSaturationPropagationHash) -> (r: Id)
        requires
            old(self).role_backward_sat_prop_hashes@.len() < usize::MAX,
        ensures
            r == Id::At(old(self).role_backward_sat_prop_hashes@.len() as usize),
            final(self).role_backward_sat_prop_hashes@ == old(self).role_backward_sat_prop_hashes@.push(v),
            final(self).agrees_except(*old(self), set![ArenaKind::RoleBackSatPropHashes]),
    {
        let r = Id::new(self.role_backward_sat_prop_hashes.len());
        self.role_backward_sat_prop_hashes.push(v);
        r
    }

    /// The element `id` of the backward-propagation links of the saturation nodes.
    pub fn backward_sat_prop_link(&self, id: Id) -> (r: &BackwardSaturationPropagationLink)
        requires
            valid_in(id, self.backward_sat_prop_links@.len()),
        ensures
            *r == self.backward_sat_prop_links@[id.index()],
    {
        &self.backward_sat_prop_links[id.raw()]
    }

    /// The element `id` of the backward-propagation links of the saturation nodes, to change in place.
    pub fn backward_sat_prop_link_mut(&mut self, id: Id) -> (r: &mut BackwardSaturationPropagationLink)
        requires
            valid_in(id, old(self).backward_sat_prop_links@.len()),
        ensures
            *r == old(self).backward_sat_prop_links@[id.index()],
            final(self).backward_sat_prop_links@ == old(self).backward_sat_prop_links@.update(id.index(), *final(r)),
            final(self).agrees_except(*old(self), set![ArenaKind::BackSatPropLinks]),
    {
        &mut self.backward_sat_prop_links[id.raw()]
    }

    /// Adds `v` to the backward-propagation links of the saturation nodes; its handle is the next free index.
    pub fn alloc_backward_sat_prop_link(&mut self, v: BackwardSaturationPropagationLink) -> (r: Id)
        requires
            old(self).backward_sat_prop_links@.len() < usize::MAX,
        ensures
            r == Id::At(old(self).backward_sat_prop_links@.len() as usize),
            final(self).backward_sat_prop_links@ == old(self).backward_sat_prop_links@.push(v),
            final(self).agrees_except(*old(self), set![ArenaKind::BackSatPropLinks]),
    {
        let r = Id::new(self.backward_sat_prop_links.len());
        self.backward_sat_prop_links.push(v);
        r
    }

    /// The extension data of the saturation node `node`; with `create`, a
    /// node without one gets new extension data (see `sat_ext_outcome`).
    pub fn sat_node_individual_extension_data(&mut self, node: Id, create: bool) -> (r: Id)
        requires
            node is At ==> valid_in(node, old(self).sat_nodes@.len()),
            node is At && create ==> old(self).indi_sat_node_ext_datas@.len() < usize::MAX,
        ensures
            sat_ext_outcome(*old(self), *final(self), node, create, r),
    {
        if node.is_none() {
            return Id::NONE;
        }
        if self.sat_node(node).indi_extension_data.is_none() && create {
            let mut ext = IndividualSaturationProcessNodeExtensionData::new();
            ext.init_individual_extension_data(node);
            let e = self.alloc_indi_sat_node_ext_data(ext);
            self.sat_node_mut(node).indi_extension_data = e;
        }
        self.sat_node(node).indi_extension_data
    }

    /// The nominal handling data of the saturation node `node` (see
    /// `sat_nominal_handling_outcome`).
    pub fn sat_node_nominal_handling_data(&mut self, node: Id, create: bool) -> (r: Id)
        requires
            node is At ==> valid_in(node, old(self).sat_nodes@.len()),
            node is At && old(self).sat_nodes@[node.index()].indi_extension_data is At
                ==> valid_in(old(self).sat_nodes@[node.index()].indi_extension_data,
                    old(self).indi_sat_node_ext_datas@.len()),
            node is At && create ==> old(self).indi_sat_node_ext_datas@.len() < usize::MAX,
            node is At && create ==> old(self).sat_nominal_handling_datas@.len() < usize::MAX,
        ensures
            sat_nominal_handling_outcome(*old(self), *final(self), node, create, r),
    {
        let ext = self.sat_node_individual_extension_data(node, create);
        let ghost mid = *self;
        if ext.is_none() {
            assert(sat_ext_outcome(*old(self), mid, node, create, ext));
            return Id::NONE;
        }
        if self.indi_sat_node_ext_data(ext).nominal_handling_data.is_none() && create {
            let mut data = SaturationIndividualNodeNominalHandlingData::new();
            data.init_nominal_handling_data(node);
            let d = self.alloc_sat_nominal_handling_data(data);
            self.indi_sat_node_ext_data_mut(ext).nominal_handling_data = d;
        }
        let r = self.indi_sat_node_ext_data(ext).nominal_handling_data;
        assert(sat_ext_outcome(*old(self), mid, node, create, ext));
        r
    }

    /// The successor-connected nominal set of the saturation node `node`
    /// (see `sat_nominal_set_outcome`).
    pub fn sat_node_successor_connected_nominal_set(&mut self, node: Id, create: bool) -> (r: Id)
        requires
            node is At ==> valid_in(node, old(self).sat_nodes@.len()),
            node is At && old(self).sat_nodes@[node.index()].indi_extension_data is At ==> {
                let ext = old(self).sat_nodes@[node.index()].indi_extension_data;
                let nh = old(self).indi_sat_node_ext_datas@[ext.index()].nominal_handling_data;
                &&& valid_in(ext, old(self).indi_sat_node_ext_datas@.len())
                &&& nh is At ==> valid_in(nh, old(self).sat_nominal_handling_datas@.len())
            },
            node is At && create ==> old(self).indi_sat_node_ext_datas@.len() < usize::MAX,
            node is At && create ==> old(self).sat_nominal_handling_datas@.len() < usize::MAX,
            node is At && create ==> old(self).nominal_conn_sets@.len() < usize::MAX,
        ensures
            sat_nominal_set_outcome(*old(self), *final(self), node, create, r),
    {
        let nh = self.sat_node_nominal_handling_data(node, create);
        let ghost mid = *self;
        if nh.is_none() {
            assert(sat_nominal_handling_outcome(*old(self), mid, node, create, nh));
            return Id::NONE;
        }
        proof {
            let (m0, e0) = choose|m0: ProcessContext, e0: Id| #[trigger] sat_ext_outcome(*old(self), m0, node, create, e0)
                && (if e0 is NONE { nh is NONE && mid.agrees_except(m0, Set::<ArenaKind>::empty()) } else {
                    let e = m0.indi_sat_node_ext_datas@[e0.index()];
                    let datas = m0.sat_nominal_handling_datas@;
                    &&& nh == lazy_handle(e.nominal_handling_data, create, datas.len())
                    &&& if e.nominal_handling_data is NONE && create {
                        &&& mid.sat_nominal_handling_datas@ == datas.push(SaturationIndividualNodeNominalHandlingData {
                            indi_node: node,
                            succ_connected_nominal_set: Id::NONE,
                        })
                        &&& mid.indi_sat_node_ext_datas@ == m0.indi_sat_node_ext_datas@.update(e0.index(),
                            IndividualSaturationProcessNodeExtensionData { nominal_handling_data: nh, ..e })
                        &&& mid.agrees_except(m0, set![ArenaKind::SatNominalHandlingDatas, ArenaKind::SatNodeExtDatas])
                    } else {
                        mid.agrees_except(m0, Set::<ArenaKind>::empty())
                    }
                });
            assert(valid_in(nh, mid.sat_nominal_handling_datas@.len()));
        }
        if self.sat_nominal_handling_data(nh).succ_connected_nominal_set.is_none() && create {
            let mut set = SuccessorConnectedNominalSet::new();
            set.copy_successor_connected_nominal_set(None);
            let id = self.alloc_nominal_conn_set(set);
            self.sat_nominal_handling_data_mut(nh).succ_connected_nominal_set = id;
            proof {
                assert(self.nominal_conn_sets@.drop_last() =~= mid.nominal_conn_sets@);
            }
        }
        let r = self.sat_nominal_handling_data(nh).succ_connected_nominal_set;
        assert(sat_nominal_handling_outcome(*old(self), mid, node, create, nh));
        r
    }

    /// The successor-connected nominal set of the saturation node `node`,
    /// without making anything.
    pub fn sat_node_successor_connected_nominal_set_existing(&mut self, node: Id) -> (r: Id)
        requires
            node is At ==> valid_in(node, old(self).sat_nodes@.len()),
            node is At && old(self).sat_nodes@[node.index()].indi_extension_data is At ==> {
                let ext = old(self).sat_nodes@[node.index()].indi_extension_data;
                let nh = old(self).indi_sat_node_ext_datas@[ext.index()].nominal_handling_data;
                &&& valid_in(ext, old(self).indi_sat_node_ext_datas@.len())
                &&& nh is At ==> valid_in(nh, old(self).sat_nominal_handling_datas@.len())
            },
        ensures
            sat_nominal_set_outcome(*old(self), *final(self), node, false, r),
    {
        self.sat_node_successor_connected_nominal_set(node, false)
    }

    /// The applied datatype data of the saturation node `node` (see
    /// `sat_datatype_outcome`).
    pub fn sat_node_ext_applied_datatype_data(&mut self, node: Id, create: bool) -> (r: Id)
        requires
            node is At ==> valid_in(node, old(self).sat_nodes@.len()),
            node is At && old(self).sat_nodes@[node.index()].indi_extension_data is At
                ==> valid_in(old(self).sat_nodes@[node.index()].indi_extension_data,
                    old(self).indi_sat_node_ext_datas@.len()),
            node is At && create ==> old(self).indi_sat_node_ext_datas@.len() < usize::MAX,
            node is At && create ==> old(self).sat_indi_node_datatype_datas@.len() < usize::MAX,
        ensures
            sat_datatype_outcome(*old(self), *final(self), node, create, r),
    {
        let ext = self.sat_node_individual_extension_data(node, create);
        let ghost mid = *self;
        if ext.is_none() {
            assert(sat_ext_outcome(*old(self), mid, node, create, ext));
            return Id::NONE;
        }
        if self.indi_sat_node_ext_data(ext).applied_datatype_data.is_none() && create {
            let mut data = SaturationIndividualNodeDatatypeData::new();
            data.init_extension_data(node);
            let d = self.alloc_sat_indi_node_datatype_data(data);
            self.indi_sat_node_ext_data_mut(ext).applied_datatype_data = d;
        }
        let r = self.indi_sat_node_ext_data(ext).applied_datatype_data;
        assert(sat_ext_outcome(*old(self), mid, node, create, ext));
        r
    }

    /// The backward-propagation hash of the saturation node `node`; with
    /// `create`, a node without one gets a new empty hash.
    pub fn sat_node_role_backward_propagation_hash(&mut self, node: Id, create: bool) -> (r: Id)
        requires
            node is At ==> valid_in(node, old(self).sat_nodes@.len()),
            node is At && create ==> old(self).role_backward_sat_prop_hashes@.len() < usize::MAX,
        ensures
            node is NONE ==> r is NONE && final(self).agrees_except(*old(self), Set::<ArenaKind>::empty()),
            node is At ==> {
                let n = old(self).sat_nodes@[node.index()];
                let hashes = old(self).role_backward_sat_prop_hashes@;
                &&& r == lazy_handle(n.role_back_prop_hash, create, hashes.len())
                &&& if n.role_back_prop_hash is NONE && create {
                    &&& final(self).role_backward_sat_prop_hashes@.len() == hashes.len() + 1
                    &&& final(self).role_backward_sat_prop_hashes@.drop_last() == hashes
                    &&& final(self).role_backward_sat_prop_hashes@.last().context == INVALID
                    &&& !final(self).role_backward_sat_prop_hashes@.last().self_connected
                    &&& final(self).role_backward_sat_prop_hashes@.last().role_back_prop_data_hash@
                        == Map::<Id, RoleBackwardSaturationPropagationHashData>::empty()
                    &&& final(self).sat_nodes@.len() == old(self).sat_nodes@.len()
                    &&& final(self).sat_nodes@[node.index()].with_handles(&n, r, n.reapply_con_sat_label_set,
                        n.indi_extension_data)
                    &&& forall|i: int| 0 <= i < old(self).sat_nodes@.len() && i != node.index()
                        ==> #[trigger] final(self).sat_nodes@[i] == old(self).sat_nodes@[i]
                    &&& final(self).agrees_except(*old(self), set![ArenaKind::SatNodes, ArenaKind::RoleBackSatPropHashes])
                } else {
                    final(self).agrees_except(*old(self), Set::<ArenaKind>::empty())
                }
            },
    {
        if node.is_none() {
            return Id::NONE;
        }
        if self.sat_node(node).role_back_prop_hash.is_none() && create {
            let h = self.alloc_role_backward_sat_prop_hash(RoleBackwardSaturationPropagationHash::new(INVALID));
            self.role_backward_sat_prop_hash_mut(h).init_role_backward_saturation_propagation_hash();
            self.sat_node_mut(node).role_back_prop_hash = h;
            proof {
                assert(self.role_backward_sat_prop_hashes@.drop_last() =~= old(self).role_backward_sat_prop_hashes@);
            }
        }
        self.sat_node(node).role_back_prop_hash
    }

    /// The reapply label of the saturation node `node`; with `create`, a
    /// node without one gets a new empty label.
    pub fn sat_node_reapply_concept_saturation_label_set(&mut self, node: Id, create: bool) -> (r: Id)
        requires
            node is At ==> valid_in(node, old(self).sat_nodes@.len()),
            node is At && create ==> old(self).reapply_con_sat_label_sets@.len() < usize::MAX,
        ensures
            node is NONE ==> r is NONE && final(self).agrees_except(*old(self), Set::<ArenaKind>::empty()),
            node is At ==> {
                let n = old(self).sat_nodes@[node.index()];
                let labels = old(self).reapply_con_sat_label_sets@;
                &&& r == lazy_handle(n.reapply_con_sat_label_set, create, labels.len())
                &&& if n.reapply_con_sat_label_set is NONE && create {
                    &&& final(self).reapply_con_sat_label_sets@.len() == labels.len() + 1
                    &&& final(self).reapply_con_sat_label_sets@.drop_last() == labels
                    &&& final(self).reapply_con_sat_label_sets@.last().is_fresh()
                    &&& final(self).sat_nodes@.len() == old(self).sat_nodes@.len()
                    &&& final(self).sat_nodes@[node.index()].with_handles(&n, n.role_back_prop_hash, r,
                        n.indi_extension_data)
                    &&& forall|i: int| 0 <= i < old(self).sat_nodes@.len() && i != node.index()
                        ==> #[trigger] final(self).sat_nodes@[i] == old(self).sat_nodes@[i]
                    &&& final(self).agrees_except(*old(self), set![ArenaKind::SatNodes, ArenaKind::ReapplyConSatLabelSets])
                } else {
                    final(self).agrees_except(*old(self), Set::<ArenaKind>::empty())
                }
            },
    {
        if node.is_none() {
            return Id::NONE;
        }
        if self.sat_node(node).reapply_con_sat_label_set.is_none() && create {
            let l = self.alloc_reapply_con_sat_label_set(ReapplyConceptSaturationLabelSet::new());
            self.sat_node_mut(node).reapply_con_sat_label_set = l;
            proof {
                assert(self.reapply_con_sat_label_sets@.drop_last() =~= old(self).reapply_con_sat_label_sets@);
            }
        }
        self.sat_node(node).reapply_con_sat_label_set
    }

    /// Copies the backward-propagation hash `source` into the hash
    /// `target` for the node `new_indi_node` (see `back_sat_copy_outcome`)
    /// and gives `target`; nothing changes when either handle is absent.
    pub fn copy_role_backward_saturation_propagation_hash(&mut self, target: Id, source: Id, new_indi_node: Id) -> (r: Id)
        requires
            target is At && source is At ==> {
                &&& valid_in(target, old(self).role_backward_sat_prop_hashes@.len())
                &&& valid_in(source, old(self).role_backward_sat_prop_hashes@.len())
                &&& old(self).backward_sat_prop_links@.len()
                    + old(self).role_backward_sat_prop_hashes@[source.index()].role_back_prop_data_hash.entries@.len()
                    < usize::MAX
            },
        ensures
            r == target,
            target is NONE || source is NONE ==> final(self).agrees_except(*old(self), Set::<ArenaKind>::empty()),
            target is At && source is At ==> back_sat_copy_outcome(*old(self), *final(self), target, source, new_indi_node),
    {
        if target.is_none() || source.is_none() {
            return target;
        }
        let ghost sh = self.role_backward_sat_prop_hashes@[source.index()];
        let ghost links0 = self.backward_sat_prop_links@;
        let src = self.role_backward_sat_prop_hash(source).duplicate();
        self.role_backward_sat_prop_hash_mut(target).copy_without_links_from(&src);
        proof {
            let nh = self.role_backward_sat_prop_hashes@[target.index()];
            assert(self.role_backward_sat_prop_hashes@ =~= old(self).role_backward_sat_prop_hashes@.update(target.index(), nh));
            assert(nh.role_back_prop_data_hash@.dom() =~= sh.role_back_prop_data_hash@.dom());
        }
        if src.self_connected {
            let n = src.role_back_prop_data_hash.entries.len();
            let ghost entries = src.role_back_prop_data_hash.entries@;
            let mut i: usize = 0;
            while i < n
                invariant
                    n == entries.len(),
                    entries == src.role_back_prop_data_hash.entries@,
                    entries == sh.role_back_prop_data_hash.entries@,
                    sh.self_connected,
                    sh == old(self).role_backward_sat_prop_hashes@[source.index()],
                    links0 == old(self).backward_sat_prop_links@,
                    links0.len() + entries.len() < usize::MAX,
                    0 <= i <= n,
                    valid_in(target, old(self).role_backward_sat_prop_hashes@.len()),
                    self.role_backward_sat_prop_hashes@ == old(self).role_backward_sat_prop_hashes@.update(
                        target.index(), self.role_backward_sat_prop_hashes@[target.index()]),
                    self.role_backward_sat_prop_hashes@[target.index()].context
                        == old(self).role_backward_sat_prop_hashes@[target.index()].context,
                    self.role_backward_sat_prop_hashes@[target.index()].self_connected,
                    back_sat_copy_state(sh, self.role_backward_sat_prop_hashes@[target.index()],
                        self.backward_sat_prop_links@, links0.len(), new_indi_node,
                        |role: Id| key_seen(entries, role, i as int)),
                    links0.len() <= self.backward_sat_prop_links@.len() <= links0.len() + i,
                    forall|k: int| 0 <= k < links0.len() ==> #[trigger] self.backward_sat_prop_links@[k] == links0[k],
                    forall|k: int| links0.len() <= k < self.backward_sat_prop_links@.len()
                        ==> (#[trigger] self.backward_sat_prop_links@[k]).source_individual == new_indi_node
                            && self.backward_sat_prop_links@[k].next is NONE,
                    self.agrees_except(*old(self), set![ArenaKind::RoleBackSatPropHashes, ArenaKind::BackSatPropLinks]),
                decreases n - i,
            {
                let role = src.role_back_prop_data_hash.entries[i].0;
                let ghost before = *self;
                proof {
                    assert(has_key(entries, role));
                    assert(sh.role_back_prop_data_hash@.contains_key(role));
                }
                let d = self.role_backward_sat_prop_hash(target).data_of(role);
                match d {
                    Some(d) => {
                        if d.self_connected && d.link_linker.is_none() {
                            let mut link = BackwardSaturationPropagationLink::new();
                            link.init_backward_propagation_link(new_indi_node, role);
                            let l = self.alloc_backward_sat_prop_link(link);
                            let nd = RoleBackwardSaturationPropagationHashData { link_linker: l, ..d };
                            self.role_backward_sat_prop_hash_mut(target).set_data(role, nd);
                            proof {
                                assert(self.role_backward_sat_prop_hashes@ =~= old(self).role_backward_sat_prop_hashes@.update(
                                    target.index(), self.role_backward_sat_prop_hashes@[target.index()]));
                                let nh = self.role_backward_sat_prop_hashes@[target.index()];
                                assert(nh.role_back_prop_data_hash@.dom() =~= sh.role_back_prop_data_hash@.dom());
                                assert forall|r2: Id| #[trigger] key_seen(entries, r2, i + 1) == (key_seen(entries, r2, i as int) || r2 == role) by {
                                    if r2 == role { assert(entries[i as int].0 == role); }
                                    if key_seen(entries, r2, i + 1) && r2 != role {
                                        let j = choose|j: int| 0 <= j < i + 1 && #[trigger] entries[j].0 == r2;
                                        assert(j < i);
                                    }
                                }
                            }
                        } else {
                            proof {
                                assert forall|r2: Id| #[trigger] key_seen(entries, r2, i + 1) == (key_seen(entries, r2, i as int) || r2 == role) by {
                                    if r2 == role { assert(entries[i as int].0 == role); }
                                    if key_seen(entries, r2, i + 1) && r2 != role {
                                        let j = choose|j: int| 0 <= j < i + 1 && #[trigger] entries[j].0 == r2;
                                        assert(j < i);
                                    }
                                }
                            }
                        }
                    },
                    None => {},
                }
                i = i + 1;
            }
            proof {
                assert forall|role: Id| #[trigger] sh.role_back_prop_data_hash@.contains_key(role)
                    implies key_seen(entries, role, n as int) by {
                    lemma_first_exists(entries, role);
                    let j = first_index(entries, role);
                    assert(entries[j].0 == role);
                }
            }
        }
        target
    }

    /// The backward-propagation step of copying a saturation node.
    fn coping_copy_hash(&mut self, target: Id, source: Id)
        requires
            target is At && source is At,
            sat_node_ok(*old(self), target),
            sat_node_ok(*old(self), source),
            old(self).role_backward_sat_prop_hashes@.len() < usize::MAX,
            old(self).sat_nodes@[source.index()].role_back_prop_hash is At ==>
                old(self).backward_sat_prop_links@.len() + old(self).role_backward_sat_prop_hashes@[
                    old(self).sat_nodes@[source.index()].role_back_prop_hash.index()]
                    .role_back_prop_data_hash.entries@.len() < usize::MAX,
        ensures
            sat_step_frame(*old(self), *final(self), target, source, true, false, false, false),
            final(self).agrees_except(*old(self), set![ArenaKind::SatNodes, ArenaKind::RoleBackSatPropHashes,
                ArenaKind::BackSatPropLinks]),
            ({
                let s = old(self).sat_nodes@[source.index()];
                let t = old(self).sat_nodes@[target.index()];
                let nt = final(self).sat_nodes@[target.index()];
                &&& s.role_back_prop_hash is At ==> {
                    let sh = old(self).role_backward_sat_prop_hashes@[s.role_back_prop_hash.index()];
                    let th = final(self).role_backward_sat_prop_hashes@[nt.role_back_prop_hash.index()];
                    &&& nt.role_back_prop_hash is At
                    &&& th.self_connected == sh.self_connected
                    &&& back_sat_copy_state(sh, th, final(self).backward_sat_prop_links@,
                        old(self).backward_sat_prop_links@.len(), target, |role: Id| true)
                }
                &&& s.role_back_prop_hash is NONE ==> nt.role_back_prop_hash == t.role_back_prop_hash
            }),
    {
        let src_hash = self.sat_node(source).role_back_prop_hash;
        if src_hash.is_some() {
            let t_hash = self.sat_node_role_backward_propagation_hash(target, true);
            self.copy_role_backward_saturation_propagation_hash(t_hash, src_hash, target);
        }
    }

    /// The reapply-label step of copying a saturation node.
    fn coping_copy_label(&mut self, target: Id, source: Id, try_flat_label_copy: bool, additional_copy_size: usize)
        requires
            target is At && source is At,
            sat_node_ok(*old(self), target),
            sat_node_ok(*old(self), source),
            old(self).reapply_con_sat_label_sets@.len() < usize::MAX,
        ensures
            sat_step_frame(*old(self), *final(self), target, source, false, true, false, false),
            final(self).agrees_except(*old(self), set![ArenaKind::SatNodes, ArenaKind::ReapplyConSatLabelSets]),
            ({
                let s = old(self).sat_nodes@[source.index()];
                let t = old(self).sat_nodes@[target.index()];
                let nt = final(self).sat_nodes@[target.index()];
                &&& s.reapply_con_sat_label_set is At ==> {
                    let sl = old(self).reapply_con_sat_label_sets@[s.reapply_con_sat_label_set.index()];
                    let tl = final(self).reapply_con_sat_label_sets@[nt.reapply_con_sat_label_set.index()];
                    &&& nt.reapply_con_sat_label_set is At
                    &&& tl.concept_count == sl.concept_count
                    &&& tl.totel_count == sl.totel_count
                    &&& tl.concept_flags == sl.concept_flags
                    &&& tl.concept_sat_des_linker == sl.concept_sat_des_linker
                    &&& tl.last_nominal_indep_con_sat_des == sl.last_nominal_indep_con_sat_des
                    &&& if flattens_on_copy(&sl, try_flat_label_copy, additional_copy_size) {
                        &&& tl.concept_des_dep_hash.entries@.len() == 0
                        &&& tl.has_additional_concept_des_dep_hash
                        &&& tl.additional_concept_des_dep_hash@ == flattened_additional(&sl)
                    } else {
                        &&& tl.concept_des_dep_hash.entries@ == sl.concept_des_dep_hash.entries@
                        &&& tl.additional_concept_des_dep_hash.entries@ == sl.additional_concept_des_dep_hash.entries@
                        &&& tl.has_additional_concept_des_dep_hash == sl.has_additional_concept_des_dep_hash
                    }
                }
                &&& s.reapply_con_sat_label_set is NONE ==> nt.reapply_con_sat_label_set == t.reapply_con_sat_label_set
            }),
    {
        let src_label = self.sat_node(source).reapply_con_sat_label_set;
        if src_label.is_some() {
            let t_label = self.sat_node_reapply_concept_saturation_label_set(target, true);
            self.copy_reapply_concept_saturation_label_set(t_label, src_label, try_flat_label_copy, additional_copy_size);
        }
    }

    /// The nominal-set step of copying a saturation node.
    fn coping_copy_nominal_set(&mut self, target: Id, source: Id)
        requires
            target is At && source is At,
            sat_node_ok(*old(self), target),
            sat_node_ok(*old(self), source),
            old(self).indi_sat_node_ext_datas@.len() < usize::MAX,
            old(self).sat_nominal_handling_datas@.len() < usize::MAX,
            old(self).nominal_conn_sets@.len() < usize::MAX,
        ensures
            sat_step_frame(*old(self), *final(self), target, source, false, false, true, false),
            final(self).agrees_except(*old(self), set![ArenaKind::SatNodes, ArenaKind::SatNodeExtDatas,
                ArenaKind::SatNominalHandlingDatas, ArenaKind::NominalConnSets]),
            final(self).indi_sat_node_ext_datas@.len() <= old(self).indi_sat_node_ext_datas@.len() + 1,
            forall|i: int| 0 <= i < old(self).indi_sat_node_ext_datas@.len()
                ==> (#[trigger] final(self).indi_sat_node_ext_datas@[i]).applied_datatype_data
                    == old(self).indi_sat_node_ext_datas@[i].applied_datatype_data,
            final(self).sat_nodes@[target.index()].indi_extension_data is NONE ==>
                old(self).sat_nodes@[target.index()].indi_extension_data is NONE,
            final(self).sat_nodes@[target.index()].indi_extension_data is At
                && old(self).sat_nodes@[target.index()].indi_extension_data is NONE ==> {
                &&& final(self).indi_sat_node_ext_datas@.len() == old(self).indi_sat_node_ext_datas@.len() + 1
                &&& final(self).sat_nodes@[target.index()].indi_extension_data.index()
                    == old(self).indi_sat_node_ext_datas@.len()
                &&& final(self).indi_sat_node_ext_datas@.last().applied_datatype_data is NONE
            },
            final(self).sat_nodes@[target.index()].indi_extension_data is At
                && old(self).sat_nodes@[target.index()].indi_extension_data is At ==>
                final(self).sat_nodes@[target.index()].indi_extension_data
                    == old(self).sat_nodes@[target.index()].indi_extension_data,
            sat_set_of(*old(self), source) is At ==> {
                &&& sat_set_of(*final(self), target) is At
                &&& final(self).nominal_conn_sets@[sat_set_of(*final(self), target).index()].nominals.elems@
                    == old(self).nominal_conn_sets@[sat_set_of(*old(self), source).index()].nominals.elems@
            },
    {
        let src_set = self.sat_node_successor_connected_nominal_set_existing(source);
        if src_set.is_some() {
            let copied = self.nominal_conn_set(src_set).duplicate();
            let t_set = self.sat_node_successor_connected_nominal_set(target, true);
            if t_set.is_some() {
                self.nominal_conn_set_mut(t_set).copy_successor_connected_nominal_set(Some(&copied));
            }
        }
    }

    /// The integration step of copying a saturation node.
    fn coping_set_fields(&mut self, target: Id, source: Id)
        requires
            target is At && source is At,
            sat_node_ok(*old(self), target),
            sat_node_ok(*old(self), source),
        ensures
            sat_step_frame(*old(self), *final(self), target, source, false, false, false, true),
            final(self).agrees_except(*old(self), set![ArenaKind::SatNodes]),
            ({
                let s = old(self).sat_nodes@[source.index()];
                let t = old(self).sat_nodes@[target.index()];
                let nt = final(self).sat_nodes@[target.index()];
                &&& nt.integrated_nominal_indi == (if t.nominal_indi is At {
                    t.nominal_indi
                } else if s.nominal_indi is At {
                    s.nominal_indi
                } else {
                    s.integrated_nominal_indi
                })
                &&& nt.data_value_applied == s.data_value_applied
            }),
    {
        let src_integrated = self.sat_node(source).integrated_nominal_indi;
        let src_nominal = self.sat_node(source).nominal_indi;
        let src_data_value = self.sat_node(source).data_value_applied;
        let t_nominal = self.sat_node(target).nominal_indi;
        let integrated = if t_nominal.is_some() {
            t_nominal
        } else if src_nominal.is_some() {
            src_nominal
        } else {
            src_integrated
        };
        self.sat_node_mut(target).integrated_nominal_indi = integrated;
        self.sat_node_mut(target).data_value_applied = src_data_value;
    }

    /// The datatype step of copying a saturation node.
    fn coping_copy_datatype(&mut self, target: Id, source: Id)
        requires
            target is At && source is At,
            sat_node_ok(*old(self), target),
            sat_node_ok(*old(self), source),
            old(self).indi_sat_node_ext_datas@.len() < usize::MAX,
            old(self).sat_indi_node_datatype_datas@.len() < usize::MAX,
        ensures
            sat_step_frame(*old(self), *final(self), target, source, false, false, true, false),
            final(self).agrees_except(*old(self), set![ArenaKind::SatNodes, ArenaKind::SatNodeExtDatas,
                ArenaKind::SatDatatypeDatas]),
            forall|i: int| 0 <= i < old(self).indi_sat_node_ext_datas@.len()
                ==> (#[trigger] final(self).indi_sat_node_ext_datas@[i]).nominal_handling_data
                    == old(self).indi_sat_node_ext_datas@[i].nominal_handling_data,
            old(self).sat_nodes@[target.index()].indi_extension_data is At ==>
                final(self).sat_nodes@[target.index()].indi_extension_data
                    == old(self).sat_nodes@[target.index()].indi_extension_data,
            old(self).sat_nodes@[target.index()].indi_extension_data is NONE ==>
                sat_set_of(*final(self), target) is NONE,
            sat_dt_of(*old(self), source) is At ==> {
                let sd = old(self).sat_indi_node_datatype_datas@[sat_dt_of(*old(self), source).index()];
                let td = final(self).sat_indi_node_datatype_datas@[sat_dt_of(*final(self), target).index()];
                &&& sat_dt_of(*final(self), target) is At
                &&& td.applied_data_literal == sd.applied_data_literal
                &&& td.applied_datatype == sd.applied_datatype
            },
    {
        let src_dt = self.sat_node_ext_applied_datatype_data(source, false);
        if src_dt.is_some() {
            let literal = self.sat_indi_node_datatype_data(src_dt).applied_data_literal;
            let datatype = self.sat_indi_node_datatype_data(src_dt).applied_datatype;
            let t_dt = self.sat_node_ext_applied_datatype_data(target, true);
            if t_dt.is_some() {
                self.sat_indi_node_datatype_data_mut(t_dt).applied_data_literal = literal;
                self.sat_indi_node_datatype_data_mut(t_dt).applied_datatype = datatype;
            }
        }
    }

    /// Initialises the saturation node `target` as a copy of the node
    /// `source` (see `sat_coping_outcome`): the target gets copies of the
    /// source's backward propagations, reapply label (flattened as
    /// `copy_reapply_concept_saturation_label_set` does with
    /// `try_flat_label_copy` and `additional_copy_size`),
    /// successor-connected nominals and applied datatype; it is integrated
    /// with its own nominal, else the source's nominal, else the nominal the
    /// source is integrated with; it takes the source's data-value flag; and
    /// the source records the target as copied from it. Nothing changes
    /// when either handle is absent.
    #[verifier::rlimit(50)]
    pub fn sat_node_init_coping_individual_saturation_process_node(
        &mut self,
        target: Id,
        source: Id,
        try_flat_label_copy: bool,
        additional_copy_size: usize,
    )
        requires
            target is At && source is At ==> {
                &&& sat_node_ok(*old(self), target)
                &&& sat_node_ok(*old(self), source)
                &&& old(self).indi_sat_node_ext_datas@.len() + 1 < usize::MAX
                &&& old(self).sat_nominal_handling_datas@.len() < usize::MAX
                &&& old(self).nominal_conn_sets@.len() < usize::MAX
                &&& old(self).sat_indi_node_datatype_datas@.len() < usize::MAX
                &&& old(self).role_backward_sat_prop_hashes@.len() < usize::MAX
                &&& old(self).reapply_con_sat_label_sets@.len() < usize::MAX
                &&& old(self).sat_nodes@[source.index()].role_back_prop_hash is At ==>
                    old(self).backward_sat_prop_links@.len() + old(self).role_backward_sat_prop_hashes@[
                        old(self).sat_nodes@[source.index()].role_back_prop_hash.index()]
                        .role_back_prop_data_hash.entries@.len() < usize::MAX
            },
        ensures
            target is NONE || source is NONE ==> final(self).agrees_except(*old(self), Set::<ArenaKind>::empty()),
            target is At && source is At ==> sat_coping_outcome(*old(self), *final(self), target, source,
                try_flat_label_copy, additional_copy_size),
    {
        if target.is_none() || source.is_none() {
            return;
        }
        self.coping_copy_hash(target, source);
        self.coping_copy_label(target, source, try_flat_label_copy, additional_copy_size);
        let ghost c2 = *self;
        self.coping_copy_nominal_set(target, source);
        let ghost c3 = *self;
        self.coping_set_fields(target, source);
        let ghost c4 = *self;
        self.coping_copy_datatype(target, source);
        let ghost c5 = *self;
        self.sat_node_mut(source).add_copy_depending_individual_node_linker(NegLink { target: target, negated: true });
        proof {
            assert(sat_set_of(c2, source) == sat_set_of(*old(self), source));
            assert(sat_dt_of(c4, source) == sat_dt_of(*old(self), source));
            assert(sat_set_of(c4, target) == sat_set_of(c3, target));
            if c4.sat_nodes@[target.index()].indi_extension_data is At {
                let e = c4.sat_nodes@[target.index()].indi_extension_data;
                assert(c5.sat_nodes@[target.index()].indi_extension_data == e);
                assert(c5.indi_sat_node_ext_datas@[e.index()].nominal_handling_data
                    == c4.indi_sat_node_ext_datas@[e.index()].nominal_handling_data);
            }
            assert(sat_set_of(c5, target) == sat_set_of(c4, target));
            assert(sat_set_of(*self, target) == sat_set_of(c5, target));
            assert(sat_dt_of(*self, target) == sat_dt_of(c5, target));
        }
    }

    /// Moves the saturation arenas of `other` into `self` and those of
    /// `self` into `other`; every other arena of both stays as it is.
    pub fn adopt_saturation_state_from(&mut self, other: &mut ProcessContext)
        ensures
            final(self).con_sat_descs@ == old(other).con_sat_descs@,
            final(other).con_sat_descs@ == old(self).con_sat_descs@,
            final(self).reapply_con_sat_label_sets@ == old(other).reapply_con_sat_label_sets@,
            final(other).reapply_con_sat_label_sets@ == old(self).reapply_con_sat_label_sets@,
            final(self).imp_reapply_con_sat_descs@ == old(other).imp_reapply_con_sat_descs@,
            final(other).imp_reapply_con_sat_descs@ == old(self).imp_reapply_con_sat_descs@,
            final(self).sat_linked_succ_indi_all_concept_ext_datas@ == old(other).sat_linked_succ_indi_all_concept_ext_datas@,
            final(other).sat_linked_succ_indi_all_concept_ext_datas@ == old(self).sat_linked_succ_indi_all_concept_ext_datas@,
            final(self).sat_successor_all_concept_ext_datas@ == old(other).sat_successor_all_concept_ext_datas@,
            final(other).sat_successor_all_concept_ext_datas@ == old(self).sat_successor_all_concept_ext_datas@,
            final(self).sat_successor_concept_extension_maps@ == old(other).sat_successor_concept_extension_maps@,
            final(other).sat_successor_concept_extension_maps@ == old(self).sat_successor_concept_extension_maps@,
            final(self).sat_indi_node_all_concept_ext_datas@ == old(other).sat_indi_node_all_concept_ext_datas@,
            final(other).sat_indi_node_all_concept_ext_datas@ == old(self).sat_indi_node_all_concept_ext_datas@,
            final(self).sat_modified_process_update_linkers@ == old(other).sat_modified_process_update_linkers@,
            final(other).sat_modified_process_update_linkers@ == old(self).sat_modified_process_update_linkers@,
            final(self).sat_nodes@ == old(other).sat_nodes@,
            final(other).sat_nodes@ == old(self).sat_nodes@,
            final(self).indi_sat_node_ext_datas@ == old(other).indi_sat_node_ext_datas@,
            final(other).indi_sat_node_ext_datas@ == old(self).indi_sat_node_ext_datas@,
            final(self).sat_nominal_handling_datas@ == old(other).sat_nominal_handling_datas@,
            final(other).sat_nominal_handling_datas@ == old(self).sat_nominal_handling_datas@,
            final(self).sat_indi_node_datatype_datas@ == old(other).sat_indi_node_datatype_datas@,
            final(other).sat_indi_node_datatype_datas@ == old(self).sat_indi_node_datatype_datas@,
            final(self).role_backward_sat_prop_hashes@ == old(other).role_backward_sat_prop_hashes@,
            final(other).role_backward_sat_prop_hashes@ == old(self).role_backward_sat_prop_hashes@,
            final(self).backward_sat_prop_links@ == old(other).backward_sat_prop_links@,
            final(other).backward_sat_prop_links@ == old(self).backward_sat_prop_links@,
            final(self).agrees_except(*old(self), set![ArenaKind::ConSatDescs, ArenaKind::ReapplyConSatLabelSets,
                ArenaKind::ImpReapplyConSatDescs, ArenaKind::SatLinkedSuccAllExtDatas, ArenaKind::SatSuccAllExtDatas,
                ArenaKind::SatSuccConceptExtMaps, ArenaKind::SatNodeAllExtDatas, ArenaKind::SatModifiedUpdateLinkers,
                ArenaKind::SatNodes, ArenaKind::SatNodeExtDatas, ArenaKind::SatNominalHandlingDatas, ArenaKind::SatDatatypeDatas, ArenaKind::RoleBackSatPropHashes, ArenaKind::BackSatPropLinks]),
            final(other).agrees_except(*old(other), set![ArenaKind::ConSatDescs, ArenaKind::ReapplyConSatLabelSets,
                ArenaKind::ImpReapplyConSatDescs, ArenaKind::SatLinkedSuccAllExtDatas, ArenaKind::SatSuccAllExtDatas,
                ArenaKind::SatSuccConceptExtMaps, ArenaKind::SatNodeAllExtDatas, ArenaKind::SatModifiedUpdateLinkers,
                ArenaKind::SatNodes, ArenaKind::SatNodeExtDatas, ArenaKind::SatNominalHandlingDatas, ArenaKind::SatDatatypeDatas, ArenaKind::RoleBackSatPropHashes, ArenaKind::BackSatPropLinks]),
    {
        std::mem::swap(&mut self.con_sat_descs, &mut other.con_sat_descs);
        std::mem::swap(&mut self.reapply_con_sat_label_sets, &mut other.reapply_con_sat_label_sets);
        std::mem::swap(&mut self.imp_reapply_con_sat_descs, &mut other.imp_reapply_con_sat_descs);
        std::mem::swap(&mut self.sat_linked_succ_indi_all_concept_ext_datas, &mut other.sat_linked_succ_indi_all_concept_ext_datas);
        std::mem::swap(&mut self.sat_successor_all_concept_ext_datas, &mut other.sat_successor_all_concept_ext_datas);
        std::mem::swap(&mut self.sat_successor_concept_extension_maps, &mut other.sat_successor_concept_extension_maps);
        std::mem::swap(&mut self.sat_indi_node_all_concept_ext_datas, &mut other.sat_indi_node_all_concept_ext_datas);
        std::mem::swap(&mut self.sat_modified_process_update_linkers, &mut other.sat_modified_process_update_linkers);
        std::mem::swap(&mut self.sat_nodes, &mut other.sat_nodes);
        std::mem::swap(&mut self.indi_sat_node_ext_datas, &mut other.indi_sat_node_ext_datas);
        std::mem::swap(&mut self.sat_nominal_handling_datas, &mut other.sat_nominal_handling_datas);
        std::mem::swap(&mut self.sat_indi_node_datatype_datas, &mut other.sat_indi_node_datatype_datas);
        std::mem::swap(&mut self.role_backward_sat_prop_hashes, &mut other.role_backward_sat_prop_hashes);
        std::mem::swap(&mut self.backward_sat_prop_links, &mut other.backward_sat_prop_links);
    }
}

} // verus!
