//! The per-test processing state of the completion engine: the handles of
//! every processing queue, hash and review set in the three generations
//! (localised, in use, inherited), the work lists of individual nodes, and
//! the counters of the test.

use vstd::prelude::*;
use crate::ids::{Id, Cint64, INVALID, NodeId, valid_in};
use crate::chain::{walk, chain_ok, chain_len};
use crate::context::{ProcessContext, ArenaKind, pushed_one, named, review_set_inherits, tree_from};
use crate::models::IndividualProcessNodeLinker;

verus! {

/// The processing state of one satisfiability test.
pub struct ProcessingDataBox {
    pub process_context: Cint64,
    pub ontology_top_concept: Id,
    pub ontology_top_data_range_concept: Id,
    pub ontology: Cint64,
    pub clashed_descriptor_linker: Id,
    pub local_indi_vector: Id,
    pub use_indi_vector: Id,
    pub use_indi_process_queue: Id,
    pub loc_indi_process_queue: Id,
    /// The current node of each individual node identifier.
    pub indi_process_vector: Vec<NodeId>,
    pub indi_imm_process_queue: Id,
    pub use_indi_imm_process_queue: Id,
    pub prev_indi_imm_process_queue: Id,
    pub delay_nom_process_queue: Id,
    pub use_delay_nom_process_queue: Id,
    pub prev_delay_nom_process_queue: Id,
    pub role_assertion_process_queue: Id,
    pub use_role_assertion_process_queue: Id,
    pub prev_role_assertion_process_queue: Id,
    pub backend_sync_retest_process_queue: Id,
    pub use_backend_sync_retest_process_queue: Id,
    pub prev_backend_sync_retest_process_queue: Id,
    pub backend_indirect_compatibility_expansion_queue: Id,
    pub use_backend_indirect_compatibility_expansion_queue: Id,
    pub prev_backend_indirect_compatibility_expansion_queue: Id,
    pub backend_individual_reuse_expansion_queue: Id,
    pub use_backend_individual_reuse_expansion_queue: Id,
    pub prev_backend_individual_reuse_expansion_queue: Id,
    pub backend_individual_late_reuse_expansion_activated: bool,
    pub backend_late_individual_reuse_expansion_queue: Id,
    pub use_backend_late_individual_reuse_expansion_queue: Id,
    pub prev_backend_late_individual_reuse_expansion_queue: Id,
    pub backend_individual_neighbour_expansion_queue: Id,
    pub use_backend_individual_neighbour_expansion_queue: Id,
    pub prev_backend_individual_neighbour_expansion_queue: Id,
    pub backend_direct_influence_expansion_queue: Id,
    pub use_backend_direct_influence_expansion_queue: Id,
    pub prev_backend_direct_influence_expansion_queue: Id,
    pub indi_depth_det_exp_pre_processing_queue: Id,
    pub use_indi_depth_det_exp_pre_processing_queue: Id,
    pub prev_indi_depth_det_exp_pre_processing_queue: Id,
    pub indi_depth_first_det_exp_pre_processing_queue: Id,
    pub use_indi_depth_first_det_exp_pre_processing_queue: Id,
    pub prev_indi_depth_first_det_exp_pre_processing_queue: Id,
    pub var_bind_concept_batch_process_queue: Id,
    pub use_var_bind_concept_batch_process_queue: Id,
    pub prev_var_bind_concept_batch_process_queue: Id,
    pub indi_depth_processing_queue: Id,
    pub use_indi_depth_processing_queue: Id,
    pub prev_indi_depth_processing_queue: Id,
    pub nominal_processing_queue: Id,
    pub use_nominal_processing_queue: Id,
    pub prev_nominal_processing_queue: Id,
    pub nominal_deterministic_processing_queue: Id,
    pub use_nominal_deterministic_processing_queue: Id,
    pub prev_nominal_deterministic_processing_queue: Id,
    pub indi_depth_first_process_queue: Id,
    pub use_indi_depth_first_process_queue: Id,
    pub prev_indi_depth_first_process_queue: Id,
    pub caching_loss_reactivation_process_queue: Id,
    pub use_caching_loss_reactivation_process_queue: Id,
    pub prev_caching_loss_reactivation_process_queue: Id,
    pub indi_signature_blocking_update_processing_queue: Id,
    pub use_indi_signature_blocking_update_processing_queue: Id,
    pub prev_indi_signature_blocking_update_processing_queue: Id,
    pub indi_blocked_reactivation_processing_queue: Id,
    pub use_indi_blocked_reactivation_processing_queue: Id,
    pub prev_indi_blocked_reactivation_processing_queue: Id,
    pub value_space_triggering_processing_queue: Id,
    pub use_value_space_triggering_processing_queue: Id,
    pub prev_value_space_triggering_processing_queue: Id,
    pub distinct_value_space_satisfiability_checking_queue: Id,
    pub use_distinct_value_space_satisfiability_checking_queue: Id,
    pub prev_distinct_value_space_satisfiability_checking_queue: Id,
    pub incremental_exansion_initializing_processing_queue: Id,
    pub use_incremental_exansion_initializing_processing_queue: Id,
    pub prev_incremental_exansion_initializing_processing_queue: Id,
    pub incremental_exansion_processing_queue: Id,
    pub use_incremental_exansion_processing_queue: Id,
    pub prev_incremental_exansion_processing_queue: Id,
    pub incremental_compatibility_checking_queue: Id,
    pub use_incremental_compatibility_checking_queue: Id,
    pub prev_incremental_compatibility_checking_queue: Id,
    pub signature_blocking_candidate_hash: Id,
    pub use_signature_blocking_candidate_hash: Id,
    pub prev_signature_blocking_candidate_hash: Id,
    pub signature_blocking_review_set: Id,
    pub use_signature_blocking_review_set: Id,
    pub prev_signature_blocking_review_set: Id,
    pub signature_nominal_delaying_candidate_hash: Id,
    pub use_signature_nominal_delaying_candidate_hash: Id,
    pub prev_signature_nominal_delaying_candidate_hash: Id,
    pub early_indi_react_pro_queue: Id,
    pub use_early_indi_react_pro_queue: Id,
    pub prev_early_indi_react_pro_queue: Id,
    pub late_indi_react_pro_queue: Id,
    pub use_late_indi_react_pro_queue: Id,
    pub prev_late_indi_react_pro_queue: Id,
    pub reusing_review_set: Id,
    pub use_reusing_review_set: Id,
    pub prev_reusing_review_set: Id,
    pub branching_instruction: Id,
    pub blocking_indi_node_candidate_hash: Id,
    pub use_blocking_indi_node_candidate_hash: Id,
    pub prev_blocking_indi_node_candidate_hash: Id,
    pub blocking_indi_node_linked_candidate_hash: Id,
    pub use_blocking_indi_node_linked_candidate_hash: Id,
    pub prev_blocking_indi_node_linked_candidate_hash: Id,
    pub node_switch_history: Id,
    pub use_node_switch_history: Id,
    pub prev_node_switch_history: Id,
    pub branching_tree: Id,
    pub use_branching_tree: Id,
    pub prev_branching_tree: Id,
    pub loc_extended_concept_vector: Id,
    pub use_extended_concept_vector: Id,
    pub loc_grounding_hash: Id,
    pub use_grounding_hash: Id,
    pub multiple_construction_indi_nodes: bool,
    pub constructed_indi_node: Id,
    pub constructed_indi_node_initialized: bool,
    pub maximum_deterministic_branch_tag: Cint64,
    pub last_processing_indi_node: Id,
    pub last_processing_con_des: Id,
    pub last_con_des_indi_reapplication: bool,
    pub sorted_nominal_non_det_processing_node_linker: Vec<Id>,
    pub sorted_nominal_non_det_processing_nodes_sorted: bool,
    pub nominal_non_det_processing_count: Cint64,
    pub individual_node_cache_testing_linker: Vec<Id>,
    pub indi_process_node_linker: Id,
    pub disjunct_common_concept_extract_processing_linker: Vec<Id>,
    pub indi_saturation_process_node_linker: Vec<Id>,
    pub indi_saturation_completion_node_linker: Vec<Id>,
    pub indi_saturation_completed_node_linker: Vec<Id>,
    pub indi_saturation_analysing_node_linker: Vec<Id>,
    pub indi_saturation_process_vector: Id,
    pub rem_sat_update_linker: Vec<Id>,
    pub rem_sat_indi_node_linker: Vec<Id>,
    pub rem_sat_indi_succ_link_data_linker: Vec<Id>,
    pub rem_con_sat_process_linker: Vec<Id>,
    pub rem_role_sat_process_linker: Vec<Id>,
    pub rem_con_sat_des: Vec<Id>,
    pub rem_con_des: Vec<Id>,
    pub sat_critical_indi_node_proc_queue: Id,
    pub sat_critical_indi_node_con_test_set: Id,
    pub sat_nominal_dependent_node_hash: Id,
    pub sat_influenced_nominal_set: Id,
    pub insufficient_node_occured: bool,
    pub delayed_nominal_processing_occured: bool,
    pub problematic_eq_candidate_node_occured: bool,
    pub sat_succ_ext_ind_node_proc_queue: Id,
    pub nominal_delayed_indi_saturation_process_node_linker: Vec<Id>,
    pub saturation_atmost_merging_process_linker: Vec<Id>,
    pub separated_saturation_con_ass_resolve_node: Id,
    pub individual_node_resolve_linker: Vec<Id>,
    pub blockable_individual_node_updated_linker: Vec<Id>,
    pub next_sat_res_succ_ext_individual_node_id: Cint64,
    pub next_individual_node_id: Cint64,
    pub next_propagation_id: Cint64,
    pub next_variable_id: Cint64,
    pub next_rep_variable_id: Cint64,
    pub use_var_binding_path_merging_hash: Id,
    pub loc_var_binding_path_merging_hash: Id,
    pub use_rep_var_bind_path_set_hash: Id,
    pub loc_rep_var_bind_path_set_hash: Id,
    pub use_rep_var_bind_path_joining_key_hash: Id,
    pub loc_rep_var_bind_path_joining_key_hash: Id,
    pub use_rep_joining_hash: Id,
    pub loc_rep_joining_hash: Id,
    pub use_rep_var_bind_path_hash: Id,
    pub loc_rep_var_bind_path_hash: Id,
    pub use_nom_caching_loss_react_hash: Id,
    pub loc_nom_caching_loss_react_hash: Id,
    pub use_marker_indi_node_hash: Id,
    pub loc_marker_indi_node_hash: Id,
    pub incremental_expansion_initialized: bool,
    pub next_incremental_indi_exp_id: Cint64,
    pub incremental_exp_id: Cint64,
    pub incremental_expansion_compatible_merged: bool,
    pub incremental_expansion_caching_merged: bool,
    pub max_inc_prev_comp_graph_node_id: Cint64,
    pub next_role_assertion_creation_id: Cint64,
    pub referred_indi_track_vec: Id,
    pub indi_dep_tracking_required: bool,
    pub current_merged_possible_instance_individual_linkers_linker: Vec<Vec<Cint64>>,
    pub last_merged_possible_instance_individual_linker: Vec<Cint64>,
    pub remaining_possible_instance_individual_merging_limit: Cint64,
    pub possible_instance_individual_current_merging_count: Cint64,
    pub possible_instance_individual_merged_count: Cint64,
    pub possible_instance_individual_merging_size: Cint64,
    pub possible_instance_individual_merging_stopped: bool,
    pub last_backend_cache_integrated_indi_node_linker: Vec<Id>,
    pub backend_cache_integrated_individual_node_count: Cint64,
    pub backend_cache_integrated_same_individual_node_count: Cint64,
    pub use_backend_loaded_association_hash: Id,
    pub loc_backend_loaded_association_hash: Id,
    pub use_backend_concept_set_label_processing_hash: Id,
    pub loc_backend_concept_set_label_processing_hash: Id,
    pub delayed_backend_init_proc_queue: Id,
    pub use_delayed_backend_init_proc_queue: Id,
    pub prev_delayed_backend_init_proc_queue: Id,
    pub use_backend_neighbour_expansion_controlling_data: Id,
    pub loc_backend_neighbour_expansion_controlling_data: Id,
    pub backend_neighbour_expansion_queue: Id,
    pub use_backend_neighbour_expansion: Id,
    pub prev_backend_neighbour_expansion: Id,
    pub backend_cache_update_individuals_initialized: bool,
    pub representative_neighbour_expansion_individual_node_linker: Vec<NodeId>,
}

impl ProcessingDataBox {
    /// Every handle absent, every flag false, every counter zero and every
    /// work list empty.
    pub open spec fn is_initial(self) -> bool {
        &&& self.process_context == INVALID
        &&& self.ontology_top_concept == Id::NONE
        &&& self.ontology_top_data_range_concept == Id::NONE
        &&& self.ontology == INVALID
        &&& self.clashed_descriptor_linker == Id::NONE
        &&& self.local_indi_vector == Id::NONE
        &&& self.use_indi_vector == Id::NONE
        &&& self.use_indi_process_queue == Id::NONE
        &&& self.loc_indi_process_queue == Id::NONE
        &&& self.indi_process_vector@.len() == 0
        &&& self.indi_imm_process_queue == Id::NONE
        &&& self.use_indi_imm_process_queue == Id::NONE
        &&& self.prev_indi_imm_process_queue == Id::NONE
        &&& self.delay_nom_process_queue == Id::NONE
        &&& self.use_delay_nom_process_queue == Id::NONE
        &&& self.prev_delay_nom_process_queue == Id::NONE
        &&& self.role_assertion_process_queue == Id::NONE
        &&& self.use_role_assertion_process_queue == Id::NONE
        &&& self.prev_role_assertion_process_queue == Id::NONE
        &&& self.backend_sync_retest_process_queue == Id::NONE
        &&& self.use_backend_sync_retest_process_queue == Id::NONE
        &&& self.prev_backend_sync_retest_process_queue == Id::NONE
        &&& self.backend_indirect_compatibility_expansion_queue == Id::NONE
        &&& self.use_backend_indirect_compatibility_expansion_queue == Id::NONE
        &&& self.prev_backend_indirect_compatibility_expansion_queue == Id::NONE
        &&& self.backend_individual_reuse_expansion_queue == Id::NONE
        &&& self.use_backend_individual_reuse_expansion_queue == Id::NONE
        &&& self.prev_backend_individual_reuse_expansion_queue == Id::NONE
        &&& self.backend_individual_late_reuse_expansion_activated == false
        &&& self.backend_late_individual_reuse_expansion_queue == Id::NONE
        &&& self.use_backend_late_individual_reuse_expansion_queue == Id::NONE
        &&& self.prev_backend_late_individual_reuse_expansion_queue == Id::NONE
        &&& self.backend_individual_neighbour_expansion_queue == Id::NONE
        &&& self.use_backend_individual_neighbour_expansion_queue == Id::NONE
        &&& self.prev_backend_individual_neighbour_expansion_queue == Id::NONE
        &&& self.backend_direct_influence_expansion_queue == Id::NONE
        &&& self.use_backend_direct_influence_expansion_queue == Id::NONE
        &&& self.prev_backend_direct_influence_expansion_queue == Id::NONE
        &&& self.indi_depth_det_exp_pre_processing_queue == Id::NONE
        &&& self.use_indi_depth_det_exp_pre_processing_queue == Id::NONE
        &&& self.prev_indi_depth_det_exp_pre_processing_queue == Id::NONE
        &&& self.indi_depth_first_det_exp_pre_processing_queue == Id::NONE
        &&& self.use_indi_depth_first_det_exp_pre_processing_queue == Id::NONE
        &&& self.prev_indi_depth_first_det_exp_pre_processing_queue == Id::NONE
        &&& self.var_bind_concept_batch_process_queue == Id::NONE
        &&& self.use_var_bind_concept_batch_process_queue == Id::NONE
        &&& self.prev_var_bind_concept_batch_process_queue == Id::NONE
        &&& self.indi_depth_processing_queue == Id::NONE
        &&& self.use_indi_depth_processing_queue == Id::NONE
        &&& self.prev_indi_depth_processing_queue == Id::NONE
        &&& self.nominal_processing_queue == Id::NONE
        &&& self.use_nominal_processing_queue == Id::NONE
        &&& self.prev_nominal_processing_queue == Id::NONE
        &&& self.nominal_deterministic_processing_queue == Id::NONE
        &&& self.use_nominal_deterministic_processing_queue == Id::NONE
        &&& self.prev_nominal_deterministic_processing_queue == Id::NONE
        &&& self.indi_depth_first_process_queue == Id::NONE
        &&& self.use_indi_depth_first_process_queue == Id::NONE
        &&& self.prev_indi_depth_first_process_queue == Id::NONE
        &&& self.caching_loss_reactivation_process_queue == Id::NONE
        &&& self.use_caching_loss_reactivation_process_queue == Id::NONE
        &&& self.prev_caching_loss_reactivation_process_queue == Id::NONE
        &&& self.indi_signature_blocking_update_processing_queue == Id::NONE
        &&& self.use_indi_signature_blocking_update_processing_queue == Id::NONE
        &&& self.prev_indi_signature_blocking_update_processing_queue == Id::NONE
        &&& self.indi_blocked_reactivation_processing_queue == Id::NONE
        &&& self.use_indi_blocked_reactivation_processing_queue == Id::NONE
        &&& self.prev_indi_blocked_reactivation_processing_queue == Id::NONE
        &&& self.value_space_triggering_processing_queue == Id::NONE
        &&& self.use_value_space_triggering_processing_queue == Id::NONE
        &&& self.prev_value_space_triggering_processing_queue == Id::NONE
        &&& self.distinct_value_space_satisfiability_checking_queue == Id::NONE
        &&& self.use_distinct_value_space_satisfiability_checking_queue == Id::NONE
        &&& self.prev_distinct_value_space_satisfiability_checking_queue == Id::NONE
        &&& self.incremental_exansion_initializing_processing_queue == Id::NONE
        &&& self.use_incremental_exansion_initializing_processing_queue == Id::NONE
        &&& self.prev_incremental_exansion_initializing_processing_queue == Id::NONE
        &&& self.incremental_exansion_processing_queue == Id::NONE
        &&& self.use_incremental_exansion_processing_queue == Id::NONE
        &&& self.prev_incremental_exansion_processing_queue == Id::NONE
        &&& self.incremental_compatibility_checking_queue == Id::NONE
        &&& self.use_incremental_compatibility_checking_queue == Id::NONE
        &&& self.prev_incremental_compatibility_checking_queue == Id::NONE
        &&& self.signature_blocking_candidate_hash == Id::NONE
        &&& self.use_signature_blocking_candidate_hash == Id::NONE
        &&& self.prev_signature_blocking_candidate_hash == Id::NONE
        &&& self.signature_blocking_review_set == Id::NONE
        &&& self.use_signature_blocking_review_set == Id::NONE
        &&& self.prev_signature_blocking_review_set == Id::NONE
        &&& self.signature_nominal_delaying_candidate_hash == Id::NONE
        &&& self.use_signature_nominal_delaying_candidate_hash == Id::NONE
        &&& self.prev_signature_nominal_delaying_candidate_hash == Id::NONE
        &&& self.early_indi_react_pro_queue == Id::NONE
        &&& self.use_early_indi_react_pro_queue == Id::NONE
        &&& self.prev_early_indi_react_pro_queue == Id::NONE
        &&& self.late_indi_react_pro_queue == Id::NONE
        &&& self.use_late_indi_react_pro_queue == Id::NONE
        &&& self.prev_late_indi_react_pro_queue == Id::NONE
        &&& self.reusing_review_set == Id::NONE
        &&& self.use_reusing_review_set == Id::NONE
        &&& self.prev_reusing_review_set == Id::NONE
        &&& self.branching_instruction == Id::NONE
        &&& self.blocking_indi_node_candidate_hash == Id::NONE
        &&& self.use_blocking_indi_node_candidate_hash == Id::NONE
        &&& self.prev_blocking_indi_node_candidate_hash == Id::NONE
        &&& self.blocking_indi_node_linked_candidate_hash == Id::NONE
        &&& self.use_blocking_indi_node_linked_candidate_hash == Id::NONE
        &&& self.prev_blocking_indi_node_linked_candidate_hash == Id::NONE
        &&& self.node_switch_history == Id::NONE
        &&& self.use_node_switch_history == Id::NONE
        &&& self.prev_node_switch_history == Id::NONE
        &&& self.branching_tree == Id::NONE
        &&& self.use_branching_tree == Id::NONE
        &&& self.prev_branching_tree == Id::NONE
        &&& self.loc_extended_concept_vector == Id::NONE
        &&& self.use_extended_concept_vector == Id::NONE
        &&& self.loc_grounding_hash == Id::NONE
        &&& self.use_grounding_hash == Id::NONE
        &&& self.multiple_construction_indi_nodes == false
        &&& self.constructed_indi_node == Id::NONE
        &&& self.constructed_indi_node_initialized == false
        &&& self.maximum_deterministic_branch_tag == 0
        &&& self.last_processing_indi_node == Id::NONE
        &&& self.last_processing_con_des == Id::NONE
        &&& self.last_con_des_indi_reapplication == false
        &&& self.sorted_nominal_non_det_processing_node_linker@.len() == 0
        &&& self.sorted_nominal_non_det_processing_nodes_sorted == false
        &&& self.nominal_non_det_processing_count == 0
        &&& self.individual_node_cache_testing_linker@.len() == 0
        &&& self.indi_process_node_linker == Id::NONE
        &&& self.disjunct_common_concept_extract_processing_linker@.len() == 0
        &&& self.indi_saturation_process_node_linker@.len() == 0
        &&& self.indi_saturation_completion_node_linker@.len() == 0
        &&& self.indi_saturation_completed_node_linker@.len() == 0
        &&& self.indi_saturation_analysing_node_linker@.len() == 0
        &&& self.indi_saturation_process_vector == Id::NONE
        &&& self.rem_sat_update_linker@.len() == 0
        &&& self.rem_sat_indi_node_linker@.len() == 0
        &&& self.rem_sat_indi_succ_link_data_linker@.len() == 0
        &&& self.rem_con_sat_process_linker@.len() == 0
        &&& self.rem_role_sat_process_linker@.len() == 0
        &&& self.rem_con_sat_des@.len() == 0
        &&& self.rem_con_des@.len() == 0
        &&& self.sat_critical_indi_node_proc_queue == Id::NONE
        &&& self.sat_critical_indi_node_con_test_set == Id::NONE
        &&& self.sat_nominal_dependent_node_hash == Id::NONE
        &&& self.sat_influenced_nominal_set == Id::NONE
        &&& self.insufficient_node_occured == false
        &&& self.delayed_nominal_processing_occured == false
        &&& self.problematic_eq_candidate_node_occured == false
        &&& self.sat_succ_ext_ind_node_proc_queue == Id::NONE
        &&& self.nominal_delayed_indi_saturation_process_node_linker@.len() == 0
        &&& self.saturation_atmost_merging_process_linker@.len() == 0
        &&& self.separated_saturation_con_ass_resolve_node == Id::NONE
        &&& self.individual_node_resolve_linker@.len() == 0
        &&& self.blockable_individual_node_updated_linker@.len() == 0
        &&& self.next_sat_res_succ_ext_individual_node_id == 0
        &&& self.next_individual_node_id == 0
        &&& self.next_propagation_id == 0
        &&& self.next_variable_id == 0
        &&& self.next_rep_variable_id == 0
        &&& self.use_var_binding_path_merging_hash == Id::NONE
        &&& self.loc_var_binding_path_merging_hash == Id::NONE
        &&& self.use_rep_var_bind_path_set_hash == Id::NONE
        &&& self.loc_rep_var_bind_path_set_hash == Id::NONE
        &&& self.use_rep_var_bind_path_joining_key_hash == Id::NONE
        &&& self.loc_rep_var_bind_path_joining_key_hash == Id::NONE
        &&& self.use_rep_joining_hash == Id::NONE
        &&& self.loc_rep_joining_hash == Id::NONE
        &&& self.use_rep_var_bind_path_hash == Id::NONE
        &&& self.loc_rep_var_bind_path_hash == Id::NONE
        &&& self.use_nom_caching_loss_react_hash == Id::NONE
        &&& self.loc_nom_caching_loss_react_hash == Id::NONE
        &&& self.use_marker_indi_node_hash == Id::NONE
        &&& self.loc_marker_indi_node_hash == Id::NONE
        &&& self.incremental_expansion_initialized == false
        &&& self.next_incremental_indi_exp_id == 0
        &&& self.incremental_exp_id == 0
        &&& self.incremental_expansion_compatible_merged == false
        &&& self.incremental_expansion_caching_merged == false
        &&& self.max_inc_prev_comp_graph_node_id == 0
        &&& self.next_role_assertion_creation_id == 0
        &&& self.referred_indi_track_vec == Id::NONE
        &&& self.indi_dep_tracking_required == false
        &&& self.current_merged_possible_instance_individual_linkers_linker@.len() == 0
        &&& self.last_merged_possible_instance_individual_linker@.len() == 0
        &&& self.remaining_possible_instance_individual_merging_limit == 0
        &&& self.possible_instance_individual_current_merging_count == 0
        &&& self.possible_instance_individual_merged_count == 0
        &&& self.possible_instance_individual_merging_size == 0
        &&& self.possible_instance_individual_merging_stopped == false
        &&& self.last_backend_cache_integrated_indi_node_linker@.len() == 0
        &&& self.backend_cache_integrated_individual_node_count == 0
        &&& self.backend_cache_integrated_same_individual_node_count == 0
        &&& self.use_backend_loaded_association_hash == Id::NONE
        &&& self.loc_backend_loaded_association_hash == Id::NONE
        &&& self.use_backend_concept_set_label_processing_hash == Id::NONE
        &&& self.loc_backend_concept_set_label_processing_hash == Id::NONE
        &&& self.delayed_backend_init_proc_queue == Id::NONE
        &&& self.use_delayed_backend_init_proc_queue == Id::NONE
        &&& self.prev_delayed_backend_init_proc_queue == Id::NONE
        &&& self.use_backend_neighbour_expansion_controlling_data == Id::NONE
        &&& self.loc_backend_neighbour_expansion_controlling_data == Id::NONE
        &&& self.backend_neighbour_expansion_queue == Id::NONE
        &&& self.use_backend_neighbour_expansion == Id::NONE
        &&& self.prev_backend_neighbour_expansion == Id::NONE
        &&& self.backend_cache_update_individuals_initialized == false
        &&& self.representative_neighbour_expansion_individual_node_linker@.len() == 0
    }

    /// A box with nothing allocated yet.
    pub fn new() -> (r: Self)
        ensures
            r.is_initial(),
    {
        ProcessingDataBox {
            process_context: INVALID,
            ontology_top_concept: Id::NONE,
            ontology_top_data_range_concept: Id::NONE,
            ontology: INVALID,
            clashed_descriptor_linker: Id::NONE,
            local_indi_vector: Id::NONE,
            use_indi_vector: Id::NONE,
            use_indi_process_queue: Id::NONE,
            loc_indi_process_queue: Id::NONE,
            indi_process_vector: Vec::new(),
            indi_imm_process_queue: Id::NONE,
            use_indi_imm_process_queue: Id::NONE,
            prev_indi_imm_process_queue: Id::NONE,
            delay_nom_process_queue: Id::NONE,
            use_delay_nom_process_queue: Id::NONE,
            prev_delay_nom_process_queue: Id::NONE,
            role_assertion_process_queue: Id::NONE,
            use_role_assertion_process_queue: Id::NONE,
            prev_role_assertion_process_queue: Id::NONE,
            backend_sync_retest_process_queue: Id::NONE,
            use_backend_sync_retest_process_queue: Id::NONE,
            prev_backend_sync_retest_process_queue: Id::NONE,
            backend_indirect_compatibility_expansion_queue: Id::NONE,
            use_backend_indirect_compatibility_expansion_queue: Id::NONE,
            prev_backend_indirect_compatibility_expansion_queue: Id::NONE,
            backend_individual_reuse_expansion_queue: Id::NONE,
            use_backend_individual_reuse_expansion_queue: Id::NONE,
            prev_backend_individual_reuse_expansion_queue: Id::NONE,
            backend_individual_late_reuse_expansion_activated: false,
            backend_late_individual_reuse_expansion_queue: Id::NONE,
            use_backend_late_individual_reuse_expansion_queue: Id::NONE,
            prev_backend_late_individual_reuse_expansion_queue: Id::NONE,
            backend_individual_neighbour_expansion_queue: Id::NONE,
            use_backend_individual_neighbour_expansion_queue: Id::NONE,
            prev_backend_individual_neighbour_expansion_queue: Id::NONE,
            backend_direct_influence_expansion_queue: Id::NONE,
            use_backend_direct_influence_expansion_queue: Id::NONE,
            prev_backend_direct_influence_expansion_queue: Id::NONE,
            indi_depth_det_exp_pre_processing_queue: Id::NONE,
            use_indi_depth_det_exp_pre_processing_queue: Id::NONE,
            prev_indi_depth_det_exp_pre_processing_queue: Id::NONE,
            indi_depth_first_det_exp_pre_processing_queue: Id::NONE,
            use_indi_depth_first_det_exp_pre_processing_queue: Id::NONE,
            prev_indi_depth_first_det_exp_pre_processing_queue: Id::NONE,
            var_bind_concept_batch_process_queue: Id::NONE,
            use_var_bind_concept_batch_process_queue: Id::NONE,
            prev_var_bind_concept_batch_process_queue: Id::NONE,
            indi_depth_processing_queue: Id::NONE,
            use_indi_depth_processing_queue: Id::NONE,
            prev_indi_depth_processing_queue: Id::NONE,
            nominal_processing_queue: Id::NONE,
            use_nominal_processing_queue: Id::NONE,
            prev_nominal_processing_queue: Id::NONE,
            nominal_deterministic_processing_queue: Id::NONE,
            use_nominal_deterministic_processing_queue: Id::NONE,
            prev_nominal_deterministic_processing_queue: Id::NONE,
            indi_depth_first_process_queue: Id::NONE,
            use_indi_depth_first_process_queue: Id::NONE,
            prev_indi_depth_first_process_queue: Id::NONE,
            caching_loss_reactivation_process_queue: Id::NONE,
            use_caching_loss_reactivation_process_queue: Id::NONE,
            prev_caching_loss_reactivation_process_queue: Id::NONE,
            indi_signature_blocking_update_processing_queue: Id::NONE,
            use_indi_signature_blocking_update_processing_queue: Id::NONE,
            prev_indi_signature_blocking_update_processing_queue: Id::NONE,
            indi_blocked_reactivation_processing_queue: Id::NONE,
            use_indi_blocked_reactivation_processing_queue: Id::NONE,
            prev_indi_blocked_reactivation_processing_queue: Id::NONE,
            value_space_triggering_processing_queue: Id::NONE,
            use_value_space_triggering_processing_queue: Id::NONE,
            prev_value_space_triggering_processing_queue: Id::NONE,
            distinct_value_space_satisfiability_checking_queue: Id::NONE,
            use_distinct_value_space_satisfiability_checking_queue: Id::NONE,
            prev_distinct_value_space_satisfiability_checking_queue: Id::NONE,
            incremental_exansion_initializing_processing_queue: Id::NONE,
            use_incremental_exansion_initializing_processing_queue: Id::NONE,
            prev_incremental_exansion_initializing_processing_queue: Id::NONE,
            incremental_exansion_processing_queue: Id::NONE,
            use_incremental_exansion_processing_queue: Id::NONE,
            prev_incremental_exansion_processing_queue: Id::NONE,
            incremental_compatibility_checking_queue: Id::NONE,
            use_incremental_compatibility_checking_queue: Id::NONE,
            prev_incremental_compatibility_checking_queue: Id::NONE,
            signature_blocking_candidate_hash: Id::NONE,
            use_signature_blocking_candidate_hash: Id::NONE,
            prev_signature_blocking_candidate_hash: Id::NONE,
            signature_blocking_review_set: Id::NONE,
            use_signature_blocking_review_set: Id::NONE,
            prev_signature_blocking_review_set: Id::NONE,
            signature_nominal_delaying_candidate_hash: Id::NONE,
            use_signature_nominal_delaying_candidate_hash: Id::NONE,
            prev_signature_nominal_delaying_candidate_hash: Id::NONE,
            early_indi_react_pro_queue: Id::NONE,
            use_early_indi_react_pro_queue: Id::NONE,
            prev_early_indi_react_pro_queue: Id::NONE,
            late_indi_react_pro_queue: Id::NONE,
            use_late_indi_react_pro_queue: Id::NONE,
            prev_late_indi_react_pro_queue: Id::NONE,
            reusing_review_set: Id::NONE,
            use_reusing_review_set: Id::NONE,
            prev_reusing_review_set: Id::NONE,
            branching_instruction: Id::NONE,
            blocking_indi_node_candidate_hash: Id::NONE,
            use_blocking_indi_node_candidate_hash: Id::NONE,
            prev_blocking_indi_node_candidate_hash: Id::NONE,
            blocking_indi_node_linked_candidate_hash: Id::NONE,
            use_blocking_indi_node_linked_candidate_hash: Id::NONE,
            prev_blocking_indi_node_linked_candidate_hash: Id::NONE,
            node_switch_history: Id::NONE,
            use_node_switch_history: Id::NONE,
            prev_node_switch_history: Id::NONE,
            branching_tree: Id::NONE,
            use_branching_tree: Id::NONE,
            prev_branching_tree: Id::NONE,
            loc_extended_concept_vector: Id::NONE,
            use_extended_concept_vector: Id::NONE,
            loc_grounding_hash: Id::NONE,
            use_grounding_hash: Id::NONE,
            multiple_construction_indi_nodes: false,
            constructed_indi_node: Id::NONE,
            constructed_indi_node_initialized: false,
            maximum_deterministic_branch_tag: 0,
            last_processing_indi_node: Id::NONE,
            last_processing_con_des: Id::NONE,
            last_con_des_indi_reapplication: false,
            sorted_nominal_non_det_processing_node_linker: Vec::new(),
            sorted_nominal_non_det_processing_nodes_sorted: false,
            nominal_non_det_processing_count: 0,
            individual_node_cache_testing_linker: Vec::new(),
            indi_process_node_linker: Id::NONE,
            disjunct_common_concept_extract_processing_linker: Vec::new(),
            indi_saturation_process_node_linker: Vec::new(),
            indi_saturation_completion_node_linker: Vec::new(),
            indi_saturation_completed_node_linker: Vec::new(),
            indi_saturation_analysing_node_linker: Vec::new(),
            indi_saturation_process_vector: Id::NONE,
            rem_sat_update_linker: Vec::new(),
            rem_sat_indi_node_linker: Vec::new(),
            rem_sat_indi_succ_link_data_linker: Vec::new(),
            rem_con_sat_process_linker: Vec::new(),
            rem_role_sat_process_linker: Vec::new(),
            rem_con_sat_des: Vec::new(),
            rem_con_des: Vec::new(),
            sat_critical_indi_node_proc_queue: Id::NONE,
            sat_critical_indi_node_con_test_set: Id::NONE,
            sat_nominal_dependent_node_hash: Id::NONE,
            sat_influenced_nominal_set: Id::NONE,
            insufficient_node_occured: false,
            delayed_nominal_processing_occured: false,
            problematic_eq_candidate_node_occured: false,
            sat_succ_ext_ind_node_proc_queue: Id::NONE,
            nominal_delayed_indi_saturation_process_node_linker: Vec::new(),
            saturation_atmost_merging_process_linker: Vec::new(),
            separated_saturation_con_ass_resolve_node: Id::NONE,
            individual_node_resolve_linker: Vec::new(),
            blockable_individual_node_updated_linker: Vec::new(),
            next_sat_res_succ_ext_individual_node_id: 0,
            next_individual_node_id: 0,
            next_propagation_id: 0,
            next_variable_id: 0,
            next_rep_variable_id: 0,
            use_var_binding_path_merging_hash: Id::NONE,
            loc_var_binding_path_merging_hash: Id::NONE,
            use_rep_var_bind_path_set_hash: Id::NONE,
            loc_rep_var_bind_path_set_hash: Id::NONE,
            use_rep_var_bind_path_joining_key_hash: Id::NONE,
            loc_rep_var_bind_path_joining_key_hash: Id::NONE,
            use_rep_joining_hash: Id::NONE,
            loc_rep_joining_hash: Id::NONE,
            use_rep_var_bind_path_hash: Id::NONE,
            loc_rep_var_bind_path_hash: Id::NONE,
            use_nom_caching_loss_react_hash: Id::NONE,
            loc_nom_caching_loss_react_hash: Id::NONE,
            use_marker_indi_node_hash: Id::NONE,
            loc_marker_indi_node_hash: Id::NONE,
            incremental_expansion_initialized: false,
            next_incremental_indi_exp_id: 0,
            incremental_exp_id: 0,
            incremental_expansion_compatible_merged: false,
            incremental_expansion_caching_merged: false,
            max_inc_prev_comp_graph_node_id: 0,
            next_role_assertion_creation_id: 0,
            referred_indi_track_vec: Id::NONE,
            indi_dep_tracking_required: false,
            current_merged_possible_instance_individual_linkers_linker: Vec::new(),
            last_merged_possible_instance_individual_linker: Vec::new(),
            remaining_possible_instance_individual_merging_limit: 0,
            possible_instance_individual_current_merging_count: 0,
            possible_instance_individual_merged_count: 0,
            possible_instance_individual_merging_size: 0,
            possible_instance_individual_merging_stopped: false,
            last_backend_cache_integrated_indi_node_linker: Vec::new(),
            backend_cache_integrated_individual_node_count: 0,
            backend_cache_integrated_same_individual_node_count: 0,
            use_backend_loaded_association_hash: Id::NONE,
            loc_backend_loaded_association_hash: Id::NONE,
            use_backend_concept_set_label_processing_hash: Id::NONE,
            loc_backend_concept_set_label_processing_hash: Id::NONE,
            delayed_backend_init_proc_queue: Id::NONE,
            use_delayed_backend_init_proc_queue: Id::NONE,
            prev_delayed_backend_init_proc_queue: Id::NONE,
            use_backend_neighbour_expansion_controlling_data: Id::NONE,
            loc_backend_neighbour_expansion_controlling_data: Id::NONE,
            backend_neighbour_expansion_queue: Id::NONE,
            use_backend_neighbour_expansion: Id::NONE,
            prev_backend_neighbour_expansion: Id::NONE,
            backend_cache_update_individuals_initialized: false,
            representative_neighbour_expansion_individual_node_linker: Vec::new(),
        }
    }

    pub fn ontology_top_concept(&self) -> (r: Id)
        ensures
            r == self.ontology_top_concept,
    {
        self.ontology_top_concept
    }

    pub fn ontology_top_data_range_concept(&self) -> (r: Id)
        ensures
            r == self.ontology_top_data_range_concept,
    {
        self.ontology_top_data_range_concept
    }

    pub fn has_clashed_descriptor_linker(&self) -> (r: bool)
        ensures
            r == (self.clashed_descriptor_linker is At),
    {
        self.clashed_descriptor_linker.is_some()
    }

    pub fn clashed_descriptor_linker(&self) -> (r: Id)
        ensures
            r == self.clashed_descriptor_linker,
    {
        self.clashed_descriptor_linker
    }

    pub fn set_clashed_descriptor_linker(&mut self, v: Id) -> (r: &mut Self)
        ensures
            *r == (ProcessingDataBox { clashed_descriptor_linker: v, ..*old(self) }),
            *final(self) == *final(r),
    {
        self.clashed_descriptor_linker = v;
        self
    }

    pub fn is_backend_individual_late_reuse_expansion_activated(&self) -> (r: bool)
        ensures
            r == self.backend_individual_late_reuse_expansion_activated,
    {
        self.backend_individual_late_reuse_expansion_activated
    }

    pub fn set_backend_individual_late_reuse_expansion_activated(&mut self, v: bool) -> (r: &mut Self)
        ensures
            *r == (ProcessingDataBox { backend_individual_late_reuse_expansion_activated: v, ..*old(self) }),
            *final(self) == *final(r),
    {
        self.backend_individual_late_reuse_expansion_activated = v;
        self
    }

    pub fn has_multiple_construction_individual_nodes(&self) -> (r: bool)
        ensures
            r == self.multiple_construction_indi_nodes,
    {
        self.multiple_construction_indi_nodes
    }

    pub fn set_multiple_construction_individual_nodes(&mut self, v: bool) -> (r: &mut Self)
        ensures
            *r == (ProcessingDataBox { multiple_construction_indi_nodes: v, ..*old(self) }),
            *final(self) == *final(r),
    {
        self.multiple_construction_indi_nodes = v;
        self
    }

    pub fn constructed_individual_node(&self) -> (r: Id)
        ensures
            r == self.constructed_indi_node,
    {
        self.constructed_indi_node
    }

    pub fn set_constructed_individual_node(&mut self, v: Id) -> (r: &mut Self)
        ensures
            *r == (ProcessingDataBox { constructed_indi_node: v, ..*old(self) }),
            *final(self) == *final(r),
    {
        self.constructed_indi_node = v;
        self
    }

    pub fn has_constructed_individual_node_initialized(&self) -> (r: bool)
        ensures
            r == self.constructed_indi_node_initialized,
    {
        self.constructed_indi_node_initialized
    }

    pub fn set_constructed_individual_node_initialized(&mut self, v: bool) -> (r: &mut Self)
        ensures
            *r == (ProcessingDataBox { constructed_indi_node_initialized: v, ..*old(self) }),
            *final(self) == *final(r),
    {
        self.constructed_indi_node_initialized = v;
        self
    }

    pub fn maximum_deterministic_branch_tag(&self) -> (r: Cint64)
        ensures
            r == self.maximum_deterministic_branch_tag,
    {
        self.maximum_deterministic_branch_tag
    }

    pub fn set_maximum_deterministic_branch_tag(&mut self, v: Cint64) -> (r: &mut Self)
        ensures
            *r == (ProcessingDataBox { maximum_deterministic_branch_tag: v, ..*old(self) }),
            *final(self) == *final(r),
    {
        self.maximum_deterministic_branch_tag = v;
        self
    }

    pub fn is_reapplication_last_concept_descriptor_on_last_individual_node_required(&self) -> (r: bool)
        ensures
            r == self.last_con_des_indi_reapplication,
    {
        self.last_con_des_indi_reapplication
    }

    pub fn set_reapplication_last_concept_descriptor_on_last_individual_node_required(&mut self, v: bool) -> (r: &mut Self)
        ensures
            *r == (ProcessingDataBox { last_con_des_indi_reapplication: v, ..*old(self) }),
            *final(self) == *final(r),
    {
        self.last_con_des_indi_reapplication = v;
        self
    }

    pub fn has_nominal_non_deterministic_processing_nodes_sorted(&self) -> (r: bool)
        ensures
            r == self.sorted_nominal_non_det_processing_nodes_sorted,
    {
        self.sorted_nominal_non_det_processing_nodes_sorted
    }

    pub fn set_nominal_non_deterministic_processing_nodes_sorted(&mut self, v: bool) -> (r: &mut Self)
        ensures
            *r == (ProcessingDataBox { sorted_nominal_non_det_processing_nodes_sorted: v, ..*old(self) }),
            *final(self) == *final(r),
    {
        self.sorted_nominal_non_det_processing_nodes_sorted = v;
        self
    }

    pub fn is_insufficient_node_occured(&self) -> (r: bool)
        ensures
            r == self.insufficient_node_occured,
    {
        self.insufficient_node_occured
    }

    pub fn set_insufficient_node_occured(&mut self, v: bool) -> (r: &mut Self)
        ensures
            *r == (ProcessingDataBox { insufficient_node_occured: v, ..*old(self) }),
            *final(self) == *final(r),
    {
        self.insufficient_node_occured = v;
        self
    }

    pub fn is_delayed_nominal_processing_occured(&self) -> (r: bool)
        ensures
            r == self.delayed_nominal_processing_occured,
    {
        self.delayed_nominal_processing_occured
    }

    pub fn set_delayed_nominal_processing_occured(&mut self, v: bool) -> (r: &mut Self)
        ensures
            *r == (ProcessingDataBox { delayed_nominal_processing_occured: v, ..*old(self) }),
            *final(self) == *final(r),
    {
        self.delayed_nominal_processing_occured = v;
        self
    }

    pub fn is_problematic_eq_candidate_occured(&self) -> (r: bool)
        ensures
            r == self.problematic_eq_candidate_node_occured,
    {
        self.problematic_eq_candidate_node_occured
    }

    pub fn set_problematic_eq_candidate_occured(&mut self, v: bool) -> (r: &mut Self)
        ensures
            *r == (ProcessingDataBox { problematic_eq_candidate_node_occured: v, ..*old(self) }),
            *final(self) == *final(r),
    {
        self.problematic_eq_candidate_node_occured = v;
        self
    }

    pub fn separated_saturation_concept_assertion_resolve_node(&self) -> (r: Id)
        ensures
            r == self.separated_saturation_con_ass_resolve_node,
    {
        self.separated_saturation_con_ass_resolve_node
    }

    pub fn set_separated_saturation_concept_assertion_resolve_node(&mut self, v: Id) -> (r: &mut Self)
        ensures
            *r == (ProcessingDataBox { separated_saturation_con_ass_resolve_node: v, ..*old(self) }),
            *final(self) == *final(r),
    {
        self.separated_saturation_con_ass_resolve_node = v;
        self
    }

    pub fn is_incremental_expansion_initialised(&self) -> (r: bool)
        ensures
            r == self.incremental_expansion_initialized,
    {
        self.incremental_expansion_initialized
    }

    pub fn set_incremental_expansion_initialised(&mut self, v: bool) -> (r: &mut Self)
        ensures
            *r == (ProcessingDataBox { incremental_expansion_initialized: v, ..*old(self) }),
            *final(self) == *final(r),
    {
        self.incremental_expansion_initialized = v;
        self
    }

    pub fn incremental_expansion_id(&self) -> (r: Cint64)
        ensures
            r == self.incremental_exp_id,
    {
        self.incremental_exp_id
    }

    pub fn set_incremental_expansion_id(&mut self, v: Cint64) -> (r: &mut Self)
        ensures
            *r == (ProcessingDataBox { incremental_exp_id: v, ..*old(self) }),
            *final(self) == *final(r),
    {
        self.incremental_exp_id = v;
        self
    }

    pub fn max_incremental_previous_completion_graph_node_id(&self) -> (r: Cint64)
        ensures
            r == self.max_inc_prev_comp_graph_node_id,
    {
        self.max_inc_prev_comp_graph_node_id
    }

    pub fn set_max_incremental_previous_completion_graph_node_id(&mut self, v: Cint64) -> (r: &mut Self)
        ensures
            *r == (ProcessingDataBox { max_inc_prev_comp_graph_node_id: v, ..*old(self) }),
            *final(self) == *final(r),
    {
        self.max_inc_prev_comp_graph_node_id = v;
        self
    }

    pub fn is_incremental_expansion_compatible_merged(&self) -> (r: bool)
        ensures
            r == self.incremental_expansion_compatible_merged,
    {
        self.incremental_expansion_compatible_merged
    }

    pub fn set_incremental_expansion_compatible_merged(&mut self, v: bool) -> (r: &mut Self)
        ensures
            *r == (ProcessingDataBox { incremental_expansion_compatible_merged: v, ..*old(self) }),
            *final(self) == *final(r),
    {
        self.incremental_expansion_compatible_merged = v;
        self
    }

    pub fn is_incremental_expansion_caching_merged(&self) -> (r: bool)
        ensures
            r == self.incremental_expansion_caching_merged,
    {
        self.incremental_expansion_caching_merged
    }

    pub fn set_incremental_expansion_caching_merged(&mut self, v: bool) -> (r: &mut Self)
        ensures
            *r == (ProcessingDataBox { incremental_expansion_caching_merged: v, ..*old(self) }),
            *final(self) == *final(r),
    {
        self.incremental_expansion_caching_merged = v;
        self
    }

    pub fn is_individual_dependence_tracking_required(&self) -> (r: bool)
        ensures
            r == self.indi_dep_tracking_required,
    {
        self.indi_dep_tracking_required
    }

    pub fn set_individual_dependence_tracking_required(&mut self, v: bool) -> (r: &mut Self)
        ensures
            *r == (ProcessingDataBox { indi_dep_tracking_required: v, ..*old(self) }),
            *final(self) == *final(r),
    {
        self.indi_dep_tracking_required = v;
        self
    }

    pub fn has_branching_instruction(&self) -> (r: bool)
        ensures
            r == (self.branching_instruction is At),
    {
        self.branching_instruction.is_some()
    }

    pub fn branching_instruction(&self) -> (r: Id)
        ensures
            r == self.branching_instruction,
    {
        self.branching_instruction
    }

    pub fn set_branching_instruction(&mut self, v: Id) -> (r: &mut Self)
        ensures
            *r == (ProcessingDataBox { branching_instruction: v, ..*old(self) }),
            *final(self) == *final(r),
    {
        self.branching_instruction = v;
        self
    }

    pub fn clear_branching_instruction(&mut self) -> (r: &mut Self)
        ensures
            *r == (ProcessingDataBox { branching_instruction: Id::NONE, ..*old(self) }),
            *final(self) == *final(r),
    {
        self.branching_instruction = Id::NONE;
        self
    }

    pub fn remaining_possible_instance_individual_merging_limit(&self) -> (r: Cint64)
        ensures
            r == self.remaining_possible_instance_individual_merging_limit,
    {
        self.remaining_possible_instance_individual_merging_limit
    }

    pub fn set_remaining_possible_instance_individual_merging_limit(&mut self, v: Cint64) -> (r: &mut Self)
        ensures
            *r == (ProcessingDataBox { remaining_possible_instance_individual_merging_limit: v, ..*old(self) }),
            *final(self) == *final(r),
    {
        self.remaining_possible_instance_individual_merging_limit = v;
        self
    }

    pub fn possible_instance_individual_merged_count(&self) -> (r: Cint64)
        ensures
            r == self.possible_instance_individual_merged_count,
    {
        self.possible_instance_individual_merged_count
    }

    pub fn set_possible_instance_individual_merged_count(&mut self, v: Cint64) -> (r: &mut Self)
        ensures
            *r == (ProcessingDataBox { possible_instance_individual_merged_count: v, ..*old(self) }),
            *final(self) == *final(r),
    {
        self.possible_instance_individual_merged_count = v;
        self
    }

    pub fn possible_instance_individual_current_merging_count(&self) -> (r: Cint64)
        ensures
            r == self.possible_instance_individual_current_merging_count,
    {
        self.possible_instance_individual_current_merging_count
    }

    pub fn set_possible_instance_individual_current_merging_count(&mut self, v: Cint64) -> (r: &mut Self)
        ensures
            *r == (ProcessingDataBox { possible_instance_individual_current_merging_count: v, ..*old(self) }),
            *final(self) == *final(r),
    {
        self.possible_instance_individual_current_merging_count = v;
        self
    }

    pub fn possible_instance_individual_merging_size(&self) -> (r: Cint64)
        ensures
            r == self.possible_instance_individual_merging_size,
    {
        self.possible_instance_individual_merging_size
    }

    pub fn set_possible_instance_individual_merging_size(&mut self, v: Cint64) -> (r: &mut Self)
        ensures
            *r == (ProcessingDataBox { possible_instance_individual_merging_size: v, ..*old(self) }),
            *final(self) == *final(r),
    {
        self.possible_instance_individual_merging_size = v;
        self
    }

    pub fn is_possible_instance_individual_merging_stopped(&self) -> (r: bool)
        ensures
            r == self.possible_instance_individual_merging_stopped,
    {
        self.possible_instance_individual_merging_stopped
    }

    pub fn set_possible_instance_individual_merging_stopped(&mut self, v: bool) -> (r: &mut Self)
        ensures
            *r == (ProcessingDataBox { possible_instance_individual_merging_stopped: v, ..*old(self) }),
            *final(self) == *final(r),
    {
        self.possible_instance_individual_merging_stopped = v;
        self
    }

    pub fn backend_cache_integrated_individual_node_count(&self) -> (r: Cint64)
        ensures
            r == self.backend_cache_integrated_individual_node_count,
    {
        self.backend_cache_integrated_individual_node_count
    }

    pub fn backend_cache_integrated_same_individual_node_count(&self) -> (r: Cint64)
        ensures
            r == self.backend_cache_integrated_same_individual_node_count,
    {
        self.backend_cache_integrated_same_individual_node_count
    }

    pub fn has_backend_cache_update_individuals_initialized(&self) -> (r: bool)
        ensures
            r == self.backend_cache_update_individuals_initialized,
    {
        self.backend_cache_update_individuals_initialized
    }

    pub fn set_backend_cache_update_individuals_initialized(&mut self, v: bool) -> (r: &mut Self)
        ensures
            *r == (ProcessingDataBox { backend_cache_update_individuals_initialized: v, ..*old(self) }),
            *final(self) == *final(r),
    {
        self.backend_cache_update_individuals_initialized = v;
        self
    }

}

/// Puts `front` before the elements of `v`.
fn prepend_ids(v: &mut Vec<Id>, front: Vec<Id>)
    ensures
        final(v)@ == front@ + old(v)@,
{
    let mut joined = front;
    let mut tail: Vec<Id> = Vec::new();
    std::mem::swap(&mut tail, v);
    joined.append(&mut tail);
    *v = joined;
}

/// Takes the first element of `v`, or gives `Id::NONE` when `v` is empty.
fn pop_front_id(v: &mut Vec<Id>) -> (r: Id)
    ensures
        old(v)@.len() == 0 ==> r == Id::NONE && final(v)@ == old(v)@,
        old(v)@.len() > 0 ==> r == old(v)@[0] && final(v)@ == old(v)@.subrange(1, old(v)@.len() as int),
{
    if v.len() == 0 {
        Id::NONE
    } else {
        v.remove(0)
    }
}

/// Takes every element of `v`, leaving it empty.
fn take_ids(v: &mut Vec<Id>) -> (r: Vec<Id>)
    ensures
        r@ == old(v)@,
        final(v)@.len() == 0,
{
    let mut taken: Vec<Id> = Vec::new();
    std::mem::swap(&mut taken, v);
    taken
}

impl ProcessingDataBox {
    /// Whether individual nodes wait for a cache test.
    pub fn has_cache_testing_individual_nodes(&self) -> (r: bool)
        ensures
            r == (self.individual_node_cache_testing_linker@.len() > 0),
    {
        self.individual_node_cache_testing_linker.len() > 0
    }

    /// Puts `linker` before the nodes waiting for a cache test.
    pub fn add_individual_node_cache_testing_linker(&mut self, linker: Vec<NodeId>) -> (r: &mut Self)
        ensures
            r.individual_node_cache_testing_linker@ == linker@ + old(self).individual_node_cache_testing_linker@,
            *r == (ProcessingDataBox { individual_node_cache_testing_linker: r.individual_node_cache_testing_linker, ..*old(self) }),
            *final(self) == *final(r),
    {
        prepend_ids(&mut self.individual_node_cache_testing_linker, linker);
        self
    }

    /// Takes the first node waiting for a cache test, or `Id::NONE`.
    pub fn take_next_cache_testing_individual_node(&mut self) -> (r: NodeId)
        ensures
            ({
                let l = old(self).individual_node_cache_testing_linker@;
                &&& r == (if l.len() > 0 { l[0] } else { Id::NONE })
                &&& final(self).individual_node_cache_testing_linker@ == (if l.len() > 0 { l.subrange(1, l.len() as int) } else { l })
            }),
            *final(self) == (ProcessingDataBox {
                individual_node_cache_testing_linker: final(self).individual_node_cache_testing_linker, ..*old(self) }),
    {
        pop_front_id(&mut self.individual_node_cache_testing_linker)
    }

    /// Takes all nodes waiting for a cache test.
    pub fn take_individual_node_cache_testing_linker(&mut self) -> (r: Vec<NodeId>)
        ensures
            r@ == old(self).individual_node_cache_testing_linker@,
            final(self).individual_node_cache_testing_linker@.len() == 0,
            *final(self) == (ProcessingDataBox {
                individual_node_cache_testing_linker: final(self).individual_node_cache_testing_linker, ..*old(self) }),
    {
        take_ids(&mut self.individual_node_cache_testing_linker)
    }

    /// Replaces the sorted nominal nodes of non-deterministic processing by
    /// `linker` and counts them.
    pub fn set_sorted_nominal_non_deterministic_processing_node_linker(&mut self, linker: Vec<NodeId>) -> (r: &mut Self)
        requires
            linker@.len() <= i64::MAX,
        ensures
            *r == (ProcessingDataBox {
                sorted_nominal_non_det_processing_node_linker: linker,
                nominal_non_det_processing_count: linker@.len() as i64,
                ..*old(self)
            }),
            *final(self) == *final(r),
    {
        let count = linker.len() as i64;
        assert(count == linker@.len());
        self.sorted_nominal_non_det_processing_node_linker = linker;
        self.nominal_non_det_processing_count = count;
        self
    }

    /// Puts `linker` before the sorted nominal nodes and counts its nodes.
    pub fn add_sorted_nominal_non_deterministic_processing_node_linker(&mut self, linker: Vec<NodeId>) -> (r: &mut Self)
        requires
            linker@.len() <= i64::MAX,
            i64::MIN <= old(self).nominal_non_det_processing_count + linker@.len() <= i64::MAX,
        ensures
            r.sorted_nominal_non_det_processing_node_linker@
                == linker@ + old(self).sorted_nominal_non_det_processing_node_linker@,
            r.nominal_non_det_processing_count == old(self).nominal_non_det_processing_count + linker@.len(),
            *r == (ProcessingDataBox {
                sorted_nominal_non_det_processing_node_linker: r.sorted_nominal_non_det_processing_node_linker,
                nominal_non_det_processing_count: r.nominal_non_det_processing_count,
                ..*old(self)
            }),
            *final(self) == *final(r),
    {
        let count = linker.len() as i64;
        assert(count == linker@.len());
        prepend_ids(&mut self.sorted_nominal_non_det_processing_node_linker, linker);
        self.nominal_non_det_processing_count = self.nominal_non_det_processing_count + count;
        self
    }

    /// The sorted nominal nodes of non-deterministic processing.
    pub fn sorted_nominal_non_deterministic_processing_node_linker(&self) -> (r: &[NodeId])
        ensures
            r@ == self.sorted_nominal_non_det_processing_node_linker@,
    {
        self.sorted_nominal_non_det_processing_node_linker.as_slice()
    }

    /// Takes the first sorted nominal node and uncounts it, or gives
    /// `Id::NONE`.
    pub fn take_sorted_nominal_non_deterministic_processing_node(&mut self) -> (r: NodeId)
        requires
            old(self).nominal_non_det_processing_count > i64::MIN,
        ensures
            ({
                let l = old(self).sorted_nominal_non_det_processing_node_linker@;
                &&& r == (if l.len() > 0 { l[0] } else { Id::NONE })
                &&& final(self).sorted_nominal_non_det_processing_node_linker@
                    == (if l.len() > 0 { l.subrange(1, l.len() as int) } else { l })
                &&& final(self).nominal_non_det_processing_count == (if l.len() > 0 {
                    old(self).nominal_non_det_processing_count - 1
                } else {
                    old(self).nominal_non_det_processing_count as int
                })
            }),
            *final(self) == (ProcessingDataBox {
                sorted_nominal_non_det_processing_node_linker: final(self).sorted_nominal_non_det_processing_node_linker,
                nominal_non_det_processing_count: final(self).nominal_non_det_processing_count,
                ..*old(self)
            }),
    {
        if self.sorted_nominal_non_det_processing_node_linker.len() > 0 {
            self.nominal_non_det_processing_count = self.nominal_non_det_processing_count - 1;
        }
        pop_front_id(&mut self.sorted_nominal_non_det_processing_node_linker)
    }

    /// Takes all sorted nominal nodes; the count is kept.
    pub fn take_sorted_nominal_non_deterministic_processing_node_linker(&mut self) -> (r: Vec<NodeId>)
        ensures
            r@ == old(self).sorted_nominal_non_det_processing_node_linker@,
            final(self).sorted_nominal_non_det_processing_node_linker@.len() == 0,
            *final(self) == (ProcessingDataBox {
                sorted_nominal_non_det_processing_node_linker: final(self).sorted_nominal_non_det_processing_node_linker,
                ..*old(self)
            }),
    {
        take_ids(&mut self.sorted_nominal_non_det_processing_node_linker)
    }

    /// Drops the sorted nominal nodes and their count.
    pub fn clear_sorted_nominal_non_deterministic_processing_node_linker(&mut self) -> (r: &mut Self)
        ensures
            r.sorted_nominal_non_det_processing_node_linker@.len() == 0,
            *r == (ProcessingDataBox {
                sorted_nominal_non_det_processing_node_linker: r.sorted_nominal_non_det_processing_node_linker,
                nominal_non_det_processing_count: 0,
                ..*old(self)
            }),
            *final(self) == *final(r),
    {
        self.sorted_nominal_non_det_processing_node_linker = Vec::new();
        self.nominal_non_det_processing_count = 0;
        self
    }

    /// Whether sorted nominal nodes wait for non-deterministic processing.
    pub fn has_sorted_nominal_non_deterministic_processing_nodes(&self) -> (r: bool)
        ensures
            r == (self.sorted_nominal_non_det_processing_node_linker@.len() > 0),
    {
        self.sorted_nominal_non_det_processing_node_linker.len() > 0
    }

    /// Puts `linker` before the blocked nodes waiting for resolution.
    pub fn add_individual_node_blocked_resolve_linker(&mut self, linker: Vec<NodeId>) -> (r: &mut Self)
        ensures
            r.individual_node_resolve_linker@ == linker@ + old(self).individual_node_resolve_linker@,
            *r == (ProcessingDataBox { individual_node_resolve_linker: r.individual_node_resolve_linker, ..*old(self) }),
            *final(self) == *final(r),
    {
        prepend_ids(&mut self.individual_node_resolve_linker, linker);
        self
    }

    /// Takes the first blocked node waiting for resolution, or `Id::NONE`.
    pub fn take_next_individual_node_blocked_resolve_linker(&mut self) -> (r: NodeId)
        ensures
            ({
                let l = old(self).individual_node_resolve_linker@;
                &&& r == (if l.len() > 0 { l[0] } else { Id::NONE })
                &&& final(self).individual_node_resolve_linker@ == (if l.len() > 0 { l.subrange(1, l.len() as int) } else { l })
            }),
            *final(self) == (ProcessingDataBox {
                individual_node_resolve_linker: final(self).individual_node_resolve_linker, ..*old(self) }),
    {
        pop_front_id(&mut self.individual_node_resolve_linker)
    }

    /// Drops the blocked nodes waiting for resolution.
    pub fn clear_blocked_resolve_individual_nodes(&mut self) -> (r: &mut Self)
        ensures
            r.individual_node_resolve_linker@.len() == 0,
            *r == (ProcessingDataBox { individual_node_resolve_linker: r.individual_node_resolve_linker, ..*old(self) }),
            *final(self) == *final(r),
    {
        self.individual_node_resolve_linker = Vec::new();
        self
    }

    /// Whether blocked nodes wait for resolution.
    pub fn has_blocked_resolve_individual_nodes(&self) -> (r: bool)
        ensures
            r == (self.individual_node_resolve_linker@.len() > 0),
    {
        self.individual_node_resolve_linker.len() > 0
    }

    /// Puts `linker` before the blockable nodes whose update waits.
    pub fn add_blockable_individual_node_updated_linker(&mut self, linker: Vec<NodeId>) -> (r: &mut Self)
        ensures
            r.blockable_individual_node_updated_linker@ == linker@ + old(self).blockable_individual_node_updated_linker@,
            *r == (ProcessingDataBox {
                blockable_individual_node_updated_linker: r.blockable_individual_node_updated_linker, ..*old(self) }),
            *final(self) == *final(r),
    {
        prepend_ids(&mut self.blockable_individual_node_updated_linker, linker);
        self
    }

    /// Takes the first blockable node whose update waits, or `Id::NONE`.
    pub fn blockable_individual_node_updated_linker(&mut self) -> (r: NodeId)
        ensures
            ({
                let l = old(self).blockable_individual_node_updated_linker@;
                &&& r == (if l.len() > 0 { l[0] } else { Id::NONE })
                &&& final(self).blockable_individual_node_updated_linker@
                    == (if l.len() > 0 { l.subrange(1, l.len() as int) } else { l })
            }),
            *final(self) == (ProcessingDataBox {
                blockable_individual_node_updated_linker: final(self).blockable_individual_node_updated_linker, ..*old(self) }),
    {
        pop_front_id(&mut self.blockable_individual_node_updated_linker)
    }

    /// Drops the blockable nodes whose update waits.
    pub fn clear_blockable_individual_node_updated_linker(&mut self) -> (r: &mut Self)
        ensures
            r.blockable_individual_node_updated_linker@.len() == 0,
            *r == (ProcessingDataBox {
                blockable_individual_node_updated_linker: r.blockable_individual_node_updated_linker, ..*old(self) }),
            *final(self) == *final(r),
    {
        self.blockable_individual_node_updated_linker = Vec::new();
        self
    }

    /// Whether blockable nodes wait for their update.
    pub fn has_blockable_individual_node_updated_linker(&self) -> (r: bool)
        ensures
            r == (self.blockable_individual_node_updated_linker@.len() > 0),
    {
        self.blockable_individual_node_updated_linker.len() > 0
    }

    /// The head of the chain of individuals waiting to be processed.
    pub fn individual_process_node_linker(&self) -> (r: Id)
        ensures
            r == self.indi_process_node_linker,
    {
        self.indi_process_node_linker
    }

    pub fn set_individual_process_node_linker(&mut self, linker: Id) -> (r: &mut Self)
        ensures
            *r == (ProcessingDataBox { indi_process_node_linker: linker, ..*old(self) }),
            *final(self) == *final(r),
    {
        self.indi_process_node_linker = linker;
        self
    }

    /// Puts the chain `linker` before the individuals waiting to be
    /// processed.
    pub fn add_individual_process_node_linker(&mut self, ctx: &mut ProcessContext, linker: Id) -> (r: &mut Self)
        requires
            chain_ok(old(ctx).individual_process_node_linker_nexts(), linker),
        ensures
            ({
                let nexts = old(ctx).individual_process_node_linker_nexts();
                let n = chain_len(nexts, linker);
                &&& r.indi_process_node_linker == (if linker is At { linker } else { old(self).indi_process_node_linker })
                &&& final(ctx).individual_process_node_linker_nexts() == (if linker is At {
                    nexts.update(walk(nexts, linker, (n - 1) as nat).index(), old(self).indi_process_node_linker)
                } else {
                    nexts
                })
            }),
            final(ctx).individual_process_node_linkers_changed_only_in_next(*old(ctx)),
            *r == (ProcessingDataBox { indi_process_node_linker: r.indi_process_node_linker, ..*old(self) }),
            *final(self) == *final(r),
    {
        let head = self.indi_process_node_linker;
        self.indi_process_node_linker = ctx.append_individual_process_node_linker_chain(linker, head);
        self
    }

    /// Takes the first individual waiting to be processed off the chain and
    /// unlinks it; `Id::NONE` when none waits.
    pub fn take_individual_process_node_linker(&mut self, ctx: &mut ProcessContext) -> (r: Id)
        requires
            old(self).indi_process_node_linker is At
                ==> valid_in(old(self).indi_process_node_linker, old(ctx).individual_process_node_linkers@.len()),
        ensures
            r == old(self).indi_process_node_linker,
            ({
                let links = old(ctx).individual_process_node_linkers@;
                if r is At {
                    &&& final(self).indi_process_node_linker == links[r.index()].next
                    &&& final(ctx).individual_process_node_linkers@ == links.update(r.index(),
                        IndividualProcessNodeLinker { next: Id::NONE, ..links[r.index()] })
                    &&& final(ctx).agrees_except(*old(ctx), set![ArenaKind::IndiProcessNodeLinkers])
                } else {
                    &&& final(self).indi_process_node_linker == Id::NONE
                    &&& final(ctx).agrees_except(*old(ctx), Set::empty())
                }
            }),
            *final(self) == (ProcessingDataBox { indi_process_node_linker: final(self).indi_process_node_linker, ..*old(self) }),
    {
        let head = self.indi_process_node_linker;
        if head.is_some() {
            self.indi_process_node_linker = ctx.individual_process_node_linker(head).get_next();
            ctx.individual_process_node_linker_mut(head).clear_next();
        }
        head
    }

    /// The signature-blocking review set in use; with `create`, a box
    /// without a localised set gets a new set holding the queues of the
    /// inherited set, which becomes localised and in use.
    pub fn signature_blocking_review_set(&mut self, ctx: &mut ProcessContext, create: bool) -> (r: Id)
        requires
            old(ctx).signature_blocking_review_sets@.len() < usize::MAX,
            old(self).signature_blocking_review_set is NONE && create && old(self).prev_signature_blocking_review_set is At
                ==> valid_in(old(self).prev_signature_blocking_review_set, old(ctx).signature_blocking_review_sets@.len()),
        ensures
            ({
                let b = *old(self);
                let sets = old(ctx).signature_blocking_review_sets@;
                if b.signature_blocking_review_set is NONE && create {
                    &&& r == Id::At(sets.len() as usize)
                    &&& pushed_one(sets, final(ctx).signature_blocking_review_sets@)
                    &&& review_set_inherits(final(ctx).signature_blocking_review_sets@[r.index()],
                        named(sets, b.prev_signature_blocking_review_set))
                    &&& *final(self) == (ProcessingDataBox {
                        signature_blocking_review_set: r, use_signature_blocking_review_set: r, ..b })
                    &&& final(ctx).agrees_except(*old(ctx), set![ArenaKind::SigBlockReviewSets])
                } else {
                    &&& r == b.use_signature_blocking_review_set
                    &&& *final(self) == b
                    &&& final(ctx).agrees_except(*old(ctx), Set::empty())
                }
            }),
    {
        if self.signature_blocking_review_set.is_none() && create {
            let set = ctx.alloc_signature_blocking_review_set_from_prev(self.prev_signature_blocking_review_set);
            self.signature_blocking_review_set = set;
            self.use_signature_blocking_review_set = set;
        }
        self.use_signature_blocking_review_set
    }

    /// Forgets the localised, the in-use and the inherited review set.
    pub fn clear_signature_blocking_review_set(&mut self) -> (r: &mut Self)
        ensures
            *r == (ProcessingDataBox {
                signature_blocking_review_set: Id::NONE,
                use_signature_blocking_review_set: Id::NONE,
                prev_signature_blocking_review_set: Id::NONE,
                ..*old(self)
            }),
            *final(self) == *final(r),
    {
        self.signature_blocking_review_set = Id::NONE;
        self.use_signature_blocking_review_set = Id::NONE;
        self.prev_signature_blocking_review_set = Id::NONE;
        self
    }

    /// The branching tree in use; with `create`, a box without a localised
    /// tree gets a new tree started from the inherited one.
    pub fn branching_tree_with_context(&mut self, ctx: &mut ProcessContext, create: bool) -> (r: Id)
        requires
            old(ctx).branching_trees@.len() < usize::MAX,
            old(self).branching_tree is NONE && create && old(self).prev_branching_tree is At
                ==> valid_in(old(self).prev_branching_tree, old(ctx).branching_trees@.len()),
        ensures
            ({
                let b = *old(self);
                if b.branching_tree is NONE && create {
                    &&& r == Id::At(old(ctx).branching_trees@.len() as usize)
                    &&& final(ctx).branching_trees@ == old(ctx).branching_trees@.push(
                        tree_from(named(old(ctx).branching_trees@, b.prev_branching_tree)))
                    &&& *final(self) == (ProcessingDataBox { branching_tree: r, use_branching_tree: r, ..b })
                    &&& final(ctx).agrees_except(*old(ctx), set![ArenaKind::BranchingTrees])
                } else {
                    &&& r == b.use_branching_tree
                    &&& *final(self) == b
                    &&& final(ctx).agrees_except(*old(ctx), Set::empty())
                }
            }),
    {
        ctx.processing_data_box_branching_tree(self, create)
    }
}

impl Default for ProcessingDataBox {
    fn default() -> (r: Self)
        ensures
            r.is_initial(),
    {
        Self::new()
    }
}

} // verus!
