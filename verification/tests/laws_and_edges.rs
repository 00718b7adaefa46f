use engine::binding_hash::{ConceptPropagationBindingSetHash, ConceptVariableBindingPathSetHash};
use engine::blocking_follow::BlockingFollowSet;
use engine::blocking_hash::{BlockingCandidateHashData, BlockingIndividualNodeCandidateData, BlockingIndividualNodeCandidateHash};
use engine::backend_control::BackendNeighbourExpansionControllingData;
use engine::branching_tree::BranchingTree;
use engine::condensed_reapply::CondensedReapplyQueue;
use engine::context::ProcessContext;
use engine::databox::ProcessingDataBox;
use engine::ids::{ConDescId, ConceptId, Id, NodeId, INVALID};
use engine::merging_restriction::BranchingMergingProcessingRestrictionSpecification;
use engine::models::{CondensedReapplyConceptDescriptor, ConceptDescriptor, IndividualProcessNode, VariableBindingPathSet};
use engine::review::ReusingReviewData;
use engine::signature_candidates::SignatureBlockingCandidateHash;

#[test]
fn branch_child_is_one_level_deeper_under_same_root() {
    let mut ctx = ProcessContext::new();
    let tree_id = ctx.alloc_branching_tree(BranchingTree::new(INVALID));
    let root = ctx.branching_tree_branch_tree_node(tree_id, 5, false);
    let child = ctx.branching_tree_branch_tree_node(tree_id, 5, true);
    let grandchild = ctx.branching_tree_branch_tree_node(tree_id, 5, true);
    assert_eq!(ctx.branch_node(child).parent_node(), root);
    assert_eq!(ctx.branch_node(child).get_branching_level(), 1);
    assert_eq!(ctx.branch_node(grandchild).parent_node(), child);
    assert_eq!(ctx.branch_node(grandchild).get_branching_level(), 2);
    assert_eq!(ctx.branch_node(grandchild).get_root_node(), root);
    assert_eq!(ctx.branching_tree_branch_tree_node(tree_id, 5, false), grandchild);
    assert_eq!(ctx.branching_tree(tree_id).root_node, root);
}

#[test]
fn base_dependency_node_is_created_once() {
    let mut ctx = ProcessContext::new();
    let tree_id = ctx.alloc_branching_tree(BranchingTree::new(INVALID));
    assert!(ctx.branching_tree_base_dependency_node(tree_id, false).is_none());
    let dep = ctx.branching_tree_base_dependency_node(tree_id, true);
    assert!(dep.is_some());
    assert_eq!(ctx.branching_tree_base_dependency_node(tree_id, true), dep);
    assert_eq!(ctx.branching_tree(tree_id).get_base_dependency_node(), dep);
}

#[test]
fn reusing_review_takes_shallowest_member_first() {
    let mut data = ReusingReviewData::new();
    data.insert(5, 1);
    data.insert(2, 2);
    data.insert(7, 3);
    data.insert(2, 4);
    data.remove(2);
    assert_eq!(data.take_next_individual_id(), 4);
    assert_eq!(data.take_next_individual_id(), 1);
    assert!(!data.contains(1));
    assert_eq!(data.take_next_individual_id(), 3);
    assert_eq!(data.take_next_individual_id(), 0);
}

#[test]
fn signature_candidates_count_per_signature() {
    let mut hash = SignatureBlockingCandidateHash::new(INVALID);
    hash.insert_signature_blocking_candidates(41, vec![3, 5]);
    hash.insert_signature_blocking_candidates(43, vec![7]);
    hash.insert_signature_blocking_candidates(41, vec![9]);
    assert_eq!(hash.get_blocking_candidates_count(41), 3);
    assert_eq!(hash.get_blocking_candidates_count(43), 1);
    assert_eq!(hash.get_blocking_candidates_count(99), 0);
    let mut copy = SignatureBlockingCandidateHash::new(INVALID);
    copy.init_signature_blocking_candidate_hash(Some(&hash));
    assert_eq!(copy.get_blocking_candidates_count(41), 3);
    copy.init_signature_blocking_candidate_hash(None);
    assert_eq!(copy.get_blocking_candidates_count(41), 0);
}

#[test]
fn candidate_hash_inherited_twice_keeps_data_in_use() {
    let mut ctx = ProcessContext::new();
    let key = (ConceptId::new(5), false);
    let data = ctx.alloc_blocking_indi_node_cand_data(BlockingIndividualNodeCandidateData::new(INVALID));
    let mut hash = BlockingIndividualNodeCandidateHash::new(INVALID);
    hash.block_candidate_hash.insert(key, BlockingCandidateHashData { candidate_indi_data: data, prev_candidate_indi_data: data });
    let first = ctx.alloc_blocking_indi_node_cand_hash(hash);

    let mut box1 = ProcessingDataBox::new();
    box1.prev_blocking_indi_node_candidate_hash = first;
    let second = ctx.processing_data_box_blocking_individual_node_candidate_hash(&mut box1, true);
    let mut box2 = ProcessingDataBox::new();
    box2.prev_blocking_indi_node_candidate_hash = second;
    let third = ctx.processing_data_box_blocking_individual_node_candidate_hash(&mut box2, true);

    let bucket = *ctx.blocking_indi_node_cand_hash(third).block_candidate_hash.get(&key).unwrap();
    assert!(bucket.candidate_indi_data.is_none());
    assert_eq!(bucket.prev_candidate_indi_data, data);
    let first_bucket = *ctx.blocking_indi_node_cand_hash(first).block_candidate_hash.get(&key).unwrap();
    assert_eq!(first_bucket.candidate_indi_data, data);
}

#[test]
fn candidate_data_for_descriptor_localizes_once() {
    let mut ctx = ProcessContext::new();
    let mut data_box = ProcessingDataBox::new();
    let hash_id = ctx.processing_data_box_blocking_individual_node_candidate_hash(&mut data_box, true);
    let descriptor_id = ctx.alloc_con_desc(Default::default());
    assert!(BlockingIndividualNodeCandidateHash::get_blocking_individual_candidate_data_for_concept_descriptor(
        &mut ctx, hash_id, descriptor_id, false).is_none());
    let created = BlockingIndividualNodeCandidateHash::get_blocking_individual_candidate_data_for_concept_descriptor(
        &mut ctx, hash_id, descriptor_id, true);
    assert!(created.is_some());
    let again = BlockingIndividualNodeCandidateHash::get_blocking_individual_candidate_data_for_concept_descriptor(
        &mut ctx, hash_id, descriptor_id, true);
    assert_eq!(again, created);
}

#[test]
fn condensed_reapply_queue_prepends_and_clears_on_iteration() {
    let mut ctx = ProcessContext::new();
    let d1 = ctx.alloc_cond_reapply_con_desc(CondensedReapplyConceptDescriptor::new(ConDescId::new(10), true));
    let d2 = ctx.alloc_cond_reapply_con_desc(CondensedReapplyConceptDescriptor::new(ConDescId::new(20), false));
    let mut queue = CondensedReapplyQueue::new();
    assert!(queue.is_empty());
    queue.add_reapply_concept_descriptor(&mut ctx, d1);
    queue.add_reapply_concept_descriptor(&mut ctx, d2);
    queue.add_reapply_concept_descriptor(&mut ctx, Id::NONE);
    assert_eq!(queue.dynamic_pos_neg_reapply_des_linker(), d2);
    assert_eq!(ctx.cond_reapply_con_desc(d2).get_next(), d1);
    assert!(queue.has_concept_descriptor(&ctx, ConDescId::new(10)));
    assert!(queue.has_concept_descriptor(&ctx, ConDescId::new(20)));
    assert!(!queue.has_concept_descriptor(&ctx, ConDescId::new(30)));

    let mut shared = CondensedReapplyQueue::new();
    shared.init_reapply_queue(Some(&queue));
    assert_eq!(shared.dynamic_pos_neg_reapply_des_linker(), d2);

    let it = queue.get_iterator_only_positive(&ctx, true, false);
    assert_eq!(it.des_linker, d2);
    assert!(it.positive_descriptors);
    assert!(!it.negative_descriptors);
    assert!(!queue.is_empty());
    let it = queue.get_iterator(&ctx, true, true, true);
    assert_eq!(it.des_linker, d2);
    assert!(queue.is_empty());
}

#[test]
fn distinct_merged_nodes_are_localized_on_write() {
    let mut prev = BranchingMergingProcessingRestrictionSpecification::new();
    prev.add_distinct_merged_node(3).add_distinct_merged_node(5);
    assert!(prev.get_distinct_merged_nodes_set(false).unwrap().contains(&5));

    let mut next = BranchingMergingProcessingRestrictionSpecification::new();
    next.init_branching_merging_processing_restriction(Some(&prev));
    assert!(next.distinct_merged_nodes_set.is_none());
    next.remove_distinct_merged_node(5).add_distinct_merged_node(7);
    assert!(next.distinct_merged_nodes_set.is_some());
    let set = next.get_distinct_merged_nodes_set(false).unwrap();
    assert!(set.contains(&3));
    assert!(!set.contains(&5));
    assert!(set.contains(&7));
    assert!(prev.get_distinct_merged_nodes_set(false).unwrap().contains(&5));

    next.init_branching_merging_processing_restriction(None);
    assert!(next.distinct_merged_nodes_set.is_none());
    assert!(next.get_distinct_merged_nodes_set(false).unwrap().contains(&7));
    assert!(next.get_distinct_merged_nodes_set(true).unwrap().contains(&3));
    assert!(next.distinct_merged_nodes_set.is_some());

    let mut fresh = BranchingMergingProcessingRestrictionSpecification::new();
    assert!(fresh.get_distinct_merged_nodes_set(false).is_none());
    assert!(fresh.get_distinct_merged_nodes_set(true).unwrap().is_empty());
}

#[test]
fn merging_restriction_counters() {
    let mut rest = BranchingMergingProcessingRestrictionSpecification::default();
    assert!(rest.has_valid_remaining_merging_candidates());
    rest.set_remaining_linker_merging_candidate_individual_node_count(2);
    assert!(!rest.has_valid_remaining_merging_candidates());
    rest.inc_remaining_valid_merging_candidate_individual_node_count()
        .inc_remaining_valid_merging_candidate_individual_node_count();
    assert!(rest.has_valid_remaining_merging_candidates());
    rest.inc_successor_choice_triggering_installed_count(4).dec_successor_choice_triggering_installed_count(1);
    assert_eq!(rest.get_successor_choice_triggering_installed_count(), 3);
    rest.dec_remaining_nominal_creation_count(2);
    assert_eq!(rest.remaining_nominal_creation_count, -2);
    assert!(!rest.has_remaining_merging_candidates());
    assert!(!rest.has_remaining_merging_initialization_candidates());
}

#[test]
fn blocking_followers_localize_from_parent() {
    let mut ctx = ProcessContext::new();
    let mut parent_set = BlockingFollowSet::new();
    parent_set.init_blocking_follow_set(None, 9);
    parent_set.insert(4);
    let parent_id = ctx.alloc_blocking_follow_set(parent_set);
    let mut node = IndividualProcessNode::default();
    node.prev_sig_block_follow_set = parent_id;
    node.use_sig_block_follow_set = parent_id;
    let node_id = ctx.alloc_node(node);

    assert!(ctx.node_has_blocking_follower(node_id));
    assert!(ctx.node_add_blocking_follower(node_id, 6));
    assert!(!ctx.node_add_blocking_follower(node_id, 6));
    let own = ctx.node_blocking_follow_set_existing(node_id);
    assert_ne!(own, parent_id);
    assert_eq!(ctx.blocking_follow_set(own).get_blocking_follow_tag(), 9);
    let mut followers = ctx.node_blocking_followers(node_id);
    followers.sort();
    assert_eq!(followers, vec![4, 6]);
    assert!(ctx.node_remove_blocking_follower(node_id, 4));
    assert!(!ctx.node_remove_blocking_follower(node_id, 4));
    assert!(ctx.blocking_follow_set(parent_id).contains(4));
    assert!(!ctx.blocking_follow_set(parent_id).contains(6));
}

#[test]
fn fresh_blocking_follow_set_takes_tagger_tag() {
    let mut ctx = ProcessContext::new();
    ctx.used_process_tagger_mut().current_blocking_follow_tag = 12;
    let node_id = ctx.alloc_node(IndividualProcessNode::default());
    assert!(!ctx.node_has_blocking_follower(node_id));
    assert!(ctx.node_blocking_follow_set(node_id, false).is_none());
    let set = ctx.node_blocking_follow_set(node_id, true);
    assert_eq!(ctx.blocking_follow_set(set).get_blocking_follow_tag(), 12);
    assert!(ctx.node_blocking_followers(node_id).is_empty());
}

#[test]
fn variable_binding_path_sets_localize_from_set_in_use() {
    let mut ctx = ProcessContext::new();
    let mut parent_paths = VariableBindingPathSet::new(INVALID);
    parent_paths.binding_paths = vec![Id::new(2), Id::new(3)];
    let parent_set = ctx.alloc_vbpath_set(parent_paths);
    let mut prev_hash = ConceptVariableBindingPathSetHash::new(INVALID);
    prev_hash.set_last_variable_binding_description_linker(Id::new(8));
    let prev_hash_id = ctx.alloc_con_var_bind_path_set_hash(prev_hash);
    ctx.con_var_bind_path_set_hash_mut(prev_hash_id).map.insert(
        4,
        engine::binding_hash::ConceptVariableBindingPathSetHashData {
            loc_variable_binding_path_set: Id::NONE,
            use_variable_binding_path_set: parent_set,
        },
    );
    let mut node = IndividualProcessNode::default();
    node.prev_concept_var_bind_path_set_hash = prev_hash_id;
    let node_id = ctx.alloc_node(node);

    let hash_id = ctx.node_concept_variable_binding_path_set_hash(node_id);
    assert_ne!(hash_id, prev_hash_id);
    assert_eq!(ctx.node_concept_variable_binding_path_set_hash(node_id), hash_id);
    assert_eq!(ctx.con_var_bind_path_set_hash(hash_id).get_last_variable_binding_description_linker(), Id::new(8));

    assert_eq!(ConceptVariableBindingPathSetHash::get_variable_binding_path_set(&mut ctx, hash_id, 4, false), parent_set);
    let local = ConceptVariableBindingPathSetHash::get_variable_binding_path_set(&mut ctx, hash_id, 4, true);
    assert_ne!(local, parent_set);
    assert_eq!(ctx.vbpath_set(local).binding_paths, vec![Id::new(2), Id::new(3)]);
    assert_eq!(ConceptVariableBindingPathSetHash::get_variable_binding_path_set(&mut ctx, hash_id, 4, true), local);
    assert_eq!(ConceptVariableBindingPathSetHash::get_variable_binding_path_set(&mut ctx, hash_id, 5, false), Id::NONE);
}

#[test]
fn propagation_binding_sets_are_recorded_without_allocation() {
    let mut ctx = ProcessContext::new();
    let node_id = ctx.alloc_node(IndividualProcessNode::default());
    let hash_id = ctx.node_concept_propagation_binding_set_hash(node_id);
    assert!(ctx.con_prop_binding_set_hash(hash_id).get_last_propagation_binding_descriptor().is_none());
    let set = ConceptPropagationBindingSetHash::get_propagation_binding_set(&mut ctx, hash_id, 1, true);
    assert!(set.is_none());
    assert!(ctx.con_prop_binding_set_hash(hash_id).map.contains_key(&1));
    assert!(ctx.prop_binding_sets.is_empty());
    assert!(!ctx.con_prop_binding_set_hash(hash_id).map.contains_key(&2));
    assert!(ConceptPropagationBindingSetHash::get_propagation_binding_set(&mut ctx, hash_id, 2, false).is_none());
    assert!(!ctx.con_prop_binding_set_hash(hash_id).map.contains_key(&2));
}

#[test]
fn analized_chain_count_and_append() {
    let mut ctx = ProcessContext::new();
    let a = ctx.alloc_analized_con_exp_linker(Default::default());
    let b = ctx.alloc_analized_con_exp_linker(Default::default());
    let c = ctx.alloc_analized_con_exp_linker(Default::default());
    assert_eq!(ctx.analized_con_exp_linker_count(Id::NONE), 0);
    assert_eq!(ctx.analized_con_exp_linker_append(Id::NONE, c), c);
    assert_eq!(ctx.analized_con_exp_linker_append(a, b), a);
    assert_eq!(ctx.analized_con_exp_linker_append(a, c), a);
    assert_eq!(ctx.analized_con_exp_linker_count(a), 3);
    assert_eq!(ctx.analized_con_exp_linker(b).get_next(), c);
}

#[test]
fn new_context_and_box_are_empty() {
    let ctx = ProcessContext::default();
    assert_eq!(ctx.node_count(), 0);
    assert_eq!(ctx.con_desc_count(), 0);
    assert!(ctx.edges().is_empty());
    assert_eq!(ctx.used_process_tagger().get_current_blocking_follow_tag(), 0);
    let mut data_box = ProcessingDataBox::default();
    assert!(!data_box.has_branching_instruction());
    data_box.set_branching_instruction(Id::new(3));
    assert!(data_box.has_branching_instruction());
    data_box.clear_branching_instruction();
    assert!(data_box.branching_instruction().is_none());
    data_box.set_maximum_deterministic_branch_tag(17).set_incremental_expansion_id(4);
    assert_eq!(data_box.maximum_deterministic_branch_tag(), 17);
    assert_eq!(data_box.incremental_expansion_id(), 4);
    assert_eq!(data_box.take_next_cache_testing_individual_node(), NodeId::NONE);
    assert_eq!(data_box.take_sorted_nominal_non_deterministic_processing_node(), NodeId::NONE);
    assert_eq!(data_box.nominal_non_det_processing_count, 0);
}

#[test]
fn closing_a_branch_epoch_rolls_back_journaled_arenas_only() {
    let mut ctx = ProcessContext::new();
    let n0 = ctx.alloc_node(IndividualProcessNode::default());
    ctx.node_mut(n0).set_individual_node_id(1);
    assert_eq!(ctx.branch_epoch_depth(), 0);

    ctx.push_branch_epoch();
    assert_eq!(ctx.branch_epoch_depth(), 1);
    let n1 = ctx.alloc_node(IndividualProcessNode::default());
    ctx.node_mut(n1).set_individual_node_id(2);
    ctx.node_mut(n0).set_individual_node_id(7);
    ctx.alloc_con_desc(ConceptDescriptor::new());
    assert_eq!(ctx.nodes.len(), 2);
    assert_eq!(ctx.node(n0).individual_node_id(), 7);

    ctx.pop_branch_epoch();
    assert_eq!(ctx.branch_epoch_depth(), 0);
    assert_eq!(ctx.nodes.len(), 1);
    assert_eq!(ctx.node(n0).individual_node_id(), 1);
    assert_eq!(ctx.con_descs.len(), 1);
}

#[test]
fn nested_branch_epochs_restore_in_order() {
    let mut ctx = ProcessContext::new();
    ctx.push_branch_epoch();
    ctx.alloc_node(IndividualProcessNode::default());
    ctx.push_branch_epoch();
    ctx.alloc_node(IndividualProcessNode::default());
    assert_eq!(ctx.branch_epoch_depth(), 2);
    assert_eq!(ctx.nodes.len(), 2);
    ctx.pop_branch_epoch();
    assert_eq!(ctx.nodes.len(), 1);
    ctx.pop_branch_epoch();
    assert_eq!(ctx.nodes.len(), 0);
    assert_eq!(ctx.branch_epoch_depth(), 0);
}

#[test]
fn branch_child_nodes_hang_under_their_parent_or_start_a_root() {
    let mut ctx = ProcessContext::new();
    let root = ctx.alloc_branch_child_node(Id::NONE, 3);
    assert_eq!(ctx.branch_node(root).get_root_node(), root);
    assert!(ctx.branch_node(root).parent_node().is_none());
    assert_eq!(ctx.branch_node(root).get_branching_level(), 0);
    let child = ctx.alloc_branch_child_node(root, 4);
    assert_eq!(ctx.branch_node(child).parent_node(), root);
    assert_eq!(ctx.branch_node(child).get_root_node(), root);
    assert_eq!(ctx.branch_node(child).get_branching_level(), 1);
    assert_eq!(ctx.branch_node(child).sat_calc_task, 4);
}

#[test]
fn closing_a_branch_epoch_drops_backend_controlling_data() {
    let mut ctx = ProcessContext::new();
    ctx.push_branch_epoch();
    ctx.alloc_backend_neighbour_expansion_controlling_data(BackendNeighbourExpansionControllingData::new());
    ctx.alloc_node(IndividualProcessNode::default());
    ctx.pop_branch_epoch();
    assert_eq!(ctx.backend_neighbour_expansion_controlling_datas.len(), 0);
    assert_eq!(ctx.nodes.len(), 0);
}

#[test]
fn candidate_walk_yields_lower_identifiers_highest_first_then_nothing() {
    let mut map: engine::collections::IntMap<NodeId> = engine::collections::IntMap::new();
    map.insert(-5, NodeId::new(50));
    map.insert(-3, NodeId::new(30));
    map.insert(-1, NodeId::new(10));
    let mut it = engine::blocking_hash::BlockingIndividualNodeCandidateIterator::new(&map, 4);
    assert!(it.has_individual_candidates());
    assert!(it.has_next());
    assert_eq!(it.next_individual_candidate(true), Some(NodeId::new(30)));
    assert_eq!(it.next_individual_candidate(true), Some(NodeId::new(10)));
    assert!(!it.has_next());
    assert_eq!(it.next_individual_candidate(true), None);
    assert_eq!(it.next_individual_candidate(true), None);
    assert_eq!(map.len(), 3);
}
