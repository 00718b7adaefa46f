use engine::blocking_hash::{
    BlockingCandidateHashData, BlockingIndividualNodeCandidateData, BlockingIndividualNodeCandidateHash,
    BlockingIndividualNodeLinkedCandidateHash,
};
use engine::blocking_test_data::IndividualNodeBlockingTestData;
use engine::branching_tree::BranchingTree;
use engine::context::ProcessContext;
use engine::databox::ProcessingDataBox;
use engine::ids::{BranchNodeId, ConceptId, ConDescId, CoreConceptDescriptorId, NodeId, INVALID};
use engine::models::{ConceptDescriptor, IndividualProcessNode, IndividualProcessNodeLinker};
use engine::review::SignatureBlockingReviewSet;
use engine::signature_candidates::SignatureBlockingCandidateHash;

#[test]
fn processing_data_box_signature_blocking_candidate_hash_creates_from_previous_hash() {
    let mut ctx = ProcessContext::new();
    let mut data_box = ProcessingDataBox::new();
    let mut prev_hash = SignatureBlockingCandidateHash::new(INVALID);
    prev_hash.insert_signature_blocking_candidates(41, vec![3, 5]);
    let prev_hash_id = ctx.alloc_sig_block_cand_hash(prev_hash);
    data_box.prev_signature_blocking_candidate_hash = prev_hash_id;

    let created_hash_id = ctx.processing_data_box_signature_blocking_candidate_hash(&mut data_box, true);

    assert!(created_hash_id.is_some());
    assert_ne!(created_hash_id, prev_hash_id);
    assert_eq!(data_box.signature_blocking_candidate_hash, created_hash_id);
    assert_eq!(data_box.use_signature_blocking_candidate_hash, created_hash_id);
    assert_eq!(ctx.sig_block_cand_hash(created_hash_id).get_blocking_candidates_count(41), 2);
    assert_eq!(ctx.sig_block_cand_hash(prev_hash_id).get_blocking_candidates_count(41), 2);
    assert_eq!(ctx.processing_data_box_signature_blocking_candidate_hash(&mut data_box, false), created_hash_id);
}

#[test]
fn processing_data_box_signature_nominal_delaying_candidate_hash_creates_from_previous_hash() {
    let mut ctx = ProcessContext::new();
    let mut data_box = ProcessingDataBox::new();
    let mut prev_hash = SignatureBlockingCandidateHash::new(INVALID);
    prev_hash.insert_signature_blocking_candidates(43, vec![7, 11, 13]);
    let prev_hash_id = ctx.alloc_sig_block_cand_hash(prev_hash);
    data_box.prev_signature_nominal_delaying_candidate_hash = prev_hash_id;

    let created_hash_id = ctx.processing_data_box_signature_nominal_delaying_candidate_hash(&mut data_box, true);

    assert!(created_hash_id.is_some());
    assert_ne!(created_hash_id, prev_hash_id);
    assert_eq!(data_box.signature_nominal_delaying_candidate_hash, created_hash_id);
    assert_eq!(data_box.use_signature_nominal_delaying_candidate_hash, created_hash_id);
    assert_eq!(ctx.sig_block_cand_hash(created_hash_id).get_blocking_candidates_count(43), 3);
    assert_eq!(ctx.sig_block_cand_hash(prev_hash_id).get_blocking_candidates_count(43), 3);
    assert_eq!(
        ctx.processing_data_box_signature_nominal_delaying_candidate_hash(&mut data_box, false),
        created_hash_id
    );
}

#[test]
fn processing_data_box_signature_blocking_review_set_creates_from_previous_and_clears() {
    let mut ctx = ProcessContext::new();
    let mut data_box = ProcessingDataBox::new();
    assert!(data_box.signature_blocking_review_set(&mut ctx, false).is_none());

    let prev_set = ctx.alloc_signature_blocking_review_set(SignatureBlockingReviewSet::new());
    ctx.signature_blocking_review_set_mut(prev_set).get_review_data(false).insert(1, 11);
    ctx.signature_blocking_review_set_mut(prev_set).get_review_data(true).insert(2, 22);
    data_box.prev_signature_blocking_review_set = prev_set;

    let created_set = data_box.signature_blocking_review_set(&mut ctx, true);

    assert!(created_set.is_some());
    assert_ne!(created_set, prev_set);
    assert_eq!(data_box.signature_blocking_review_set, created_set);
    assert_eq!(data_box.use_signature_blocking_review_set, created_set);
    assert!(ctx.signature_blocking_review_set(created_set).non_subset_reviews.contains(11));
    assert!(ctx.signature_blocking_review_set(created_set).subset_reviews.contains(22));
    assert!(ctx.signature_blocking_review_set(prev_set).non_subset_reviews.contains(11));
    assert_eq!(data_box.signature_blocking_review_set(&mut ctx, false), created_set);

    data_box.clear_signature_blocking_review_set();
    assert!(data_box.signature_blocking_review_set.is_none());
    assert!(data_box.use_signature_blocking_review_set.is_none());
    assert!(data_box.prev_signature_blocking_review_set.is_none());
}

#[test]
fn processing_data_box_db4_linkers_preserve_konclude_head_order_and_counts() {
    let mut ctx = ProcessContext::new();
    let mut data_box = ProcessingDataBox::new();
    let n1 = NodeId::new(1);
    let n2 = NodeId::new(2);
    let n3 = NodeId::new(3);
    let n4 = NodeId::new(4);

    assert!(!data_box.has_cache_testing_individual_nodes());
    data_box.add_individual_node_cache_testing_linker(vec![n2, n3]);
    data_box.add_individual_node_cache_testing_linker(vec![n1]);
    assert!(data_box.has_cache_testing_individual_nodes());
    assert_eq!(data_box.take_next_cache_testing_individual_node(), n1);
    assert_eq!(data_box.take_individual_node_cache_testing_linker(), vec![n2, n3]);
    assert!(!data_box.has_cache_testing_individual_nodes());

    data_box.set_sorted_nominal_non_deterministic_processing_node_linker(vec![n2, n3]);
    assert_eq!(data_box.nominal_non_det_processing_count, 2);
    data_box.add_sorted_nominal_non_deterministic_processing_node_linker(vec![n1]);
    assert_eq!(data_box.nominal_non_det_processing_count, 3);
    assert_eq!(data_box.sorted_nominal_non_deterministic_processing_node_linker(), &[n1, n2, n3]);
    assert_eq!(data_box.take_sorted_nominal_non_deterministic_processing_node(), n1);
    assert_eq!(data_box.nominal_non_det_processing_count, 2);
    assert_eq!(data_box.take_sorted_nominal_non_deterministic_processing_node_linker(), vec![n2, n3]);
    assert_eq!(
        data_box.nominal_non_det_processing_count, 2,
        "taking the linker clears the head without changing the count"
    );
    data_box.clear_sorted_nominal_non_deterministic_processing_node_linker();
    assert_eq!(data_box.nominal_non_det_processing_count, 0);
    assert!(!data_box.has_sorted_nominal_non_deterministic_processing_nodes());

    data_box.add_individual_node_blocked_resolve_linker(vec![n3]);
    data_box.add_individual_node_blocked_resolve_linker(vec![n1, n2]);
    assert!(data_box.has_blocked_resolve_individual_nodes());
    assert_eq!(data_box.take_next_individual_node_blocked_resolve_linker(), n1);
    assert_eq!(data_box.take_next_individual_node_blocked_resolve_linker(), n2);
    data_box.clear_blocked_resolve_individual_nodes();
    assert!(!data_box.has_blocked_resolve_individual_nodes());

    data_box.add_blockable_individual_node_updated_linker(vec![n3]);
    data_box.add_blockable_individual_node_updated_linker(vec![n1, n2]);
    assert!(data_box.has_blockable_individual_node_updated_linker());
    assert_eq!(data_box.blockable_individual_node_updated_linker(), n1);
    assert_eq!(data_box.blockable_individual_node_updated_linker(), n2);
    data_box.clear_blockable_individual_node_updated_linker();
    assert!(!data_box.has_blockable_individual_node_updated_linker());

    let mut link2 = IndividualProcessNodeLinker::new();
    link2.init_process_node_linker(n2, true);
    let link2 = ctx.alloc_individual_process_node_linker(link2);
    let mut link3 = IndividualProcessNodeLinker::new();
    link3.init_process_node_linker(n3, false);
    let link3 = ctx.alloc_individual_process_node_linker(link3);
    ctx.individual_process_node_linker_mut(link2).set_next(link3);
    let mut link1 = IndividualProcessNodeLinker::new();
    link1.init_process_node_linker(n1, false);
    let link1 = ctx.alloc_individual_process_node_linker(link1);

    data_box.set_individual_process_node_linker(link2);
    data_box.add_individual_process_node_linker(&mut ctx, link1);
    assert_eq!(data_box.individual_process_node_linker(), link1);
    assert_eq!(ctx.individual_process_node_linker(link1).get_processing_individual(), n1);
    assert_eq!(ctx.individual_process_node_linker(link1).get_next(), link2);
    assert!(ctx.individual_process_node_linker(link2).is_processing_queued());
    assert!(!ctx.individual_process_node_linker(link3).is_processing_queued());
    assert_eq!(data_box.take_individual_process_node_linker(&mut ctx), link1);
    assert!(ctx.individual_process_node_linker(link1).get_next().is_none());
    assert_eq!(data_box.take_individual_process_node_linker(&mut ctx), link2);
    assert_eq!(data_box.take_individual_process_node_linker(&mut ctx), link3);
    assert!(data_box.take_individual_process_node_linker(&mut ctx).is_none());
    data_box.add_individual_node_cache_testing_linker(vec![n4]);
    assert_eq!(data_box.take_next_cache_testing_individual_node(), n4);
}

#[test]
fn processing_data_box_blocking_individual_node_candidate_hash_creates_from_previous_hash() {
    let mut ctx = ProcessContext::new();
    let mut data_box = ProcessingDataBox::new();
    let key = (ConceptId::new(17), true);
    let prev_data = ctx.alloc_blocking_indi_node_cand_data(BlockingIndividualNodeCandidateData::new(INVALID));
    let mut prev_hash = BlockingIndividualNodeCandidateHash::new(INVALID);
    prev_hash.block_candidate_hash.insert(
        key,
        BlockingCandidateHashData { candidate_indi_data: prev_data, prev_candidate_indi_data: prev_data },
    );
    let prev_hash_id = ctx.alloc_blocking_indi_node_cand_hash(prev_hash);
    data_box.prev_blocking_indi_node_candidate_hash = prev_hash_id;

    let created_hash_id = ctx.processing_data_box_blocking_individual_node_candidate_hash(&mut data_box, true);

    assert!(created_hash_id.is_some());
    assert_ne!(created_hash_id, prev_hash_id);
    assert_eq!(data_box.blocking_indi_node_candidate_hash, created_hash_id);
    assert_eq!(data_box.use_blocking_indi_node_candidate_hash, created_hash_id);

    let copied_data = ctx
        .blocking_indi_node_cand_hash(created_hash_id)
        .block_candidate_hash
        .get(&key)
        .copied()
        .expect("copied blocking candidate bucket");
    assert!(copied_data.candidate_indi_data.is_none());
    assert_eq!(copied_data.prev_candidate_indi_data, prev_data);

    let prev_bucket = ctx
        .blocking_indi_node_cand_hash(prev_hash_id)
        .block_candidate_hash
        .get(&key)
        .copied()
        .expect("previous blocking candidate bucket restored");
    assert_eq!(prev_bucket.candidate_indi_data, prev_data);
    assert_eq!(prev_bucket.prev_candidate_indi_data, prev_data);
    assert_eq!(ctx.processing_data_box_blocking_individual_node_candidate_hash(&mut data_box, false), created_hash_id);
}

#[test]
fn blocking_candidate_data_materializes_tags_and_candidate_iterator() {
    let mut ctx = ProcessContext::new();
    let mut data_box = ProcessingDataBox::new();
    let hash_id = ctx.processing_data_box_blocking_individual_node_candidate_hash(&mut data_box, true);

    let concept = ConceptId::new(23);
    let mut descriptor = ConceptDescriptor::new();
    descriptor.concept = concept;
    descriptor.negated = true;
    let descriptor_id = ctx.alloc_con_desc(descriptor);

    let data_id = BlockingIndividualNodeCandidateHash::get_blocking_individual_candidate_data_for_concept_descriptor(
        &mut ctx,
        hash_id,
        descriptor_id,
        true,
    );
    assert!(data_id.is_some());

    let n1 = ctx.alloc_node(IndividualProcessNode::default());
    ctx.node_mut(n1).set_individual_node_id(3);
    let n2 = ctx.alloc_node(IndividualProcessNode::default());
    ctx.node_mut(n2).set_individual_node_id(7);
    ctx.blocking_indi_node_cand_data_insert_blocking_candidate_individual_node(data_id, n1);
    ctx.blocking_indi_node_cand_data_insert_blocking_candidate_individual_node(data_id, n2);

    {
        let data = ctx.blocking_indi_node_cand_data_mut(data_id);
        assert!(data.update_concept_label_set_modification_tag(11));
        assert!(data.update_node_switch_tag(13));
        data.set_max_valid_individual_id(7);
    }
    assert_eq!(ctx.blocking_indi_node_cand_data(data_id).get_concept_label_set_modification_tag(), 11);
    assert_eq!(ctx.blocking_indi_node_cand_data(data_id).get_node_switch_tag(), 13);
    assert_eq!(ctx.blocking_indi_node_cand_data(data_id).get_max_valid_individual_id(), 7);

    let mut iterator = ctx.blocking_indi_node_cand_data(data_id).get_blocking_candidates_individual_node_iterator(8);
    assert_eq!(iterator.next_individual_candidate(true), Some(n2));
    assert_eq!(iterator.next_individual_candidate(true), Some(n1));
    assert!(!iterator.has_next());
}

#[test]
fn linked_blocking_candidate_hash_copies_and_prepends_candidate_linkers() {
    let mut ctx = ProcessContext::new();
    let mut data_box = ProcessingDataBox::new();
    let hash_id = ctx.processing_data_box_blocking_individual_node_linked_candidate_hash(&mut data_box, true);

    let concept = ConceptId::new(31);
    let mut descriptor = ConceptDescriptor::new();
    descriptor.concept = concept;
    descriptor.negated = false;
    let descriptor_id = ctx.alloc_con_desc(descriptor);

    let data_id = BlockingIndividualNodeLinkedCandidateHash::get_blocking_individual_candidate_data_for_concept_descriptor(
        &mut ctx,
        hash_id,
        descriptor_id,
        true,
    );
    let n1 = ctx.alloc_node(IndividualProcessNode::default());
    let n2 = ctx.alloc_node(IndividualProcessNode::default());
    ctx.blocking_indi_node_linked_cand_data_add_blocking_candidate_individual_node(data_id, n1);
    ctx.blocking_indi_node_linked_cand_data_add_blocking_candidate_individual_node(data_id, n2);

    assert_eq!(ctx.blocking_indi_node_linked_cand_data(data_id).get_candidate_count(), 2);
    let head = ctx.blocking_indi_node_linked_cand_data(data_id).get_blocking_candidates_individual_node_linker();
    assert_eq!(ctx.blocking_indi_node_linker(head).get_candidate_individual_node(), n2);
    let next = ctx.blocking_indi_node_linker(head).get_next();
    assert_eq!(ctx.blocking_indi_node_linker(next).get_candidate_individual_node(), n1);

    let mut copied_box = ProcessingDataBox::new();
    copied_box.prev_blocking_indi_node_linked_candidate_hash = hash_id;
    let copied_hash = ctx.processing_data_box_blocking_individual_node_linked_candidate_hash(&mut copied_box, true);
    assert_ne!(copied_hash, hash_id);
    let copied_data = BlockingIndividualNodeLinkedCandidateHash::get_blocking_individual_candidate_data_for_concept_descriptor(
        &mut ctx,
        copied_hash,
        descriptor_id,
        true,
    );
    assert_ne!(copied_data, data_id);
    assert_eq!(ctx.blocking_indi_node_linked_cand_data(copied_data).get_candidate_count(), 2);
    assert_eq!(ctx.blocking_indi_node_linked_cand_data(copied_data).get_blocking_candidates_individual_node_linker(), head);

    let n3 = ctx.alloc_node(IndividualProcessNode::default());
    ctx.blocking_indi_node_linked_cand_data_add_blocking_candidate_individual_node(copied_data, n3);
    assert_eq!(ctx.blocking_indi_node_linked_cand_data(copied_data).get_candidate_count(), 3);
    assert_eq!(ctx.blocking_indi_node_linked_cand_data(data_id).get_candidate_count(), 2);
    let copied_head = ctx.blocking_indi_node_linked_cand_data(copied_data).get_blocking_candidates_individual_node_linker();
    assert_eq!(ctx.blocking_indi_node_linker(copied_head).get_candidate_individual_node(), n3);
}

#[test]
fn branching_tree_lifecycle_matches_konclude_task_copy_and_force_child() {
    let mut ctx = ProcessContext::new();
    let tree_id = ctx.alloc_branching_tree(BranchingTree::new(INVALID));

    let root = ctx.branching_tree_branch_tree_node(tree_id, 11, false);
    assert!(root.is_some());
    assert_eq!(ctx.branching_tree(tree_id).root_node, root);
    assert_eq!(ctx.branching_tree(tree_id).curr_node, root);
    assert_eq!(ctx.branch_node(root).parent_node(), BranchNodeId::NONE);
    assert_eq!(ctx.branch_node(root).get_root_node(), root);
    assert_eq!(ctx.branch_node(root).get_branching_level(), 0);
    assert_eq!(ctx.branch_node(root).get_satisfiable_calculation_task(), 11);

    assert_eq!(ctx.branching_tree_branch_tree_node(tree_id, 11, false), root);

    let copied_root = ctx.branching_tree_branch_tree_node(tree_id, 17, false);
    assert_ne!(copied_root, root);
    assert_eq!(ctx.branch_node(copied_root).parent_node(), BranchNodeId::NONE);
    assert_eq!(ctx.branch_node(copied_root).get_root_node(), copied_root);
    assert_eq!(ctx.branch_node(copied_root).get_satisfiable_calculation_task(), 17);
    assert_eq!(ctx.branching_tree(tree_id).root_node, copied_root);

    let forced_child = ctx.branching_tree_branch_tree_node(tree_id, 17, true);
    assert_ne!(forced_child, copied_root);
    assert_eq!(ctx.branch_node(forced_child).parent_node(), copied_root);
    assert_eq!(ctx.branch_node(forced_child).get_root_node(), copied_root);
    assert_eq!(ctx.branch_node(forced_child).get_satisfiable_calculation_task(), 17);
    assert_eq!(ctx.branching_tree(tree_id).curr_node, forced_child);
    assert_eq!(ctx.branching_tree(tree_id).prev_curr_node, forced_child);
}

#[test]
fn processing_data_box_branching_tree_creates_from_previous_tree() {
    let mut ctx = ProcessContext::new();
    let mut parent_box = ProcessingDataBox::new();
    let parent_tree = parent_box.branching_tree_with_context(&mut ctx, true);
    let parent_root = ctx.branching_tree_branch_tree_node(parent_tree, 23, false);
    let base_dep = ctx.branching_tree_base_dependency_node(parent_tree, true);
    assert!(ctx.dep_node(base_dep).is_independent_base_dependency_type());

    let mut child_box = ProcessingDataBox::new();
    child_box.prev_branching_tree = parent_tree;
    let child_tree = child_box.branching_tree_with_context(&mut ctx, true);

    assert!(child_tree.is_some());
    assert_ne!(child_tree, parent_tree);
    assert_eq!(child_box.branching_tree, child_tree);
    assert_eq!(child_box.use_branching_tree, child_tree);
    assert_eq!(ctx.branching_tree(child_tree).curr_node, BranchNodeId::NONE);
    assert_eq!(ctx.branching_tree(child_tree).prev_curr_node, parent_root);
    assert_eq!(ctx.branching_tree(child_tree).root_node, parent_root);
    assert_eq!(ctx.branching_tree_base_dependency_node(child_tree, false), base_dep);
    assert_eq!(ctx.branching_tree_base_dependency_node(child_tree, true), base_dep);

    let child_branch = ctx.branching_tree_branch_tree_node(child_tree, 29, false);
    assert_ne!(child_branch, parent_root);
    assert_eq!(ctx.branch_node(child_branch).parent_node(), parent_root);
    assert_eq!(ctx.branch_node(child_branch).get_root_node(), parent_root);
    assert_eq!(ctx.branch_node(child_branch).get_satisfiable_calculation_task(), 29);
    assert_eq!(child_box.branching_tree_with_context(&mut ctx, false), child_tree);
}

#[test]
fn blocking_data_tag_protocol_updates_node_switch_and_label_modification_tags() {
    let mut block_data = IndividualNodeBlockingTestData::new();
    assert_eq!(block_data.get_node_switch_tag(), 0);
    assert!(block_data.update_node_switch_tag(5));
    assert_eq!(block_data.get_node_switch_tag(), 5);
    assert!(!block_data.update_node_switch_tag(5));
    assert!(block_data.is_node_switch_tag_up_to_date(4));
    assert!(block_data.is_node_switch_tag_up_to_date(5));
    assert!(!block_data.is_node_switch_tag_updated(5));
    assert!(block_data.is_node_switch_tag_updated(6));
    assert!(block_data.update_concept_label_set_modification_tag(7));
    assert_eq!(block_data.get_concept_label_set_modification_tag(), 7);
    assert!(!block_data.update_concept_label_set_modification_tag(7));

    let mut candidate_data = BlockingIndividualNodeCandidateData::new(INVALID);
    candidate_data.set_node_switch_tag(11);
    assert_eq!(candidate_data.get_node_switch_tag(), 11);
    candidate_data.init_node_switch_tag(13);
    assert_eq!(candidate_data.get_node_switch_tag(), 13);
    assert!(candidate_data.is_node_switch_tag_up_to_date(12));
    assert!(!candidate_data.is_node_switch_tag_up_to_date(14));
    assert!(candidate_data.update_concept_label_set_modification_tag(17));
    assert_eq!(candidate_data.get_concept_label_set_modification_tag(), 17);
    assert!(!candidate_data.update_concept_label_set_modification_tag(17));
}

#[test]
fn blocking_test_data_copies_blocking_fields_but_keeps_fresh_tags() {
    let mut ctx = ProcessContext::new();
    let blocker = ctx.alloc_node(IndividualProcessNode::default());
    ctx.node_mut(blocker).set_individual_node_id(19);

    let mut previous = IndividualNodeBlockingTestData::new();
    previous
        .set_blocking_individual_node(blocker)
        .set_last_added_core_concept_descriptor(CoreConceptDescriptorId::NONE)
        .set_last_core_blocking_candidate_concept_descriptor(ConDescId::NONE)
        .set_last_core_blocking_candidate_concept_node_difference(3);
    previous.update_node_switch_tag(11);
    previous.update_concept_label_set_modification_tag(13);

    let mut localized = IndividualNodeBlockingTestData::new();
    localized.init_block_data(Some(&previous));

    assert_eq!(localized.get_blocking_individual_node(), blocker);
    assert_eq!(localized.get_last_core_blocking_candidate_concept_node_difference(), 3);
    assert_eq!(
        localized.get_node_switch_tag(),
        0,
        "the inherited node-switch tag is not copied"
    );
    assert_eq!(
        localized.get_concept_label_set_modification_tag(),
        0,
        "the inherited label-modification tag is not copied"
    );

    localized.set_blocking_individual_node(NodeId::NONE);
    assert!(localized.get_blocking_individual_node().is_none());
}

#[test]
fn blocking_test_data_init_without_previous_clears_blocking_fields() {
    let mut data = IndividualNodeBlockingTestData::new();
    data.set_blocking_individual_node(NodeId::new(4))
        .set_last_core_blocking_candidate_concept_node_difference(9);
    data.update_node_switch_tag(2);
    data.init_block_data(None);
    assert!(data.get_blocking_individual_node().is_none());
    assert_eq!(data.get_last_core_blocking_candidate_concept_node_difference(), 0);
    assert_eq!(data.get_node_switch_tag(), 2);
}

#[test]
fn blocking_test_data_cursors_are_set_and_cleared() {
    let mut block_data = IndividualNodeBlockingTestData::new();
    block_data
        .set_blocking_individual_node(NodeId::new(7))
        .clear_blocking_individual_node()
        .set_last_added_core_concept_descriptor(CoreConceptDescriptorId::new(2))
        .set_last_core_blocking_candidate_concept_descriptor(ConDescId::NONE)
        .set_last_core_blocking_candidate_concept_node_difference(0);
    assert!(block_data.get_blocking_individual_node().is_none());
    assert_eq!(block_data.get_last_added_core_concept_descriptor(), CoreConceptDescriptorId::new(2));
    assert_eq!(block_data.get_last_core_blocking_candidate_concept_descriptor(), ConDescId::NONE);
    assert_eq!(block_data.get_last_core_blocking_candidate_concept_node_difference(), 0);
}
