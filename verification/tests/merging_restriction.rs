use engine::context::ProcessContext;
use engine::ids::{CandidateLinkerId, EdgeId, NodeId, ProcessContextId, RoleId, TrackPointId};
use engine::merging_restriction::BranchingMergingProcessingRestrictionSpecification;
use engine::models::{BranchingMergingIndividualNodeCandidateLinker, IndividualLinkEdge, IndividualProcessNode, IndividualType};

fn alloc_node(process_context: &mut ProcessContext, individual_type: IndividualType) -> NodeId {
    let mut node = IndividualProcessNode::new(ProcessContextId::NONE);
    node.set_individual_type(individual_type);
    process_context.alloc_node(node)
}

fn alloc_edge(process_context: &mut ProcessContext, creator: NodeId, dep_track_point: TrackPointId) -> EdgeId {
    let mut edge = IndividualLinkEdge::new();
    edge.init_individual_link_edge(creator, creator, NodeId::NONE, RoleId::NONE, dep_track_point);
    process_context.alloc_edge(edge)
}

fn alloc_candidate(process_context: &mut ProcessContext, node: NodeId, edge: EdgeId) -> CandidateLinkerId {
    let mut linker = BranchingMergingIndividualNodeCandidateLinker::new();
    linker.init_branching_merging_individual_node_candidate(node, edge);
    process_context.alloc_branching_merging_candidate_linker(linker)
}

#[test]
fn bm_candidate_linkers_split_nominal_and_take_in_konclude_order() {
    let mut ctx = ProcessContext::new();
    let blockable_node = alloc_node(&mut ctx, IndividualType::Blockable);
    let nominal_node = alloc_node(&mut ctx, IndividualType::Nominal);
    let init_node = alloc_node(&mut ctx, IndividualType::Blockable);
    let dep = TrackPointId::new(77);
    let blockable_edge = alloc_edge(&mut ctx, blockable_node, dep);
    let nominal_edge = alloc_edge(&mut ctx, nominal_node, TrackPointId::new(78));
    let init_edge = alloc_edge(&mut ctx, init_node, TrackPointId::new(79));

    let blockable_candidate = alloc_candidate(&mut ctx, blockable_node, blockable_edge);
    let nominal_candidate = alloc_candidate(&mut ctx, nominal_node, nominal_edge);
    ctx.branching_merging_candidate_linker_mut(blockable_candidate).next = nominal_candidate;
    let init_candidate = alloc_candidate(&mut ctx, init_node, init_edge);

    let mut rest = BranchingMergingProcessingRestrictionSpecification::default();
    rest.add_merging_candidate_node_linker(blockable_candidate, &mut ctx);
    rest.add_merging_initialization_candidate_node_linker(init_candidate, &mut ctx);

    assert_eq!(rest.get_merging_candidate_node_linker(), blockable_candidate);
    assert_eq!(rest.get_merging_initialization_candidate_node_linker(), init_candidate);
    assert_eq!(rest.nominal_merging_nodes_linker, nominal_candidate);
    assert!(rest.has_added_blockable_predecessor_merging_node_candidate());
    assert_eq!(rest.get_added_blockable_predecessor_dependency_track_point(), dep);
    assert_eq!(rest.get_remaining_linker_merging_candidate_individual_node_count(), 3);

    assert_eq!(rest.take_next_merging_candidate_node_linker(&ctx), init_candidate);
    assert_eq!(rest.take_next_merging_candidate_node_linker(&ctx), nominal_candidate);
    assert_eq!(rest.take_next_merging_candidate_node_linker(&ctx), blockable_candidate);
    assert_eq!(rest.take_next_merging_candidate_node_linker(&ctx), CandidateLinkerId::NONE);
    assert_eq!(rest.get_remaining_linker_merging_candidate_individual_node_count(), 0);
    assert_eq!(rest.get_remaining_valid_merging_candidate_individual_node_count(), 0);
}

#[test]
fn bm_qualify_candidate_linkers_append_chain_to_existing_head() {
    let mut ctx = ProcessContext::new();
    let node = alloc_node(&mut ctx, IndividualType::Blockable);
    let edge = alloc_edge(&mut ctx, node, TrackPointId::new(81));
    let first = alloc_candidate(&mut ctx, node, edge);
    let second = alloc_candidate(&mut ctx, node, edge);
    let old_head = alloc_candidate(&mut ctx, node, edge);
    ctx.branching_merging_candidate_linker_mut(first).next = second;

    let mut rest = BranchingMergingProcessingRestrictionSpecification::default();
    rest.set_both_qualify_candidate_node_linker(old_head);
    rest.add_both_qualify_candidate_node_linker(first, &mut ctx);

    assert_eq!(rest.get_both_qualify_candidate_node_linker(), first);
    assert_eq!(ctx.branching_merging_candidate_linker(first).get_next(), second);
    assert_eq!(ctx.branching_merging_candidate_linker(second).get_next(), old_head);
}
