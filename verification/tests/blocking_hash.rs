use engine::blocking_hash::{BlockingIndividualNodeCandidateData, BlockingIndividualNodeCandidateIterator};
use engine::context::ProcessContext;
use engine::ids::INVALID;
use engine::models::IndividualProcessNode;

#[test]
fn blocking_candidate_iterator_context_remove_erases_backing_map() {
    let mut ctx = ProcessContext::new();
    let data = ctx.alloc_blocking_indi_node_cand_data(BlockingIndividualNodeCandidateData::new(INVALID));
    let first = ctx.alloc_node(IndividualProcessNode::default());
    ctx.node_mut(first).set_individual_node_id(3);
    let second = ctx.alloc_node(IndividualProcessNode::default());
    ctx.node_mut(second).set_individual_node_id(7);
    let third = ctx.alloc_node(IndividualProcessNode::default());
    ctx.node_mut(third).set_individual_node_id(11);

    ctx.blocking_indi_node_cand_data_insert_blocking_candidate_individual_node(data, first);
    ctx.blocking_indi_node_cand_data_insert_blocking_candidate_individual_node(data, second);
    ctx.blocking_indi_node_cand_data_insert_blocking_candidate_individual_node(data, third);

    let mut iterator = BlockingIndividualNodeCandidateIterator::new_in_context(&ctx, data, 12);
    assert_eq!(iterator.next_individual_candidate(true), Some(third));
    assert!(iterator.remove_last_individual_candidate_in_context(&mut ctx));
    assert!(!ctx.blocking_indi_node_cand_data(data).candidate_indi_map.contains_key(&-11));
    assert_eq!(iterator.next_individual_candidate(true), Some(second));
    assert!(iterator.remove_last_individual_candidate_in_context(&mut ctx));
    assert!(!ctx.blocking_indi_node_cand_data(data).candidate_indi_map.contains_key(&-7));
    assert_eq!(iterator.next_individual_candidate(true), Some(first));
    assert!(ctx.blocking_indi_node_cand_data(data).candidate_indi_map.contains_key(&-3));
}

#[test]
fn blocking_candidate_iterator_snapshot_remove_is_local_fallback() {
    let mut ctx = ProcessContext::new();
    let data = ctx.alloc_blocking_indi_node_cand_data(BlockingIndividualNodeCandidateData::new(INVALID));
    let candidate = ctx.alloc_node(IndividualProcessNode::default());
    ctx.node_mut(candidate).set_individual_node_id(5);
    ctx.blocking_indi_node_cand_data_insert_blocking_candidate_individual_node(data, candidate);

    let mut iterator = ctx.blocking_indi_node_cand_data(data).get_blocking_candidates_individual_node_iterator(6);
    assert_eq!(iterator.next_individual_candidate(true), Some(candidate));
    assert!(iterator.remove_last_individual_candidate());
    assert!(
        ctx.blocking_indi_node_cand_data(data).candidate_indi_map.contains_key(&-5),
        "snapshot-only compatibility fallback must not mutate the arena map"
    );
}
