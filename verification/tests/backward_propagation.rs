use engine::backward_propagation::{BackwardPropagationLink, BackwardPropagationReapplyDescriptor};
use engine::context::ProcessContext;
use engine::ids::{Id, INVALID};
use engine::models::IndividualProcessNode;

#[test]
fn a_node_gets_its_backward_propagation_hash_once() {
    let mut ctx = ProcessContext::new();
    let node = ctx.alloc_node(IndividualProcessNode::default());
    assert!(ctx.node_role_backward_propagation_hash(node, false).is_none());
    let hash = ctx.node_role_backward_propagation_hash(node, true);
    assert!(hash.is_some());
    assert_eq!(ctx.role_backward_prop_hash(hash).context, INVALID);
    assert_eq!(ctx.node_role_backward_propagation_hash(node, true), hash);
    assert_eq!(ctx.node_role_backward_propagation_hash(node, false), hash);
    assert!(ctx.node_role_backward_propagation_hash(Id::NONE, true).is_none());
}

#[test]
fn links_and_waiting_descriptors_of_a_role_meet() {
    let mut ctx = ProcessContext::new();
    let node = ctx.alloc_node(IndividualProcessNode::default());
    let hash = ctx.node_role_backward_propagation_hash(node, true);
    let role = Id::new(4);
    let d1 = ctx.alloc_backward_prop_reapply_desc(BackwardPropagationReapplyDescriptor::new());
    let l1 = ctx.alloc_backward_prop_link(BackwardPropagationLink::new(Id::new(10)));
    let l2 = ctx.alloc_backward_prop_link(BackwardPropagationLink::new(Id::new(10)));
    let l3 = ctx.alloc_backward_prop_link(BackwardPropagationLink::new(Id::new(11)));

    assert!(ctx.role_backward_prop_hash_add_backward_propagation_concept_descriptor(hash, role, d1).is_none());
    assert_eq!(ctx.role_backward_prop_hash_add_backward_propagation_link(hash, role, l1), d1);
    assert!(ctx.role_backward_prop_hash_add_backward_propagation_link(hash, role, l2).is_none());
    assert_eq!(ctx.role_backward_prop_hash(hash).get_data(role).link_linker, l1);
    assert_eq!(ctx.role_backward_prop_hash_add_backward_propagation_link(hash, role, l3), d1);
    assert_eq!(ctx.role_backward_prop_hash(hash).get_data(role).link_linker, l3);
    assert_eq!(ctx.backward_prop_link(l3).get_next(), l1);

    let d2 = ctx.alloc_backward_prop_reapply_desc(BackwardPropagationReapplyDescriptor::new());
    assert_eq!(ctx.role_backward_prop_hash_add_backward_propagation_concept_descriptor(hash, role, d2), l3);
    assert_eq!(ctx.role_backward_prop_hash(hash).get_data(role).reapply_linker, d2);
    assert_eq!(ctx.backward_prop_reapply_desc(d2).get_next(), d1);

    let other_role = Id::new(5);
    assert!(ctx.role_backward_prop_hash_add_backward_propagation_concept_descriptor(hash, other_role, Id::NONE).is_none());
    assert!(ctx.role_backward_prop_hash(hash).get_data(other_role).link_linker.is_none());
}
