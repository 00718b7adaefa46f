use engine::context::ProcessContext;
use engine::ids::{ConceptId, Id};
use engine::saturation_label::ConceptSaturationDescriptor;
use engine::saturation_node::{
    BackwardSaturationPropagationLink, IndividualSaturationProcessNode, NegLink, RoleBackwardSaturationPropagationHash,
    RoleBackwardSaturationPropagationHashData,
};

fn role_data(link: Id, reapply: Id, self_connected: bool) -> RoleBackwardSaturationPropagationHashData {
    RoleBackwardSaturationPropagationHashData {
        link_linker: link,
        reapply_linker: reapply,
        self_connected,
        role_predecessor_merging_queuing_required: false,
        role_predecessor_merging_processing_queued: false,
    }
}

#[test]
fn satellites_of_a_saturation_node_are_made_once() {
    let mut ctx = ProcessContext::new();
    let node = ctx.alloc_sat_node(IndividualSaturationProcessNode::new());
    assert!(ctx.sat_node_individual_extension_data(node, false).is_none());
    let ext = ctx.sat_node_individual_extension_data(node, true);
    assert!(ext.is_some());
    assert_eq!(ctx.indi_sat_node_ext_data(ext).indi_node, node);
    assert_eq!(ctx.sat_node_individual_extension_data(node, true), ext);

    let set = ctx.sat_node_successor_connected_nominal_set(node, true);
    assert!(set.is_some());
    assert_eq!(ctx.sat_node_successor_connected_nominal_set_existing(node), set);
    assert_eq!(ctx.sat_node_nominal_handling_data(node, false), ctx.indi_sat_node_ext_data(ext).nominal_handling_data);

    let dt = ctx.sat_node_ext_applied_datatype_data(node, true);
    assert_eq!(ctx.sat_node_ext_applied_datatype_data(node, false), dt);
    assert_eq!(ctx.indi_sat_node_ext_data(ext).applied_datatype_data, dt);

    let h = ctx.sat_node_role_backward_propagation_hash(node, true);
    assert_eq!(ctx.sat_node_role_backward_propagation_hash(node, false), h);
    let l = ctx.sat_node_reapply_concept_saturation_label_set(node, true);
    assert_eq!(ctx.sat_node_reapply_concept_saturation_label_set(node, true), l);
    assert!(ctx.sat_node_individual_extension_data(Id::NONE, true).is_none());
}

#[test]
fn copying_a_backward_propagation_hash_drops_links_and_relinks_self_connected_roles() {
    let mut ctx = ProcessContext::new();
    let old_link = ctx.alloc_backward_sat_prop_link(BackwardSaturationPropagationLink::new());
    let source = ctx.alloc_role_backward_sat_prop_hash(RoleBackwardSaturationPropagationHash::new(0));
    let target = ctx.alloc_role_backward_sat_prop_hash(RoleBackwardSaturationPropagationHash::new(0));
    let node = Id::new(7);
    {
        let h = ctx.role_backward_sat_prop_hash_mut(source);
        h.self_connected = true;
        h.set_data(Id::new(3), role_data(old_link, Id::NONE, true));
        h.set_data(Id::new(4), role_data(old_link, Id::new(9), false));
    }
    assert_eq!(ctx.copy_role_backward_saturation_propagation_hash(target, source, node), target);
    let t = ctx.role_backward_sat_prop_hash(target);
    assert!(t.self_connected);
    let d3 = t.data_of(Id::new(3)).unwrap();
    let d4 = t.data_of(Id::new(4)).unwrap();
    assert!(d4.link_linker.is_none());
    assert_eq!(d4.reapply_linker, Id::new(9));
    assert!(d3.link_linker.is_some());
    assert_ne!(d3.link_linker, old_link);
    let link = *ctx.backward_sat_prop_link(d3.link_linker);
    assert_eq!(link.source_individual, node);
    assert_eq!(link.role, Id::new(3));
    assert!(link.next.is_none());
    assert_eq!(ctx.role_backward_sat_prop_hash(source).data_of(Id::new(3)).unwrap().link_linker, old_link);
}

#[test]
fn copying_a_saturation_node_carries_its_satellites_over() {
    let mut ctx = ProcessContext::new();
    let source = ctx.alloc_sat_node(IndividualSaturationProcessNode::new());
    let target = ctx.alloc_sat_node(IndividualSaturationProcessNode::new());

    let h = ctx.sat_node_role_backward_propagation_hash(source, true);
    ctx.role_backward_sat_prop_hash_mut(h).set_data(Id::new(3), role_data(Id::NONE, Id::new(2), false));

    let label = ctx.sat_node_reapply_concept_saturation_label_set(source, true);
    let desc = ctx.alloc_con_sat_desc(ConceptSaturationDescriptor::new(ConceptId::new(1), false));
    let mut inserted = false;
    let mut waiting = Id::NONE;
    ctx.reapply_con_sat_label_set_insert_concept_return_clashed(label, desc, 1, &mut inserted, &mut waiting);

    let set = ctx.sat_node_successor_connected_nominal_set(source, true);
    ctx.nominal_conn_set_mut(set).nominals.insert(42);

    let dt = ctx.sat_node_ext_applied_datatype_data(source, true);
    ctx.sat_indi_node_datatype_data_mut(dt).applied_data_literal = Id::new(5);
    ctx.sat_indi_node_datatype_data_mut(dt).applied_datatype = Id::new(6);

    ctx.sat_node_mut(source).nominal_indi = Id::new(11);
    ctx.sat_node_mut(source).integrated_nominal_indi = Id::new(12);
    ctx.sat_node_mut(source).data_value_applied = true;

    ctx.sat_node_init_coping_individual_saturation_process_node(target, source, false, 10);

    let t = ctx.sat_node(target);
    let t_hash = t.role_back_prop_hash;
    let t_label = t.reapply_con_sat_label_set;
    assert!(t_hash.is_some());
    assert_ne!(t_hash, h);
    assert_eq!(ctx.role_backward_sat_prop_hash(t_hash).data_of(Id::new(3)).unwrap().reapply_linker, Id::new(2));
    assert!(t_label.is_some());
    assert_ne!(t_label, label);
    assert_eq!(ctx.reapply_con_sat_label_set(t_label).get_concept_count(), 1);
    assert_eq!(ctx.reapply_con_sat_label_set(t_label).lookup_entry(1).con_sat_des, desc);
    assert_eq!(t.integrated_nominal_indi, Id::new(11));
    assert!(t.data_value_applied);

    let t_set = ctx.sat_node_successor_connected_nominal_set_existing(target);
    assert!(t_set.is_some());
    assert_ne!(t_set, set);
    assert!(ctx.nominal_conn_set(t_set).nominals.contains(&42));

    let t_dt = ctx.sat_node_ext_applied_datatype_data(target, false);
    assert!(t_dt.is_some());
    assert_eq!(ctx.sat_indi_node_datatype_data(t_dt).applied_data_literal, Id::new(5));
    assert_eq!(ctx.sat_indi_node_datatype_data(t_dt).applied_datatype, Id::new(6));

    assert_eq!(
        ctx.sat_node(source).copy_depending_individual_node_linkers,
        vec![NegLink { target, negated: true }]
    );
}

#[test]
fn a_copied_node_keeps_its_own_nominal_as_integration() {
    let mut ctx = ProcessContext::new();
    let source = ctx.alloc_sat_node(IndividualSaturationProcessNode::new());
    let target = ctx.alloc_sat_node(IndividualSaturationProcessNode::new());
    ctx.sat_node_mut(source).nominal_indi = Id::new(11);
    ctx.sat_node_mut(target).nominal_indi = Id::new(20);
    ctx.sat_node_init_coping_individual_saturation_process_node(target, source, true, 1);
    assert_eq!(ctx.sat_node(target).integrated_nominal_indi, Id::new(20));
    assert!(ctx.sat_node(target).role_back_prop_hash.is_none());
    assert!(ctx.sat_node(target).reapply_con_sat_label_set.is_none());
    assert!(ctx.sat_node(target).indi_extension_data.is_none());

    let other = ctx.alloc_sat_node(IndividualSaturationProcessNode::new());
    ctx.sat_node_mut(other).integrated_nominal_indi = Id::new(30);
    let fresh = ctx.alloc_sat_node(IndividualSaturationProcessNode::new());
    ctx.sat_node_init_coping_individual_saturation_process_node(fresh, other, false, 10);
    assert_eq!(ctx.sat_node(fresh).integrated_nominal_indi, Id::new(30));
    ctx.sat_node_init_coping_individual_saturation_process_node(Id::NONE, other, false, 10);
    assert_eq!(ctx.sat_node(other).copy_depending_individual_node_linkers.len(), 1);
}

#[test]
fn a_node_copied_into_itself_records_itself() {
    let mut ctx = ProcessContext::new();
    let node = ctx.alloc_sat_node(IndividualSaturationProcessNode::new());
    ctx.sat_node_mut(node).nominal_indi = Id::new(3);
    ctx.sat_node_init_coping_individual_saturation_process_node(node, node, false, 10);
    assert_eq!(ctx.sat_node(node).integrated_nominal_indi, Id::new(3));
    assert_eq!(
        ctx.sat_node(node).copy_depending_individual_node_linkers,
        vec![NegLink { target: node, negated: true }]
    );
}
