use engine::context::ProcessContext;
use engine::ids::{Id, RoleId};
use engine::saturation_extension::{
    SaturationIndividualNodeAllConceptsExtensionData, SaturationLinkedSuccessorIndividualAllConceptsExtensionData,
};

#[test]
fn first_role_extension_is_held_inline_and_made_once() {
    let mut ctx = ProcessContext::new();
    let node = Id::new(8);
    let mut fresh = SaturationLinkedSuccessorIndividualAllConceptsExtensionData::new();
    fresh.init_linked_successor_individual_all_concepts_extension_data(node);
    let linked = ctx.alloc_sat_linked_succ_indi_all_concept_ext_data(fresh);
    let role: RoleId = Id::new(2);
    assert!(ctx.sat_role_successor_all_concept_extension_data(linked, role, false).is_none());

    let ext = ctx.sat_role_successor_all_concept_extension_data(linked, role, true);
    assert!(ext.is_some());
    let data = *ctx.sat_successor_all_concept_ext_data(ext);
    assert_eq!(data.role, role);
    assert_eq!(data.indi_proc_sat_node, node);
    assert!(data.concept_extension_map.is_some());
    assert_eq!(ctx.sat_linked_succ_indi_all_concept_ext_data(linked).only_role, role);
    assert_eq!(ctx.sat_linked_succ_indi_all_concept_ext_data(linked).only_all_concept_ext_data, ext);

    assert_eq!(ctx.sat_role_successor_all_concept_extension_data(linked, role, true), ext);
    assert_eq!(ctx.sat_role_successor_all_concept_extension_data(linked, role, false), ext);
    assert_eq!(ctx.sat_successor_all_concept_ext_datas.len(), 1);
    assert_eq!(ctx.sat_successor_concept_extension_maps.len(), 1);
}

#[test]
fn a_second_role_moves_both_extensions_into_the_hash() {
    let mut ctx = ProcessContext::new();
    let linked = ctx.alloc_sat_linked_succ_indi_all_concept_ext_data(
        SaturationLinkedSuccessorIndividualAllConceptsExtensionData::new(),
    );
    let r1: RoleId = Id::new(2);
    let r2: RoleId = Id::new(5);
    let e1 = ctx.sat_role_successor_all_concept_extension_data(linked, r1, true);
    let e2 = ctx.sat_role_successor_all_concept_extension_data(linked, r2, true);
    assert_ne!(e1, e2);
    let linked_data = ctx.sat_linked_succ_indi_all_concept_ext_data(linked);
    assert!(linked_data.only_role.is_none());
    assert!(linked_data.only_all_concept_ext_data.is_none());
    assert_eq!(linked_data.role_concept_extension_hash.get(&r1), Some(&e1));
    assert_eq!(linked_data.role_concept_extension_hash.get(&r2), Some(&e2));

    assert_eq!(ctx.sat_role_successor_all_concept_extension_data(linked, r1, false), e1);
    assert_eq!(ctx.sat_role_successor_all_concept_extension_data(linked, r2, true), e2);
    assert!(ctx.sat_role_successor_all_concept_extension_data(linked, Id::new(9), false).is_none());
    assert_eq!(ctx.sat_successor_all_concept_ext_datas.len(), 2);
}

#[test]
fn an_absent_linked_extension_gives_nothing() {
    let mut ctx = ProcessContext::new();
    assert!(ctx.sat_role_successor_all_concept_extension_data(Id::NONE, Id::new(1), true).is_none());
    assert_eq!(ctx.sat_successor_all_concept_ext_datas.len(), 0);
}

#[test]
fn linked_successor_extensions_are_made_once_per_successor() {
    let mut ctx = ProcessContext::new();
    let mut all = SaturationIndividualNodeAllConceptsExtensionData::new();
    all.init_all_concepts_extension_data(Id::new(1));
    let all_ext = ctx.alloc_sat_indi_node_all_concept_ext_data(all);
    let succ = Id::new(6);

    assert!(ctx.sat_all_linked_successor_individual_concepts_extension_data(all_ext, succ, false).is_none());
    assert_eq!(ctx.sat_linked_succ_indi_all_concept_ext_data_count(), 0);

    let linked = ctx.sat_all_linked_successor_individual_concepts_extension_data(all_ext, succ, true);
    assert!(linked.is_some());
    assert_eq!(ctx.sat_linked_succ_indi_all_concept_ext_data(linked).indi_proc_sat_node, succ);
    assert_eq!(ctx.sat_all_linked_successor_individual_concepts_extension_data(all_ext, succ, true), linked);
    assert_eq!(ctx.sat_all_linked_successor_individual_concepts_extension_data(all_ext, succ, false), linked);
    assert_eq!(ctx.sat_linked_succ_indi_all_concept_ext_data_count(), 1);

    let other = ctx.sat_all_linked_successor_individual_concepts_extension_data(all_ext, Id::new(7), true);
    assert_ne!(other, linked);
    assert_eq!(ctx.sat_linked_succ_indi_all_concept_ext_data_count(), 2);
    assert!(ctx.sat_all_linked_successor_individual_concepts_extension_data(Id::NONE, succ, true).is_none());
}
