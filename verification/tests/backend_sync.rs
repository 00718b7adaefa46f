use engine::backend_sync::IndividualNodeBackendCacheSynchronisationData;
use engine::context::ProcessContext;
use engine::ids::Id;
use engine::models::IndividualProcessNode;

#[test]
fn backend_sync_data_init_copies_konclude_state_fields() {
    let mut ctx = ProcessContext::new();
    let node = ctx.alloc_node(IndividualProcessNode::new(Id::NONE));
    let con_des = ctx.alloc_con_desc(Default::default());
    let edge = ctx.alloc_edge(Default::default());
    let mut data = IndividualNodeBackendCacheSynchronisationData::new();
    data.set_backend_cache_synchron(true)
        .set_critical_cardinality_expansion_blocking(true)
        .set_critical_cardinality_initially_checked(true)
        .set_last_critical_neighbour_expansion_tested_concept_descriptor(con_des)
        .set_last_critical_cardinality_link_edge(edge)
        .set_last_critical_neighbours_tested_merged_node_linker(vec![node]);

    let mut copied = IndividualNodeBackendCacheSynchronisationData::new();
    copied.init_synchronisation_data(Some(&data));

    assert!(copied.is_backend_cache_synchron());
    assert!(copied.is_critical_cardinality_expansion_blocking());
    assert!(copied.has_critical_cardinality_initially_checked());
    assert_eq!(copied.get_last_critical_neighbour_expansion_tested_concept_descriptor(), con_des);
    assert_eq!(copied.get_last_critical_cardinality_link_edge(), edge);
    assert_eq!(copied.get_last_critical_neighbours_tested_merged_node_linker(), &[node]);
}

#[test]
fn backend_sync_context_alloc_from_prev_preserves_previous_snapshot() {
    let mut ctx = ProcessContext::new();
    let mut data = IndividualNodeBackendCacheSynchronisationData::new();
    data.set_all_neighbour_forced_expansion(true)
        .set_reuse_non_deterministic_concepts_added(true);
    let prev = ctx.alloc_backend_sync_data(data);

    let localized = ctx.alloc_backend_sync_data_from_prev(prev);

    assert!(ctx.backend_sync_data(localized).has_all_neighbour_forced_expansion());
    assert!(ctx.backend_sync_data(localized).has_reuse_non_deterministic_concepts_added());
    assert_ne!(prev, localized);
}
