use engine::context::ProcessContext;
use engine::ids::{ConceptId, Id};
use engine::saturation_label::{
    ConceptSaturationDescriptor, ConceptSaturationDescriptorReapplyData,
    ImplicationReapplyConceptSaturationDescriptor, ReapplyConceptSaturationLabelSet,
    SaturationModifiedProcessUpdateLinker,
};

fn insert(ctx: &mut ProcessContext, label: Id, desc: Id, tag: i64) -> (bool, bool, Id) {
    let mut inserted = false;
    let mut waiting = Id::NONE;
    let clashed = ctx.reapply_con_sat_label_set_insert_concept_return_clashed(label, desc, tag, &mut inserted, &mut waiting);
    (clashed, inserted, waiting)
}

fn register(ctx: &mut ProcessContext, label: Id, tag: i64, wanted_negation: bool, imp: Id) -> (bool, Id) {
    let mut held = Id::NONE;
    let triggered = ctx.reapply_con_sat_label_set_insert_concept_reapplication_return_triggered(
        label, tag, wanted_negation, imp, &mut held);
    (triggered, held)
}

fn label_with_descriptors(ctx: &mut ProcessContext) -> (Id, Id, Id, Id) {
    let label = ctx.alloc_reapply_con_sat_label_set(ReapplyConceptSaturationLabelSet::new());
    let pos = ctx.alloc_con_sat_desc(ConceptSaturationDescriptor::new(ConceptId::new(3), false));
    let neg = ctx.alloc_con_sat_desc(ConceptSaturationDescriptor::new(ConceptId::new(3), true));
    let other = ctx.alloc_con_sat_desc(ConceptSaturationDescriptor::new(ConceptId::new(4), false));
    (label, pos, neg, other)
}

#[test]
fn inserting_a_new_concept_prepends_it_and_counts_it() {
    let mut ctx = ProcessContext::new();
    let (label, pos, _neg, other) = label_with_descriptors(&mut ctx);
    let (clashed, inserted, waiting) = insert(&mut ctx, label, pos, 3);
    assert!(!clashed);
    assert!(inserted);
    assert!(waiting.is_none());
    assert_eq!(ctx.reapply_con_sat_label_set(label).get_concept_count(), 1);
    assert_eq!(ctx.reapply_con_sat_label_set(label).get_total_count(), 1);
    assert_eq!(ctx.reapply_con_sat_label_set(label).get_concept_saturation_descriptor_linker(), pos);

    let (clashed, inserted, _) = insert(&mut ctx, label, other, 4);
    assert!(!clashed);
    assert!(inserted);
    assert_eq!(ctx.reapply_con_sat_label_set(label).get_concept_count(), 2);
    assert_eq!(ctx.reapply_con_sat_label_set(label).get_concept_saturation_descriptor_linker(), other);
    assert_eq!(ctx.con_sat_desc(other).get_next(), pos);
    assert!(ctx.con_sat_desc(pos).get_next().is_none());
}

#[test]
fn inserting_the_opposite_polarity_reports_a_clash_and_inserts_nothing() {
    let mut ctx = ProcessContext::new();
    let (label, pos, neg, _other) = label_with_descriptors(&mut ctx);
    insert(&mut ctx, label, pos, 3);
    let (clashed, inserted, _) = insert(&mut ctx, label, neg, 3);
    assert!(clashed);
    assert!(!inserted);
    assert_eq!(ctx.reapply_con_sat_label_set(label).get_concept_count(), 1);
    assert_eq!(ctx.reapply_con_sat_label_set(label).get_concept_saturation_descriptor_linker(), pos);
    assert!(ctx.con_sat_desc(neg).get_next().is_none());
}

#[test]
fn inserting_the_same_polarity_again_is_no_clash() {
    let mut ctx = ProcessContext::new();
    let (label, pos, _neg, _other) = label_with_descriptors(&mut ctx);
    let again = ctx.alloc_con_sat_desc(ConceptSaturationDescriptor::new(ConceptId::new(3), false));
    insert(&mut ctx, label, pos, 3);
    let (clashed, inserted, _) = insert(&mut ctx, label, again, 3);
    assert!(!clashed);
    assert!(!inserted);
    assert_eq!(ctx.reapply_con_sat_label_set(label).get_total_count(), 1);
}

#[test]
fn the_additional_map_answers_for_a_tag_the_label_does_not_record() {
    let mut ctx = ProcessContext::new();
    let (label, pos, neg, _other) = label_with_descriptors(&mut ctx);
    {
        let ls = ctx.reapply_con_sat_label_set_mut(label);
        ls.has_additional_concept_des_dep_hash = true;
        ls.additional_concept_des_dep_hash.insert(
            3,
            ConceptSaturationDescriptorReapplyData { con_sat_des: pos, imp_reapply_con_sat_des: Id::NONE },
        );
    }
    let (clashed, inserted, _) = insert(&mut ctx, label, neg, 3);
    assert!(clashed);
    assert!(!inserted);
    let entry = ctx.reapply_con_sat_label_set(label).lookup_entry(3);
    assert_eq!(entry.con_sat_des, pos);
    assert!(ctx.reapply_con_sat_label_set(label).concept_des_dep_hash.contains_key(&3));
    assert_eq!(ctx.reapply_con_sat_label_set(label).get_concept_count(), 0);
}

#[test]
fn waiting_implications_are_chained_and_triggered_by_the_wanted_polarity() {
    let mut ctx = ProcessContext::new();
    let (label, pos, _neg, _other) = label_with_descriptors(&mut ctx);
    let imp1 = ctx.alloc_imp_reapply_con_sat_desc(ImplicationReapplyConceptSaturationDescriptor::new());
    let imp2 = ctx.alloc_imp_reapply_con_sat_desc(ImplicationReapplyConceptSaturationDescriptor::new());

    let (triggered, held) = register(&mut ctx, label, 3, false, imp1);
    assert!(!triggered);
    assert!(held.is_none());
    assert_eq!(ctx.reapply_con_sat_label_set(label).get_total_count(), 1);

    let (triggered, _) = register(&mut ctx, label, 3, false, imp2);
    assert!(!triggered);
    assert_eq!(ctx.reapply_con_sat_label_set(label).get_total_count(), 1);
    assert_eq!(ctx.imp_reapply_con_sat_desc(imp2).get_next(), imp1);
    assert_eq!(ctx.reapply_con_sat_label_set(label).lookup_entry(3).imp_reapply_con_sat_des, imp2);

    let (clashed, inserted, waiting) = insert(&mut ctx, label, pos, 3);
    assert!(!clashed);
    assert!(inserted);
    assert_eq!(waiting, imp2);
    assert_eq!(ctx.reapply_con_sat_label_set(label).get_total_count(), 2);

    let imp3 = ctx.alloc_imp_reapply_con_sat_desc(ImplicationReapplyConceptSaturationDescriptor::new());
    let (triggered, held) = register(&mut ctx, label, 3, false, imp3);
    assert!(triggered);
    assert_eq!(held, pos);
    let (triggered, _) = register(&mut ctx, label, 3, true, Id::NONE);
    assert!(!triggered);
}

#[test]
fn adopting_saturation_state_swaps_only_the_saturation_arenas() {
    let mut kept = ProcessContext::new();
    let (label, _pos, _neg, _other) = label_with_descriptors(&mut kept);
    let mut fresh = ProcessContext::new();
    fresh.alloc_node(engine::models::IndividualProcessNode::default());
    fresh.adopt_saturation_state_from(&mut kept);
    assert_eq!(fresh.con_sat_desc_count(), 3);
    assert_eq!(fresh.reapply_con_sat_label_set_count(), 1);
    assert_eq!(kept.con_sat_desc_count(), 0);
    assert_eq!(kept.reapply_con_sat_label_set_count(), 0);
    assert_eq!(fresh.nodes.len(), 1);
    assert_eq!(kept.nodes.len(), 0);
    assert_eq!(fresh.reapply_con_sat_label_set(label).get_concept_count(), 0);
}

#[test]
fn closing_a_branch_epoch_rolls_back_saturation_labels() {
    let mut ctx = ProcessContext::new();
    let (label, pos, _neg, _other) = label_with_descriptors(&mut ctx);
    ctx.push_branch_epoch();
    insert(&mut ctx, label, pos, 3);
    assert_eq!(ctx.reapply_con_sat_label_set(label).get_concept_count(), 1);
    ctx.pop_branch_epoch();
    assert_eq!(ctx.reapply_con_sat_label_set(label).get_concept_count(), 0);
    assert!(ctx.reapply_con_sat_label_set(label).get_concept_saturation_descriptor_linker().is_none());
    assert!(!ctx.reapply_con_sat_label_set(label).concept_des_dep_hash.contains_key(&3));
}

#[test]
fn modified_update_linkers_are_put_in_front() {
    let mut ctx = ProcessContext::new();
    let label = ctx.alloc_reapply_con_sat_label_set(ReapplyConceptSaturationLabelSet::new());
    let l1 = ctx.alloc_sat_modified_process_update_linker(SaturationModifiedProcessUpdateLinker::new(Id::new(1)));
    let l2 = ctx.alloc_sat_modified_process_update_linker(SaturationModifiedProcessUpdateLinker::new(Id::new(2)));
    assert_eq!(ctx.reapply_con_sat_label_set_add_modified_update_linker(label, l1), label);
    assert_eq!(ctx.reapply_con_sat_label_set(label).get_modified_update_linker(), l1);
    ctx.reapply_con_sat_label_set_add_modified_update_linker(label, l2);
    assert_eq!(ctx.reapply_con_sat_label_set(label).get_modified_update_linker(), l2);
    assert_eq!(ctx.sat_modified_process_update_linker(l2).get_next(), l1);
    assert!(ctx.sat_modified_process_update_linker(l1).get_next().is_none());

    assert_eq!(ctx.reapply_con_sat_label_set_add_modified_update_linker(label, Id::NONE), label);
    assert_eq!(ctx.reapply_con_sat_label_set(label).get_modified_update_linker(), l2);
    assert!(ctx.reapply_con_sat_label_set_add_modified_update_linker(Id::NONE, l1).is_none());
}

#[test]
fn copying_a_label_flattens_the_larger_map_under_the_smaller_one() {
    let mut ctx = ProcessContext::new();
    let (source, pos, _neg, other) = label_with_descriptors(&mut ctx);
    let target = ctx.alloc_reapply_con_sat_label_set(ReapplyConceptSaturationLabelSet::new());
    let imp = ctx.alloc_imp_reapply_con_sat_desc(ImplicationReapplyConceptSaturationDescriptor::new());
    insert(&mut ctx, source, pos, 1);
    {
        let ls = ctx.reapply_con_sat_label_set_mut(source);
        ls.has_additional_concept_des_dep_hash = true;
        ls.additional_concept_des_dep_hash.insert(
            1,
            ConceptSaturationDescriptorReapplyData { con_sat_des: Id::NONE, imp_reapply_con_sat_des: imp },
        );
        ls.additional_concept_des_dep_hash.insert(
            2,
            ConceptSaturationDescriptorReapplyData { con_sat_des: other, imp_reapply_con_sat_des: Id::NONE },
        );
    }
    assert_eq!(ctx.copy_reapply_concept_saturation_label_set(target, source, true, 10), target);

    let src = ctx.reapply_con_sat_label_set(source);
    assert!(src.concept_des_dep_hash.is_empty());
    assert!(src.has_additional_concept_des_dep_hash);
    let merged = *src.additional_concept_des_dep_hash.get(&1).unwrap();
    assert_eq!(merged.con_sat_des, pos);
    assert_eq!(merged.imp_reapply_con_sat_des, imp);

    let tgt = ctx.reapply_con_sat_label_set(target);
    assert_eq!(tgt.get_concept_count(), 1);
    assert_eq!(tgt.get_total_count(), 1);
    assert_eq!(tgt.get_concept_saturation_descriptor_linker(), pos);
    assert_eq!(tgt.lookup_entry(1).con_sat_des, pos);
    assert_eq!(tgt.lookup_entry(1).imp_reapply_con_sat_des, imp);
    assert_eq!(tgt.lookup_entry(2).con_sat_des, other);
}

#[test]
fn copying_a_small_label_keeps_its_main_map() {
    let mut ctx = ProcessContext::new();
    let (source, pos, _neg, _other) = label_with_descriptors(&mut ctx);
    let target = ctx.alloc_reapply_con_sat_label_set(ReapplyConceptSaturationLabelSet::new());
    insert(&mut ctx, source, pos, 1);
    ctx.copy_reapply_concept_saturation_label_set(target, source, false, 10);
    assert!(!ctx.reapply_con_sat_label_set(source).has_additional_concept_des_dep_hash);
    assert!(ctx.reapply_con_sat_label_set(source).concept_des_dep_hash.contains_key(&1));
    assert!(ctx.reapply_con_sat_label_set(target).concept_des_dep_hash.contains_key(&1));
    assert!(!ctx.reapply_con_sat_label_set(target).has_additional_concept_des_dep_hash);

    ctx.copy_reapply_concept_saturation_label_set(target, source, false, 1);
    assert!(ctx.reapply_con_sat_label_set(source).has_additional_concept_des_dep_hash);
    assert!(ctx.reapply_con_sat_label_set(target).concept_des_dep_hash.is_empty());
    assert_eq!(ctx.reapply_con_sat_label_set(target).lookup_entry(1).con_sat_des, pos);
    assert_eq!(ctx.copy_reapply_concept_saturation_label_set(Id::NONE, source, true, 1), Id::NONE);
}
