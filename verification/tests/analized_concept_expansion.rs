use engine::analized_concept_expansion::{
    AnalizedConceptExpansionLinker, AnalizedConceptExpansionLinkerId, IndividualNodeAnalizedConceptExpansionData,
};
use engine::context::ProcessContext;
use engine::ids::ConDescId;

#[test]
fn init_blocking_exploration_data_copies_previous_or_nulls() {
    let mut prev = IndividualNodeAnalizedConceptExpansionData::new();
    let rev_linker = AnalizedConceptExpansionLinkerId::new(3);
    let last_con = ConDescId::new(11);
    prev.rev_ana_con_exp_linker = rev_linker;
    prev.set_last_concept_descriptor(last_con)
        .set_last_concept_count(7)
        .set_last_concept_signature(13)
        .set_minimal_valid_concept_count_limit(5)
        .set_invalid_blocker(true)
        .set_analysed_non_deterministic_concept_expansion_linker(vec![ConDescId::new(17)]);
    prev.exp_count = 19;

    let mut data = IndividualNodeAnalizedConceptExpansionData::new();
    data.init_blocking_exploration_data(Some(&prev));
    assert_eq!(data.get_reverse_analized_concept_expansion_linker(), rev_linker);
    assert_eq!(data.get_last_concept_descriptor(), last_con);
    assert_eq!(data.get_last_concept_count(), 7);
    assert_eq!(data.get_last_concept_signature(), 13);
    assert_eq!(data.get_minimal_valid_concept_count_limit(), 5);
    assert_eq!(data.get_expansion_concept_count(), 19);
    assert!(data.is_invalid_blocker());
    assert_eq!(data.get_analysed_non_deterministic_concept_expansion_linker(), &[ConDescId::new(17)]);

    data.init_blocking_exploration_data(None);
    assert!(data.get_reverse_analized_concept_expansion_linker().is_none());
    assert!(data.get_last_concept_descriptor().is_none());
    assert_eq!(data.get_last_concept_count(), 0);
    assert_eq!(data.get_expansion_concept_count(), 0);
    assert!(!data.is_invalid_blocker());
    assert!(data.get_analysed_non_deterministic_concept_expansion_linker().is_empty());
}

#[test]
fn add_analized_concept_expansion_linker_prepends_chain_and_counts_it() {
    let mut ctx = ProcessContext::new();
    let mut first = AnalizedConceptExpansionLinker::new();
    first.init_analized_concept_expansion(vec![ConDescId::new(1)], ConDescId::new(10));
    let first = ctx.alloc_analized_con_exp_linker(first);
    let mut second = AnalizedConceptExpansionLinker::new();
    second.init_analized_concept_expansion(vec![ConDescId::new(2)], ConDescId::new(20));
    let second = ctx.alloc_analized_con_exp_linker(second);
    ctx.analized_con_exp_linker_mut(first).set_next(second);

    let old = ctx.alloc_analized_con_exp_linker(AnalizedConceptExpansionLinker::new());
    let mut data = IndividualNodeAnalizedConceptExpansionData::new();
    data.add_analized_concept_expansion_linker(&mut ctx, old);
    data.add_analized_concept_expansion_linker(&mut ctx, first);

    assert_eq!(data.get_expansion_concept_count(), 3);
    assert_eq!(data.get_reverse_analized_concept_expansion_linker(), first);
    assert_eq!(ctx.analized_con_exp_linker(first).get_next(), second);
    assert_eq!(ctx.analized_con_exp_linker(second).get_next(), old);
}
