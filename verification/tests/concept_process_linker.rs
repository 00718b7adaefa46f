use engine::concept_process_linker::{ConceptProcessLinker, ConceptProcessLinkerId};
use engine::ids::{ConDescId, RestrictionSpecId};

#[test]
fn concept_process_linker_init_sets_descriptor_restriction_and_clears_next() {
    let mut linker = ConceptProcessLinker::new();
    linker
        .set_next(ConceptProcessLinkerId::new(9))
        .init_concept_process_linker(ConDescId::new(3), RestrictionSpecId::new(4));

    assert_eq!(linker.get_concept_descriptor(), ConDescId::new(3));
    assert_eq!(linker.get_processing_restriction(), RestrictionSpecId::new(4));
    assert_eq!(linker.get_next(), ConceptProcessLinkerId::NONE);
}
