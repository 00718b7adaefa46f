//! A linker of the concept processing queue: a concept descriptor to process
//! together with the processing restriction that applies to it.

use vstd::prelude::*;
use crate::ids::{Id, ConDescId, RestrictionSpecId};

verus! {

pub type ConceptProcessLinkerId = Id;

#[derive(Clone, Copy, PartialEq, Eq, Structural, Debug)]
pub struct ConceptProcessLinker {
    pub concept_descriptor: ConDescId,
    pub processing_restriction: RestrictionSpecId,
    pub next: ConceptProcessLinkerId,
}

impl ConceptProcessLinker {
    pub open spec fn spec_new() -> Self {
        ConceptProcessLinker { concept_descriptor: Id::NONE, processing_restriction: Id::NONE, next: Id::NONE }
    }

    pub fn new() -> (r: Self)
        ensures
            r == Self::spec_new(),
    {
        ConceptProcessLinker { concept_descriptor: Id::NONE, processing_restriction: Id::NONE, next: Id::NONE }
    }

    /// Sets the descriptor and the restriction and unlinks the linker.
    pub fn init_concept_process_linker(
        &mut self,
        concept_descriptor: ConDescId,
        processing_restriction: RestrictionSpecId,
    ) -> (r: &mut Self)
        ensures
            *r == (ConceptProcessLinker { concept_descriptor, processing_restriction, next: Id::NONE }),
            *final(self) == *final(r),
    {
        self.concept_descriptor = concept_descriptor;
        self.processing_restriction = processing_restriction;
        self.next = Id::NONE;
        self
    }

    pub fn get_concept_descriptor(&self) -> (r: ConDescId)
        ensures
            r == self.concept_descriptor,
    {
        self.concept_descriptor
    }

    pub fn get_processing_restriction(&self) -> (r: RestrictionSpecId)
        ensures
            r == self.processing_restriction,
    {
        self.processing_restriction
    }

    pub fn get_next(&self) -> (r: ConceptProcessLinkerId)
        ensures
            r == self.next,
    {
        self.next
    }

    pub fn clear_next(&mut self) -> (r: &mut Self)
        ensures
            *r == (ConceptProcessLinker { next: Id::NONE, ..*old(self) }),
            *final(self) == *final(r),
    {
        self.next = Id::NONE;
        self
    }

    pub fn set_next(&mut self, next: ConceptProcessLinkerId) -> (r: &mut Self)
        ensures
            *r == (ConceptProcessLinker { next, ..*old(self) }),
            *final(self) == *final(r),
    {
        self.next = next;
        self
    }
}

impl Default for ConceptProcessLinker {
    fn default() -> (r: Self)
        ensures
            r == Self::spec_new(),
    {
        Self::new()
    }
}

} // verus!
