//! Arena handles and the scalar types shared by every module.

use vstd::prelude::*;

verus! {

/// The 64-bit signed integer the reasoner uses for tags, counters and
/// individual identifiers.
pub type Cint64 = i64;

/// The value that stands for an absent handle or an unset scalar slot.
pub const INVALID: i64 = -1;

/// A handle into one of the arenas of the process context: either absent
/// (`NONE`) or the index of an element.
#[allow(non_camel_case_types)]
#[derive(Clone, Copy, PartialEq, Eq, Structural, Debug, Hash)]
pub enum Id {
    NONE,
    At(usize),
}

impl Id {
    /// A handle for the element at `raw`.
    pub fn new(raw: usize) -> (r: Id)
        ensures
            r == Id::At(raw),
    {
        Id::At(raw)
    }

    /// Whether the handle names an element.
    pub open spec fn spec_is_some(&self) -> bool {
        self is At
    }

    /// The element index named by a present handle.
    pub open spec fn index(self) -> int {
        match self {
            Id::At(i) => i as int,
            Id::NONE => -1,
        }
    }

    /// Whether the handle names an element.
    #[verifier::when_used_as_spec(spec_is_some)]
    pub fn is_some(&self) -> (r: bool)
        ensures
            r == self.spec_is_some(),
    {
        match self {
            Id::At(_) => true,
            Id::NONE => false,
        }
    }

    /// Whether the handle is absent.
    pub fn is_none(&self) -> (r: bool)
        ensures
            r == (*self == Id::NONE),
    {
        match self {
            Id::At(_) => false,
            Id::NONE => true,
        }
    }

    /// The element index of a present handle.
    pub fn raw(&self) -> (r: usize)
        requires
            self.spec_is_some(),
        ensures
            r as int == self.index(),
    {
        match self {
            Id::At(i) => *i,
            Id::NONE => 0,
        }
    }
}

/// Whether `id` names an element of an arena holding `len` elements.
pub open spec fn valid_in(id: Id, len: nat) -> bool {
    id is At && id.index() < len
}

pub type NodeId = Id;
pub type EdgeId = Id;
pub type ConDescId = Id;
pub type ConceptId = Id;
pub type RoleId = Id;
pub type TrackPointId = Id;
pub type DependencyId = Id;
pub type ClashDescId = Id;
pub type RestrictionSpecId = Id;
pub type BranchNodeId = Id;
pub type BranchInstrId = Id;
pub type ConProcDescId = Id;
pub type SatNodeId = Id;
pub type CandidateLinkerId = Id;
pub type ProcessContextId = Id;
pub type IndividualAssociationDataId = Id;
pub type VarBindingPathSetId = Id;
pub type VarBindingPathDescriptorId = Id;
pub type PropagationBindingSetId = Id;
pub type PropagationBindingDescriptorId = Id;
pub type CondensedReapplyConceptDescriptorId = Id;
pub type CoreConceptDescriptorId = Id;

} // verus!
