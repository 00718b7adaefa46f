//! Backward propagation along the links of the completion graph: for each
//! role, the links over which concepts are propagated back to a node and the
//! concept descriptors waiting to be propagated over them.

use vstd::prelude::*;
use crate::ids::{Id, Cint64, NodeId};
use crate::collections::IdMap;

verus! {

/// A link over which concepts are propagated back, on the chain of links of
/// one role.
#[derive(Clone, Copy, PartialEq, Eq, Structural, Debug)]
pub struct BackwardPropagationLink {
    /// The individual the propagation comes from.
    pub source_individual: NodeId,
    pub next: Id,
}

impl BackwardPropagationLink {
    pub fn new(source_individual: NodeId) -> (r: Self)
        ensures
            r == (BackwardPropagationLink { source_individual, next: Id::NONE }),
    {
        BackwardPropagationLink { source_individual, next: Id::NONE }
    }

    pub fn get_source_individual(&self) -> (r: NodeId)
        ensures
            r == self.source_individual,
    {
        self.source_individual
    }

    pub fn get_next(&self) -> (r: Id)
        ensures
            r == self.next,
    {
        self.next
    }

    pub fn set_next(&mut self, next: Id) -> (r: &mut Self)
        ensures
            *r == (BackwardPropagationLink { next, ..*old(self) }),
            *final(self) == *final(r),
    {
        self.next = next;
        self
    }
}

/// A concept descriptor waiting to be propagated back, on the chain of
/// descriptors of one role.
#[derive(Clone, Copy, PartialEq, Eq, Structural, Debug)]
pub struct BackwardPropagationReapplyDescriptor {
    pub next: Id,
}

impl BackwardPropagationReapplyDescriptor {
    pub fn new() -> (r: Self)
        ensures
            r.next is NONE,
    {
        BackwardPropagationReapplyDescriptor { next: Id::NONE }
    }

    pub fn get_next(&self) -> (r: Id)
        ensures
            r == self.next,
    {
        self.next
    }

    pub fn set_next(&mut self, next: Id) -> (r: &mut Self)
        ensures
            r.next == next,
            *final(self) == *final(r),
    {
        self.next = next;
        self
    }
}

/// The two chains of one role: the links, and the descriptors waiting.
#[derive(Clone, Copy, PartialEq, Eq, Structural, Debug)]
pub struct RoleBackwardPropagationHashData {
    pub link_linker: Id,
    pub reapply_linker: Id,
}

impl RoleBackwardPropagationHashData {
    pub fn new() -> (r: Self)
        ensures
            r.link_linker is NONE,
            r.reapply_linker is NONE,
    {
        RoleBackwardPropagationHashData { link_linker: Id::NONE, reapply_linker: Id::NONE }
    }
}

/// The backward propagations of a node, by role.
pub struct RoleBackwardPropagationHash {
    pub context: Cint64,
    pub role_back_prop_data_hash: IdMap<RoleBackwardPropagationHashData>,
}

impl RoleBackwardPropagationHash {
    pub fn new(context: Cint64) -> (r: Self)
        ensures
            r.context == context,
            r.role_back_prop_data_hash@ == Map::<Id, RoleBackwardPropagationHashData>::empty(),
    {
        RoleBackwardPropagationHash { context, role_back_prop_data_hash: IdMap::new() }
    }

    /// The chains of `role`; both empty when the role has none.
    pub open spec fn data_of(&self, role: Id) -> RoleBackwardPropagationHashData {
        if self.role_back_prop_data_hash@.contains_key(role) {
            self.role_back_prop_data_hash@[role]
        } else {
            RoleBackwardPropagationHashData { link_linker: Id::NONE, reapply_linker: Id::NONE }
        }
    }

    /// The chains of `role`.
    pub fn get_data(&self, role: Id) -> (r: RoleBackwardPropagationHashData)
        ensures
            r == self.data_of(role),
    {
        match self.role_back_prop_data_hash.get(&role) {
            Some(d) => *d,
            None => RoleBackwardPropagationHashData::new(),
        }
    }

    /// Records `data` as the chains of `role`.
    pub fn set_data(&mut self, role: Id, data: RoleBackwardPropagationHashData)
        ensures
            final(self).role_back_prop_data_hash@ == old(self).role_back_prop_data_hash@.insert(role, data),
            final(self).context == old(self).context,
    {
        self.role_back_prop_data_hash.insert(role, data);
    }
}

} // verus!
