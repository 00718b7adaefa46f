//! The universal-restriction extensions that a saturation node propagates
//! to its successors: one extension per role, kept for a single role inline
//! and moved into a hash by role as soon as a second role needs one.

use vstd::prelude::*;
use crate::ids::{Id, RoleId, SatNodeId};
use crate::collections::{IntMap, IdMap};

verus! {

/// The concept extensions that a saturation node propagates to one kind of
/// successor, by concept tag.
pub struct SaturationSuccessorConceptExtensionMap {
    pub extensions: IntMap<Id>,
}

impl SaturationSuccessorConceptExtensionMap {
    pub fn new() -> (r: Self)
        ensures
            r.extensions@ == Map::<i64, Id>::empty(),
            r.extensions.entries@.len() == 0,
    {
        SaturationSuccessorConceptExtensionMap { extensions: IntMap::new() }
    }
}

/// The extension of a saturation node for the successors over one role.
#[derive(Clone, Copy, PartialEq, Eq, Structural, Debug)]
pub struct SaturationSuccessorAllConceptExtensionData {
    pub role: RoleId,
    pub indi_proc_sat_node: SatNodeId,
    /// The concept extension map of this role.
    pub concept_extension_map: Id,
}

impl SaturationSuccessorAllConceptExtensionData {
    pub fn new() -> (r: Self)
        ensures
            r == (SaturationSuccessorAllConceptExtensionData {
                role: Id::NONE,
                indi_proc_sat_node: Id::NONE,
                concept_extension_map: Id::NONE,
            }),
    {
        SaturationSuccessorAllConceptExtensionData {
            role: Id::NONE,
            indi_proc_sat_node: Id::NONE,
            concept_extension_map: Id::NONE,
        }
    }

    /// Sets the role, the node and the concept extension map.
    pub fn init_successor_concept_extension_data(&mut self, role: RoleId, node: SatNodeId, map: Id) -> (r: &mut Self)
        ensures
            *r == (SaturationSuccessorAllConceptExtensionData {
                role,
                indi_proc_sat_node: node,
                concept_extension_map: map,
            }),
            *final(self) == *final(r),
    {
        self.role = role;
        self.indi_proc_sat_node = node;
        self.concept_extension_map = map;
        self
    }
}

/// The universal-restriction extensions of a saturation node, by the
/// successor node they are linked to.
pub struct SaturationIndividualNodeAllConceptsExtensionData {
    pub indi_process_node: SatNodeId,
    pub linked_successor_individual_all_concepts_extension_hash: IdMap<Id>,
}

impl SaturationIndividualNodeAllConceptsExtensionData {
    pub fn new() -> (r: Self)
        ensures
            r.indi_process_node is NONE,
            r.linked_successor_individual_all_concepts_extension_hash@ == Map::<Id, Id>::empty(),
    {
        SaturationIndividualNodeAllConceptsExtensionData {
            indi_process_node: Id::NONE,
            linked_successor_individual_all_concepts_extension_hash: IdMap::new(),
        }
    }

    /// Sets the node the extensions belong to.
    pub fn init_all_concepts_extension_data(&mut self, node: SatNodeId) -> (r: &mut Self)
        ensures
            r.indi_process_node == node,
            r.linked_successor_individual_all_concepts_extension_hash
                == old(self).linked_successor_individual_all_concepts_extension_hash,
            *final(self) == *final(r),
    {
        self.indi_process_node = node;
        self
    }

    /// Records `data` as the extensions linked to the successor `node`.
    pub fn insert_linked_extension(&mut self, node: SatNodeId, data: Id)
        ensures
            final(self).linked_successor_individual_all_concepts_extension_hash@
                == old(self).linked_successor_individual_all_concepts_extension_hash@.insert(node, data),
            final(self).indi_process_node == old(self).indi_process_node,
    {
        self.linked_successor_individual_all_concepts_extension_hash.insert(node, data);
    }
}

/// The extensions of a saturation node for its successors, by role: the
/// extension of a single role is held inline; once a second role needs one,
/// every extension is held in the hash.
pub struct SaturationLinkedSuccessorIndividualAllConceptsExtensionData {
    pub indi_proc_sat_node: SatNodeId,
    pub only_role: RoleId,
    pub only_all_concept_ext_data: Id,
    pub role_concept_extension_hash: IdMap<Id>,
}

impl SaturationLinkedSuccessorIndividualAllConceptsExtensionData {
    /// No node, no extension.
    pub open spec fn is_fresh_for(&self, node: SatNodeId) -> bool {
        &&& self.indi_proc_sat_node == node
        &&& self.only_role is NONE
        &&& self.only_all_concept_ext_data is NONE
        &&& self.role_concept_extension_hash@ == Map::<Id, Id>::empty()
    }

    pub fn new() -> (r: Self)
        ensures
            r.is_fresh_for(Id::NONE),
    {
        SaturationLinkedSuccessorIndividualAllConceptsExtensionData {
            indi_proc_sat_node: Id::NONE,
            only_role: Id::NONE,
            only_all_concept_ext_data: Id::NONE,
            role_concept_extension_hash: IdMap::new(),
        }
    }

    /// Sets the successor node the extensions are for.
    pub fn init_linked_successor_individual_all_concepts_extension_data(&mut self, node: SatNodeId) -> (r: &mut Self)
        ensures
            r.indi_proc_sat_node == node,
            r.only_role == old(self).only_role,
            r.only_all_concept_ext_data == old(self).only_all_concept_ext_data,
            r.role_concept_extension_hash == old(self).role_concept_extension_hash,
            *final(self) == *final(r),
    {
        self.indi_proc_sat_node = node;
        self
    }

    /// Whether a role other than `role` holds the inline extension: it has
    /// to move to the hash before `role` can get one.
    pub open spec fn other_role_inline(&self, role: RoleId) -> bool {
        self.only_role is At && self.only_role != role
    }

    /// The hash after the inline extension of another role moved into it.
    pub open spec fn hash_after_release(&self, role: RoleId) -> Map<Id, Id> {
        if self.other_role_inline(role) && self.only_all_concept_ext_data is At {
            self.role_concept_extension_hash@.insert(self.only_role, self.only_all_concept_ext_data)
        } else {
            self.role_concept_extension_hash@
        }
    }

    /// The extension for `role` without creating one: from the hash when it
    /// holds any extension, else the inline one when it is for `role`.
    pub open spec fn lookup(&self, role: RoleId) -> Id {
        if !(self.role_concept_extension_hash@.dom() =~= Set::<Id>::empty()) {
            if self.role_concept_extension_hash@.contains_key(role) {
                self.role_concept_extension_hash@[role]
            } else {
                Id::NONE
            }
        } else if self.only_role == role {
            self.only_all_concept_ext_data
        } else {
            Id::NONE
        }
    }

    /// Moves the inline extension of a role other than `role` into the
    /// hash and clears the inline slot.
    pub fn release_only_role(&mut self, role: RoleId)
        ensures
            final(self).role_concept_extension_hash@ == old(self).hash_after_release(role),
            final(self).only_role == (if old(self).other_role_inline(role) { Id::NONE } else { old(self).only_role }),
            final(self).only_all_concept_ext_data == (if old(self).other_role_inline(role) {
                Id::NONE
            } else {
                old(self).only_all_concept_ext_data
            }),
            final(self).indi_proc_sat_node == old(self).indi_proc_sat_node,
    {
        if self.only_role.is_some() && self.only_role != role {
            if self.only_all_concept_ext_data.is_some() {
                self.role_concept_extension_hash.insert(self.only_role, self.only_all_concept_ext_data);
            }
            self.only_role = Id::NONE;
            self.only_all_concept_ext_data = Id::NONE;
        }
    }

    /// Records `data` as the extension of `role` in the hash.
    pub fn insert_role_extension(&mut self, role: RoleId, data: Id)
        ensures
            final(self).role_concept_extension_hash@ == old(self).role_concept_extension_hash@.insert(role, data),
            final(self).only_role == old(self).only_role,
            final(self).only_all_concept_ext_data == old(self).only_all_concept_ext_data,
            final(self).indi_proc_sat_node == old(self).indi_proc_sat_node,
    {
        self.role_concept_extension_hash.insert(role, data);
    }

    /// Holds `data` inline as the extension of `role`.
    pub fn set_only_role_extension(&mut self, role: RoleId, data: Id)
        ensures
            final(self).role_concept_extension_hash@ == old(self).role_concept_extension_hash@,
            final(self).only_role == role,
            final(self).only_all_concept_ext_data == data,
            final(self).indi_proc_sat_node == old(self).indi_proc_sat_node,
    {
        self.only_role = role;
        self.only_all_concept_ext_data = data;
    }
}

} // verus!
