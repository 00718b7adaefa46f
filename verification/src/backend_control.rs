//! The controlling data of the backend neighbour expansion of a node: how
//! many neighbour links were expanded, which reuse mode is active and on which
//! dependency, and the individual lists of the last expansion rounds.

use vstd::prelude::*;
use crate::ids::{Id, Cint64, NodeId, DependencyId, TrackPointId};

verus! {

pub type BackendNeighbourExpansionControllingDataId = Id;

pub struct BackendNeighbourExpansionControllingData {
    pub expanded_neighbour_link_count: Cint64,
    pub reuse_modes_dep_node: DependencyId,
    pub fixed_reuse_expansion_mode: bool,
    pub prioritized_reuse_expansion_mode: bool,
    pub reuse_continuing_dependency_track_point: TrackPointId,
    pub last_backend_expanded_ensuring_existing_individual_links_linker: Vec<NodeId>,
    pub cut_backend_neighbour_expansion_individual_linker: Vec<NodeId>,
    pub last_cut_backend_neighbour_expansion_ensuring_existing_individual_links_linker: Vec<NodeId>,
}

impl BackendNeighbourExpansionControllingData {
    /// No expansion, no reuse mode, no dependency, empty lists.
    pub open spec fn is_initial(&self) -> bool {
        &&& self.expanded_neighbour_link_count == 0
        &&& self.reuse_modes_dep_node == Id::NONE
        &&& self.fixed_reuse_expansion_mode == false
        &&& self.prioritized_reuse_expansion_mode == false
        &&& self.reuse_continuing_dependency_track_point == Id::NONE
        &&& self.last_backend_expanded_ensuring_existing_individual_links_linker@.len() == 0
        &&& self.cut_backend_neighbour_expansion_individual_linker@.len() == 0
        &&& self.last_cut_backend_neighbour_expansion_ensuring_existing_individual_links_linker@.len() == 0
    }

    pub fn new() -> (r: Self)
        ensures
            r.is_initial(),
    {
        BackendNeighbourExpansionControllingData {
            expanded_neighbour_link_count: 0,
            reuse_modes_dep_node: Id::NONE,
            fixed_reuse_expansion_mode: false,
            prioritized_reuse_expansion_mode: false,
            reuse_continuing_dependency_track_point: Id::NONE,
            last_backend_expanded_ensuring_existing_individual_links_linker: Vec::new(),
            cut_backend_neighbour_expansion_individual_linker: Vec::new(),
            last_cut_backend_neighbour_expansion_ensuring_existing_individual_links_linker: Vec::new(),
        }
    }

    /// Takes every field of `cont_data`, or resets to the initial state.
    pub fn init_expansion_controlling_data(&mut self, cont_data: Option<&BackendNeighbourExpansionControllingData>) -> (r: &mut Self)
        ensures
            match cont_data {
                Some(c) => {
                    &&& r.expanded_neighbour_link_count == c.expanded_neighbour_link_count
                    &&& r.reuse_modes_dep_node == c.reuse_modes_dep_node
                    &&& r.fixed_reuse_expansion_mode == c.fixed_reuse_expansion_mode
                    &&& r.prioritized_reuse_expansion_mode == c.prioritized_reuse_expansion_mode
                    &&& r.reuse_continuing_dependency_track_point == c.reuse_continuing_dependency_track_point
                    &&& r.last_backend_expanded_ensuring_existing_individual_links_linker@ == c.last_backend_expanded_ensuring_existing_individual_links_linker@
                    &&& r.cut_backend_neighbour_expansion_individual_linker@ == c.cut_backend_neighbour_expansion_individual_linker@
                    &&& r.last_cut_backend_neighbour_expansion_ensuring_existing_individual_links_linker@ == c.last_cut_backend_neighbour_expansion_ensuring_existing_individual_links_linker@
                },
                None => r.is_initial(),
            },
            *final(self) == *final(r),
    {
        match cont_data {
            Some(c) => {
                self.expanded_neighbour_link_count = c.expanded_neighbour_link_count;
                self.reuse_modes_dep_node = c.reuse_modes_dep_node;
                self.fixed_reuse_expansion_mode = c.fixed_reuse_expansion_mode;
                self.prioritized_reuse_expansion_mode = c.prioritized_reuse_expansion_mode;
                self.reuse_continuing_dependency_track_point = c.reuse_continuing_dependency_track_point;
                self.last_backend_expanded_ensuring_existing_individual_links_linker = c.last_backend_expanded_ensuring_existing_individual_links_linker.clone();
                assert(self.last_backend_expanded_ensuring_existing_individual_links_linker@ =~= c.last_backend_expanded_ensuring_existing_individual_links_linker@);
                self.cut_backend_neighbour_expansion_individual_linker = c.cut_backend_neighbour_expansion_individual_linker.clone();
                assert(self.cut_backend_neighbour_expansion_individual_linker@ =~= c.cut_backend_neighbour_expansion_individual_linker@);
                self.last_cut_backend_neighbour_expansion_ensuring_existing_individual_links_linker = c.last_cut_backend_neighbour_expansion_ensuring_existing_individual_links_linker.clone();
                assert(self.last_cut_backend_neighbour_expansion_ensuring_existing_individual_links_linker@ =~= c.last_cut_backend_neighbour_expansion_ensuring_existing_individual_links_linker@);
            },
            None => {
                *self = Self::new();
            },
        }
        self
    }

    pub fn get_expanded_neighbour_link_count(&self) -> (r: Cint64)
        ensures
            r == self.expanded_neighbour_link_count,
    {
        self.expanded_neighbour_link_count
    }

    pub fn inc_expanded_neighbour_link_count(&mut self, count: Cint64) -> (r: &mut Self)
        requires
            i64::MIN <= old(self).expanded_neighbour_link_count + count <= i64::MAX,
        ensures
            *r == (BackendNeighbourExpansionControllingData { expanded_neighbour_link_count: (old(self).expanded_neighbour_link_count + count) as i64, ..*old(self) }),
            *final(self) == *final(r),
    {
        self.expanded_neighbour_link_count = self.expanded_neighbour_link_count + count;
        self
    }

    pub fn get_reuse_modes_dependency_node(&self) -> (r: DependencyId)
        ensures
            r == self.reuse_modes_dep_node,
    {
        self.reuse_modes_dep_node
    }

    pub fn set_reuse_modes_dependency_node(&mut self, dep_node: DependencyId) -> (r: &mut Self)
        ensures
            *r == (BackendNeighbourExpansionControllingData { reuse_modes_dep_node: dep_node, ..*old(self) }),
            *final(self) == *final(r),
    {
        self.reuse_modes_dep_node = dep_node;
        self
    }

    /// Whether a fixed or a prioritised reuse mode is active.
    pub fn has_expansion_reusing_mode(&self) -> (r: bool)
        ensures
            r == (self.fixed_reuse_expansion_mode || self.prioritized_reuse_expansion_mode),
    {
        self.is_fixed_reuse_expansion_mode() || self.is_prioritized_reuse_expansion_mode()
    }

    pub fn is_fixed_reuse_expansion_mode(&self) -> (r: bool)
        ensures
            r == self.fixed_reuse_expansion_mode,
    {
        self.fixed_reuse_expansion_mode
    }

    pub fn set_fixed_reuse_expansion_mode(&mut self, active: bool) -> (r: &mut Self)
        ensures
            *r == (BackendNeighbourExpansionControllingData { fixed_reuse_expansion_mode: active, ..*old(self) }),
            *final(self) == *final(r),
    {
        self.fixed_reuse_expansion_mode = active;
        self
    }

    pub fn is_prioritized_reuse_expansion_mode(&self) -> (r: bool)
        ensures
            r == self.prioritized_reuse_expansion_mode,
    {
        self.prioritized_reuse_expansion_mode
    }

    pub fn set_prioritized_reuse_expansion_mode(&mut self, active: bool) -> (r: &mut Self)
        ensures
            *r == (BackendNeighbourExpansionControllingData { prioritized_reuse_expansion_mode: active, ..*old(self) }),
            *final(self) == *final(r),
    {
        self.prioritized_reuse_expansion_mode = active;
        self
    }

    pub fn get_reuse_continuing_dependency_track_point(&self) -> (r: TrackPointId)
        ensures
            r == self.reuse_continuing_dependency_track_point,
    {
        self.reuse_continuing_dependency_track_point
    }

    pub fn set_reuse_continuing_dependency_track_point(&mut self, dep_track_point: TrackPointId) -> (r: &mut Self)
        ensures
            *r == (BackendNeighbourExpansionControllingData { reuse_continuing_dependency_track_point: dep_track_point, ..*old(self) }),
            *final(self) == *final(r),
    {
        self.reuse_continuing_dependency_track_point = dep_track_point;
        self
    }

    pub fn get_last_backend_expanded_ensuring_existing_individual_links_linker(&self) -> (r: &[NodeId])
        ensures
            r@ == self.last_backend_expanded_ensuring_existing_individual_links_linker@,
    {
        self.last_backend_expanded_ensuring_existing_individual_links_linker.as_slice()
    }

    pub fn set_last_backend_expanded_ensuring_existing_individual_links_linker(&mut self, indi_linker: Vec<NodeId>) -> (r: &mut Self)
        ensures
            *r == (BackendNeighbourExpansionControllingData { last_backend_expanded_ensuring_existing_individual_links_linker: indi_linker, ..*old(self) }),
            *final(self) == *final(r),
    {
        self.last_backend_expanded_ensuring_existing_individual_links_linker = indi_linker;
        self
    }

    pub fn get_cut_backend_neighbour_expansion_individual_linker(&self) -> (r: &[NodeId])
        ensures
            r@ == self.cut_backend_neighbour_expansion_individual_linker@,
    {
        self.cut_backend_neighbour_expansion_individual_linker.as_slice()
    }

    /// Puts a non-empty individual list in front of the cut individuals; an
    /// empty list changes nothing.
    pub fn add_cut_backend_neighbour_expansion_individual_linker(&mut self, indi_linker: Vec<NodeId>) -> (r: &mut Self)
        ensures
            r.cut_backend_neighbour_expansion_individual_linker@ == (if indi_linker@.len() == 0 {
                old(self).cut_backend_neighbour_expansion_individual_linker@
            } else {
                indi_linker@ + old(self).cut_backend_neighbour_expansion_individual_linker@
            }),
            r.expanded_neighbour_link_count == old(self).expanded_neighbour_link_count,
            r.reuse_modes_dep_node == old(self).reuse_modes_dep_node,
            r.fixed_reuse_expansion_mode == old(self).fixed_reuse_expansion_mode,
            r.prioritized_reuse_expansion_mode == old(self).prioritized_reuse_expansion_mode,
            r.reuse_continuing_dependency_track_point == old(self).reuse_continuing_dependency_track_point,
            r.last_backend_expanded_ensuring_existing_individual_links_linker == old(self).last_backend_expanded_ensuring_existing_individual_links_linker,
            r.last_cut_backend_neighbour_expansion_ensuring_existing_individual_links_linker == old(self).last_cut_backend_neighbour_expansion_ensuring_existing_individual_links_linker,
            *final(self) == *final(r),
    {
        if indi_linker.len() > 0 {
            let mut front = indi_linker;
            front.append(&mut self.cut_backend_neighbour_expansion_individual_linker);
            self.cut_backend_neighbour_expansion_individual_linker = front;
        }
        self
    }

    pub fn get_last_cut_backend_neighbour_expansion_ensuring_existing_individual_links_linker(&self) -> (r: &[NodeId])
        ensures
            r@ == self.last_cut_backend_neighbour_expansion_ensuring_existing_individual_links_linker@,
    {
        self.last_cut_backend_neighbour_expansion_ensuring_existing_individual_links_linker.as_slice()
    }

    pub fn set_last_cut_backend_neighbour_expansion_ensuring_existing_individual_links_linker(&mut self, indi_linker: Vec<NodeId>) -> (r: &mut Self)
        ensures
            *r == (BackendNeighbourExpansionControllingData { last_cut_backend_neighbour_expansion_ensuring_existing_individual_links_linker: indi_linker, ..*old(self) }),
            *final(self) == *final(r),
    {
        self.last_cut_backend_neighbour_expansion_ensuring_existing_individual_links_linker = indi_linker;
        self
    }

}

impl Default for BackendNeighbourExpansionControllingData {
    fn default() -> (r: Self)
        ensures
            r.is_initial(),
    {
        Self::new()
    }
}

} // verus!
