//! The backend-cache synchronisation state of an individual node: which
//! synchronisation and expansion steps are done, blocked or scheduled, the
//! merged individuals already handled, the last descriptors and links
//! tested, and the neighbour-expansion counters.

use vstd::prelude::*;
use crate::ids::{Id, Cint64, INVALID, NodeId, ConDescId, EdgeId, TrackPointId, IndividualAssociationDataId};
use crate::collections::{IntMap, nested_entries_eq};

verus! {

pub type BackendSyncDataId = Id;

pub struct IndividualNodeBackendCacheSynchronisationData {
    pub association_data: IndividualAssociationDataId,
    pub backend_cache_synchron: bool,
    pub backend_concept_set_initialized: bool,
    pub backend_concept_set_initialization_required: bool,
    pub backend_concept_set_initialization_queued: bool,
    pub backend_concept_set_initialization_delaying_registered: bool,
    pub non_concept_set_backend_label_related_processing: bool,
    pub non_concept_set_backend_neighbour_label_related_processing: bool,
    pub critical_cardinality_expansion_blocking: bool,
    pub critical_cardinality_initially_checked: bool,
    pub critical_neighbour_expansion_blocking: bool,
    pub critical_indirect_connection_individual_expansion_blocking: bool,
    pub all_neighbour_expansion: bool,
    pub all_neighbour_expansion_scheduled: bool,
    pub all_neighbour_forced_expansion: bool,
    pub all_neighbour_forced_expansion_scheduled: bool,
    pub neighbour_label_representative_expansion: bool,
    pub nominal_indirect_connection_individual_expanded: bool,
    pub merged_indirectly_connected_nominal_individuals: bool,
    pub reuse_non_deterministic_same_individual_merged: bool,
    pub reuse_non_deterministic_concepts_added: bool,
    pub reuse_non_deterministic_different_individual_stated: bool,
    pub non_deterministically_merged_individuals: bool,
    pub scheduled_individual: NodeId,
    pub backend_expansion_reuse_dependency_track_point: TrackPointId,
    pub merged_individual_node_linker: Vec<NodeId>,
    pub last_synchronized_concepts_tested_merged_node_linker: Vec<NodeId>,
    pub last_critical_neighbours_tested_merged_node_linker: Vec<NodeId>,
    pub last_direct_expansion_handled_merged_node_linker: Vec<NodeId>,
    pub last_inferring_expansion_handled_merged_node_linker: Vec<NodeId>,
    pub last_indirectly_connected_nominal_individuals_tested_merged_node_linker: Vec<NodeId>,
    pub last_indirectly_connected_nominal_individuals_handled_merged_node_linker: Vec<NodeId>,
    pub last_synched_concept_descriptor: ConDescId,
    pub last_synchronization_tested_concept_descriptor: ConDescId,
    pub last_critical_neighbour_expansion_tested_concept_descriptor: ConDescId,
    pub last_indirect_connected_individual_expansion_tested_concept_descriptor: ConDescId,
    pub last_critical_cardinality_link_edge: EdgeId,
    pub last_indirect_connected_individual_expansion_tested_link_edge: EdgeId,
    pub concept_set_label_processed_node_linker: Vec<NodeId>,
    pub neighbour_label_representative_expansion_linker: Vec<Cint64>,
    pub backend_neighbour_expansion_queue: Cint64,
    pub neighbour_expansion_data_hash: IntMap<i64>,
    pub neighbour_label_expansion_data_hash: IntMap<IntMap<i64>>,
    pub role_neighbour_expansion_data_hash: IntMap<i64>,
    pub role_representative_neighbour_count_hash: IntMap<i64>,
}

impl IndividualNodeBackendCacheSynchronisationData {
    /// Nothing synchronised, scheduled or recorded yet.
    pub open spec fn is_initial(&self) -> bool {
        &&& self.association_data == Id::NONE
        &&& self.backend_cache_synchron == false
        &&& self.backend_concept_set_initialized == false
        &&& self.backend_concept_set_initialization_required == false
        &&& self.backend_concept_set_initialization_queued == false
        &&& self.backend_concept_set_initialization_delaying_registered == false
        &&& self.non_concept_set_backend_label_related_processing == false
        &&& self.non_concept_set_backend_neighbour_label_related_processing == false
        &&& self.critical_cardinality_expansion_blocking == false
        &&& self.critical_cardinality_initially_checked == false
        &&& self.critical_neighbour_expansion_blocking == false
        &&& self.critical_indirect_connection_individual_expansion_blocking == false
        &&& self.all_neighbour_expansion == false
        &&& self.all_neighbour_expansion_scheduled == false
        &&& self.all_neighbour_forced_expansion == false
        &&& self.all_neighbour_forced_expansion_scheduled == false
        &&& self.neighbour_label_representative_expansion == false
        &&& self.nominal_indirect_connection_individual_expanded == false
        &&& self.merged_indirectly_connected_nominal_individuals == false
        &&& self.reuse_non_deterministic_same_individual_merged == false
        &&& self.reuse_non_deterministic_concepts_added == false
        &&& self.reuse_non_deterministic_different_individual_stated == false
        &&& self.non_deterministically_merged_individuals == false
        &&& self.scheduled_individual == Id::NONE
        &&& self.backend_expansion_reuse_dependency_track_point == Id::NONE
        &&& self.merged_individual_node_linker@.len() == 0
        &&& self.last_synchronized_concepts_tested_merged_node_linker@.len() == 0
        &&& self.last_critical_neighbours_tested_merged_node_linker@.len() == 0
        &&& self.last_direct_expansion_handled_merged_node_linker@.len() == 0
        &&& self.last_inferring_expansion_handled_merged_node_linker@.len() == 0
        &&& self.last_indirectly_connected_nominal_individuals_tested_merged_node_linker@.len() == 0
        &&& self.last_indirectly_connected_nominal_individuals_handled_merged_node_linker@.len() == 0
        &&& self.last_synched_concept_descriptor == Id::NONE
        &&& self.last_synchronization_tested_concept_descriptor == Id::NONE
        &&& self.last_critical_neighbour_expansion_tested_concept_descriptor == Id::NONE
        &&& self.last_indirect_connected_individual_expansion_tested_concept_descriptor == Id::NONE
        &&& self.last_critical_cardinality_link_edge == Id::NONE
        &&& self.last_indirect_connected_individual_expansion_tested_link_edge == Id::NONE
        &&& self.concept_set_label_processed_node_linker@.len() == 0
        &&& self.neighbour_label_representative_expansion_linker@.len() == 0
        &&& self.backend_neighbour_expansion_queue == INVALID
        &&& self.neighbour_expansion_data_hash.entries@.len() == 0
        &&& self.neighbour_label_expansion_data_hash.entries@.len() == 0
        &&& self.role_neighbour_expansion_data_hash.entries@.len() == 0
        &&& self.role_representative_neighbour_count_hash.entries@.len() == 0
    }

    /// `self` holds the same state as `other`.
    pub open spec fn same_state(&self, other: &Self) -> bool {
        &&& self.association_data == other.association_data
        &&& self.backend_cache_synchron == other.backend_cache_synchron
        &&& self.backend_concept_set_initialized == other.backend_concept_set_initialized
        &&& self.backend_concept_set_initialization_required == other.backend_concept_set_initialization_required
        &&& self.backend_concept_set_initialization_queued == other.backend_concept_set_initialization_queued
        &&& self.backend_concept_set_initialization_delaying_registered == other.backend_concept_set_initialization_delaying_registered
        &&& self.non_concept_set_backend_label_related_processing == other.non_concept_set_backend_label_related_processing
        &&& self.non_concept_set_backend_neighbour_label_related_processing == other.non_concept_set_backend_neighbour_label_related_processing
        &&& self.critical_cardinality_expansion_blocking == other.critical_cardinality_expansion_blocking
        &&& self.critical_cardinality_initially_checked == other.critical_cardinality_initially_checked
        &&& self.critical_neighbour_expansion_blocking == other.critical_neighbour_expansion_blocking
        &&& self.critical_indirect_connection_individual_expansion_blocking == other.critical_indirect_connection_individual_expansion_blocking
        &&& self.all_neighbour_expansion == other.all_neighbour_expansion
        &&& self.all_neighbour_expansion_scheduled == other.all_neighbour_expansion_scheduled
        &&& self.all_neighbour_forced_expansion == other.all_neighbour_forced_expansion
        &&& self.all_neighbour_forced_expansion_scheduled == other.all_neighbour_forced_expansion_scheduled
        &&& self.neighbour_label_representative_expansion == other.neighbour_label_representative_expansion
        &&& self.nominal_indirect_connection_individual_expanded == other.nominal_indirect_connection_individual_expanded
        &&& self.merged_indirectly_connected_nominal_individuals == other.merged_indirectly_connected_nominal_individuals
        &&& self.reuse_non_deterministic_same_individual_merged == other.reuse_non_deterministic_same_individual_merged
        &&& self.reuse_non_deterministic_concepts_added == other.reuse_non_deterministic_concepts_added
        &&& self.reuse_non_deterministic_different_individual_stated == other.reuse_non_deterministic_different_individual_stated
        &&& self.non_deterministically_merged_individuals == other.non_deterministically_merged_individuals
        &&& self.scheduled_individual == other.scheduled_individual
        &&& self.backend_expansion_reuse_dependency_track_point == other.backend_expansion_reuse_dependency_track_point
        &&& self.merged_individual_node_linker@ == other.merged_individual_node_linker@
        &&& self.last_synchronized_concepts_tested_merged_node_linker@ == other.last_synchronized_concepts_tested_merged_node_linker@
        &&& self.last_critical_neighbours_tested_merged_node_linker@ == other.last_critical_neighbours_tested_merged_node_linker@
        &&& self.last_direct_expansion_handled_merged_node_linker@ == other.last_direct_expansion_handled_merged_node_linker@
        &&& self.last_inferring_expansion_handled_merged_node_linker@ == other.last_inferring_expansion_handled_merged_node_linker@
        &&& self.last_indirectly_connected_nominal_individuals_tested_merged_node_linker@ == other.last_indirectly_connected_nominal_individuals_tested_merged_node_linker@
        &&& self.last_indirectly_connected_nominal_individuals_handled_merged_node_linker@ == other.last_indirectly_connected_nominal_individuals_handled_merged_node_linker@
        &&& self.last_synched_concept_descriptor == other.last_synched_concept_descriptor
        &&& self.last_synchronization_tested_concept_descriptor == other.last_synchronization_tested_concept_descriptor
        &&& self.last_critical_neighbour_expansion_tested_concept_descriptor == other.last_critical_neighbour_expansion_tested_concept_descriptor
        &&& self.last_indirect_connected_individual_expansion_tested_concept_descriptor == other.last_indirect_connected_individual_expansion_tested_concept_descriptor
        &&& self.last_critical_cardinality_link_edge == other.last_critical_cardinality_link_edge
        &&& self.last_indirect_connected_individual_expansion_tested_link_edge == other.last_indirect_connected_individual_expansion_tested_link_edge
        &&& self.concept_set_label_processed_node_linker@ == other.concept_set_label_processed_node_linker@
        &&& self.neighbour_label_representative_expansion_linker@ == other.neighbour_label_representative_expansion_linker@
        &&& self.backend_neighbour_expansion_queue == other.backend_neighbour_expansion_queue
        &&& self.neighbour_expansion_data_hash.entries@ == other.neighbour_expansion_data_hash.entries@
        &&& nested_entries_eq(self.neighbour_label_expansion_data_hash.entries@, other.neighbour_label_expansion_data_hash.entries@)
        &&& self.role_neighbour_expansion_data_hash.entries@ == other.role_neighbour_expansion_data_hash.entries@
        &&& self.role_representative_neighbour_count_hash.entries@ == other.role_representative_neighbour_count_hash.entries@
    }

    pub fn new() -> (r: Self)
        ensures
            r.is_initial(),
    {
        IndividualNodeBackendCacheSynchronisationData {
            association_data: Id::NONE,
            backend_cache_synchron: false,
            backend_concept_set_initialized: false,
            backend_concept_set_initialization_required: false,
            backend_concept_set_initialization_queued: false,
            backend_concept_set_initialization_delaying_registered: false,
            non_concept_set_backend_label_related_processing: false,
            non_concept_set_backend_neighbour_label_related_processing: false,
            critical_cardinality_expansion_blocking: false,
            critical_cardinality_initially_checked: false,
            critical_neighbour_expansion_blocking: false,
            critical_indirect_connection_individual_expansion_blocking: false,
            all_neighbour_expansion: false,
            all_neighbour_expansion_scheduled: false,
            all_neighbour_forced_expansion: false,
            all_neighbour_forced_expansion_scheduled: false,
            neighbour_label_representative_expansion: false,
            nominal_indirect_connection_individual_expanded: false,
            merged_indirectly_connected_nominal_individuals: false,
            reuse_non_deterministic_same_individual_merged: false,
            reuse_non_deterministic_concepts_added: false,
            reuse_non_deterministic_different_individual_stated: false,
            non_deterministically_merged_individuals: false,
            scheduled_individual: Id::NONE,
            backend_expansion_reuse_dependency_track_point: Id::NONE,
            merged_individual_node_linker: Vec::new(),
            last_synchronized_concepts_tested_merged_node_linker: Vec::new(),
            last_critical_neighbours_tested_merged_node_linker: Vec::new(),
            last_direct_expansion_handled_merged_node_linker: Vec::new(),
            last_inferring_expansion_handled_merged_node_linker: Vec::new(),
            last_indirectly_connected_nominal_individuals_tested_merged_node_linker: Vec::new(),
            last_indirectly_connected_nominal_individuals_handled_merged_node_linker: Vec::new(),
            last_synched_concept_descriptor: Id::NONE,
            last_synchronization_tested_concept_descriptor: Id::NONE,
            last_critical_neighbour_expansion_tested_concept_descriptor: Id::NONE,
            last_indirect_connected_individual_expansion_tested_concept_descriptor: Id::NONE,
            last_critical_cardinality_link_edge: Id::NONE,
            last_indirect_connected_individual_expansion_tested_link_edge: Id::NONE,
            concept_set_label_processed_node_linker: Vec::new(),
            neighbour_label_representative_expansion_linker: Vec::new(),
            backend_neighbour_expansion_queue: INVALID,
            neighbour_expansion_data_hash: IntMap::new(),
            neighbour_label_expansion_data_hash: IntMap::new(),
            role_neighbour_expansion_data_hash: IntMap::new(),
            role_representative_neighbour_count_hash: IntMap::new(),
        }
    }

    /// A copy holding the same state.
    fn duplicate(&self) -> (r: Self)
        ensures
            r.same_state(self),
    {
        let r = IndividualNodeBackendCacheSynchronisationData {
            association_data: self.association_data,
            backend_cache_synchron: self.backend_cache_synchron,
            backend_concept_set_initialized: self.backend_concept_set_initialized,
            backend_concept_set_initialization_required: self.backend_concept_set_initialization_required,
            backend_concept_set_initialization_queued: self.backend_concept_set_initialization_queued,
            backend_concept_set_initialization_delaying_registered: self.backend_concept_set_initialization_delaying_registered,
            non_concept_set_backend_label_related_processing: self.non_concept_set_backend_label_related_processing,
            non_concept_set_backend_neighbour_label_related_processing: self.non_concept_set_backend_neighbour_label_related_processing,
            critical_cardinality_expansion_blocking: self.critical_cardinality_expansion_blocking,
            critical_cardinality_initially_checked: self.critical_cardinality_initially_checked,
            critical_neighbour_expansion_blocking: self.critical_neighbour_expansion_blocking,
            critical_indirect_connection_individual_expansion_blocking: self.critical_indirect_connection_individual_expansion_blocking,
            all_neighbour_expansion: self.all_neighbour_expansion,
            all_neighbour_expansion_scheduled: self.all_neighbour_expansion_scheduled,
            all_neighbour_forced_expansion: self.all_neighbour_forced_expansion,
            all_neighbour_forced_expansion_scheduled: self.all_neighbour_forced_expansion_scheduled,
            neighbour_label_representative_expansion: self.neighbour_label_representative_expansion,
            nominal_indirect_connection_individual_expanded: self.nominal_indirect_connection_individual_expanded,
            merged_indirectly_connected_nominal_individuals: self.merged_indirectly_connected_nominal_individuals,
            reuse_non_deterministic_same_individual_merged: self.reuse_non_deterministic_same_individual_merged,
            reuse_non_deterministic_concepts_added: self.reuse_non_deterministic_concepts_added,
            reuse_non_deterministic_different_individual_stated: self.reuse_non_deterministic_different_individual_stated,
            non_deterministically_merged_individuals: self.non_deterministically_merged_individuals,
            scheduled_individual: self.scheduled_individual,
            backend_expansion_reuse_dependency_track_point: self.backend_expansion_reuse_dependency_track_point,
            merged_individual_node_linker: self.merged_individual_node_linker.clone(),
            last_synchronized_concepts_tested_merged_node_linker: self.last_synchronized_concepts_tested_merged_node_linker.clone(),
            last_critical_neighbours_tested_merged_node_linker: self.last_critical_neighbours_tested_merged_node_linker.clone(),
            last_direct_expansion_handled_merged_node_linker: self.last_direct_expansion_handled_merged_node_linker.clone(),
            last_inferring_expansion_handled_merged_node_linker: self.last_inferring_expansion_handled_merged_node_linker.clone(),
            last_indirectly_connected_nominal_individuals_tested_merged_node_linker: self.last_indirectly_connected_nominal_individuals_tested_merged_node_linker.clone(),
            last_indirectly_connected_nominal_individuals_handled_merged_node_linker: self.last_indirectly_connected_nominal_individuals_handled_merged_node_linker.clone(),
            last_synched_concept_descriptor: self.last_synched_concept_descriptor,
            last_synchronization_tested_concept_descriptor: self.last_synchronization_tested_concept_descriptor,
            last_critical_neighbour_expansion_tested_concept_descriptor: self.last_critical_neighbour_expansion_tested_concept_descriptor,
            last_indirect_connected_individual_expansion_tested_concept_descriptor: self.last_indirect_connected_individual_expansion_tested_concept_descriptor,
            last_critical_cardinality_link_edge: self.last_critical_cardinality_link_edge,
            last_indirect_connected_individual_expansion_tested_link_edge: self.last_indirect_connected_individual_expansion_tested_link_edge,
            concept_set_label_processed_node_linker: self.concept_set_label_processed_node_linker.clone(),
            neighbour_label_representative_expansion_linker: self.neighbour_label_representative_expansion_linker.clone(),
            backend_neighbour_expansion_queue: self.backend_neighbour_expansion_queue,
            neighbour_expansion_data_hash: self.neighbour_expansion_data_hash.copy(),
            neighbour_label_expansion_data_hash: self.neighbour_label_expansion_data_hash.deep_copy(),
            role_neighbour_expansion_data_hash: self.role_neighbour_expansion_data_hash.copy(),
            role_representative_neighbour_count_hash: self.role_representative_neighbour_count_hash.copy(),
        };
        assert(r.merged_individual_node_linker@ =~= self.merged_individual_node_linker@);
        assert(r.last_synchronized_concepts_tested_merged_node_linker@ =~= self.last_synchronized_concepts_tested_merged_node_linker@);
        assert(r.last_critical_neighbours_tested_merged_node_linker@ =~= self.last_critical_neighbours_tested_merged_node_linker@);
        assert(r.last_direct_expansion_handled_merged_node_linker@ =~= self.last_direct_expansion_handled_merged_node_linker@);
        assert(r.last_inferring_expansion_handled_merged_node_linker@ =~= self.last_inferring_expansion_handled_merged_node_linker@);
        assert(r.last_indirectly_connected_nominal_individuals_tested_merged_node_linker@ =~= self.last_indirectly_connected_nominal_individuals_tested_merged_node_linker@);
        assert(r.last_indirectly_connected_nominal_individuals_handled_merged_node_linker@ =~= self.last_indirectly_connected_nominal_individuals_handled_merged_node_linker@);
        assert(r.concept_set_label_processed_node_linker@ =~= self.concept_set_label_processed_node_linker@);
        assert(r.neighbour_label_representative_expansion_linker@ =~= self.neighbour_label_representative_expansion_linker@);
        r
    }

    /// Takes the whole state of `prev`, or resets to the initial state.
    pub fn init_synchronisation_data(&mut self, prev: Option<&IndividualNodeBackendCacheSynchronisationData>) -> (r: &mut Self)
        ensures
            match prev {
                Some(p) => r.same_state(p),
                None => r.is_initial(),
            },
            *final(self) == *final(r),
    {
        match prev {
            Some(p) => {
                *self = p.duplicate();
            },
            None => {
                *self = Self::new();
            },
        }
        self
    }

    pub fn get_associtaion_data(&self) -> (r: IndividualAssociationDataId)
        ensures
            r == self.association_data,
    {
        self.association_data
    }

    pub fn set_associtaion_data(&mut self, association_data: IndividualAssociationDataId) -> (r: &mut Self)
        ensures
            *r == (IndividualNodeBackendCacheSynchronisationData { association_data: association_data, ..*old(self) }),
            *final(self) == *final(r),
    {
        self.association_data = association_data;
        self
    }

    pub fn is_backend_cache_synchron(&self) -> (r: bool)
        ensures
            r == self.backend_cache_synchron,
    {
        self.backend_cache_synchron
    }

    pub fn set_backend_cache_synchron(&mut self, active: bool) -> (r: &mut Self)
        ensures
            *r == (IndividualNodeBackendCacheSynchronisationData { backend_cache_synchron: active, ..*old(self) }),
            *final(self) == *final(r),
    {
        self.backend_cache_synchron = active;
        self
    }

    pub fn set_backend_concept_set_initialized(&mut self, active: bool) -> (r: &mut Self)
        ensures
            *r == (IndividualNodeBackendCacheSynchronisationData { backend_concept_set_initialized: active, ..*old(self) }),
            *final(self) == *final(r),
    {
        self.backend_concept_set_initialized = active;
        self
    }

    pub fn set_backend_concept_set_initialization_required(&mut self, active: bool) -> (r: &mut Self)
        ensures
            *r == (IndividualNodeBackendCacheSynchronisationData { backend_concept_set_initialization_required: active, ..*old(self) }),
            *final(self) == *final(r),
    {
        self.backend_concept_set_initialization_required = active;
        self
    }

    pub fn is_backend_concept_set_initialization_queued(&self) -> (r: bool)
        ensures
            r == self.backend_concept_set_initialization_queued,
    {
        self.backend_concept_set_initialization_queued
    }

    pub fn set_backend_concept_set_initialization_queued(&mut self, active: bool) -> (r: &mut Self)
        ensures
            *r == (IndividualNodeBackendCacheSynchronisationData { backend_concept_set_initialization_queued: active, ..*old(self) }),
            *final(self) == *final(r),
    {
        self.backend_concept_set_initialization_queued = active;
        self
    }

    pub fn is_backend_concept_set_initialization_delaying_registered(&self) -> (r: bool)
        ensures
            r == self.backend_concept_set_initialization_delaying_registered,
    {
        self.backend_concept_set_initialization_delaying_registered
    }

    pub fn set_backend_concept_set_initialization_delaying_registered(&mut self, active: bool) -> (r: &mut Self)
        ensures
            *r == (IndividualNodeBackendCacheSynchronisationData { backend_concept_set_initialization_delaying_registered: active, ..*old(self) }),
            *final(self) == *final(r),
    {
        self.backend_concept_set_initialization_delaying_registered = active;
        self
    }

    pub fn has_non_concept_set_backend_label_related_processing(&self) -> (r: bool)
        ensures
            r == self.non_concept_set_backend_label_related_processing,
    {
        self.non_concept_set_backend_label_related_processing
    }

    pub fn set_non_concept_set_backend_label_related_processing(&mut self, active: bool) -> (r: &mut Self)
        ensures
            *r == (IndividualNodeBackendCacheSynchronisationData { non_concept_set_backend_label_related_processing: active, ..*old(self) }),
            *final(self) == *final(r),
    {
        self.non_concept_set_backend_label_related_processing = active;
        self
    }

    pub fn has_non_concept_set_backend_neighbour_label_related_processing(&self) -> (r: bool)
        ensures
            r == self.non_concept_set_backend_neighbour_label_related_processing,
    {
        self.non_concept_set_backend_neighbour_label_related_processing
    }

    pub fn set_non_concept_set_backend_neighbour_label_related_processing(&mut self, active: bool) -> (r: &mut Self)
        ensures
            *r == (IndividualNodeBackendCacheSynchronisationData { non_concept_set_backend_neighbour_label_related_processing: active, ..*old(self) }),
            *final(self) == *final(r),
    {
        self.non_concept_set_backend_neighbour_label_related_processing = active;
        self
    }

    pub fn is_critical_cardinality_expansion_blocking(&self) -> (r: bool)
        ensures
            r == self.critical_cardinality_expansion_blocking,
    {
        self.critical_cardinality_expansion_blocking
    }

    pub fn set_critical_cardinality_expansion_blocking(&mut self, active: bool) -> (r: &mut Self)
        ensures
            *r == (IndividualNodeBackendCacheSynchronisationData { critical_cardinality_expansion_blocking: active, ..*old(self) }),
            *final(self) == *final(r),
    {
        self.critical_cardinality_expansion_blocking = active;
        self
    }

    pub fn has_critical_cardinality_initially_checked(&self) -> (r: bool)
        ensures
            r == self.critical_cardinality_initially_checked,
    {
        self.critical_cardinality_initially_checked
    }

    pub fn set_critical_cardinality_initially_checked(&mut self, active: bool) -> (r: &mut Self)
        ensures
            *r == (IndividualNodeBackendCacheSynchronisationData { critical_cardinality_initially_checked: active, ..*old(self) }),
            *final(self) == *final(r),
    {
        self.critical_cardinality_initially_checked = active;
        self
    }

    pub fn is_critical_neighbour_expansion_blocking(&self) -> (r: bool)
        ensures
            r == self.critical_neighbour_expansion_blocking,
    {
        self.critical_neighbour_expansion_blocking
    }

    pub fn set_critical_neighbour_expansion_blocking(&mut self, active: bool) -> (r: &mut Self)
        ensures
            *r == (IndividualNodeBackendCacheSynchronisationData { critical_neighbour_expansion_blocking: active, ..*old(self) }),
            *final(self) == *final(r),
    {
        self.critical_neighbour_expansion_blocking = active;
        self
    }

    pub fn is_critical_indirect_connection_individual_expansion_blocking(&self) -> (r: bool)
        ensures
            r == self.critical_indirect_connection_individual_expansion_blocking,
    {
        self.critical_indirect_connection_individual_expansion_blocking
    }

    pub fn set_critical_indirect_connection_individual_expansion_blocking(&mut self, active: bool) -> (r: &mut Self)
        ensures
            *r == (IndividualNodeBackendCacheSynchronisationData { critical_indirect_connection_individual_expansion_blocking: active, ..*old(self) }),
            *final(self) == *final(r),
    {
        self.critical_indirect_connection_individual_expansion_blocking = active;
        self
    }

    pub fn has_all_neighbour_expansion_scheduled(&self) -> (r: bool)
        ensures
            r == self.all_neighbour_expansion_scheduled,
    {
        self.all_neighbour_expansion_scheduled
    }

    pub fn set_all_neighbour_expansion_scheduled(&mut self, active: bool) -> (r: &mut Self)
        ensures
            *r == (IndividualNodeBackendCacheSynchronisationData { all_neighbour_expansion_scheduled: active, ..*old(self) }),
            *final(self) == *final(r),
    {
        self.all_neighbour_expansion_scheduled = active;
        self
    }

    pub fn set_all_neighbour_expansion(&mut self, active: bool) -> (r: &mut Self)
        ensures
            *r == (IndividualNodeBackendCacheSynchronisationData { all_neighbour_expansion: active, ..*old(self) }),
            *final(self) == *final(r),
    {
        self.all_neighbour_expansion = active;
        self
    }

    pub fn has_all_neighbour_forced_expansion_scheduled(&self) -> (r: bool)
        ensures
            r == self.all_neighbour_forced_expansion_scheduled,
    {
        self.all_neighbour_forced_expansion_scheduled
    }

    pub fn set_all_neighbour_forced_expansion_scheduled(&mut self, active: bool) -> (r: &mut Self)
        ensures
            *r == (IndividualNodeBackendCacheSynchronisationData { all_neighbour_forced_expansion_scheduled: active, ..*old(self) }),
            *final(self) == *final(r),
    {
        self.all_neighbour_forced_expansion_scheduled = active;
        self
    }

    pub fn has_all_neighbour_forced_expansion(&self) -> (r: bool)
        ensures
            r == self.all_neighbour_forced_expansion,
    {
        self.all_neighbour_forced_expansion
    }

    pub fn set_all_neighbour_forced_expansion(&mut self, active: bool) -> (r: &mut Self)
        ensures
            *r == (IndividualNodeBackendCacheSynchronisationData { all_neighbour_forced_expansion: active, ..*old(self) }),
            *final(self) == *final(r),
    {
        self.all_neighbour_forced_expansion = active;
        self
    }

    pub fn has_neighbour_label_representative_expansion(&self) -> (r: bool)
        ensures
            r == self.neighbour_label_representative_expansion,
    {
        self.neighbour_label_representative_expansion
    }

    pub fn set_neighbour_label_representative_expansion(&mut self, active: bool) -> (r: &mut Self)
        ensures
            *r == (IndividualNodeBackendCacheSynchronisationData { neighbour_label_representative_expansion: active, ..*old(self) }),
            *final(self) == *final(r),
    {
        self.neighbour_label_representative_expansion = active;
        self
    }

    /// Whether some representative expansion is installed.
    pub fn has_neighbour_label_representative_expansion_installed(&self) -> (r: bool)
        ensures
            r == (self.neighbour_label_representative_expansion_linker@.len() > 0),
    {
        self.neighbour_label_representative_expansion_linker.len() > 0
    }

    /// Appends a representative expansion.
    pub fn install_neighbour_label_representative_expansion(&mut self, linker: Cint64) -> (r: &mut Self)
        ensures
            r.neighbour_label_representative_expansion_linker@ == old(self).neighbour_label_representative_expansion_linker@.push(linker),
            r.same_state_except_representative_linker(old(self)),
            *final(self) == *final(r),
    {
        self.neighbour_label_representative_expansion_linker.push(linker);
        self
    }

    pub fn get_neighbour_label_representative_expansion_linker(&self) -> (r: &[Cint64])
        ensures
            r@ == self.neighbour_label_representative_expansion_linker@,
    {
        self.neighbour_label_representative_expansion_linker.as_slice()
    }

    /// Removes every installed representative expansion.
    pub fn clear_neighbour_label_representative_expansion_linker(&mut self) -> (r: &mut Self)
        ensures
            r.neighbour_label_representative_expansion_linker@.len() == 0,
            r.same_state_except_representative_linker(old(self)),
            *final(self) == *final(r),
    {
        self.neighbour_label_representative_expansion_linker.clear();
        self
    }

    pub fn set_nominal_indirect_connection_individual_expanded(&mut self, active: bool) -> (r: &mut Self)
        ensures
            *r == (IndividualNodeBackendCacheSynchronisationData { nominal_indirect_connection_individual_expanded: active, ..*old(self) }),
            *final(self) == *final(r),
    {
        self.nominal_indirect_connection_individual_expanded = active;
        self
    }

    pub fn has_merged_indirectly_connected_nominal_individuals(&self) -> (r: bool)
        ensures
            r == self.merged_indirectly_connected_nominal_individuals,
    {
        self.merged_indirectly_connected_nominal_individuals
    }

    pub fn set_merged_indirectly_connected_nominal_individuals(&mut self, active: bool) -> (r: &mut Self)
        ensures
            *r == (IndividualNodeBackendCacheSynchronisationData { merged_indirectly_connected_nominal_individuals: active, ..*old(self) }),
            *final(self) == *final(r),
    {
        self.merged_indirectly_connected_nominal_individuals = active;
        self
    }

    pub fn has_reuse_non_deterministic_same_individual_merged(&self) -> (r: bool)
        ensures
            r == self.reuse_non_deterministic_same_individual_merged,
    {
        self.reuse_non_deterministic_same_individual_merged
    }

    pub fn set_reuse_non_deterministic_same_individual_merged(&mut self, active: bool) -> (r: &mut Self)
        ensures
            *r == (IndividualNodeBackendCacheSynchronisationData { reuse_non_deterministic_same_individual_merged: active, ..*old(self) }),
            *final(self) == *final(r),
    {
        self.reuse_non_deterministic_same_individual_merged = active;
        self
    }

    pub fn has_reuse_non_deterministic_concepts_added(&self) -> (r: bool)
        ensures
            r == self.reuse_non_deterministic_concepts_added,
    {
        self.reuse_non_deterministic_concepts_added
    }

    pub fn set_reuse_non_deterministic_concepts_added(&mut self, active: bool) -> (r: &mut Self)
        ensures
            *r == (IndividualNodeBackendCacheSynchronisationData { reuse_non_deterministic_concepts_added: active, ..*old(self) }),
            *final(self) == *final(r),
    {
        self.reuse_non_deterministic_concepts_added = active;
        self
    }

    pub fn has_reuse_non_deterministic_different_individual_stated(&self) -> (r: bool)
        ensures
            r == self.reuse_non_deterministic_different_individual_stated,
    {
        self.reuse_non_deterministic_different_individual_stated
    }

    pub fn set_reuse_non_deterministic_different_individual_stated(&mut self, active: bool) -> (r: &mut Self)
        ensures
            *r == (IndividualNodeBackendCacheSynchronisationData { reuse_non_deterministic_different_individual_stated: active, ..*old(self) }),
            *final(self) == *final(r),
    {
        self.reuse_non_deterministic_different_individual_stated = active;
        self
    }

    pub fn has_non_deterministically_merged_individuals(&self) -> (r: bool)
        ensures
            r == self.non_deterministically_merged_individuals,
    {
        self.non_deterministically_merged_individuals
    }

    pub fn set_scheduled_individual(&mut self, individual: NodeId) -> (r: &mut Self)
        ensures
            *r == (IndividualNodeBackendCacheSynchronisationData { scheduled_individual: individual, ..*old(self) }),
            *final(self) == *final(r),
    {
        self.scheduled_individual = individual;
        self
    }

    pub fn get_backend_expansion_reuse_dependency_track_point(&self) -> (r: TrackPointId)
        ensures
            r == self.backend_expansion_reuse_dependency_track_point,
    {
        self.backend_expansion_reuse_dependency_track_point
    }

    pub fn set_backend_expansion_reuse_dependency_track_point(&mut self, dep_track_point: TrackPointId) -> (r: &mut Self)
        ensures
            *r == (IndividualNodeBackendCacheSynchronisationData { backend_expansion_reuse_dependency_track_point: dep_track_point, ..*old(self) }),
            *final(self) == *final(r),
    {
        self.backend_expansion_reuse_dependency_track_point = dep_track_point;
        self
    }

    pub fn get_merged_individual_node_linker(&self) -> (r: &[NodeId])
        ensures
            r@ == self.merged_individual_node_linker@,
    {
        self.merged_individual_node_linker.as_slice()
    }

    pub fn get_last_synchronized_concepts_tested_merged_node_linker(&self) -> (r: &[NodeId])
        ensures
            r@ == self.last_synchronized_concepts_tested_merged_node_linker@,
    {
        self.last_synchronized_concepts_tested_merged_node_linker.as_slice()
    }

    pub fn set_last_synchronized_concepts_tested_merged_node_linker(&mut self, linker: Vec<NodeId>) -> (r: &mut Self)
        ensures
            *r == (IndividualNodeBackendCacheSynchronisationData { last_synchronized_concepts_tested_merged_node_linker: linker, ..*old(self) }),
            *final(self) == *final(r),
    {
        self.last_synchronized_concepts_tested_merged_node_linker = linker;
        self
    }

    pub fn get_last_critical_neighbours_tested_merged_node_linker(&self) -> (r: &[NodeId])
        ensures
            r@ == self.last_critical_neighbours_tested_merged_node_linker@,
    {
        self.last_critical_neighbours_tested_merged_node_linker.as_slice()
    }

    pub fn set_last_critical_neighbours_tested_merged_node_linker(&mut self, linker: Vec<NodeId>) -> (r: &mut Self)
        ensures
            *r == (IndividualNodeBackendCacheSynchronisationData { last_critical_neighbours_tested_merged_node_linker: linker, ..*old(self) }),
            *final(self) == *final(r),
    {
        self.last_critical_neighbours_tested_merged_node_linker = linker;
        self
    }

    pub fn get_last_direct_expansion_handled_merged_node_linker(&self) -> (r: &[NodeId])
        ensures
            r@ == self.last_direct_expansion_handled_merged_node_linker@,
    {
        self.last_direct_expansion_handled_merged_node_linker.as_slice()
    }

    pub fn set_last_direct_expansion_handled_merged_node_linker(&mut self, linker: Vec<NodeId>) -> (r: &mut Self)
        ensures
            *r == (IndividualNodeBackendCacheSynchronisationData { last_direct_expansion_handled_merged_node_linker: linker, ..*old(self) }),
            *final(self) == *final(r),
    {
        self.last_direct_expansion_handled_merged_node_linker = linker;
        self
    }

    pub fn get_last_inferring_expansion_handled_merged_node_linker(&self) -> (r: &[NodeId])
        ensures
            r@ == self.last_inferring_expansion_handled_merged_node_linker@,
    {
        self.last_inferring_expansion_handled_merged_node_linker.as_slice()
    }

    pub fn set_last_inferring_expansion_handled_merged_node_linker(&mut self, linker: Vec<NodeId>) -> (r: &mut Self)
        ensures
            *r == (IndividualNodeBackendCacheSynchronisationData { last_inferring_expansion_handled_merged_node_linker: linker, ..*old(self) }),
            *final(self) == *final(r),
    {
        self.last_inferring_expansion_handled_merged_node_linker = linker;
        self
    }

    pub fn get_last_indirectly_connected_nominal_individuals_tested_merged_node_linker(&self) -> (r: &[NodeId])
        ensures
            r@ == self.last_indirectly_connected_nominal_individuals_tested_merged_node_linker@,
    {
        self.last_indirectly_connected_nominal_individuals_tested_merged_node_linker.as_slice()
    }

    pub fn set_last_indirectly_connected_nominal_individuals_tested_merged_node_linker(&mut self, linker: Vec<NodeId>) -> (r: &mut Self)
        ensures
            *r == (IndividualNodeBackendCacheSynchronisationData { last_indirectly_connected_nominal_individuals_tested_merged_node_linker: linker, ..*old(self) }),
            *final(self) == *final(r),
    {
        self.last_indirectly_connected_nominal_individuals_tested_merged_node_linker = linker;
        self
    }

    pub fn set_last_indirectly_connected_nominal_individuals_handled_merged_node_linker(&mut self, linker: Vec<NodeId>) -> (r: &mut Self)
        ensures
            *r == (IndividualNodeBackendCacheSynchronisationData { last_indirectly_connected_nominal_individuals_handled_merged_node_linker: linker, ..*old(self) }),
            *final(self) == *final(r),
    {
        self.last_indirectly_connected_nominal_individuals_handled_merged_node_linker = linker;
        self
    }

    pub fn get_last_synched_concept_descriptor(&self) -> (r: ConDescId)
        ensures
            r == self.last_synched_concept_descriptor,
    {
        self.last_synched_concept_descriptor
    }

    pub fn set_last_synched_concept_descriptor(&mut self, con_des: ConDescId) -> (r: &mut Self)
        ensures
            *r == (IndividualNodeBackendCacheSynchronisationData { last_synched_concept_descriptor: con_des, ..*old(self) }),
            *final(self) == *final(r),
    {
        self.last_synched_concept_descriptor = con_des;
        self
    }

    pub fn get_last_synchronization_tested_concept_descriptor(&self) -> (r: ConDescId)
        ensures
            r == self.last_synchronization_tested_concept_descriptor,
    {
        self.last_synchronization_tested_concept_descriptor
    }

    pub fn set_last_synchronization_tested_concept_descriptor(&mut self, con_des: ConDescId) -> (r: &mut Self)
        ensures
            *r == (IndividualNodeBackendCacheSynchronisationData { last_synchronization_tested_concept_descriptor: con_des, ..*old(self) }),
            *final(self) == *final(r),
    {
        self.last_synchronization_tested_concept_descriptor = con_des;
        self
    }

    pub fn get_last_critical_neighbour_expansion_tested_concept_descriptor(&self) -> (r: ConDescId)
        ensures
            r == self.last_critical_neighbour_expansion_tested_concept_descriptor,
    {
        self.last_critical_neighbour_expansion_tested_concept_descriptor
    }

    pub fn set_last_critical_neighbour_expansion_tested_concept_descriptor(&mut self, con_des: ConDescId) -> (r: &mut Self)
        ensures
            *r == (IndividualNodeBackendCacheSynchronisationData { last_critical_neighbour_expansion_tested_concept_descriptor: con_des, ..*old(self) }),
            *final(self) == *final(r),
    {
        self.last_critical_neighbour_expansion_tested_concept_descriptor = con_des;
        self
    }

    pub fn get_last_indirect_connected_individual_expansion_tested_concept_descriptor(&self) -> (r: ConDescId)
        ensures
            r == self.last_indirect_connected_individual_expansion_tested_concept_descriptor,
    {
        self.last_indirect_connected_individual_expansion_tested_concept_descriptor
    }

    pub fn set_last_indirect_connected_individual_expansion_tested_concept_descriptor(&mut self, con_des: ConDescId) -> (r: &mut Self)
        ensures
            *r == (IndividualNodeBackendCacheSynchronisationData { last_indirect_connected_individual_expansion_tested_concept_descriptor: con_des, ..*old(self) }),
            *final(self) == *final(r),
    {
        self.last_indirect_connected_individual_expansion_tested_concept_descriptor = con_des;
        self
    }

    pub fn get_last_critical_cardinality_link_edge(&self) -> (r: EdgeId)
        ensures
            r == self.last_critical_cardinality_link_edge,
    {
        self.last_critical_cardinality_link_edge
    }

    pub fn set_last_critical_cardinality_link_edge(&mut self, edge: EdgeId) -> (r: &mut Self)
        ensures
            *r == (IndividualNodeBackendCacheSynchronisationData { last_critical_cardinality_link_edge: edge, ..*old(self) }),
            *final(self) == *final(r),
    {
        self.last_critical_cardinality_link_edge = edge;
        self
    }

    pub fn get_last_indirect_connected_individual_expansion_tested_link_edge(&self) -> (r: EdgeId)
        ensures
            r == self.last_indirect_connected_individual_expansion_tested_link_edge,
    {
        self.last_indirect_connected_individual_expansion_tested_link_edge
    }

    pub fn set_last_indirect_connected_individual_expansion_tested_link_edge(&mut self, edge: EdgeId) -> (r: &mut Self)
        ensures
            *r == (IndividualNodeBackendCacheSynchronisationData { last_indirect_connected_individual_expansion_tested_link_edge: edge, ..*old(self) }),
            *final(self) == *final(r),
    {
        self.last_indirect_connected_individual_expansion_tested_link_edge = edge;
        self
    }

    pub fn set_concept_set_label_processed_node_linker(&mut self, linker: Vec<NodeId>) -> (r: &mut Self)
        ensures
            *r == (IndividualNodeBackendCacheSynchronisationData { concept_set_label_processed_node_linker: linker, ..*old(self) }),
            *final(self) == *final(r),
    {
        self.concept_set_label_processed_node_linker = linker;
        self
    }

    pub fn get_backend_neighbour_expansion_queue(&self, _create: bool) -> (r: Cint64)
        ensures
            r == self.backend_neighbour_expansion_queue,
    {
        self.backend_neighbour_expansion_queue
    }

    pub fn get_neighbour_expansion_data_hash(&mut self, create: bool) -> (r: &mut IntMap<i64>)
        ensures
            *r == old(self).neighbour_expansion_data_hash,
            *final(self) == (IndividualNodeBackendCacheSynchronisationData { neighbour_expansion_data_hash: *final(r), ..*old(self) }),
    {
        &mut self.neighbour_expansion_data_hash
    }

    /// The neighbour-label expansion counters of array `array_id`, started
    /// empty when there are none yet.
    pub fn get_neighbour_label_expansion_data_hash(&mut self, array_id: Cint64, create: bool) -> (r: &mut IntMap<i64>)
        ensures
            old(self).neighbour_label_expansion_data_hash@.contains_key(array_id)
                ==> *r == old(self).neighbour_label_expansion_data_hash@[array_id],
            !old(self).neighbour_label_expansion_data_hash@.contains_key(array_id) ==> r.entries@.len() == 0,
            final(self).neighbour_label_expansion_data_hash@
                == old(self).neighbour_label_expansion_data_hash@.insert(array_id, *final(r)),
            final(self).same_state_except_label_hash(old(self)),
    {
        self.neighbour_label_expansion_data_hash.entry_or_default(array_id)
    }

    pub fn get_role_neighbour_expansion_data_hash(&mut self, create: bool) -> (r: &mut IntMap<i64>)
        ensures
            *r == old(self).role_neighbour_expansion_data_hash,
            *final(self) == (IndividualNodeBackendCacheSynchronisationData { role_neighbour_expansion_data_hash: *final(r), ..*old(self) }),
    {
        &mut self.role_neighbour_expansion_data_hash
    }

    pub fn get_role_representative_neighbour_count_hash(&mut self, create: bool) -> (r: &mut IntMap<i64>)
        ensures
            *r == old(self).role_representative_neighbour_count_hash,
            *final(self) == (IndividualNodeBackendCacheSynchronisationData { role_representative_neighbour_count_hash: *final(r), ..*old(self) }),
    {
        &mut self.role_representative_neighbour_count_hash
    }

    /// Every field but the representative expansions is that of `other`.
    pub open spec fn same_state_except_representative_linker(&self, other: &Self) -> bool {
        &&& self.association_data == other.association_data
        &&& self.backend_cache_synchron == other.backend_cache_synchron
        &&& self.backend_concept_set_initialized == other.backend_concept_set_initialized
        &&& self.backend_concept_set_initialization_required == other.backend_concept_set_initialization_required
        &&& self.backend_concept_set_initialization_queued == other.backend_concept_set_initialization_queued
        &&& self.backend_concept_set_initialization_delaying_registered == other.backend_concept_set_initialization_delaying_registered
        &&& self.non_concept_set_backend_label_related_processing == other.non_concept_set_backend_label_related_processing
        &&& self.non_concept_set_backend_neighbour_label_related_processing == other.non_concept_set_backend_neighbour_label_related_processing
        &&& self.critical_cardinality_expansion_blocking == other.critical_cardinality_expansion_blocking
        &&& self.critical_cardinality_initially_checked == other.critical_cardinality_initially_checked
        &&& self.critical_neighbour_expansion_blocking == other.critical_neighbour_expansion_blocking
        &&& self.critical_indirect_connection_individual_expansion_blocking == other.critical_indirect_connection_individual_expansion_blocking
        &&& self.all_neighbour_expansion == other.all_neighbour_expansion
        &&& self.all_neighbour_expansion_scheduled == other.all_neighbour_expansion_scheduled
        &&& self.all_neighbour_forced_expansion == other.all_neighbour_forced_expansion
        &&& self.all_neighbour_forced_expansion_scheduled == other.all_neighbour_forced_expansion_scheduled
        &&& self.neighbour_label_representative_expansion == other.neighbour_label_representative_expansion
        &&& self.nominal_indirect_connection_individual_expanded == other.nominal_indirect_connection_individual_expanded
        &&& self.merged_indirectly_connected_nominal_individuals == other.merged_indirectly_connected_nominal_individuals
        &&& self.reuse_non_deterministic_same_individual_merged == other.reuse_non_deterministic_same_individual_merged
        &&& self.reuse_non_deterministic_concepts_added == other.reuse_non_deterministic_concepts_added
        &&& self.reuse_non_deterministic_different_individual_stated == other.reuse_non_deterministic_different_individual_stated
        &&& self.non_deterministically_merged_individuals == other.non_deterministically_merged_individuals
        &&& self.scheduled_individual == other.scheduled_individual
        &&& self.backend_expansion_reuse_dependency_track_point == other.backend_expansion_reuse_dependency_track_point
        &&& self.merged_individual_node_linker == other.merged_individual_node_linker
        &&& self.last_synchronized_concepts_tested_merged_node_linker == other.last_synchronized_concepts_tested_merged_node_linker
        &&& self.last_critical_neighbours_tested_merged_node_linker == other.last_critical_neighbours_tested_merged_node_linker
        &&& self.last_direct_expansion_handled_merged_node_linker == other.last_direct_expansion_handled_merged_node_linker
        &&& self.last_inferring_expansion_handled_merged_node_linker == other.last_inferring_expansion_handled_merged_node_linker
        &&& self.last_indirectly_connected_nominal_individuals_tested_merged_node_linker == other.last_indirectly_connected_nominal_individuals_tested_merged_node_linker
        &&& self.last_indirectly_connected_nominal_individuals_handled_merged_node_linker == other.last_indirectly_connected_nominal_individuals_handled_merged_node_linker
        &&& self.last_synched_concept_descriptor == other.last_synched_concept_descriptor
        &&& self.last_synchronization_tested_concept_descriptor == other.last_synchronization_tested_concept_descriptor
        &&& self.last_critical_neighbour_expansion_tested_concept_descriptor == other.last_critical_neighbour_expansion_tested_concept_descriptor
        &&& self.last_indirect_connected_individual_expansion_tested_concept_descriptor == other.last_indirect_connected_individual_expansion_tested_concept_descriptor
        &&& self.last_critical_cardinality_link_edge == other.last_critical_cardinality_link_edge
        &&& self.last_indirect_connected_individual_expansion_tested_link_edge == other.last_indirect_connected_individual_expansion_tested_link_edge
        &&& self.concept_set_label_processed_node_linker == other.concept_set_label_processed_node_linker
        &&& self.backend_neighbour_expansion_queue == other.backend_neighbour_expansion_queue
        &&& self.neighbour_expansion_data_hash == other.neighbour_expansion_data_hash
        &&& self.neighbour_label_expansion_data_hash == other.neighbour_label_expansion_data_hash
        &&& self.role_neighbour_expansion_data_hash == other.role_neighbour_expansion_data_hash
        &&& self.role_representative_neighbour_count_hash == other.role_representative_neighbour_count_hash
    }

    /// Every field but the neighbour-label counters is that of `other`.
    pub open spec fn same_state_except_label_hash(&self, other: &Self) -> bool {
        &&& self.association_data == other.association_data
        &&& self.backend_cache_synchron == other.backend_cache_synchron
        &&& self.backend_concept_set_initialized == other.backend_concept_set_initialized
        &&& self.backend_concept_set_initialization_required == other.backend_concept_set_initialization_required
        &&& self.backend_concept_set_initialization_queued == other.backend_concept_set_initialization_queued
        &&& self.backend_concept_set_initialization_delaying_registered == other.backend_concept_set_initialization_delaying_registered
        &&& self.non_concept_set_backend_label_related_processing == other.non_concept_set_backend_label_related_processing
        &&& self.non_concept_set_backend_neighbour_label_related_processing == other.non_concept_set_backend_neighbour_label_related_processing
        &&& self.critical_cardinality_expansion_blocking == other.critical_cardinality_expansion_blocking
        &&& self.critical_cardinality_initially_checked == other.critical_cardinality_initially_checked
        &&& self.critical_neighbour_expansion_blocking == other.critical_neighbour_expansion_blocking
        &&& self.critical_indirect_connection_individual_expansion_blocking == other.critical_indirect_connection_individual_expansion_blocking
        &&& self.all_neighbour_expansion == other.all_neighbour_expansion
        &&& self.all_neighbour_expansion_scheduled == other.all_neighbour_expansion_scheduled
        &&& self.all_neighbour_forced_expansion == other.all_neighbour_forced_expansion
        &&& self.all_neighbour_forced_expansion_scheduled == other.all_neighbour_forced_expansion_scheduled
        &&& self.neighbour_label_representative_expansion == other.neighbour_label_representative_expansion
        &&& self.nominal_indirect_connection_individual_expanded == other.nominal_indirect_connection_individual_expanded
        &&& self.merged_indirectly_connected_nominal_individuals == other.merged_indirectly_connected_nominal_individuals
        &&& self.reuse_non_deterministic_same_individual_merged == other.reuse_non_deterministic_same_individual_merged
        &&& self.reuse_non_deterministic_concepts_added == other.reuse_non_deterministic_concepts_added
        &&& self.reuse_non_deterministic_different_individual_stated == other.reuse_non_deterministic_different_individual_stated
        &&& self.non_deterministically_merged_individuals == other.non_deterministically_merged_individuals
        &&& self.scheduled_individual == other.scheduled_individual
        &&& self.backend_expansion_reuse_dependency_track_point == other.backend_expansion_reuse_dependency_track_point
        &&& self.merged_individual_node_linker == other.merged_individual_node_linker
        &&& self.last_synchronized_concepts_tested_merged_node_linker == other.last_synchronized_concepts_tested_merged_node_linker
        &&& self.last_critical_neighbours_tested_merged_node_linker == other.last_critical_neighbours_tested_merged_node_linker
        &&& self.last_direct_expansion_handled_merged_node_linker == other.last_direct_expansion_handled_merged_node_linker
        &&& self.last_inferring_expansion_handled_merged_node_linker == other.last_inferring_expansion_handled_merged_node_linker
        &&& self.last_indirectly_connected_nominal_individuals_tested_merged_node_linker == other.last_indirectly_connected_nominal_individuals_tested_merged_node_linker
        &&& self.last_indirectly_connected_nominal_individuals_handled_merged_node_linker == other.last_indirectly_connected_nominal_individuals_handled_merged_node_linker
        &&& self.last_synched_concept_descriptor == other.last_synched_concept_descriptor
        &&& self.last_synchronization_tested_concept_descriptor == other.last_synchronization_tested_concept_descriptor
        &&& self.last_critical_neighbour_expansion_tested_concept_descriptor == other.last_critical_neighbour_expansion_tested_concept_descriptor
        &&& self.last_indirect_connected_individual_expansion_tested_concept_descriptor == other.last_indirect_connected_individual_expansion_tested_concept_descriptor
        &&& self.last_critical_cardinality_link_edge == other.last_critical_cardinality_link_edge
        &&& self.last_indirect_connected_individual_expansion_tested_link_edge == other.last_indirect_connected_individual_expansion_tested_link_edge
        &&& self.concept_set_label_processed_node_linker == other.concept_set_label_processed_node_linker
        &&& self.neighbour_label_representative_expansion_linker == other.neighbour_label_representative_expansion_linker
        &&& self.backend_neighbour_expansion_queue == other.backend_neighbour_expansion_queue
        &&& self.neighbour_expansion_data_hash == other.neighbour_expansion_data_hash
        &&& self.role_neighbour_expansion_data_hash == other.role_neighbour_expansion_data_hash
        &&& self.role_representative_neighbour_count_hash == other.role_representative_neighbour_count_hash
    }

}

impl Default for IndividualNodeBackendCacheSynchronisationData {
    fn default() -> (r: Self)
        ensures
            r.is_initial(),
    {
        Self::new()
    }
}

} // verus!
