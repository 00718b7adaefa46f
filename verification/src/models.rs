//! The completion-graph records that the per-test process data refers to:
//! individual nodes, individual links, concept descriptors, branch-tree and
//! dependency nodes, and the small linker records of the work queues.
//!
//! Each record holds exactly the fields that the process data reads or
//! writes; every handle is an [`Id`] into the matching arena of the process
//! context.

use vstd::prelude::*;
use crate::ids::{Id, Cint64, INVALID, NodeId, EdgeId, ConDescId, ConceptId, RoleId, TrackPointId, BranchNodeId, CandidateLinkerId, ProcessContextId, CondensedReapplyConceptDescriptorId};

verus! {

/// How an individual node was introduced into the completion graph.
#[derive(Clone, Copy, PartialEq, Eq, Structural, Debug)]
pub enum IndividualType {
    /// A node created by expansion, which may be blocked.
    Blockable,
    /// A node standing for a named individual.
    Nominal,
}

/// An individual node of the completion graph.
#[derive(Clone, Copy, PartialEq, Eq, Structural, Debug)]
pub struct IndividualProcessNode {
    pub process_context: ProcessContextId,
    pub individual_node_id: Cint64,
    pub individual_type: IndividualType,
    pub individual_ancestor_depth: Cint64,
    /// Localised blocking-follow set, and the one in use (own or inherited).
    pub sig_block_follow_set: Id,
    pub use_sig_block_follow_set: Id,
    pub prev_sig_block_follow_set: Id,
    /// Localised concept → variable-binding-path-set hash, the one in use, and
    /// the parent's.
    pub concept_var_bind_path_set_hash: Id,
    pub use_concept_var_bind_path_set_hash: Id,
    pub prev_concept_var_bind_path_set_hash: Id,
    /// Localised concept → propagation-binding-set hash, the one in use, and
    /// the parent's.
    pub concept_prop_binding_set_hash: Id,
    pub use_concept_prop_binding_set_hash: Id,
    pub prev_concept_prop_binding_set_hash: Id,
    /// The node's hash of backward propagations by role.
    pub role_back_prop_hash: Id,
}

impl IndividualProcessNode {
    /// A fresh node of a process context: blockable, identifier 0, depth 0,
    /// no satellite data.
    pub open spec fn spec_new(process_context: ProcessContextId) -> Self {
        IndividualProcessNode {
            process_context,
            individual_node_id: 0,
            individual_type: IndividualType::Blockable,
            individual_ancestor_depth: 0,
            sig_block_follow_set: Id::NONE,
            use_sig_block_follow_set: Id::NONE,
            prev_sig_block_follow_set: Id::NONE,
            concept_var_bind_path_set_hash: Id::NONE,
            use_concept_var_bind_path_set_hash: Id::NONE,
            prev_concept_var_bind_path_set_hash: Id::NONE,
            concept_prop_binding_set_hash: Id::NONE,
            use_concept_prop_binding_set_hash: Id::NONE,
            prev_concept_prop_binding_set_hash: Id::NONE,
            role_back_prop_hash: Id::NONE,
        }
    }

    pub fn new(process_context: ProcessContextId) -> (r: Self)
        ensures
            r == Self::spec_new(process_context),
    {
        IndividualProcessNode {
            process_context,
            individual_node_id: 0,
            individual_type: IndividualType::Blockable,
            individual_ancestor_depth: 0,
            sig_block_follow_set: Id::NONE,
            use_sig_block_follow_set: Id::NONE,
            prev_sig_block_follow_set: Id::NONE,
            concept_var_bind_path_set_hash: Id::NONE,
            use_concept_var_bind_path_set_hash: Id::NONE,
            prev_concept_var_bind_path_set_hash: Id::NONE,
            concept_prop_binding_set_hash: Id::NONE,
            use_concept_prop_binding_set_hash: Id::NONE,
            prev_concept_prop_binding_set_hash: Id::NONE,
            role_back_prop_hash: Id::NONE,
        }
    }

    pub fn individual_node_id(&self) -> (r: Cint64)
        ensures
            r == self.individual_node_id,
    {
        self.individual_node_id
    }

    pub fn set_individual_node_id(&mut self, id: Cint64) -> (r: &mut Self)
        ensures
            *r == (IndividualProcessNode { individual_node_id: id, ..*old(self) }),
            *final(self) == *final(r),
    {
        self.individual_node_id = id;
        self
    }

    pub fn set_individual_ancestor_depth(&mut self, depth: Cint64) -> (r: &mut Self)
        ensures
            *r == (IndividualProcessNode { individual_ancestor_depth: depth, ..*old(self) }),
            *final(self) == *final(r),
    {
        self.individual_ancestor_depth = depth;
        self
    }

    pub fn set_individual_type(&mut self, individual_type: IndividualType) -> (r: &mut Self)
        ensures
            *r == (IndividualProcessNode { individual_type, ..*old(self) }),
            *final(self) == *final(r),
    {
        self.individual_type = individual_type;
        self
    }

    pub fn is_blockable_individual(&self) -> (r: bool)
        ensures
            r == (self.individual_type == IndividualType::Blockable),
    {
        match self.individual_type {
            IndividualType::Blockable => true,
            _ => false,
        }
    }

    pub fn is_nominal_individual_node(&self) -> (r: bool)
        ensures
            r == (self.individual_type == IndividualType::Nominal),
    {
        match self.individual_type {
            IndividualType::Nominal => true,
            _ => false,
        }
    }
}

impl Default for IndividualProcessNode {
    fn default() -> (r: Self)
        ensures
            r == Self::spec_new(Id::NONE),
    {
        Self::new(Id::NONE)
    }
}

/// A role link between two individual nodes.
#[derive(Clone, Copy, PartialEq, Eq, Structural, Debug)]
pub struct IndividualLinkEdge {
    pub creator_individual: NodeId,
    pub source_individual: NodeId,
    pub destination_individual: NodeId,
    pub role: RoleId,
    pub dependency_track_point: TrackPointId,
}

impl IndividualLinkEdge {
    pub open spec fn spec_new() -> Self {
        IndividualLinkEdge {
            creator_individual: Id::NONE,
            source_individual: Id::NONE,
            destination_individual: Id::NONE,
            role: Id::NONE,
            dependency_track_point: Id::NONE,
        }
    }

    pub fn new() -> (r: Self)
        ensures
            r == Self::spec_new(),
    {
        IndividualLinkEdge {
            creator_individual: Id::NONE,
            source_individual: Id::NONE,
            destination_individual: Id::NONE,
            role: Id::NONE,
            dependency_track_point: Id::NONE,
        }
    }

    /// Sets the creator, both end nodes, the role and the dependency.
    pub fn init_individual_link_edge(
        &mut self,
        creator: NodeId,
        source: NodeId,
        destination: NodeId,
        role: RoleId,
        dependency_track_point: TrackPointId,
    ) -> (r: &mut Self)
        ensures
            *r == (IndividualLinkEdge {
                creator_individual: creator,
                source_individual: source,
                destination_individual: destination,
                role,
                dependency_track_point,
            }),
            *final(self) == *final(r),
    {
        self.creator_individual = creator;
        self.source_individual = source;
        self.destination_individual = destination;
        self.role = role;
        self.dependency_track_point = dependency_track_point;
        self
    }

    pub fn get_creator_individual(&self) -> (r: NodeId)
        ensures
            r == self.creator_individual,
    {
        self.creator_individual
    }

    pub fn get_dependency_track_point(&self) -> (r: TrackPointId)
        ensures
            r == self.dependency_track_point,
    {
        self.dependency_track_point
    }
}

impl Default for IndividualLinkEdge {
    fn default() -> (r: Self)
        ensures
            r == Self::spec_new(),
    {
        Self::new()
    }
}

/// A concept, possibly negated, in the label of a node.
#[derive(Clone, Copy, PartialEq, Eq, Structural, Debug)]
pub struct ConceptDescriptor {
    pub concept: ConceptId,
    pub negated: bool,
}

impl ConceptDescriptor {
    pub fn new() -> (r: Self)
        ensures
            r == (ConceptDescriptor { concept: Id::NONE, negated: false }),
    {
        ConceptDescriptor { concept: Id::NONE, negated: false }
    }

    pub fn get_concept(&self) -> (r: ConceptId)
        ensures
            r == self.concept,
    {
        self.concept
    }

    pub fn is_negated(&self) -> (r: bool)
        ensures
            r == self.negated,
    {
        self.negated
    }
}

impl Default for ConceptDescriptor {
    fn default() -> (r: Self)
        ensures
            r == (ConceptDescriptor { concept: Id::NONE, negated: false }),
    {
        Self::new()
    }
}

/// A merging candidate: a node together with the link that connects it.
#[derive(Clone, Copy, PartialEq, Eq, Structural, Debug)]
pub struct BranchingMergingIndividualNodeCandidateLinker {
    pub candidate_individual_node: NodeId,
    pub merging_individual_link: EdgeId,
    pub next: CandidateLinkerId,
}

impl BranchingMergingIndividualNodeCandidateLinker {
    pub fn new() -> (r: Self)
        ensures
            r == (BranchingMergingIndividualNodeCandidateLinker {
                candidate_individual_node: Id::NONE,
                merging_individual_link: Id::NONE,
                next: Id::NONE,
            }),
    {
        BranchingMergingIndividualNodeCandidateLinker {
            candidate_individual_node: Id::NONE,
            merging_individual_link: Id::NONE,
            next: Id::NONE,
        }
    }

    pub fn init_branching_merging_individual_node_candidate(
        &mut self,
        candidate: NodeId,
        link: EdgeId,
    ) -> (r: &mut Self)
        ensures
            *r == (BranchingMergingIndividualNodeCandidateLinker {
                candidate_individual_node: candidate,
                merging_individual_link: link,
                next: Id::NONE,
            }),
            *final(self) == *final(r),
    {
        self.candidate_individual_node = candidate;
        self.merging_individual_link = link;
        self.next = Id::NONE;
        self
    }

    pub fn get_merging_individual_node_candidate(&self) -> (r: NodeId)
        ensures
            r == self.candidate_individual_node,
    {
        self.candidate_individual_node
    }

    pub fn get_merging_individual_link(&self) -> (r: EdgeId)
        ensures
            r == self.merging_individual_link,
    {
        self.merging_individual_link
    }

    pub fn get_next(&self) -> (r: CandidateLinkerId)
        ensures
            r == self.next,
    {
        self.next
    }

    pub fn clear_next(&mut self) -> (r: &mut Self)
        ensures
            *r == (BranchingMergingIndividualNodeCandidateLinker { next: Id::NONE, ..*old(self) }),
            *final(self) == *final(r),
    {
        self.next = Id::NONE;
        self
    }
}

/// An element of a condensed reapply queue: a concept descriptor to reapply.
#[derive(Clone, Copy, PartialEq, Eq, Structural, Debug)]
pub struct CondensedReapplyConceptDescriptor {
    pub concept_descriptor: ConDescId,
    pub positive: bool,
    pub next: CondensedReapplyConceptDescriptorId,
}

impl CondensedReapplyConceptDescriptor {
    pub fn new(concept_descriptor: ConDescId, positive: bool) -> (r: Self)
        ensures
            r == (CondensedReapplyConceptDescriptor { concept_descriptor, positive, next: Id::NONE }),
    {
        CondensedReapplyConceptDescriptor { concept_descriptor, positive, next: Id::NONE }
    }

    pub fn get_concept_descriptor(&self) -> (r: ConDescId)
        ensures
            r == self.concept_descriptor,
    {
        self.concept_descriptor
    }

    pub fn get_next(&self) -> (r: CondensedReapplyConceptDescriptorId)
        ensures
            r == self.next,
    {
        self.next
    }
}

/// The position of a condensed reapply walk: the chain it walks and which
/// polarities of descriptors it yields.
#[derive(Clone, Copy, PartialEq, Eq, Structural, Debug)]
pub struct CondensedReapplyQueueIterator {
    pub des_linker: CondensedReapplyConceptDescriptorId,
    pub positive_descriptors: bool,
    pub negative_descriptors: bool,
}

impl CondensedReapplyQueueIterator {
    pub fn new_pos_neg(
        des_linker: CondensedReapplyConceptDescriptorId,
        positive_descriptors: bool,
        negative_descriptors: bool,
    ) -> (r: Self)
        ensures
            r == (CondensedReapplyQueueIterator { des_linker, positive_descriptors, negative_descriptors }),
    {
        CondensedReapplyQueueIterator { des_linker, positive_descriptors, negative_descriptors }
    }
}

/// A node of the branching tree: one branch of one satisfiability task.
#[derive(Clone, Copy, PartialEq, Eq, Structural, Debug)]
pub struct BranchTreeNode {
    pub parent: BranchNodeId,
    pub root: BranchNodeId,
    pub branching_level: Cint64,
    pub sat_calc_task: Cint64,
}

impl BranchTreeNode {
    pub open spec fn spec_new() -> Self {
        BranchTreeNode { parent: Id::NONE, root: Id::NONE, branching_level: 0, sat_calc_task: INVALID }
    }

    pub fn new() -> (r: Self)
        ensures
            r == Self::spec_new(),
    {
        BranchTreeNode { parent: Id::NONE, root: Id::NONE, branching_level: 0, sat_calc_task: INVALID }
    }

    pub fn parent_node(&self) -> (r: BranchNodeId)
        ensures
            r == self.parent,
    {
        self.parent
    }

    pub fn get_root_node(&self) -> (r: BranchNodeId)
        ensures
            r == self.root,
    {
        self.root
    }

    pub fn get_branching_level(&self) -> (r: Cint64)
        ensures
            r == self.branching_level,
    {
        self.branching_level
    }

    pub fn get_satisfiable_calculation_task(&self) -> (r: Cint64)
        ensures
            r == self.sat_calc_task,
    {
        self.sat_calc_task
    }

    /// A node without a parent.
    pub fn is_root_node(&self) -> (r: bool)
        ensures
            r == (self.parent == Id::NONE),
    {
        self.parent.is_none()
    }
}

/// A node of the dependency graph.
#[derive(Clone, Copy, PartialEq, Eq, Structural, Debug)]
pub struct DependencyNode {
    pub independent_base: bool,
}

impl DependencyNode {
    pub fn new() -> (r: Self)
        ensures
            r == (DependencyNode { independent_base: false }),
    {
        DependencyNode { independent_base: false }
    }

    /// Marks the node as the independent base that every dependency of a
    /// branching tree rests on.
    pub fn init_independent_base_dependency_node(&mut self) -> (r: &mut Self)
        ensures
            *r == (DependencyNode { independent_base: true }),
            *final(self) == *final(r),
    {
        self.independent_base = true;
        self
    }

    pub fn is_independent_base_dependency_type(&self) -> (r: bool)
        ensures
            r == self.independent_base,
    {
        self.independent_base
    }
}

/// The variable-binding paths that reach one concept of a node.
pub struct VariableBindingPathSet {
    pub process_context: Cint64,
    pub binding_paths: Vec<Id>,
}

impl VariableBindingPathSet {
    pub fn new(process_context: Cint64) -> (r: Self)
        ensures
            r.process_context == process_context,
            r.binding_paths@.len() == 0,
    {
        VariableBindingPathSet { process_context, binding_paths: Vec::new() }
    }

    /// Takes the paths of `prev`, or none.
    pub fn init_variable_binding_path_set(&mut self, prev: Option<&VariableBindingPathSet>) -> (r: &mut Self)
        ensures
            r.process_context == old(self).process_context,
            r.binding_paths@ == (match prev {
                Some(p) => p.binding_paths@,
                None => Seq::<Id>::empty(),
            }),
            *final(self) == *final(r),
    {
        match prev {
            Some(p) => {
                self.binding_paths = p.binding_paths.clone();
                assert(self.binding_paths@ =~= p.binding_paths@);
            },
            None => {
                self.binding_paths = Vec::new();
            },
        }
        self
    }
}

/// The propagation bindings that reach one concept of a node.
pub struct PropagationBindingSet {
    pub process_context: Cint64,
    pub propagation_bindings: Vec<Id>,
}

impl PropagationBindingSet {
    pub fn new(process_context: Cint64) -> (r: Self)
        ensures
            r.process_context == process_context,
            r.propagation_bindings@.len() == 0,
    {
        PropagationBindingSet { process_context, propagation_bindings: Vec::new() }
    }

    /// Takes the bindings of `prev`, or none.
    pub fn init_propagation_binding_set(&mut self, prev: Option<&PropagationBindingSet>) -> (r: &mut Self)
        ensures
            r.process_context == old(self).process_context,
            r.propagation_bindings@ == (match prev {
                Some(p) => p.propagation_bindings@,
                None => Seq::<Id>::empty(),
            }),
            *final(self) == *final(r),
    {
        match prev {
            Some(p) => {
                self.propagation_bindings = p.propagation_bindings.clone();
                assert(self.propagation_bindings@ =~= p.propagation_bindings@);
            },
            None => {
                self.propagation_bindings = Vec::new();
            },
        }
        self
    }
}

/// The tag of the last concept-label-set modification a record has seen.
#[derive(Clone, Copy, PartialEq, Eq, Structural, Debug)]
pub struct ConceptLabelSetModificationTag {
    pub modification_tag: Cint64,
}

impl ConceptLabelSetModificationTag {
    pub fn new() -> (r: Self)
        ensures
            r.modification_tag == 0,
    {
        ConceptLabelSetModificationTag { modification_tag: 0 }
    }

    pub fn get_concept_label_set_modification_tag(&self) -> (r: Cint64)
        ensures
            r == self.modification_tag,
    {
        self.modification_tag
    }

    /// Records `tag`; tells whether it differs from the one recorded before.
    pub fn update_concept_label_set_modification_tag(&mut self, tag: Cint64) -> (r: bool)
        ensures
            final(self).modification_tag == tag,
            r == (old(self).modification_tag != tag),
    {
        let updated = self.modification_tag != tag;
        self.modification_tag = tag;
        updated
    }
}

impl Default for ConceptLabelSetModificationTag {
    fn default() -> (r: Self)
        ensures
            r.modification_tag == 0,
    {
        Self::new()
    }
}

/// The tags that the process hands out to the records it updates.
#[derive(Clone, Copy, PartialEq, Eq, Structural, Debug)]
pub struct ProcessTagger {
    pub current_blocking_follow_tag: Cint64,
}

impl ProcessTagger {
    pub fn new() -> (r: Self)
        ensures
            r.current_blocking_follow_tag == 0,
    {
        ProcessTagger { current_blocking_follow_tag: 0 }
    }

    pub fn get_current_blocking_follow_tag(&self) -> (r: Cint64)
        ensures
            r == self.current_blocking_follow_tag,
    {
        self.current_blocking_follow_tag
    }
}

/// An element of the chain of individuals waiting to be processed.
#[derive(Clone, Copy, PartialEq, Eq, Structural, Debug)]
pub struct IndividualProcessNodeLinker {
    pub processing_individual: NodeId,
    pub processing_queued: bool,
    pub next: Id,
}

impl IndividualProcessNodeLinker {
    pub fn new() -> (r: Self)
        ensures
            r == (IndividualProcessNodeLinker { processing_individual: Id::NONE, processing_queued: false, next: Id::NONE }),
    {
        IndividualProcessNodeLinker { processing_individual: Id::NONE, processing_queued: false, next: Id::NONE }
    }

    pub fn init_process_node_linker(&mut self, individual: NodeId, processing_queued: bool) -> (r: &mut Self)
        ensures
            *r == (IndividualProcessNodeLinker { processing_individual: individual, processing_queued, next: Id::NONE }),
            *final(self) == *final(r),
    {
        self.processing_individual = individual;
        self.processing_queued = processing_queued;
        self.next = Id::NONE;
        self
    }

    pub fn get_processing_individual(&self) -> (r: NodeId)
        ensures
            r == self.processing_individual,
    {
        self.processing_individual
    }

    pub fn is_processing_queued(&self) -> (r: bool)
        ensures
            r == self.processing_queued,
    {
        self.processing_queued
    }

    pub fn get_next(&self) -> (r: Id)
        ensures
            r == self.next,
    {
        self.next
    }

    pub fn set_next(&mut self, next: Id) -> (r: &mut Self)
        ensures
            *r == (IndividualProcessNodeLinker { next, ..*old(self) }),
            *final(self) == *final(r),
    {
        self.next = next;
        self
    }

    pub fn clear_next(&mut self) -> (r: &mut Self)
        ensures
            *r == (IndividualProcessNodeLinker { next: Id::NONE, ..*old(self) }),
            *final(self) == *final(r),
    {
        self.next = Id::NONE;
        self
    }
}

} // verus!
