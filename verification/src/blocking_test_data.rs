//! The blocking record of an individual node: which node blocks it, the
//! core-concept cursors of the last blocking test, and the two tags that tell
//! whether the test has to be repeated.

use vstd::prelude::*;
use crate::ids::{Id, Cint64, NodeId, ConDescId, CoreConceptDescriptorId};

verus! {

/// The blocking record of an individual node.
#[derive(Clone, Copy, PartialEq, Eq, Structural, Debug)]
pub struct IndividualNodeBlockingTestData {
    /// The node that blocks this one, if any.
    pub blocking_individual_node: NodeId,
    /// The last core concept descriptor added to the node's label.
    pub last_added_core_concept_descriptor: CoreConceptDescriptorId,
    /// The concept descriptor at which the last core blocking candidate test
    /// stopped.
    pub last_core_blocking_candidate_concept_descriptor: ConDescId,
    /// How many core concepts the node and its last core blocking candidate
    /// differed in.
    pub last_core_blocking_candidate_concept_node_difference: Cint64,
    /// The node-switch tag at the last test.
    pub node_switch_tag: Cint64,
    /// The concept-label modification tag at the last test.
    pub concept_label_set_modification_tag: Cint64,
}

impl IndividualNodeBlockingTestData {
    /// No blocker, no cursor, no difference, both tags 0.
    pub open spec fn is_fresh(&self) -> bool {
        &&& self.blocking_individual_node is NONE
        &&& self.last_added_core_concept_descriptor is NONE
        &&& self.last_core_blocking_candidate_concept_descriptor is NONE
        &&& self.last_core_blocking_candidate_concept_node_difference == 0
        &&& self.node_switch_tag == 0
        &&& self.concept_label_set_modification_tag == 0
    }

    pub fn new() -> (r: Self)
        ensures
            r.is_fresh(),
    {
        IndividualNodeBlockingTestData {
            blocking_individual_node: Id::NONE,
            last_added_core_concept_descriptor: Id::NONE,
            last_core_blocking_candidate_concept_descriptor: Id::NONE,
            last_core_blocking_candidate_concept_node_difference: 0,
            node_switch_tag: 0,
            concept_label_set_modification_tag: 0,
        }
    }

    /// Takes the blocker, the core-concept cursors and the difference of
    /// `prev`, or clears them without one; the tags are left as they are.
    pub fn init_block_data(&mut self, prev: Option<&IndividualNodeBlockingTestData>) -> (r: &mut Self)
        ensures
            *r == (match prev {
                Some(p) => IndividualNodeBlockingTestData {
                    blocking_individual_node: p.blocking_individual_node,
                    last_added_core_concept_descriptor: p.last_added_core_concept_descriptor,
                    last_core_blocking_candidate_concept_descriptor: p.last_core_blocking_candidate_concept_descriptor,
                    last_core_blocking_candidate_concept_node_difference:
                        p.last_core_blocking_candidate_concept_node_difference,
                    ..*old(self)
                },
                None => IndividualNodeBlockingTestData {
                    blocking_individual_node: Id::NONE,
                    last_added_core_concept_descriptor: Id::NONE,
                    last_core_blocking_candidate_concept_descriptor: Id::NONE,
                    last_core_blocking_candidate_concept_node_difference: 0,
                    ..*old(self)
                },
            }),
    {
        match prev {
            Some(p) => {
                self.blocking_individual_node = p.blocking_individual_node;
                self.last_added_core_concept_descriptor = p.last_added_core_concept_descriptor;
                self.last_core_blocking_candidate_concept_descriptor = p.last_core_blocking_candidate_concept_descriptor;
                self.last_core_blocking_candidate_concept_node_difference =
                    p.last_core_blocking_candidate_concept_node_difference;
            },
            None => {
                self.blocking_individual_node = Id::NONE;
                self.last_added_core_concept_descriptor = Id::NONE;
                self.last_core_blocking_candidate_concept_descriptor = Id::NONE;
                self.last_core_blocking_candidate_concept_node_difference = 0;
            },
        }
        self
    }

    pub fn get_blocking_individual_node(&self) -> (r: NodeId)
        ensures
            r == self.blocking_individual_node,
    {
        self.blocking_individual_node
    }

    pub fn set_blocking_individual_node(&mut self, node: NodeId) -> (r: &mut Self)
        ensures
            *r == (IndividualNodeBlockingTestData { blocking_individual_node: node, ..*old(self) }),
    {
        self.blocking_individual_node = node;
        self
    }

    /// Forgets the blocking node.
    pub fn clear_blocking_individual_node(&mut self) -> (r: &mut Self)
        ensures
            *r == (IndividualNodeBlockingTestData { blocking_individual_node: Id::NONE, ..*old(self) }),
    {
        self.blocking_individual_node = Id::NONE;
        self
    }

    pub fn get_last_added_core_concept_descriptor(&self) -> (r: CoreConceptDescriptorId)
        ensures
            r == self.last_added_core_concept_descriptor,
    {
        self.last_added_core_concept_descriptor
    }

    pub fn set_last_added_core_concept_descriptor(&mut self, d: CoreConceptDescriptorId) -> (r: &mut Self)
        ensures
            *r == (IndividualNodeBlockingTestData { last_added_core_concept_descriptor: d, ..*old(self) }),
    {
        self.last_added_core_concept_descriptor = d;
        self
    }

    pub fn get_last_core_blocking_candidate_concept_descriptor(&self) -> (r: ConDescId)
        ensures
            r == self.last_core_blocking_candidate_concept_descriptor,
    {
        self.last_core_blocking_candidate_concept_descriptor
    }

    pub fn set_last_core_blocking_candidate_concept_descriptor(&mut self, d: ConDescId) -> (r: &mut Self)
        ensures
            *r == (IndividualNodeBlockingTestData { last_core_blocking_candidate_concept_descriptor: d, ..*old(self) }),
    {
        self.last_core_blocking_candidate_concept_descriptor = d;
        self
    }

    pub fn get_last_core_blocking_candidate_concept_node_difference(&self) -> (r: Cint64)
        ensures
            r == self.last_core_blocking_candidate_concept_node_difference,
    {
        self.last_core_blocking_candidate_concept_node_difference
    }

    pub fn set_last_core_blocking_candidate_concept_node_difference(&mut self, difference: Cint64) -> (r: &mut Self)
        ensures
            *r == (IndividualNodeBlockingTestData {
                last_core_blocking_candidate_concept_node_difference: difference,
                ..*old(self)
            }),
    {
        self.last_core_blocking_candidate_concept_node_difference = difference;
        self
    }

    pub fn get_node_switch_tag(&self) -> (r: Cint64)
        ensures
            r == self.node_switch_tag,
    {
        self.node_switch_tag
    }

    /// Records `tag`; tells whether it differs from the one recorded before.
    pub fn update_node_switch_tag(&mut self, tag: Cint64) -> (r: bool)
        ensures
            r == (old(self).node_switch_tag != tag),
            *final(self) == (IndividualNodeBlockingTestData { node_switch_tag: tag, ..*old(self) }),
    {
        let updated = self.node_switch_tag != tag;
        self.node_switch_tag = tag;
        updated
    }

    /// Whether the recorded tag is at least `tag`.
    pub fn is_node_switch_tag_up_to_date(&self, tag: Cint64) -> (r: bool)
        ensures
            r == (self.node_switch_tag >= tag),
    {
        self.node_switch_tag >= tag
    }

    /// Whether `tag` is newer than the recorded one.
    pub fn is_node_switch_tag_updated(&self, tag: Cint64) -> (r: bool)
        ensures
            r == (tag > self.node_switch_tag),
    {
        tag > self.node_switch_tag
    }

    pub fn get_concept_label_set_modification_tag(&self) -> (r: Cint64)
        ensures
            r == self.concept_label_set_modification_tag,
    {
        self.concept_label_set_modification_tag
    }

    /// Records a label modification tag; tells whether it differs from the
    /// one recorded before.
    pub fn update_concept_label_set_modification_tag(&mut self, tag: Cint64) -> (r: bool)
        ensures
            r == (old(self).concept_label_set_modification_tag != tag),
            *final(self) == (IndividualNodeBlockingTestData { concept_label_set_modification_tag: tag, ..*old(self) }),
    {
        let updated = self.concept_label_set_modification_tag != tag;
        self.concept_label_set_modification_tag = tag;
        updated
    }
}

impl Default for IndividualNodeBlockingTestData {
    fn default() -> (r: Self)
        ensures
            r.is_fresh(),
    {
        Self::new()
    }
}

} // verus!
