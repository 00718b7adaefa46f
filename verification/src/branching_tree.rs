//! The branching tree of a satisfiability task: its root, its current and
//! last current branch node, and the independent base dependency node.

use vstd::prelude::*;
use crate::ids::{Id, Cint64, INVALID, BranchNodeId, DependencyId};

verus! {

pub type BranchingTreeId = Id;

#[derive(Clone, Copy, PartialEq, Eq, Structural, Debug)]
pub struct BranchingTree {
    pub process_context: Cint64,
    pub root_node: BranchNodeId,
    pub curr_node: BranchNodeId,
    pub prev_curr_node: BranchNodeId,
    pub base_dep_node: DependencyId,
}

impl BranchingTree {
    pub open spec fn spec_new(process_context: Cint64) -> Self {
        BranchingTree {
            process_context,
            root_node: Id::NONE,
            curr_node: Id::NONE,
            prev_curr_node: Id::NONE,
            base_dep_node: Id::NONE,
        }
    }

    pub fn new(process_context: Cint64) -> (r: Self)
        ensures
            r == Self::spec_new(process_context),
    {
        BranchingTree {
            process_context,
            root_node: Id::NONE,
            curr_node: Id::NONE,
            prev_curr_node: Id::NONE,
            base_dep_node: Id::NONE,
        }
    }

    /// Starts a tree for a task: without a current node, continuing from the
    /// last current node, root and base dependency of `tree`, if given.
    pub fn init_branching_tree(&mut self, tree: Option<&BranchingTree>) -> (r: &mut Self)
        ensures
            *r == (match tree {
                Some(t) => BranchingTree {
                    process_context: old(self).process_context,
                    root_node: t.root_node,
                    curr_node: Id::NONE,
                    prev_curr_node: t.prev_curr_node,
                    base_dep_node: t.base_dep_node,
                },
                None => Self::spec_new(old(self).process_context),
            }),
            *final(self) == *final(r),
    {
        self.root_node = Id::NONE;
        self.curr_node = Id::NONE;
        self.prev_curr_node = Id::NONE;
        self.base_dep_node = Id::NONE;
        if let Some(tree) = tree {
            self.prev_curr_node = tree.prev_curr_node;
            self.root_node = tree.root_node;
            self.base_dep_node = tree.base_dep_node;
        }
        self
    }

    /// The current branch node, as far as the tree itself knows it.
    pub fn get_branch_tree_node(&self) -> (r: BranchNodeId)
        ensures
            r == self.curr_node,
    {
        self.curr_node
    }

    /// The base dependency node, as far as the tree itself knows it.
    pub fn get_base_dependency_node(&self) -> (r: DependencyId)
        ensures
            r == self.base_dep_node,
    {
        self.base_dep_node
    }
}

impl Default for BranchingTree {
    fn default() -> (r: Self)
        ensures
            r == Self::spec_new(INVALID),
    {
        Self::new(INVALID)
    }
}

} // verus!
