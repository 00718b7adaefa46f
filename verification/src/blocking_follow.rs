//! The individuals that follow a node in signature blocking, stamped with the
//! blocking-follow tag current when the set was started.

use vstd::prelude::*;
use crate::ids::{Id, Cint64};
use crate::collections::IntSet;

verus! {

pub type BlockingFollowSetId = Id;

#[derive(Clone, Copy, PartialEq, Eq, Structural, Debug)]
pub struct BlockingFollowUpdateTag {
    pub blocking_follow_tag: Cint64,
}

impl BlockingFollowUpdateTag {
    pub fn new() -> (r: Self)
        ensures
            r.blocking_follow_tag == 0,
    {
        BlockingFollowUpdateTag { blocking_follow_tag: 0 }
    }

    pub fn init_blocking_follow_tag(&mut self, tag: Cint64) -> (r: &mut Self)
        ensures
            r.blocking_follow_tag == tag,
            *final(self) == *final(r),
    {
        self.blocking_follow_tag = tag;
        self
    }

    pub fn get_blocking_follow_tag(&self) -> (r: Cint64)
        ensures
            r == self.blocking_follow_tag,
    {
        self.blocking_follow_tag
    }
}

impl Default for BlockingFollowUpdateTag {
    fn default() -> (r: Self)
        ensures
            r.blocking_follow_tag == 0,
    {
        Self::new()
    }
}

pub struct BlockingFollowSet {
    pub follow_set: IntSet,
    pub update_tag: BlockingFollowUpdateTag,
}

impl View for BlockingFollowSet {
    type V = Set<i64>;

    open spec fn view(&self) -> Set<i64> {
        self.follow_set@
    }
}

impl BlockingFollowSet {
    pub fn new() -> (r: Self)
        ensures
            r@ == Set::<i64>::empty(),
            r.update_tag.blocking_follow_tag == 0,
    {
        BlockingFollowSet { follow_set: IntSet::new(), update_tag: BlockingFollowUpdateTag::new() }
    }

    /// Takes the followers and the tag of `sig_block_follow_set`, or starts
    /// empty with the tag `current_blocking_follow_tag`.
    pub fn init_blocking_follow_set(
        &mut self,
        sig_block_follow_set: Option<&BlockingFollowSet>,
        current_blocking_follow_tag: Cint64,
    ) -> (r: &mut Self)
        ensures
            match sig_block_follow_set {
                Some(s) => r@ == s@ && r.update_tag.blocking_follow_tag == s.update_tag.blocking_follow_tag,
                None => r@ == Set::<i64>::empty() && r.update_tag.blocking_follow_tag == current_blocking_follow_tag,
            },
            *final(self) == *final(r),
    {
        match sig_block_follow_set {
            Some(s) => {
                self.follow_set = s.follow_set.copy();
                let tag = s.get_blocking_follow_tag();
                self.update_tag.init_blocking_follow_tag(tag);
            },
            None => {
                self.follow_set.clear();
                self.update_tag.init_blocking_follow_tag(current_blocking_follow_tag);
            },
        }
        self
    }

    /// Adds a follower; tells whether it was new.
    pub fn insert(&mut self, individual_node_id: Cint64) -> (r: bool)
        ensures
            final(self)@ == old(self)@.insert(individual_node_id),
            r == !old(self)@.contains(individual_node_id),
            final(self).update_tag == old(self).update_tag,
    {
        self.follow_set.insert(individual_node_id)
    }

    /// Removes a follower; tells whether it was there.
    pub fn remove(&mut self, individual_node_id: Cint64) -> (r: bool)
        ensures
            final(self)@ == old(self)@.remove(individual_node_id),
            r == old(self)@.contains(individual_node_id),
            final(self).update_tag == old(self).update_tag,
    {
        self.follow_set.remove(&individual_node_id)
    }

    pub fn is_empty(&self) -> (r: bool)
        ensures
            r == (self@ =~= Set::<i64>::empty()),
    {
        self.follow_set.is_empty()
    }

    pub fn contains(&self, individual_node_id: Cint64) -> (r: bool)
        ensures
            r == self@.contains(individual_node_id),
    {
        self.follow_set.contains(&individual_node_id)
    }

    /// The followers, each once if the set was built by insertion.
    pub fn iter_snapshot(&self) -> (r: Vec<Cint64>)
        ensures
            forall|x: i64| #[trigger] r@.contains(x) == self@.contains(x),
            r@ == self.follow_set.elems@,
    {
        self.follow_set.to_vec()
    }

    pub fn get_blocking_follow_tag(&self) -> (r: Cint64)
        ensures
            r == self.update_tag.blocking_follow_tag,
    {
        self.update_tag.get_blocking_follow_tag()
    }
}

impl Default for BlockingFollowSet {
    fn default() -> (r: Self)
        ensures
            r@ == Set::<i64>::empty(),
            r.update_tag.blocking_follow_tag == 0,
    {
        Self::new()
    }
}

} // verus!
