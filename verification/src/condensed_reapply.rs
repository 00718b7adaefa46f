//! The dynamic reapply queue of a label-set entry: the head of a chain of
//! condensed reapply descriptors, newest first.

use vstd::prelude::*;
use crate::ids::{Id, ConDescId, valid_in};
use crate::chain::{walk, chain_len_is, chain_ok, chain_len, lemma_chain_len};
use crate::context::{ProcessContext, ArenaKind};
use crate::models::{CondensedReapplyConceptDescriptor, CondensedReapplyQueueIterator};

verus! {

/// The head of a chain of condensed reapply descriptors.
#[derive(Clone, Copy, PartialEq, Eq, Structural, Debug)]
pub struct CondensedReapplyQueue {
    pub dynamic_pos_neg_reapply_des_linker: Id,
}

/// Whether one of the first `n` descriptors of the chain from `head` is for
/// concept descriptor `cd`.
pub open spec fn chain_has_descriptor(
    descs: Seq<CondensedReapplyConceptDescriptor>,
    nexts: Seq<Id>,
    head: Id,
    n: nat,
    cd: ConDescId,
) -> bool {
    exists|k: nat| k < n && (#[trigger] descs[walk(nexts, head, k).index()]).concept_descriptor == cd
}

impl CondensedReapplyQueue {
    /// An empty queue.
    pub fn new() -> (r: Self)
        ensures
            r.dynamic_pos_neg_reapply_des_linker == Id::NONE,
    {
        CondensedReapplyQueue { dynamic_pos_neg_reapply_des_linker: Id::NONE }
    }

    /// Shares the chain of `prev_reapply_queue`, or empties the queue.
    pub fn init_reapply_queue(&mut self, prev_reapply_queue: Option<&CondensedReapplyQueue>) -> (r: &mut Self)
        ensures
            r.dynamic_pos_neg_reapply_des_linker == (match prev_reapply_queue {
                Some(p) => p.dynamic_pos_neg_reapply_des_linker,
                None => Id::NONE,
            }),
            *final(self) == *final(r),
    {
        match prev_reapply_queue {
            Some(prev) => {
                self.dynamic_pos_neg_reapply_des_linker = prev.dynamic_pos_neg_reapply_des_linker;
            },
            None => {
                self.dynamic_pos_neg_reapply_des_linker = Id::NONE;
            },
        }
        self
    }

    /// Whether the queue holds no descriptor.
    pub fn is_empty(&self) -> (r: bool)
        ensures
            r == (self.dynamic_pos_neg_reapply_des_linker is NONE),
    {
        self.dynamic_pos_neg_reapply_des_linker.is_none()
    }

    /// The head of the chain.
    pub fn dynamic_pos_neg_reapply_des_linker(&self) -> (r: Id)
        ensures
            r == self.dynamic_pos_neg_reapply_des_linker,
    {
        self.dynamic_pos_neg_reapply_des_linker
    }

    /// Whether a descriptor of the chain is for concept descriptor
    /// `concept_descriptor`.
    pub fn has_concept_descriptor(&self, ctx: &ProcessContext, concept_descriptor: ConDescId) -> (r: bool)
        requires
            chain_ok(ctx.cond_reapply_con_desc_nexts(), self.dynamic_pos_neg_reapply_des_linker),
        ensures
            r == chain_has_descriptor(ctx.cond_reapply_con_descs@, ctx.cond_reapply_con_desc_nexts(),
                self.dynamic_pos_neg_reapply_des_linker,
                chain_len(ctx.cond_reapply_con_desc_nexts(), self.dynamic_pos_neg_reapply_des_linker),
                concept_descriptor),
    {
        let ghost nexts = ctx.cond_reapply_con_desc_nexts();
        let ghost descs = ctx.cond_reapply_con_descs@;
        let ghost head = self.dynamic_pos_neg_reapply_des_linker;
        let ghost n = chain_len(nexts, head);
        proof {
            lemma_chain_len(nexts, head, n);
        }
        let mut des_linker = self.dynamic_pos_neg_reapply_des_linker;
        let ghost mut k: nat = 0;
        while des_linker.is_some()
            invariant
                nexts == ctx.cond_reapply_con_desc_nexts(),
                descs == ctx.cond_reapply_con_descs@,
                chain_len_is(nexts, head, n),
                n == chain_len(nexts, head),
                head == self.dynamic_pos_neg_reapply_des_linker,
                k <= n,
                des_linker == walk(nexts, head, k),
                forall|j: nat| j < k ==> (#[trigger] descs[walk(nexts, head, j).index()]).concept_descriptor
                    != concept_descriptor,
            decreases n - k,
        {
            assert(k < n);
            assert(valid_in(walk(nexts, head, k), nexts.len()));
            assert(walk(nexts, head, k + 1) == nexts[des_linker.index()]);
            let d = ctx.cond_reapply_con_desc(des_linker);
            if d.get_concept_descriptor() == concept_descriptor {
                assert(descs[walk(nexts, head, k).index()].concept_descriptor == concept_descriptor);
                assert(chain_has_descriptor(descs, nexts, head, n, concept_descriptor));
                return true;
            }
            des_linker = d.get_next();
            proof {
                k = k + 1;
            }
        }
        proof {
            if k < n {
                assert(valid_in(walk(nexts, head, k), nexts.len()));
            }
        }
        false
    }

    /// Puts descriptor `con_pro_des` in front of the chain; an absent
    /// descriptor changes nothing.
    pub fn add_reapply_concept_descriptor(&mut self, ctx: &mut ProcessContext, con_pro_des: Id) -> (r: &mut Self)
        requires
            con_pro_des is At ==> valid_in(con_pro_des, old(ctx).cond_reapply_con_descs@.len()),
        ensures
            ({
                let descs = old(ctx).cond_reapply_con_descs@;
                if con_pro_des is At {
                    &&& r.dynamic_pos_neg_reapply_des_linker == con_pro_des
                    &&& final(ctx).cond_reapply_con_descs@ == descs.update(con_pro_des.index(),
                        CondensedReapplyConceptDescriptor {
                            next: old(self).dynamic_pos_neg_reapply_des_linker,
                            ..descs[con_pro_des.index()]
                        })
                    &&& final(ctx).agrees_except(*old(ctx), set![ArenaKind::CondReapplyConDescs])
                } else {
                    &&& *r == *old(self)
                    &&& final(ctx).agrees_except(*old(ctx), Set::empty())
                }
            }),
            *final(self) == *final(r),
    {
        if con_pro_des.is_some() {
            let head = self.dynamic_pos_neg_reapply_des_linker;
            ctx.cond_reapply_con_desc_mut(con_pro_des).next = head;
            self.dynamic_pos_neg_reapply_des_linker = con_pro_des;
        }
        self
    }

    /// A walk over the chain yielding the descriptors of the chosen
    /// polarities; with `clear_dynamic_reapply_queue` the queue is emptied.
    pub fn get_iterator(
        &mut self,
        _ctx: &ProcessContext,
        positive_descriptors: bool,
        negative_descriptors: bool,
        clear_dynamic_reapply_queue: bool,
    ) -> (r: CondensedReapplyQueueIterator)
        ensures
            r == (CondensedReapplyQueueIterator {
                des_linker: old(self).dynamic_pos_neg_reapply_des_linker,
                positive_descriptors,
                negative_descriptors,
            }),
            final(self).dynamic_pos_neg_reapply_des_linker == (if clear_dynamic_reapply_queue {
                Id::NONE
            } else {
                old(self).dynamic_pos_neg_reapply_des_linker
            }),
    {
        let it = CondensedReapplyQueueIterator::new_pos_neg(
            self.dynamic_pos_neg_reapply_des_linker,
            positive_descriptors,
            negative_descriptors,
        );
        if clear_dynamic_reapply_queue {
            self.dynamic_pos_neg_reapply_des_linker = Id::NONE;
        }
        it
    }

    /// A walk over only the positive, or only the negative, descriptors.
    pub fn get_iterator_only_positive(
        &mut self,
        ctx: &ProcessContext,
        only_positive_descriptors: bool,
        clear_dynamic_reapply_queue: bool,
    ) -> (r: CondensedReapplyQueueIterator)
        ensures
            r == (CondensedReapplyQueueIterator {
                des_linker: old(self).dynamic_pos_neg_reapply_des_linker,
                positive_descriptors: only_positive_descriptors,
                negative_descriptors: !only_positive_descriptors,
            }),
            final(self).dynamic_pos_neg_reapply_des_linker == (if clear_dynamic_reapply_queue {
                Id::NONE
            } else {
                old(self).dynamic_pos_neg_reapply_des_linker
            }),
    {
        self.get_iterator(ctx, only_positive_descriptors, !only_positive_descriptors, clear_dynamic_reapply_queue)
    }
}

impl Default for CondensedReapplyQueue {
    fn default() -> (r: Self)
        ensures
            r.dynamic_pos_neg_reapply_des_linker == Id::NONE,
    {
        Self::new()
    }
}

} // verus!
