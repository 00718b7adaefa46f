//! Blocking candidates of signature and dynamic blocking: the per-concept
//! candidate hashes, localised lazily from a parent task, the candidate data
//! they lead to (an ordered map of candidate nodes, or a linker chain), the
//! walk over the candidates of a node, and the signature-blocking and
//! reusing expansion records of a node.

use vstd::prelude::*;
use crate::ids::{Id, Cint64, INVALID, NodeId, ConDescId, ConceptId, TrackPointId, valid_in};
use crate::collections::{IntMap, IntSet, PairMap, PairKey, ascending, entries_map, lemma_same_keys};
use crate::context::{ProcessContext, ArenaKind};
use crate::models::ConceptLabelSetModificationTag;

verus! {

pub type BlockingIndividualNodeCandidateHashId = Id;
pub type BlockingIndividualNodeCandidateDataId = Id;
pub type BlockingIndividualNodeLinkerId = Id;
pub type BlockingIndividualNodeLinkedCandidateDataId = Id;
pub type BlockingIndividualNodeLinkedCandidateHashId = Id;
pub type SignatureBlockingIndividualNodeConceptExpansionDataId = Id;
pub type ReusingIndividualNodeConceptExpansionDataId = Id;

/// One candidate node of a linked candidate chain, with the subset
/// descriptor that last failed for it.
#[derive(Clone, Copy, PartialEq, Eq, Structural, Debug)]
pub struct BlockingIndividualNodeLinker {
    pub candidate_individual_node: NodeId,
    pub next: BlockingIndividualNodeLinkerId,
    pub last_failed_subset_con_des: ConDescId,
}

impl BlockingIndividualNodeLinker {
    pub open spec fn spec_new() -> Self {
        BlockingIndividualNodeLinker {
            candidate_individual_node: Id::NONE,
            next: Id::NONE,
            last_failed_subset_con_des: Id::NONE,
        }
    }

    pub fn new() -> (r: Self)
        ensures
            r == Self::spec_new(),
    {
        BlockingIndividualNodeLinker {
            candidate_individual_node: Id::NONE,
            next: Id::NONE,
            last_failed_subset_con_des: Id::NONE,
        }
    }

    /// Takes the candidate and the failed descriptor of `prev`, or clears
    /// both; the linker is unlinked either way.
    pub fn init_blocking_individual_node_linker_from(&mut self, prev: Option<&BlockingIndividualNodeLinker>) -> (r: &mut Self)
        ensures
            *r == (match prev {
                Some(p) => BlockingIndividualNodeLinker {
                    candidate_individual_node: p.candidate_individual_node,
                    next: Id::NONE,
                    last_failed_subset_con_des: p.last_failed_subset_con_des,
                },
                None => Self::spec_new(),
            }),
            *final(self) == *final(r),
    {
        match prev {
            Some(p) => {
                self.candidate_individual_node = p.candidate_individual_node;
                self.last_failed_subset_con_des = p.last_failed_subset_con_des;
                self.next = Id::NONE;
            },
            None => {
                self.candidate_individual_node = Id::NONE;
                self.last_failed_subset_con_des = Id::NONE;
                self.next = Id::NONE;
            },
        }
        self
    }

    /// Makes the linker an unlinked linker of candidate `indi_node`.
    pub fn init_blocking_individual_node_linker(&mut self, indi_node: NodeId) -> (r: &mut Self)
        ensures
            *r == (BlockingIndividualNodeLinker {
                candidate_individual_node: indi_node,
                next: Id::NONE,
                last_failed_subset_con_des: Id::NONE,
            }),
            *final(self) == *final(r),
    {
        self.last_failed_subset_con_des = Id::NONE;
        self.candidate_individual_node = indi_node;
        self.next = Id::NONE;
        self
    }

    pub fn get_last_failed_subset_concept_descriptor(&self) -> (r: ConDescId)
        ensures
            r == self.last_failed_subset_con_des,
    {
        self.last_failed_subset_con_des
    }

    pub fn set_last_failed_subset_concept_descriptor(&mut self, con_des: ConDescId) -> (r: &mut Self)
        ensures
            *r == (BlockingIndividualNodeLinker { last_failed_subset_con_des: con_des, ..*old(self) }),
            *final(self) == *final(r),
    {
        self.last_failed_subset_con_des = con_des;
        self
    }

    pub fn get_candidate_individual_node(&self) -> (r: NodeId)
        ensures
            r == self.candidate_individual_node,
    {
        self.candidate_individual_node
    }

    pub fn set_candidate_individual_node(&mut self, indi_node: NodeId) -> (r: &mut Self)
        ensures
            *r == (BlockingIndividualNodeLinker { candidate_individual_node: indi_node, ..*old(self) }),
            *final(self) == *final(r),
    {
        self.candidate_individual_node = indi_node;
        self
    }

    pub fn get_next(&self) -> (r: BlockingIndividualNodeLinkerId)
        ensures
            r == self.next,
    {
        self.next
    }

    /// Links the linker to `next`.
    pub fn append(&mut self, next: BlockingIndividualNodeLinkerId) -> (r: &mut Self)
        ensures
            *r == (BlockingIndividualNodeLinker { next: next, ..*old(self) }),
            *final(self) == *final(r),
    {
        self.next = next;
        self
    }

}

impl Default for BlockingIndividualNodeLinker {
    fn default() -> (r: Self)
        ensures
            r == Self::spec_new(),
    {
        Self::new()
    }
}

/// The candidates of one concept as a linker chain, newest first, with
/// their count.
#[derive(Clone, Copy, PartialEq, Eq, Structural, Debug)]
pub struct BlockingIndividualNodeLinkedCandidateData {
    pub cand_linker: BlockingIndividualNodeLinkerId,
    pub candidate_count: Cint64,
    pub context: Cint64,
    pub mem_man: Cint64,
}

impl BlockingIndividualNodeLinkedCandidateData {
    pub open spec fn spec_new(context: Cint64) -> Self {
        BlockingIndividualNodeLinkedCandidateData { cand_linker: Id::NONE, candidate_count: 0, context, mem_man: INVALID }
    }

    pub fn new(context: Cint64) -> (r: Self)
        ensures
            r == Self::spec_new(context),
    {
        BlockingIndividualNodeLinkedCandidateData { cand_linker: Id::NONE, candidate_count: 0, context, mem_man: INVALID }
    }

    /// Shares the chain and the count of `prev`, or starts without candidates.
    pub fn init_blocking_candidate_data(&mut self, prev: Option<&BlockingIndividualNodeLinkedCandidateData>) -> (r: &mut Self)
        ensures
            *r == (match prev {
                Some(p) => BlockingIndividualNodeLinkedCandidateData {
                    cand_linker: p.cand_linker,
                    candidate_count: p.candidate_count,
                    ..*old(self)
                },
                None => BlockingIndividualNodeLinkedCandidateData { cand_linker: Id::NONE, candidate_count: 0, ..*old(self) },
            }),
            *final(self) == *final(r),
    {
        match prev {
            Some(p) => {
                self.candidate_count = p.candidate_count;
                self.cand_linker = p.cand_linker;
            },
            None => {
                self.candidate_count = 0;
                self.cand_linker = Id::NONE;
            },
        }
        self
    }

    pub fn get_blocking_candidates_individual_node_linker(&self) -> (r: BlockingIndividualNodeLinkerId)
        ensures
            r == self.cand_linker,
    {
        self.cand_linker
    }

    pub fn get_candidate_count(&self) -> (r: Cint64)
        ensures
            r == self.candidate_count,
    {
        self.candidate_count
    }

    pub fn set_candidate_count(&mut self, cand_count: Cint64) -> (r: &mut Self)
        ensures
            *r == (BlockingIndividualNodeLinkedCandidateData { candidate_count: cand_count, ..*old(self) }),
            *final(self) == *final(r),
    {
        self.candidate_count = cand_count;
        self
    }

}

impl Default for BlockingIndividualNodeLinkedCandidateData {
    fn default() -> (r: Self)
        ensures
            r == Self::spec_new(INVALID),
    {
        Self::new(INVALID)
    }
}

/// The bucket of one concept in a linked candidate hash: the data localised
/// in this satisfiability test, and the data in use, its own or the parent's.
#[derive(Clone, Copy, PartialEq, Eq, Structural, Debug)]
pub struct BlockingLinkedCandidateHashData {
    pub candidate_indi_data: BlockingIndividualNodeLinkedCandidateDataId,
    pub prev_candidate_indi_data: BlockingIndividualNodeLinkedCandidateDataId,
}

impl BlockingLinkedCandidateHashData {
    pub open spec fn spec_new() -> Self {
        BlockingLinkedCandidateHashData { candidate_indi_data: Id::NONE, prev_candidate_indi_data: Id::NONE }
    }
}

impl Default for BlockingLinkedCandidateHashData {
    fn default() -> (r: Self)
        ensures
            r == Self::spec_new(),
    {
        BlockingLinkedCandidateHashData { candidate_indi_data: Id::NONE, prev_candidate_indi_data: Id::NONE }
    }
}

/// The bucket a localised copy of a hash starts with: nothing localised, the
/// data in use kept.
pub open spec fn unlocalized_linked(d: BlockingLinkedCandidateHashData) -> BlockingLinkedCandidateHashData {
    BlockingLinkedCandidateHashData { candidate_indi_data: Id::NONE, prev_candidate_indi_data: d.prev_candidate_indi_data }
}

/// Linked candidate data per concept and polarity.
pub struct BlockingIndividualNodeLinkedCandidateHash {
    pub context: Cint64,
    pub mem_man: Cint64,
    pub block_candidate_hash: PairMap<BlockingLinkedCandidateHashData>,
}

/// What looking up the linked candidate data of bucket `key` in hash `this`
/// leaves: `r` and the context `new_ctx` after the call on `old_ctx`.
pub open spec fn linked_lookup_outcome(old_ctx: ProcessContext, new_ctx: ProcessContext, this: Id, key: PairKey, create: bool, r: Id) -> bool {
    let hashes = old_ctx.blocking_indi_node_linked_cand_hashes@;
    let datas = old_ctx.blocking_indi_node_linked_cand_datas@;
    let h = hashes[this.index()];
    let d0 = if h.block_candidate_hash@.contains_key(key) { h.block_candidate_hash@[key] } else {
        BlockingLinkedCandidateHashData::spec_new() };
    if !create {
        &&& r == (if h.block_candidate_hash@.contains_key(key) {
            h.block_candidate_hash@[key].prev_candidate_indi_data } else { Id::NONE })
        &&& new_ctx.agrees_except(old_ctx, Set::empty())
    } else if d0.candidate_indi_data is At {
        &&& r == d0.prev_candidate_indi_data
        &&& linked_hash_updated(hashes, new_ctx.blocking_indi_node_linked_cand_hashes@, this.index(),
            h.block_candidate_hash@.insert(key, d0))
        &&& new_ctx.agrees_except(old_ctx, set![ArenaKind::BlockingLinkedCandHashes])
    } else {
        let fresh = BlockingIndividualNodeLinkedCandidateData::spec_new(INVALID);
        &&& r == Id::At(datas.len() as usize)
        &&& new_ctx.blocking_indi_node_linked_cand_datas@ == datas.push(
            if d0.prev_candidate_indi_data is At {
                BlockingIndividualNodeLinkedCandidateData {
                    cand_linker: datas[d0.prev_candidate_indi_data.index()].cand_linker,
                    candidate_count: datas[d0.prev_candidate_indi_data.index()].candidate_count,
                    ..fresh
                }
            } else {
                fresh
            })
        &&& linked_hash_updated(hashes, new_ctx.blocking_indi_node_linked_cand_hashes@, this.index(),
            h.block_candidate_hash@.insert(key, BlockingLinkedCandidateHashData {
                candidate_indi_data: r, prev_candidate_indi_data: r }))
        &&& new_ctx.agrees_except(old_ctx,
            set![ArenaKind::BlockingLinkedCandHashes, ArenaKind::BlockingLinkedCandDatas])
    }
}

impl BlockingIndividualNodeLinkedCandidateHash {
    pub fn new(context: Cint64) -> (r: Self)
        ensures
            r.context == context,
            r.mem_man == INVALID,
            r.block_candidate_hash@ == Map::<PairKey, BlockingLinkedCandidateHashData>::empty(),
    {
        BlockingIndividualNodeLinkedCandidateHash { context, mem_man: INVALID, block_candidate_hash: PairMap::new() }
    }

    /// Starts from the buckets of `prev`, each with nothing localised, or
    /// without buckets.
    pub fn init_blocking_individual_node_candidate_hash(
        &mut self,
        prev: Option<&BlockingIndividualNodeLinkedCandidateHash>,
    ) -> (r: &mut Self)
        ensures
            r.context == old(self).context,
            r.mem_man == old(self).mem_man,
            r.block_candidate_hash@ == (match prev {
                Some(p) => p.block_candidate_hash@.map_values(|d: BlockingLinkedCandidateHashData| unlocalized_linked(d)),
                None => Map::<PairKey, BlockingLinkedCandidateHashData>::empty(),
            }),
            *final(self) == *final(r),
    {
        match prev {
            Some(p) => {
                let s = &p.block_candidate_hash.entries;
                let mut entries: Vec<(PairKey, BlockingLinkedCandidateHashData)> = Vec::new();
                let mut i: usize = 0;
                while i < s.len()
                    invariant
                        0 <= i <= s@.len(),
                        entries@.len() == i,
                        forall|j: int| 0 <= j < i ==> #[trigger] entries@[j] == (s@[j].0, unlocalized_linked(s@[j].1)),
                    decreases s@.len() - i,
                {
                    let (k, d) = s[i];
                    entries.push((k, BlockingLinkedCandidateHashData {
                        candidate_indi_data: Id::NONE,
                        prev_candidate_indi_data: d.prev_candidate_indi_data,
                    }));
                    i = i + 1;
                }
                proof {
                    let t = entries@;
                    let m = p.block_candidate_hash@.map_values(|d: BlockingLinkedCandidateHashData| unlocalized_linked(d));
                    assert forall|k: PairKey| #[trigger] entries_map(t).contains_key(k) == m.contains_key(k) by {
                        if entries_map(s@).contains_key(k) {
                            lemma_same_keys(s@, t, k);
                        }
                        if entries_map(t).contains_key(k) {
                            lemma_same_keys(t, s@, k);
                        }
                    }
                    assert forall|k: PairKey| entries_map(t).contains_key(k) implies entries_map(t)[k] == m[k] by {
                        lemma_same_keys(t, s@, k);
                    }
                    assert(entries_map(t) =~= m);
                }
                self.block_candidate_hash = PairMap { entries };
            },
            None => {
                self.block_candidate_hash.clear();
            },
        }
        self
    }

    /// The linked candidate data of `(initialization_concept,
    /// concept_negation)`. With `create`, a bucket without localised data
    /// gets new data, initialised from the data in use, that becomes both
    /// localised and in use; a bucket with localised data yields the data in
    /// use. Without `create`, the data in use, if any.
    pub fn get_blocking_individual_candidate_data(
        ctx: &mut ProcessContext,
        this: BlockingIndividualNodeLinkedCandidateHashId,
        initialization_concept: ConceptId,
        concept_negation: bool,
        create: bool,
    ) -> (r: BlockingIndividualNodeLinkedCandidateDataId)
        requires
            valid_in(this, old(ctx).blocking_indi_node_linked_cand_hashes@.len()),
            old(ctx).blocking_indi_node_linked_cand_datas@.len() < usize::MAX,
            ({
                let m = old(ctx).blocking_indi_node_linked_cand_hashes@[this.index()].block_candidate_hash@;
                let key = (initialization_concept, concept_negation);
                create && m.contains_key(key) && m[key].candidate_indi_data == Id::NONE
                    && m[key].prev_candidate_indi_data is At
                    ==> valid_in(m[key].prev_candidate_indi_data, old(ctx).blocking_indi_node_linked_cand_datas@.len())
            }),
        ensures
            linked_lookup_outcome(*old(ctx), *final(ctx), this, (initialization_concept, concept_negation), create, r),
    {
        let key = (initialization_concept, concept_negation);
        if create {
            let d0 = match ctx.blocking_indi_node_linked_cand_hash(this).block_candidate_hash.get(&key) {
                Some(d) => *d,
                None => BlockingLinkedCandidateHashData::default(),
            };
            if d0.candidate_indi_data.is_none() {
                let mut fresh = BlockingIndividualNodeLinkedCandidateData::new(INVALID);
                if d0.prev_candidate_indi_data.is_some() {
                    let prev = *ctx.blocking_indi_node_linked_cand_data(d0.prev_candidate_indi_data);
                    fresh.init_blocking_candidate_data(Some(&prev));
                } else {
                    fresh.init_blocking_candidate_data(None);
                }
                let new_data = ctx.alloc_blocking_indi_node_linked_cand_data(fresh);
                ctx.blocking_indi_node_linked_cand_hash_mut(this).block_candidate_hash.insert(
                    key,
                    BlockingLinkedCandidateHashData { candidate_indi_data: new_data, prev_candidate_indi_data: new_data },
                );
                new_data
            } else {
                ctx.blocking_indi_node_linked_cand_hash_mut(this).block_candidate_hash.insert(key, d0);
                d0.prev_candidate_indi_data
            }
        } else {
            match ctx.blocking_indi_node_linked_cand_hash(this).block_candidate_hash.get(&key) {
                Some(d) => d.prev_candidate_indi_data,
                None => Id::NONE,
            }
        }
    }

    /// The linked candidate data of the concept and polarity of descriptor
    /// `initialization_con_des`.
    pub fn get_blocking_individual_candidate_data_for_concept_descriptor(
        ctx: &mut ProcessContext,
        this: BlockingIndividualNodeLinkedCandidateHashId,
        initialization_con_des: ConDescId,
        create: bool,
    ) -> (r: BlockingIndividualNodeLinkedCandidateDataId)
        requires
            valid_in(initialization_con_des, old(ctx).con_descs@.len()),
            valid_in(this, old(ctx).blocking_indi_node_linked_cand_hashes@.len()),
            old(ctx).blocking_indi_node_linked_cand_datas@.len() < usize::MAX,
            ({
                let cd = old(ctx).con_descs@[initialization_con_des.index()];
                let m = old(ctx).blocking_indi_node_linked_cand_hashes@[this.index()].block_candidate_hash@;
                let key = (cd.concept, cd.negated);
                create && m.contains_key(key) && m[key].candidate_indi_data == Id::NONE
                    && m[key].prev_candidate_indi_data is At
                    ==> valid_in(m[key].prev_candidate_indi_data, old(ctx).blocking_indi_node_linked_cand_datas@.len())
            }),
        ensures
            ({
                let cd = old(ctx).con_descs@[initialization_con_des.index()];
                linked_lookup_outcome(*old(ctx), *final(ctx), this, (cd.concept, cd.negated), create, r)
            }),
    {
        let concept = ctx.con_desc(initialization_con_des).get_concept();
        let negation = ctx.con_desc(initialization_con_des).is_negated();
        Self::get_blocking_individual_candidate_data(ctx, this, concept, negation, create)
    }
}

impl Default for BlockingIndividualNodeLinkedCandidateHash {
    fn default() -> (r: Self)
        ensures
            r.context == INVALID,
            r.mem_man == INVALID,
            r.block_candidate_hash@ == Map::<PairKey, BlockingLinkedCandidateHashData>::empty(),
    {
        Self::new(INVALID)
    }
}

/// Element `idx` of the linked candidate hashes now has the buckets `m`;
/// its handles and every other element are kept.
pub open spec fn linked_hash_updated(
    old_hashes: Seq<BlockingIndividualNodeLinkedCandidateHash>,
    new_hashes: Seq<BlockingIndividualNodeLinkedCandidateHash>,
    idx: int,
    m: Map<PairKey, BlockingLinkedCandidateHashData>,
) -> bool {
    &&& new_hashes.len() == old_hashes.len()
    &&& forall|i: int| 0 <= i < old_hashes.len() && i != idx ==> #[trigger] new_hashes[i] == old_hashes[i]
    &&& new_hashes[idx].block_candidate_hash@ == m
    &&& new_hashes[idx].context == old_hashes[idx].context
    &&& new_hashes[idx].mem_man == old_hashes[idx].mem_man
}
/// The candidate nodes of one concept, ordered by descending individual
/// identifier (keyed by the negated identifier), with the tags of the last
/// node switch and label modification they were checked against.
pub struct BlockingIndividualNodeCandidateData {
    pub node_switch_tag: Cint64,
    pub modification_tag: ConceptLabelSetModificationTag,
    pub candidate_indi_map: IntMap<NodeId>,
    pub max_valid_individual_id: Cint64,
    pub context: Cint64,
    pub mem_man: Cint64,
}

impl BlockingIndividualNodeCandidateData {
    /// No candidates, every tag 0.
    pub open spec fn is_fresh(&self, context: Cint64) -> bool {
        &&& self.node_switch_tag == 0
        &&& self.modification_tag.modification_tag == 0
        &&& self.candidate_indi_map.entries@.len() == 0
        &&& self.max_valid_individual_id == 0
        &&& self.context == context
        &&& self.mem_man == INVALID
    }

    pub fn new(context: Cint64) -> (r: Self)
        ensures
            r.is_fresh(context),
    {
        BlockingIndividualNodeCandidateData {
            node_switch_tag: 0,
            modification_tag: ConceptLabelSetModificationTag::new(),
            candidate_indi_map: IntMap::new(),
            max_valid_individual_id: 0,
            context,
            mem_man: INVALID,
        }
    }

    pub fn get_node_switch_tag(&self) -> (r: Cint64)
        ensures
            r == self.node_switch_tag,
    {
        self.node_switch_tag
    }

    pub fn set_node_switch_tag(&mut self, node_switch_tag: Cint64) -> (r: &mut Self)
        ensures
            *r == (BlockingIndividualNodeCandidateData { node_switch_tag: node_switch_tag, ..*old(self) }),
            *final(self) == *final(r),
    {
        self.node_switch_tag = node_switch_tag;
        self
    }

    pub fn init_node_switch_tag(&mut self, node_switch_tag: Cint64) -> (r: &mut Self)
        ensures
            *r == (BlockingIndividualNodeCandidateData { node_switch_tag: node_switch_tag, ..*old(self) }),
            *final(self) == *final(r),
    {
        self.node_switch_tag = node_switch_tag;
        self
    }

    /// Whether `node_switch_tag` is newer than the recorded one.
    pub fn is_node_switch_tag_updated(&self, node_switch_tag: Cint64) -> (r: bool)
        ensures
            r == (node_switch_tag > self.node_switch_tag),
    {
        node_switch_tag > self.node_switch_tag
    }

    /// Whether the recorded tag is at least `node_switch_tag`.
    pub fn is_node_switch_tag_up_to_date(&self, node_switch_tag: Cint64) -> (r: bool)
        ensures
            r == (self.node_switch_tag >= node_switch_tag),
    {
        self.node_switch_tag >= node_switch_tag
    }

    /// Records `node_switch_tag`; tells whether it differs from the one
    /// recorded before.
    pub fn update_node_switch_tag(&mut self, node_switch_tag: Cint64) -> (r: bool)
        ensures
            r == (old(self).node_switch_tag != node_switch_tag),
            *final(self) == (BlockingIndividualNodeCandidateData { node_switch_tag, ..*old(self) }),
    {
        let updated = self.node_switch_tag != node_switch_tag;
        self.node_switch_tag = node_switch_tag;
        updated
    }

    pub fn get_concept_label_set_modification_tag(&self) -> (r: Cint64)
        ensures
            r == self.modification_tag.modification_tag,
    {
        self.modification_tag.get_concept_label_set_modification_tag()
    }

    /// Records a label modification tag; tells whether it differs from the
    /// one recorded before.
    pub fn update_concept_label_set_modification_tag(&mut self, concept_label_set_modification_tag: Cint64) -> (r: bool)
        ensures
            r == (old(self).modification_tag.modification_tag != concept_label_set_modification_tag),
            *final(self) == (BlockingIndividualNodeCandidateData {
                modification_tag: ConceptLabelSetModificationTag { modification_tag: concept_label_set_modification_tag },
                ..*old(self)
            }),
    {
        self.modification_tag.update_concept_label_set_modification_tag(concept_label_set_modification_tag)
    }

    /// Takes the candidates and the largest valid identifier of `prev`, or
    /// starts without candidates; the tags are kept.
    pub fn init_blocking_candidate_data(&mut self, prev: Option<&BlockingIndividualNodeCandidateData>) -> (r: &mut Self)
        ensures
            r.candidate_indi_map.entries@ == (match prev {
                Some(p) => p.candidate_indi_map.entries@,
                None => Seq::<(i64, NodeId)>::empty(),
            }),
            r.max_valid_individual_id == (match prev {
                Some(p) => p.max_valid_individual_id,
                None => 0,
            }),
            r.node_switch_tag == old(self).node_switch_tag,
            r.modification_tag == old(self).modification_tag,
            r.context == old(self).context,
            r.mem_man == old(self).mem_man,
            *final(self) == *final(r),
    {
        match prev {
            Some(p) => {
                self.candidate_indi_map = p.candidate_indi_map.copy();
                self.max_valid_individual_id = p.max_valid_individual_id;
            },
            None => {
                self.max_valid_individual_id = 0;
                self.candidate_indi_map.clear();
                assert(self.candidate_indi_map.entries@ =~= Seq::<(i64, NodeId)>::empty());
            },
        }
        self
    }

    /// Adds node `candidate_indi` as a candidate, keyed by its negated
    /// individual identifier.
    pub fn insert_blocking_candidate_individual_node(&mut self, candidate_indi: NodeId, ctx: &ProcessContext) -> (r: &mut Self)
        requires
            valid_in(candidate_indi, ctx.nodes@.len()),
            ctx.nodes@[candidate_indi.index()].individual_node_id != i64::MIN,
        ensures
            r.candidate_indi_map@ == old(self).candidate_indi_map@.insert(
                -ctx.nodes@[candidate_indi.index()].individual_node_id as i64, candidate_indi),
            ascending(old(self).candidate_indi_map.entries@) ==> ascending(r.candidate_indi_map.entries@),
            r.node_switch_tag == old(self).node_switch_tag,
            r.modification_tag == old(self).modification_tag,
            r.max_valid_individual_id == old(self).max_valid_individual_id,
            r.context == old(self).context,
            r.mem_man == old(self).mem_man,
            *final(self) == *final(r),
    {
        let candidate_individual_id = ctx.node(candidate_indi).individual_node_id();
        self.candidate_indi_map.insert(-candidate_individual_id, candidate_indi);
        self
    }

    /// A walk over the candidates with an identifier below
    /// `candidate_individual_id`, largest first.
    pub fn get_blocking_candidates_individual_node_iterator(&self, candidate_individual_id: Cint64) -> (r: BlockingIndividualNodeCandidateIterator)
        requires
            candidate_individual_id != i64::MIN,
        ensures
            r.starts_over(self.candidate_indi_map.entries@, candidate_individual_id, Id::NONE),
    {
        BlockingIndividualNodeCandidateIterator::new(&self.candidate_indi_map, candidate_individual_id)
    }

    /// A walk over the candidates with an identifier below that of node
    /// `candidate_indi`.
    pub fn get_blocking_candidates_individual_node_iterator_for_node(&self, candidate_indi: NodeId, ctx: &ProcessContext) -> (r: BlockingIndividualNodeCandidateIterator)
        requires
            valid_in(candidate_indi, ctx.nodes@.len()),
            ctx.nodes@[candidate_indi.index()].individual_node_id != i64::MIN,
        ensures
            r.starts_over(self.candidate_indi_map.entries@, ctx.nodes@[candidate_indi.index()].individual_node_id, Id::NONE),
    {
        self.get_blocking_candidates_individual_node_iterator(ctx.node(candidate_indi).individual_node_id())
    }

    /// A walk over the candidates of data `this` of the context with an
    /// identifier below that of node `candidate_indi`; removals through the
    /// walk reach the data.
    pub fn get_blocking_candidates_individual_node_iterator_for_node_in_context(
        ctx: &ProcessContext,
        this: BlockingIndividualNodeCandidateDataId,
        candidate_indi: NodeId,
    ) -> (r: BlockingIndividualNodeCandidateIterator)
        requires
            valid_in(this, ctx.blocking_indi_node_cand_datas@.len()),
            valid_in(candidate_indi, ctx.nodes@.len()),
            ctx.nodes@[candidate_indi.index()].individual_node_id != i64::MIN,
        ensures
            r.starts_over(ctx.blocking_indi_node_cand_datas@[this.index()].candidate_indi_map.entries@,
                ctx.nodes@[candidate_indi.index()].individual_node_id, this),
    {
        BlockingIndividualNodeCandidateIterator::new_in_context(ctx, this, ctx.node(candidate_indi).individual_node_id())
    }

    pub fn get_max_valid_individual_id(&self) -> (r: Cint64)
        ensures
            r == self.max_valid_individual_id,
    {
        self.max_valid_individual_id
    }

    pub fn set_max_valid_individual_id(&mut self, indi_id: Cint64) -> (r: &mut Self)
        ensures
            *r == (BlockingIndividualNodeCandidateData { max_valid_individual_id: indi_id, ..*old(self) }),
            *final(self) == *final(r),
    {
        self.max_valid_individual_id = indi_id;
        self
    }

}

impl Default for BlockingIndividualNodeCandidateData {
    fn default() -> (r: Self)
        ensures
            r.is_fresh(INVALID),
    {
        Self::new(INVALID)
    }
}

/// The first position whose key is above `target`, reading from the front.
pub open spec fn first_above(s: Seq<(i64, NodeId)>, target: i64, p: int) -> bool {
    &&& 0 <= p <= s.len()
    &&& forall|j: int| 0 <= j < p ==> s[j].0 <= target
    &&& p < s.len() ==> s[p].0 > target
}

/// A walk over a snapshot of candidate entries from a start position on.
pub struct BlockingIndividualNodeCandidateIterator {
    /// The `(negated identifier, node)` entries of the candidate map.
    pub entries: Vec<(i64, NodeId)>,
    /// The next position to yield.
    pub it_begin: usize,
    /// The end of the entries.
    pub it_end: usize,
    /// The position yielded last.
    pub it_last: usize,
    /// Whether the walk runs over a candidate map at all.
    pub map_present: bool,
    /// The candidate data whose map removals reach, if any.
    pub owner_data: BlockingIndividualNodeCandidateDataId,
}

impl BlockingIndividualNodeCandidateIterator {
    /// The positions lie within the entries.
    pub open spec fn wf(&self) -> bool {
        &&& self.it_end == self.entries@.len()
        &&& self.it_begin <= self.it_end
        &&& self.it_last <= self.it_end
    }

    /// A fresh walk over `entries` of the candidates below identifier `id`.
    pub open spec fn starts_over(&self, entries: Seq<(i64, NodeId)>, id: i64, owner: Id) -> bool {
        &&& self.wf()
        &&& self.entries@ == entries
        &&& first_above(entries, -id as i64, self.it_begin as int)
        &&& self.it_last == self.it_begin
        &&& self.map_present
        &&& self.owner_data == owner
    }

    /// A walk over no candidate map.
    pub fn empty() -> (r: Self)
        ensures
            r.wf(),
            r.entries@.len() == 0,
            !r.map_present,
            r.owner_data == Id::NONE,
    {
        BlockingIndividualNodeCandidateIterator {
            entries: Vec::new(),
            it_begin: 0,
            it_end: 0,
            it_last: 0,
            map_present: false,
            owner_data: Id::NONE,
        }
    }

    /// A walk over the entries of `candidate_map` with a key above
    /// `-candidate_individual_id`.
    pub fn new(candidate_map: &IntMap<NodeId>, candidate_individual_id: Cint64) -> (r: Self)
        requires
            candidate_individual_id != i64::MIN,
        ensures
            r.starts_over(candidate_map.entries@, candidate_individual_id, Id::NONE),
    {
        let entries = candidate_map.copy().entries;
        let target = -candidate_individual_id;
        let mut it_begin: usize = 0;
        while it_begin < entries.len() && entries[it_begin].0 <= target
            invariant
                0 <= it_begin <= entries@.len(),
                forall|j: int| 0 <= j < it_begin ==> entries@[j].0 <= target,
            decreases entries@.len() - it_begin,
        {
            it_begin = it_begin + 1;
        }
        let it_end = entries.len();
        BlockingIndividualNodeCandidateIterator {
            entries,
            it_begin,
            it_end,
            it_last: it_begin,
            map_present: true,
            owner_data: Id::NONE,
        }
    }

    /// A walk over the candidates of data `owner_data` of the context with a
    /// key above `-candidate_individual_id`.
    pub fn new_in_context(
        ctx: &ProcessContext,
        owner_data: BlockingIndividualNodeCandidateDataId,
        candidate_individual_id: Cint64,
    ) -> (r: Self)
        requires
            valid_in(owner_data, ctx.blocking_indi_node_cand_datas@.len()),
            candidate_individual_id != i64::MIN,
        ensures
            r.starts_over(ctx.blocking_indi_node_cand_datas@[owner_data.index()].candidate_indi_map.entries@,
                candidate_individual_id, owner_data),
    {
        let mut iterator = Self::new(&ctx.blocking_indi_node_cand_data(owner_data).candidate_indi_map, candidate_individual_id);
        iterator.owner_data = owner_data;
        iterator
    }

    /// Whether a candidate is left to yield.
    pub fn has_next(&self) -> (r: bool)
        ensures
            r == (self.map_present && self.it_begin != self.it_end),
    {
        self.map_present && self.it_begin != self.it_end
    }

    /// Whether the walk runs over a non-empty candidate map.
    pub fn has_individual_candidates(&self) -> (r: bool)
        ensures
            r == (self.map_present && self.entries@.len() > 0),
    {
        self.map_present && self.entries.len() > 0
    }

    /// Whether individual `indi_id` is among the candidates.
    pub fn has_individual_candidate(&self, indi_id: Cint64) -> (r: bool)
        requires
            indi_id != i64::MIN,
        ensures
            r == (self.map_present && exists|i: int| 0 <= i < self.entries@.len() && self.entries@[i].0 == -indi_id),
    {
        if !self.map_present {
            return false;
        }
        let target = -indi_id;
        let mut i: usize = 0;
        while i < self.entries.len()
            invariant
                0 <= i <= self.entries@.len(),
                forall|j: int| 0 <= j < i ==> self.entries@[j].0 != target,
                self.map_present,
                target == -indi_id,
            decreases self.entries@.len() - i,
        {
            if self.entries[i].0 == target {
                assert(self.entries@[i as int].0 == -indi_id);
                return true;
            }
            i = i + 1;
        }
        false
    }

    /// Whether node `indi` is among the candidates.
    pub fn has_individual_candidate_for_node(&self, indi: NodeId, ctx: &ProcessContext) -> (r: bool)
        requires
            valid_in(indi, ctx.nodes@.len()),
            ctx.nodes@[indi.index()].individual_node_id != i64::MIN,
        ensures
            r == (self.map_present && exists|i: int| 0 <= i < self.entries@.len()
                && self.entries@[i].0 == -ctx.nodes@[indi.index()].individual_node_id),
    {
        self.has_individual_candidate(ctx.node(indi).individual_node_id())
    }

    /// The identifier of the next candidate, or 0 when none is left.
    pub fn next(&mut self, move_next: bool, ctx: &ProcessContext) -> (r: Cint64)
        requires
            old(self).wf(),
            old(self).map_present && old(self).it_begin != old(self).it_end
                ==> valid_in(old(self).entries@[old(self).it_begin as int].1, ctx.nodes@.len()),
        ensures
            final(self).wf(),
            r == (if old(self).map_present && old(self).it_begin != old(self).it_end {
                ctx.nodes@[old(self).entries@[old(self).it_begin as int].1.index()].individual_node_id
            } else {
                0
            }),
            final(self).stepped(*old(self), move_next),
    {
        match self.next_individual_candidate(move_next) {
            Some(indi) => ctx.node(indi).individual_node_id(),
            None => 0,
        }
    }

    /// The walk after yielding from `prev` (moving on when `move_next`).
    pub open spec fn stepped(&self, prev: Self, move_next: bool) -> bool {
        if prev.map_present && prev.it_begin != prev.it_end {
            &&& self.it_last == prev.it_begin
            &&& self.it_begin == (if move_next { prev.it_begin + 1 } else { prev.it_begin as int })
            &&& self.entries == prev.entries
            &&& self.it_end == prev.it_end
            &&& self.map_present == prev.map_present
            &&& self.owner_data == prev.owner_data
        } else {
            *self == prev
        }
    }

    /// The next candidate node, if one is left.
    pub fn next_individual_candidate(&mut self, move_next: bool) -> (r: Option<NodeId>)
        requires
            old(self).wf(),
        ensures
            final(self).wf(),
            r == (if old(self).map_present && old(self).it_begin != old(self).it_end {
                Some(old(self).entries@[old(self).it_begin as int].1)
            } else {
                None
            }),
            final(self).stepped(*old(self), move_next),
    {
        if self.map_present && self.it_begin != self.it_end {
            let indi = self.entries[self.it_begin].1;
            self.it_last = self.it_begin;
            if move_next {
                self.it_begin = self.it_begin + 1;
            }
            Some(indi)
        } else {
            None
        }
    }

    /// Drops the entry yielded last from the walk's snapshot, which resumes at
    /// its position; the candidate map is not changed.
    pub fn remove_last_individual_candidate(&mut self) -> (r: bool)
        requires
            old(self).wf(),
        ensures
            final(self).wf(),
            r == (old(self).it_last != old(self).it_end),
            r ==> final(self).entries@ == old(self).entries@.remove(old(self).it_last as int),
            r ==> final(self).it_begin == old(self).it_last && final(self).it_last == old(self).it_last,
            r ==> final(self).map_present == old(self).map_present && final(self).owner_data == old(self).owner_data,
            !r ==> *final(self) == *old(self),
    {
        if self.it_last != self.it_end {
            self.entries.remove(self.it_last);
            self.it_end = self.entries.len();
            self.it_begin = self.it_last;
            self.it_last = self.it_begin;
            true
        } else {
            false
        }
    }

    /// Drops the entry yielded last from the walk and, when the walk belongs
    /// to candidate data of the context, from that data's candidate map.
    pub fn remove_last_individual_candidate_in_context(&mut self, ctx: &mut ProcessContext) -> (r: bool)
        requires
            old(self).wf(),
            old(self).owner_data is At ==> valid_in(old(self).owner_data, old(ctx).blocking_indi_node_cand_datas@.len()),
        ensures
            final(self).wf(),
            r == (old(self).it_last != old(self).it_end),
            r ==> final(self).entries@ == old(self).entries@.remove(old(self).it_last as int),
            r ==> final(self).it_begin == old(self).it_last && final(self).it_last == old(self).it_last,
            r ==> final(self).map_present == old(self).map_present && final(self).owner_data == old(self).owner_data,
            !r ==> *final(self) == *old(self),
            r && old(self).owner_data is At ==> {
                let i = old(self).owner_data.index();
                let before = old(ctx).blocking_indi_node_cand_datas@[i];
                let after = final(ctx).blocking_indi_node_cand_datas@[i];
                &&& final(ctx).blocking_indi_node_cand_datas@.len() == old(ctx).blocking_indi_node_cand_datas@.len()
                &&& forall|j: int| 0 <= j < old(ctx).blocking_indi_node_cand_datas@.len() && j != i
                    ==> #[trigger] final(ctx).blocking_indi_node_cand_datas@[j] == old(ctx).blocking_indi_node_cand_datas@[j]
                &&& after.candidate_indi_map@ == before.candidate_indi_map@.remove(old(self).entries@[old(self).it_last as int].0)
                &&& after.node_switch_tag == before.node_switch_tag
                &&& after.modification_tag == before.modification_tag
                &&& after.max_valid_individual_id == before.max_valid_individual_id
            },
            final(ctx).agrees_except(*old(ctx), set![ArenaKind::BlockingCandDatas]),
            !(r && old(self).owner_data is At) ==> final(ctx).blocking_indi_node_cand_datas@ == old(ctx).blocking_indi_node_cand_datas@,
    {
        if self.it_last != self.it_end {
            let removed_key = self.entries[self.it_last].0;
            self.entries.remove(self.it_last);
            self.it_end = self.entries.len();
            self.it_begin = self.it_last;
            self.it_last = self.it_begin;
            if self.owner_data.is_some() {
                ctx.blocking_indi_node_cand_data_mut(self.owner_data).candidate_indi_map.remove(&removed_key);
            }
            true
        } else {
            false
        }
    }
}

/// The bucket of one concept in a candidate hash: the data localised in this
/// task, and the data in use (own or inherited).
#[derive(Clone, Copy, PartialEq, Eq, Structural, Debug)]
pub struct BlockingCandidateHashData {
    pub candidate_indi_data: BlockingIndividualNodeCandidateDataId,
    pub prev_candidate_indi_data: BlockingIndividualNodeCandidateDataId,
}

impl BlockingCandidateHashData {
    pub open spec fn spec_new() -> Self {
        BlockingCandidateHashData { candidate_indi_data: Id::NONE, prev_candidate_indi_data: Id::NONE }
    }

    pub fn new() -> (r: Self)
        ensures
            r == Self::spec_new(),
    {
        BlockingCandidateHashData { candidate_indi_data: Id::NONE, prev_candidate_indi_data: Id::NONE }
    }
}

impl Default for BlockingCandidateHashData {
    fn default() -> (r: Self)
        ensures
            r == Self::spec_new(),
    {
        Self::new()
    }
}

/// The bucket a localised copy of a hash starts with: nothing localised, the
/// data in use kept.
pub open spec fn unlocalized(d: BlockingCandidateHashData) -> BlockingCandidateHashData {
    BlockingCandidateHashData { candidate_indi_data: Id::NONE, prev_candidate_indi_data: d.prev_candidate_indi_data }
}

/// Candidate data per concept and polarity.
pub struct BlockingIndividualNodeCandidateHash {
    pub context: Cint64,
    pub mem_man: Cint64,
    pub block_candidate_hash: PairMap<BlockingCandidateHashData>,
}

/// Element `idx` of the candidate hashes now has the buckets `m`; its
/// handles and every other element are kept.
pub open spec fn cand_hash_updated(
    old_hashes: Seq<BlockingIndividualNodeCandidateHash>,
    new_hashes: Seq<BlockingIndividualNodeCandidateHash>,
    idx: int,
    m: Map<PairKey, BlockingCandidateHashData>,
) -> bool {
    &&& new_hashes.len() == old_hashes.len()
    &&& forall|i: int| 0 <= i < old_hashes.len() && i != idx ==> #[trigger] new_hashes[i] == old_hashes[i]
    &&& new_hashes[idx].block_candidate_hash@ == m
    &&& new_hashes[idx].context == old_hashes[idx].context
    &&& new_hashes[idx].mem_man == old_hashes[idx].mem_man
}

/// `d` is candidate data started in a task: fresh, with the candidates and
/// the largest valid identifier of `prev` when given.
pub open spec fn cand_data_started(d: BlockingIndividualNodeCandidateData, prev: Option<BlockingIndividualNodeCandidateData>) -> bool {
    &&& d.node_switch_tag == 0
    &&& d.modification_tag.modification_tag == 0
    &&& d.context == INVALID
    &&& d.mem_man == INVALID
    &&& match prev {
        Some(p) => d.candidate_indi_map.entries@ == p.candidate_indi_map.entries@
            && d.max_valid_individual_id == p.max_valid_individual_id,
        None => d.candidate_indi_map.entries@.len() == 0 && d.max_valid_individual_id == 0,
    }
}

/// What looking up the candidate data of bucket `key` in hash `this`
/// leaves: `r` and the context `new_ctx` after the call on `old_ctx`.
pub open spec fn cand_lookup_outcome(old_ctx: ProcessContext, new_ctx: ProcessContext, this: Id, key: PairKey, create: bool, r: Id) -> bool {
    let hashes = old_ctx.blocking_indi_node_cand_hashes@;
    let datas = old_ctx.blocking_indi_node_cand_datas@;
    let h = hashes[this.index()];
    let d0 = if h.block_candidate_hash@.contains_key(key) { h.block_candidate_hash@[key] } else {
        BlockingCandidateHashData::spec_new() };
    if !create {
        &&& r == (if h.block_candidate_hash@.contains_key(key) {
            h.block_candidate_hash@[key].prev_candidate_indi_data } else { Id::NONE })
        &&& new_ctx.agrees_except(old_ctx, Set::empty())
    } else if d0.candidate_indi_data is At {
        &&& r == d0.prev_candidate_indi_data
        &&& cand_hash_updated(hashes, new_ctx.blocking_indi_node_cand_hashes@, this.index(),
            h.block_candidate_hash@.insert(key, d0))
        &&& new_ctx.agrees_except(old_ctx, set![ArenaKind::BlockingCandHashes])
    } else {
        &&& r == Id::At(datas.len() as usize)
        &&& new_ctx.blocking_indi_node_cand_datas@.len() == datas.len() + 1
        &&& new_ctx.blocking_indi_node_cand_datas@.subrange(0, datas.len() as int) == datas
        &&& cand_data_started(new_ctx.blocking_indi_node_cand_datas@[datas.len() as int],
            if d0.prev_candidate_indi_data is At { Some(datas[d0.prev_candidate_indi_data.index()]) } else { None })
        &&& cand_hash_updated(hashes, new_ctx.blocking_indi_node_cand_hashes@, this.index(),
            h.block_candidate_hash@.insert(key, BlockingCandidateHashData {
                candidate_indi_data: r, prev_candidate_indi_data: r }))
        &&& new_ctx.agrees_except(old_ctx, set![ArenaKind::BlockingCandHashes, ArenaKind::BlockingCandDatas])
    }
}

impl BlockingIndividualNodeCandidateHash {
    pub fn new(context: Cint64) -> (r: Self)
        ensures
            r.context == context,
            r.mem_man == INVALID,
            r.block_candidate_hash@ == Map::<PairKey, BlockingCandidateHashData>::empty(),
    {
        BlockingIndividualNodeCandidateHash { context, mem_man: INVALID, block_candidate_hash: PairMap::new() }
    }

    /// Starts from the buckets of `prev`, each with nothing localised, or
    /// without buckets.
    pub fn init_blocking_individual_node_candidate_hash(&mut self, prev: Option<&BlockingIndividualNodeCandidateHash>) -> (r: &mut Self)
        ensures
            r.context == old(self).context,
            r.mem_man == old(self).mem_man,
            r.block_candidate_hash@ == (match prev {
                Some(p) => p.block_candidate_hash@.map_values(|d: BlockingCandidateHashData| unlocalized(d)),
                None => Map::<PairKey, BlockingCandidateHashData>::empty(),
            }),
            *final(self) == *final(r),
    {
        match prev {
            Some(p) => {
                let s = &p.block_candidate_hash.entries;
                let mut entries: Vec<(PairKey, BlockingCandidateHashData)> = Vec::new();
                let mut i: usize = 0;
                while i < s.len()
                    invariant
                        0 <= i <= s@.len(),
                        entries@.len() == i,
                        forall|j: int| 0 <= j < i ==> #[trigger] entries@[j] == (s@[j].0, unlocalized(s@[j].1)),
                    decreases s@.len() - i,
                {
                    let (k, d) = s[i];
                    entries.push((k, BlockingCandidateHashData {
                        candidate_indi_data: Id::NONE,
                        prev_candidate_indi_data: d.prev_candidate_indi_data,
                    }));
                    i = i + 1;
                }
                proof {
                    let t = entries@;
                    let m = p.block_candidate_hash@.map_values(|d: BlockingCandidateHashData| unlocalized(d));
                    assert forall|k: PairKey| #[trigger] entries_map(t).contains_key(k) == m.contains_key(k) by {
                        if entries_map(s@).contains_key(k) {
                            lemma_same_keys(s@, t, k);
                        }
                        if entries_map(t).contains_key(k) {
                            lemma_same_keys(t, s@, k);
                        }
                    }
                    assert forall|k: PairKey| entries_map(t).contains_key(k) implies entries_map(t)[k] == m[k] by {
                        lemma_same_keys(t, s@, k);
                    }
                    assert(entries_map(t) =~= m);
                }
                self.block_candidate_hash = PairMap { entries };
            },
            None => {
                self.block_candidate_hash.clear();
            },
        }
        self
    }

    /// The candidate data of `(initialization_concept, concept_negation)`.
    /// With `create`, a bucket without localised data gets new data,
    /// initialised from the data in use, that becomes both localised and in
    /// use; a bucket with localised data yields the data in use. Without
    /// `create`, the data in use, if any.
    pub fn get_blocking_individual_candidate_data(
        ctx: &mut ProcessContext,
        this: BlockingIndividualNodeCandidateHashId,
        initialization_concept: ConceptId,
        concept_negation: bool,
        create: bool,
    ) -> (r: BlockingIndividualNodeCandidateDataId)
        requires
            valid_in(this, old(ctx).blocking_indi_node_cand_hashes@.len()),
            old(ctx).blocking_indi_node_cand_datas@.len() < usize::MAX,
            ({
                let m = old(ctx).blocking_indi_node_cand_hashes@[this.index()].block_candidate_hash@;
                let key = (initialization_concept, concept_negation);
                create && m.contains_key(key) && m[key].candidate_indi_data == Id::NONE
                    && m[key].prev_candidate_indi_data is At
                    ==> valid_in(m[key].prev_candidate_indi_data, old(ctx).blocking_indi_node_cand_datas@.len())
            }),
        ensures
            cand_lookup_outcome(*old(ctx), *final(ctx), this, (initialization_concept, concept_negation), create, r),
    {
        let key = (initialization_concept, concept_negation);
        if create {
            let d0 = match ctx.blocking_indi_node_cand_hash(this).block_candidate_hash.get(&key) {
                Some(d) => *d,
                None => BlockingCandidateHashData::new(),
            };
            if d0.candidate_indi_data.is_none() {
                let mut fresh = BlockingIndividualNodeCandidateData::new(INVALID);
                if d0.prev_candidate_indi_data.is_some() {
                    fresh.init_blocking_candidate_data(Some(ctx.blocking_indi_node_cand_data(d0.prev_candidate_indi_data)));
                } else {
                    fresh.init_blocking_candidate_data(None);
                }
                let ghost datas = ctx.blocking_indi_node_cand_datas@;
                let new_data = ctx.alloc_blocking_indi_node_cand_data(fresh);
                assert(ctx.blocking_indi_node_cand_datas@.subrange(0, datas.len() as int) =~= datas);
                ctx.blocking_indi_node_cand_hash_mut(this).block_candidate_hash.insert(
                    key,
                    BlockingCandidateHashData { candidate_indi_data: new_data, prev_candidate_indi_data: new_data },
                );
                new_data
            } else {
                ctx.blocking_indi_node_cand_hash_mut(this).block_candidate_hash.insert(key, d0);
                d0.prev_candidate_indi_data
            }
        } else {
            match ctx.blocking_indi_node_cand_hash(this).block_candidate_hash.get(&key) {
                Some(d) => d.prev_candidate_indi_data,
                None => Id::NONE,
            }
        }
    }

    /// The candidate data of the concept and polarity of descriptor
    /// `initialization_con_des`.
    pub fn get_blocking_individual_candidate_data_for_concept_descriptor(
        ctx: &mut ProcessContext,
        this: BlockingIndividualNodeCandidateHashId,
        initialization_con_des: ConDescId,
        create: bool,
    ) -> (r: BlockingIndividualNodeCandidateDataId)
        requires
            valid_in(initialization_con_des, old(ctx).con_descs@.len()),
            valid_in(this, old(ctx).blocking_indi_node_cand_hashes@.len()),
            old(ctx).blocking_indi_node_cand_datas@.len() < usize::MAX,
            ({
                let cd = old(ctx).con_descs@[initialization_con_des.index()];
                let m = old(ctx).blocking_indi_node_cand_hashes@[this.index()].block_candidate_hash@;
                let key = (cd.concept, cd.negated);
                create && m.contains_key(key) && m[key].candidate_indi_data == Id::NONE
                    && m[key].prev_candidate_indi_data is At
                    ==> valid_in(m[key].prev_candidate_indi_data, old(ctx).blocking_indi_node_cand_datas@.len())
            }),
        ensures
            ({
                let cd = old(ctx).con_descs@[initialization_con_des.index()];
                cand_lookup_outcome(*old(ctx), *final(ctx), this, (cd.concept, cd.negated), create, r)
            }),
    {
        let concept = ctx.con_desc(initialization_con_des).get_concept();
        let negation = ctx.con_desc(initialization_con_des).is_negated();
        Self::get_blocking_individual_candidate_data(ctx, this, concept, negation, create)
    }
}

impl Default for BlockingIndividualNodeCandidateHash {
    fn default() -> (r: Self)
        ensures
            r.context == INVALID,
            r.mem_man == INVALID,
            r.block_candidate_hash@ == Map::<PairKey, BlockingCandidateHashData>::empty(),
    {
        Self::new(INVALID)
    }
}
/// The signature-blocking state of a node's concept expansion: its blocker,
/// the signature and counts of the blocking concept set, and the review marks.
#[derive(Clone, Copy, PartialEq, Eq, Structural, Debug)]
pub struct SignatureBlockingIndividualNodeConceptExpansionData {
    pub subset_tested_con_des: ConDescId,
    pub blocker_indi_node: NodeId,
    pub blocking_concept_signature: Cint64,
    pub blocking_concept_count: Cint64,
    pub expanded_contained_concept_count: Cint64,
    pub last_updated_con_exp_count: Cint64,
    pub last_updated_con_count: Cint64,
    pub review_marked: bool,
    pub review_subset_marked: bool,
    pub identic_concept_set_required: bool,
    pub still_concept_set_subset: bool,
}

impl SignatureBlockingIndividualNodeConceptExpansionData {
    /// No blocker, no counts, no marks; the concept set still a subset.
    pub open spec fn spec_new() -> Self {
        SignatureBlockingIndividualNodeConceptExpansionData {
            subset_tested_con_des: Id::NONE,
            blocker_indi_node: Id::NONE,
            blocking_concept_signature: 0,
            blocking_concept_count: 0,
            expanded_contained_concept_count: 0,
            last_updated_con_exp_count: 0,
            last_updated_con_count: 0,
            review_marked: false,
            review_subset_marked: false,
            identic_concept_set_required: false,
            still_concept_set_subset: true,
        }
    }

    pub fn new() -> (r: Self)
        ensures
            r == Self::spec_new(),
    {
        SignatureBlockingIndividualNodeConceptExpansionData {
            subset_tested_con_des: Id::NONE,
            blocker_indi_node: Id::NONE,
            blocking_concept_signature: 0,
            blocking_concept_count: 0,
            expanded_contained_concept_count: 0,
            last_updated_con_exp_count: 0,
            last_updated_con_count: 0,
            review_marked: false,
            review_subset_marked: false,
            identic_concept_set_required: false,
            still_concept_set_subset: true,
        }
    }

    /// Takes every field of `prev`, or resets to the fresh state.
    pub fn init_blocking_expansion_data(&mut self, prev: Option<&SignatureBlockingIndividualNodeConceptExpansionData>) -> (r: &mut Self)
        ensures
            *r == (match prev {
                Some(p) => *p,
                None => Self::spec_new(),
            }),
            *final(self) == *final(r),
    {
        match prev {
            Some(p) => {
                self.subset_tested_con_des = p.subset_tested_con_des;
                self.blocker_indi_node = p.blocker_indi_node;
                self.blocking_concept_signature = p.blocking_concept_signature;
                self.blocking_concept_count = p.blocking_concept_count;
                self.expanded_contained_concept_count = p.expanded_contained_concept_count;
                self.last_updated_con_exp_count = p.last_updated_con_exp_count;
                self.last_updated_con_count = p.last_updated_con_count;
                self.review_marked = p.review_marked;
                self.review_subset_marked = p.review_subset_marked;
                self.identic_concept_set_required = p.identic_concept_set_required;
                self.still_concept_set_subset = p.still_concept_set_subset;
            },
            None => {
                self.subset_tested_con_des = Id::NONE;
                self.blocker_indi_node = Id::NONE;
                self.blocking_concept_signature = 0;
                self.blocking_concept_count = 0;
                self.expanded_contained_concept_count = 0;
                self.last_updated_con_exp_count = 0;
                self.last_updated_con_count = 0;
                self.review_marked = false;
                self.review_subset_marked = false;
                self.identic_concept_set_required = false;
                self.still_concept_set_subset = true;
            },
        }
        self
    }

    pub fn get_last_subset_tested_concept_descriptor(&self) -> (r: ConDescId)
        ensures
            r == self.subset_tested_con_des,
    {
        self.subset_tested_con_des
    }

    pub fn get_blocking_concept_signature(&self) -> (r: Cint64)
        ensures
            r == self.blocking_concept_signature,
    {
        self.blocking_concept_signature
    }

    pub fn get_blocking_concept_count(&self) -> (r: Cint64)
        ensures
            r == self.blocking_concept_count,
    {
        self.blocking_concept_count
    }

    pub fn get_continuous_expanded_contained_concept_count(&self) -> (r: Cint64)
        ensures
            r == self.expanded_contained_concept_count,
    {
        self.expanded_contained_concept_count
    }

    pub fn get_last_updated_concept_expansion_count(&self) -> (r: Cint64)
        ensures
            r == self.last_updated_con_exp_count,
    {
        self.last_updated_con_exp_count
    }

    pub fn get_last_updated_concept_count(&self) -> (r: Cint64)
        ensures
            r == self.last_updated_con_count,
    {
        self.last_updated_con_count
    }

    pub fn get_blocker_individual_node(&self) -> (r: NodeId)
        ensures
            r == self.blocker_indi_node,
    {
        self.blocker_indi_node
    }

    pub fn is_blocking_review_marked(&self) -> (r: bool)
        ensures
            r == self.review_marked,
    {
        self.review_marked
    }

    pub fn is_blocking_subset_review_marked(&self) -> (r: bool)
        ensures
            r == self.review_subset_marked,
    {
        self.review_subset_marked
    }

    pub fn is_identic_concept_set_required(&self) -> (r: bool)
        ensures
            r == self.identic_concept_set_required,
    {
        self.identic_concept_set_required
    }

    pub fn is_concept_set_still_subset(&self) -> (r: bool)
        ensures
            r == self.still_concept_set_subset,
    {
        self.still_concept_set_subset
    }

    pub fn set_last_subset_tested_concept_descriptor(&mut self, con_des: ConDescId) -> (r: &mut Self)
        ensures
            *r == (SignatureBlockingIndividualNodeConceptExpansionData { subset_tested_con_des: con_des, ..*old(self) }),
            *final(self) == *final(r),
    {
        self.subset_tested_con_des = con_des;
        self
    }

    pub fn set_blocking_concept_signature(&mut self, signature: Cint64) -> (r: &mut Self)
        ensures
            *r == (SignatureBlockingIndividualNodeConceptExpansionData { blocking_concept_signature: signature, ..*old(self) }),
            *final(self) == *final(r),
    {
        self.blocking_concept_signature = signature;
        self
    }

    pub fn set_blocking_concept_count(&mut self, con_count: Cint64) -> (r: &mut Self)
        ensures
            *r == (SignatureBlockingIndividualNodeConceptExpansionData { blocking_concept_count: con_count, ..*old(self) }),
            *final(self) == *final(r),
    {
        self.blocking_concept_count = con_count;
        self
    }

    pub fn set_continuous_expanded_contained_concept_count(&mut self, con_count: Cint64) -> (r: &mut Self)
        ensures
            *r == (SignatureBlockingIndividualNodeConceptExpansionData { expanded_contained_concept_count: con_count, ..*old(self) }),
            *final(self) == *final(r),
    {
        self.expanded_contained_concept_count = con_count;
        self
    }

    pub fn set_last_updated_concept_expansion_count(&mut self, con_count: Cint64) -> (r: &mut Self)
        ensures
            *r == (SignatureBlockingIndividualNodeConceptExpansionData { last_updated_con_exp_count: con_count, ..*old(self) }),
            *final(self) == *final(r),
    {
        self.last_updated_con_exp_count = con_count;
        self
    }

    pub fn set_last_updated_concept_count(&mut self, con_count: Cint64) -> (r: &mut Self)
        ensures
            *r == (SignatureBlockingIndividualNodeConceptExpansionData { last_updated_con_count: con_count, ..*old(self) }),
            *final(self) == *final(r),
    {
        self.last_updated_con_count = con_count;
        self
    }

    pub fn set_blocker_individual_node(&mut self, node: NodeId) -> (r: &mut Self)
        ensures
            *r == (SignatureBlockingIndividualNodeConceptExpansionData { blocker_indi_node: node, ..*old(self) }),
            *final(self) == *final(r),
    {
        self.blocker_indi_node = node;
        self
    }

    pub fn set_blocking_review_marked(&mut self, marked: bool) -> (r: &mut Self)
        ensures
            *r == (SignatureBlockingIndividualNodeConceptExpansionData { review_marked: marked, ..*old(self) }),
            *final(self) == *final(r),
    {
        self.review_marked = marked;
        self
    }

    pub fn set_blocking_subset_review_marked(&mut self, marked: bool) -> (r: &mut Self)
        ensures
            *r == (SignatureBlockingIndividualNodeConceptExpansionData { review_subset_marked: marked, ..*old(self) }),
            *final(self) == *final(r),
    {
        self.review_subset_marked = marked;
        self
    }

    pub fn set_identic_concept_set_required(&mut self, identic_concept_set_required: bool) -> (r: &mut Self)
        ensures
            *r == (SignatureBlockingIndividualNodeConceptExpansionData { identic_concept_set_required: identic_concept_set_required, ..*old(self) }),
            *final(self) == *final(r),
    {
        self.identic_concept_set_required = identic_concept_set_required;
        self
    }

    pub fn set_concept_set_still_subset(&mut self, still_subset: bool) -> (r: &mut Self)
        ensures
            *r == (SignatureBlockingIndividualNodeConceptExpansionData { still_concept_set_subset: still_subset, ..*old(self) }),
            *final(self) == *final(r),
    {
        self.still_concept_set_subset = still_subset;
        self
    }

}

impl Default for SignatureBlockingIndividualNodeConceptExpansionData {
    fn default() -> (r: Self)
        ensures
            r == Self::spec_new(),
    {
        Self::new()
    }
}

/// The reusing state of a node's concept expansion: the signature-blocking
/// state, how often reusing was tried and failed, the individuals and
/// concept-set signatures reusing failed with, and the dependency and the
/// non-deterministic expansions of the last reuse.
pub struct ReusingIndividualNodeConceptExpansionData {
    pub blocking_expansion_data: SignatureBlockingIndividualNodeConceptExpansionData,
    pub reusing_tried_count: Cint64,
    pub reusing_failed_count: Cint64,
    pub reused_individuals: IntSet,
    pub reused_concept_set_signatures: IntSet,
    pub reuse_concepts_dependency_track_point: TrackPointId,
    pub last_non_det_expansion_linker: Vec<ConDescId>,
}

impl ReusingIndividualNodeConceptExpansionData {
    /// Nothing tried, nothing failed, nothing recorded.
    pub open spec fn is_initial(&self) -> bool {
        &&& self.blocking_expansion_data == SignatureBlockingIndividualNodeConceptExpansionData::spec_new()
        &&& self.reusing_tried_count == 0
        &&& self.reusing_failed_count == 0
        &&& self.reused_individuals@ == Set::<i64>::empty()
        &&& self.reused_concept_set_signatures@ == Set::<i64>::empty()
        &&& self.reuse_concepts_dependency_track_point == Id::NONE
        &&& self.last_non_det_expansion_linker@.len() == 0
    }

    pub fn new() -> (r: Self)
        ensures
            r.is_initial(),
    {
        ReusingIndividualNodeConceptExpansionData {
            blocking_expansion_data: SignatureBlockingIndividualNodeConceptExpansionData::new(),
            reusing_tried_count: 0,
            reusing_failed_count: 0,
            reused_individuals: IntSet::new(),
            reused_concept_set_signatures: IntSet::new(),
            reuse_concepts_dependency_track_point: Id::NONE,
            last_non_det_expansion_linker: Vec::new(),
        }
    }

    /// Takes the blocking state, the counts, the dependency and the last
    /// expansions of `prev`, or resets them; the individuals and signatures
    /// reusing failed with are kept.
    pub fn init_reusing_expansion_data(&mut self, prev: Option<&ReusingIndividualNodeConceptExpansionData>) -> (r: &mut Self)
        ensures
            match prev {
                Some(p) => {
                    &&& r.blocking_expansion_data == p.blocking_expansion_data
                    &&& r.reusing_tried_count == p.reusing_tried_count
                    &&& r.reusing_failed_count == p.reusing_failed_count
                    &&& r.reuse_concepts_dependency_track_point == p.reuse_concepts_dependency_track_point
                    &&& r.last_non_det_expansion_linker@ == p.last_non_det_expansion_linker@
                },
                None => {
                    &&& r.blocking_expansion_data == SignatureBlockingIndividualNodeConceptExpansionData::spec_new()
                    &&& r.reusing_tried_count == 0
                    &&& r.reusing_failed_count == 0
                    &&& r.reuse_concepts_dependency_track_point == Id::NONE
                    &&& r.last_non_det_expansion_linker@.len() == 0
                },
            },
            r.reused_individuals == old(self).reused_individuals,
            r.reused_concept_set_signatures == old(self).reused_concept_set_signatures,
            *final(self) == *final(r),
    {
        match prev {
            Some(p) => {
                self.blocking_expansion_data.init_blocking_expansion_data(Some(&p.blocking_expansion_data));
                self.reusing_tried_count = p.reusing_tried_count;
                self.reusing_failed_count = p.reusing_failed_count;
                self.reuse_concepts_dependency_track_point = p.reuse_concepts_dependency_track_point;
                self.last_non_det_expansion_linker = p.last_non_det_expansion_linker.clone();
                assert(self.last_non_det_expansion_linker@ =~= p.last_non_det_expansion_linker@);
            },
            None => {
                self.blocking_expansion_data.init_blocking_expansion_data(None);
                self.reusing_tried_count = 0;
                self.reusing_failed_count = 0;
                self.reuse_concepts_dependency_track_point = Id::NONE;
                self.last_non_det_expansion_linker.clear();
            },
        }
        self
    }

    pub fn get_reusing_tried_count(&self) -> (r: Cint64)
        ensures
            r == self.reusing_tried_count,
    {
        self.reusing_tried_count
    }

    pub fn get_reusing_failed_count(&self) -> (r: Cint64)
        ensures
            r == self.reusing_failed_count,
    {
        self.reusing_failed_count
    }

    pub fn set_reusing_tried_count(&mut self, tried_count: Cint64) -> (r: &mut Self)
        ensures
            *r == (ReusingIndividualNodeConceptExpansionData { reusing_tried_count: tried_count, ..*old(self) }),
            *final(self) == *final(r),
    {
        self.reusing_tried_count = tried_count;
        self
    }

    pub fn set_reusing_failed_count(&mut self, failed_count: Cint64) -> (r: &mut Self)
        ensures
            *r == (ReusingIndividualNodeConceptExpansionData { reusing_failed_count: failed_count, ..*old(self) }),
            *final(self) == *final(r),
    {
        self.reusing_failed_count = failed_count;
        self
    }

    pub fn inc_reusing_tried_count(&mut self, inc_count: Cint64) -> (r: &mut Self)
        requires
            i64::MIN <= old(self).reusing_tried_count + inc_count <= i64::MAX,
        ensures
            *r == (ReusingIndividualNodeConceptExpansionData { reusing_tried_count: (old(self).reusing_tried_count + inc_count) as i64, ..*old(self) }),
            *final(self) == *final(r),
    {
        self.reusing_tried_count = self.reusing_tried_count + inc_count;
        self
    }

    pub fn inc_reusing_failed_count(&mut self, inc_count: Cint64) -> (r: &mut Self)
        requires
            i64::MIN <= old(self).reusing_failed_count + inc_count <= i64::MAX,
        ensures
            *r == (ReusingIndividualNodeConceptExpansionData { reusing_failed_count: (old(self).reusing_failed_count + inc_count) as i64, ..*old(self) }),
            *final(self) == *final(r),
    {
        self.reusing_failed_count = self.reusing_failed_count + inc_count;
        self
    }

    /// Records that reusing failed with an individual and a signature.
    pub fn add_reusing_failed_signature_and_individual(&mut self, con_set_signature: Cint64, individual_id: Cint64) -> (r: &mut Self)
        ensures
            r.reused_individuals@ == old(self).reused_individuals@.insert(individual_id),
            r.reused_concept_set_signatures@ == old(self).reused_concept_set_signatures@.insert(con_set_signature),
            r.blocking_expansion_data == old(self).blocking_expansion_data,
            r.reusing_tried_count == old(self).reusing_tried_count,
            r.reusing_failed_count == old(self).reusing_failed_count,
            r.reuse_concepts_dependency_track_point == old(self).reuse_concepts_dependency_track_point,
            r.last_non_det_expansion_linker == old(self).last_non_det_expansion_linker,
            *final(self) == *final(r),
    {
        self.reused_individuals.insert(individual_id);
        self.reused_concept_set_signatures.insert(con_set_signature);
        self
    }

    pub fn get_reuse_concepts_dependency_track_point(&self) -> (r: TrackPointId)
        ensures
            r == self.reuse_concepts_dependency_track_point,
    {
        self.reuse_concepts_dependency_track_point
    }

    pub fn set_reuse_concepts_dependency_track_point(&mut self, dep_track_point: TrackPointId) -> (r: &mut Self)
        ensures
            *r == (ReusingIndividualNodeConceptExpansionData { reuse_concepts_dependency_track_point: dep_track_point, ..*old(self) }),
            *final(self) == *final(r),
    {
        self.reuse_concepts_dependency_track_point = dep_track_point;
        self
    }

    pub fn get_last_non_deterministic_expansion_linker(&self) -> (r: &[ConDescId])
        ensures
            r@ == self.last_non_det_expansion_linker@,
    {
        self.last_non_det_expansion_linker.as_slice()
    }

    pub fn set_last_non_deterministic_expansion_linker(&mut self, exp_linker: Vec<ConDescId>) -> (r: &mut Self)
        ensures
            *r == (ReusingIndividualNodeConceptExpansionData { last_non_det_expansion_linker: exp_linker, ..*old(self) }),
            *final(self) == *final(r),
    {
        self.last_non_det_expansion_linker = exp_linker;
        self
    }

    pub fn get_blocker_individual_node(&self) -> (r: NodeId)
        ensures
            r == self.blocking_expansion_data.blocker_indi_node,
    {
        self.blocking_expansion_data.get_blocker_individual_node()
    }

    pub fn set_blocker_individual_node(&mut self, node: NodeId) -> (r: &mut Self)
        ensures
            *r == (ReusingIndividualNodeConceptExpansionData {
                blocking_expansion_data: SignatureBlockingIndividualNodeConceptExpansionData { blocker_indi_node: node, ..old(self).blocking_expansion_data },
                ..*old(self)
            }),
            *final(self) == *final(r),
    {
        self.blocking_expansion_data.set_blocker_individual_node(node);
        self
    }

    pub fn is_concept_set_still_subset(&self) -> (r: bool)
        ensures
            r == self.blocking_expansion_data.still_concept_set_subset,
    {
        self.blocking_expansion_data.is_concept_set_still_subset()
    }

    pub fn set_concept_set_still_subset(&mut self, still_subset: bool) -> (r: &mut Self)
        ensures
            *r == (ReusingIndividualNodeConceptExpansionData {
                blocking_expansion_data: SignatureBlockingIndividualNodeConceptExpansionData { still_concept_set_subset: still_subset, ..old(self).blocking_expansion_data },
                ..*old(self)
            }),
            *final(self) == *final(r),
    {
        self.blocking_expansion_data.set_concept_set_still_subset(still_subset);
        self
    }
}

impl Default for ReusingIndividualNodeConceptExpansionData {
    fn default() -> (r: Self)
        ensures
            r.is_initial(),
    {
        Self::new()
    }
}

} // verus!
