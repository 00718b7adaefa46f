//! The processing restriction of a merging branch: the candidate nodes that
//! may still be merged (nominal ones first), the nodes they must stay
//! distinct from, the candidates sorted by how they qualify, and the
//! counters and dependencies of the merging.

use vstd::prelude::*;
use crate::ids::{Id, Cint64, EdgeId, ClashDescId, DependencyId, TrackPointId, RestrictionSpecId,
    CandidateLinkerId, valid_in};
use crate::chain::{walk, chain_len_is, chain_ok, chain_len, lemma_chain_len, lemma_chain_no_repeat};
use crate::collections::IntSet;
use crate::context::{ProcessContext, ArenaKind};
use crate::models::{BranchingMergingIndividualNodeCandidateLinker, IndividualType};

verus! {

/// What a merging branch may still do.
pub struct BranchingMergingProcessingRestrictionSpecification {
    pub next_restriction: RestrictionSpecId,
    /// Present once the branch has a distinct set of its own.
    pub distinct_merged_nodes_set: Option<IntSet>,
    /// The distinct set read by the branch, own or inherited.
    pub last_distinct_merged_nodes_set: Option<IntSet>,
    pub nominal_merging_nodes_linker: CandidateLinkerId,
    pub merging_nodes_linker: CandidateLinkerId,
    pub merging_init_nodes_linker: CandidateLinkerId,
    pub only_pos_qualify_nodes_linker: CandidateLinkerId,
    pub only_neg_qualify_nodes_linker: CandidateLinkerId,
    pub both_qualify_nodes_linker: CandidateLinkerId,
    pub indi_link: EdgeId,
    pub remaining_linker_merging_candidate_indi_node_count: Cint64,
    pub remaining_valid_merging_candidate_indi_node_count: Cint64,
    pub distinct_set_fixed: bool,
    pub has_merging_init_candidates: bool,
    pub remaining_nominal_creation_count: Cint64,
    pub added_blockable_pred_merging_node_candidate: bool,
    pub added_blockable_pred_dep_track_point: TrackPointId,
    pub dependency_track_point: TrackPointId,
    pub merging_dependency_node: DependencyId,
    pub init_merging_nodes_clashes: ClashDescId,
    pub multiple_init_merging_nodes_clashes: ClashDescId,
    pub distinct_set_node_relocated: bool,
    pub succ_choice_triggering_installed: bool,
    pub succ_choice_triggering_installed_count: Cint64,
    pub last_checked_succ_choice_trigger_linker: Vec<EdgeId>,
}

/// The contents of an optional distinct set.
pub open spec fn set_view(s: Option<IntSet>) -> Option<Set<i64>> {
    match s {
        Some(x) => Some(x@),
        None => None,
    }
}

/// The contents of an optional distinct set, empty when absent.
pub open spec fn set_or_empty(s: Option<IntSet>) -> Set<i64> {
    match s {
        Some(x) => x@,
        None => Set::<i64>::empty(),
    }
}

/// Candidate linker `l` offers a blockable node through a link that this
/// node created.
pub open spec fn blockable_creator(ctx: ProcessContext, l: BranchingMergingIndividualNodeCandidateLinker) -> bool {
    &&& l.candidate_individual_node is At
    &&& l.merging_individual_link is At
    &&& ctx.nodes@[l.candidate_individual_node.index()].individual_type == IndividualType::Blockable
    &&& ctx.edges@[l.merging_individual_link.index()].creator_individual == l.candidate_individual_node
}

/// The candidate linker `k` steps along the chain from `start`.
pub open spec fn candidate_at(ctx: ProcessContext, start: Id, k: nat) -> BranchingMergingIndividualNodeCandidateLinker {
    ctx.branching_merging_candidate_linkers@[walk(ctx.branching_merging_candidate_linker_nexts(), start, k).index()]
}

/// Whether a blockable-creator candidate was recorded, and the dependency of
/// its link, after looking at the first `k` candidates of the chain from
/// `start`, starting from `(flag, tp)`: the first such candidate is kept.
pub open spec fn blockable_scan(ctx: ProcessContext, start: Id, k: nat, flag: bool, tp: Id) -> (bool, Id)
    decreases k,
{
    if k == 0 {
        (flag, tp)
    } else {
        let p = blockable_scan(ctx, start, (k - 1) as nat, flag, tp);
        let l = candidate_at(ctx, start, (k - 1) as nat);
        if !p.0 && blockable_creator(ctx, l) {
            (true, ctx.edges@[l.merging_individual_link.index()].dependency_track_point)
        } else {
            p
        }
    }
}

/// The nominal head, the other head and the `next` handles after moving the
/// first `k` candidates of the chain from `start`, one by one, to the front
/// of the nominal chain `nom` or of the other chain `mer`.
pub open spec fn split_candidates(ctx: ProcessContext, start: Id, k: nat, nom: Id, mer: Id) -> (Id, Id, Seq<Id>)
    decreases k,
{
    if k == 0 {
        (nom, mer, ctx.branching_merging_candidate_linker_nexts())
    } else {
        let p = split_candidates(ctx, start, (k - 1) as nat, nom, mer);
        let li = walk(ctx.branching_merging_candidate_linker_nexts(), start, (k - 1) as nat);
        let l = ctx.branching_merging_candidate_linkers@[li.index()];
        if ctx.nodes@[l.candidate_individual_node.index()].individual_type == IndividualType::Nominal {
            (li, p.1, p.2.update(li.index(), p.0))
        } else {
            (p.0, li, p.2.update(li.index(), p.1))
        }
    }
}

/// Every candidate of the first `n` of the chain from `start` that names a
/// node and a link names a node and a link of `ctx`, and, with
/// `need_candidate`, every one names a node of `ctx`.
pub open spec fn candidates_readable(ctx: ProcessContext, start: Id, n: nat, need_candidate: bool) -> bool {
    forall|k: nat| k < n ==> {
        let l = #[trigger] candidate_at(ctx, start, k);
        &&& (need_candidate ==> valid_in(l.candidate_individual_node, ctx.nodes@.len()))
        &&& (l.candidate_individual_node is At && l.merging_individual_link is At ==> {
            &&& valid_in(l.candidate_individual_node, ctx.nodes@.len())
            &&& valid_in(l.merging_individual_link, ctx.edges@.len())
        })
    }
}

/// The candidate linkers of `new` are those of `old` with at most their
/// `next` handles changed, and every other arena is kept.
pub open spec fn candidate_linkers_changed_only_in_next(new: ProcessContext, old: ProcessContext) -> bool {
    &&& new.agrees_except(old, set![ArenaKind::CandidateLinkers])
    &&& new.branching_merging_candidate_linkers@.len() == old.branching_merging_candidate_linkers@.len()
    &&& forall|i: int| 0 <= i < old.branching_merging_candidate_linkers@.len() ==> {
        &&& (#[trigger] new.branching_merging_candidate_linkers@[i]).candidate_individual_node
            == old.branching_merging_candidate_linkers@[i].candidate_individual_node
        &&& new.branching_merging_candidate_linkers@[i].merging_individual_link
            == old.branching_merging_candidate_linkers@[i].merging_individual_link
    }
}

/// The `next` handles after the first `k` moves differ from those before
/// only at the moved candidates.
proof fn lemma_split_frame(ctx: ProcessContext, start: Id, k: nat, nom: Id, mer: Id, n: nat, idx: int)
    requires
        chain_len_is(ctx.branching_merging_candidate_linker_nexts(), start, n),
        k <= n,
        forall|j: nat| j < k ==> (#[trigger] walk(ctx.branching_merging_candidate_linker_nexts(), start, j)).index() != idx,
    ensures
        split_candidates(ctx, start, k, nom, mer).2.len() == ctx.branching_merging_candidate_linker_nexts().len(),
        0 <= idx < ctx.branching_merging_candidate_linker_nexts().len()
            ==> split_candidates(ctx, start, k, nom, mer).2[idx] == ctx.branching_merging_candidate_linker_nexts()[idx],
    decreases k,
{
    if k > 0 {
        let nexts = ctx.branching_merging_candidate_linker_nexts();
        assert forall|j: nat| j < (k - 1) as nat implies (#[trigger] walk(nexts, start, j)).index() != idx by {
        }
        lemma_split_frame(ctx, start, (k - 1) as nat, nom, mer, n, idx);
        assert(valid_in(walk(nexts, start, (k - 1) as nat), nexts.len()));
    }
}

/// Links `list` behind the last linker of the candidate chain from `linker`
/// and gives the head of the joined chain: `list` when the chain is empty.
fn cl_append(process_context: &mut ProcessContext, linker: CandidateLinkerId, list: CandidateLinkerId) -> (r: CandidateLinkerId)
    requires
        chain_ok(old(process_context).branching_merging_candidate_linker_nexts(), linker),
    ensures
        ({
            let nexts = old(process_context).branching_merging_candidate_linker_nexts();
            let n = chain_len(nexts, linker);
            &&& r == (if linker is At { linker } else { list })
            &&& final(process_context).branching_merging_candidate_linker_nexts() == (if linker is At {
                nexts.update(walk(nexts, linker, (n - 1) as nat).index(), list)
            } else {
                nexts
            })
        }),
        candidate_linkers_changed_only_in_next(*final(process_context), *old(process_context)),
{
    if linker.is_none() {
        proof {
            assert(process_context.branching_merging_candidate_linker_nexts()
                == old(process_context).branching_merging_candidate_linker_nexts());
        }
        return list;
    }
    let ghost nexts = process_context.branching_merging_candidate_linker_nexts();
    let ghost n = chain_len(nexts, linker);
    proof {
        assert(chain_len_is(nexts, linker, n));
        if n == 0 {
            assert(walk(nexts, linker, 0) == linker);
        }
    }
    let mut last = linker;
    let ghost mut k: nat = 0;
    loop
        invariant
            nexts == process_context.branching_merging_candidate_linker_nexts(),
            *process_context == *old(process_context),
            chain_len_is(nexts, linker, n),
            k < n,
            last == walk(nexts, linker, k),
        ensures
            k + 1 == n,
            last == walk(nexts, linker, k),
        decreases n - k,
    {
        assert(valid_in(walk(nexts, linker, k), nexts.len()));
        assert(walk(nexts, linker, k + 1) == nexts[last.index()]);
        let next = process_context.branching_merging_candidate_linker(last).get_next();
        if next.is_none() {
            proof {
                if k + 1 < n {
                    assert(valid_in(walk(nexts, linker, k + 1), nexts.len()));
                }
            }
            break;
        }
        proof {
            if k + 1 == n {
                assert(walk(nexts, linker, n) == Id::NONE);
            }
        }
        last = next;
        proof {
            k = k + 1;
        }
    }
    assert(valid_in(last, nexts.len()));
    process_context.branching_merging_candidate_linker_mut(last).next = list;
    proof {
        assert(process_context.branching_merging_candidate_linker_nexts() =~= nexts.update(last.index(), list));
    }
    linker
}

impl BranchingMergingProcessingRestrictionSpecification {
    /// Nothing to merge, nothing recorded.
    pub open spec fn is_initial(&self) -> bool {
        &&& self.next_restriction == Id::NONE
        &&& self.last_distinct_merged_nodes_set is None
        &&& self.is_reset()
    }

    /// Every merging field reset: no candidates, no distinct set of its own,
    /// no counts, dependencies or clashes, nothing installed.
    pub open spec fn is_reset(&self) -> bool {
        &&& self.distinct_merged_nodes_set is None
        &&& self.nominal_merging_nodes_linker == Id::NONE
        &&& self.merging_nodes_linker == Id::NONE
        &&& self.merging_init_nodes_linker == Id::NONE
        &&& self.only_pos_qualify_nodes_linker == Id::NONE
        &&& self.only_neg_qualify_nodes_linker == Id::NONE
        &&& self.both_qualify_nodes_linker == Id::NONE
        &&& self.indi_link == Id::NONE
        &&& self.remaining_linker_merging_candidate_indi_node_count == 0
        &&& self.remaining_valid_merging_candidate_indi_node_count == 0
        &&& !self.distinct_set_fixed
        &&& !self.has_merging_init_candidates
        &&& self.remaining_nominal_creation_count == 0
        &&& !self.added_blockable_pred_merging_node_candidate
        &&& self.added_blockable_pred_dep_track_point == Id::NONE
        &&& self.dependency_track_point == Id::NONE
        &&& self.merging_dependency_node == Id::NONE
        &&& self.init_merging_nodes_clashes == Id::NONE
        &&& self.multiple_init_merging_nodes_clashes == Id::NONE
        &&& !self.distinct_set_node_relocated
        &&& !self.succ_choice_triggering_installed
        &&& self.succ_choice_triggering_installed_count == 0
        &&& self.last_checked_succ_choice_trigger_linker@.len() == 0
    }

    /// `self` continues the merging of `p`: the same candidates, counts,
    /// flags, dependencies and clashes, reading the distinct set of `p`
    /// without one of its own.
    pub open spec fn continues(&self, p: &Self) -> bool {
        &&& self.distinct_merged_nodes_set is None
        &&& set_view(self.last_distinct_merged_nodes_set) == set_view(p.last_distinct_merged_nodes_set)
        &&& self.nominal_merging_nodes_linker == p.nominal_merging_nodes_linker
        &&& self.merging_nodes_linker == p.merging_nodes_linker
        &&& self.merging_init_nodes_linker == p.merging_init_nodes_linker
        &&& self.only_pos_qualify_nodes_linker == p.only_pos_qualify_nodes_linker
        &&& self.only_neg_qualify_nodes_linker == p.only_neg_qualify_nodes_linker
        &&& self.both_qualify_nodes_linker == p.both_qualify_nodes_linker
        &&& self.indi_link == p.indi_link
        &&& self.remaining_linker_merging_candidate_indi_node_count == p.remaining_linker_merging_candidate_indi_node_count
        &&& self.remaining_valid_merging_candidate_indi_node_count == p.remaining_valid_merging_candidate_indi_node_count
        &&& self.distinct_set_fixed == p.distinct_set_fixed
        &&& self.has_merging_init_candidates == p.has_merging_init_candidates
        &&& self.remaining_nominal_creation_count == p.remaining_nominal_creation_count
        &&& self.added_blockable_pred_merging_node_candidate == p.added_blockable_pred_merging_node_candidate
        &&& self.added_blockable_pred_dep_track_point == p.added_blockable_pred_dep_track_point
        &&& self.dependency_track_point == p.dependency_track_point
        &&& self.merging_dependency_node == p.merging_dependency_node
        &&& self.init_merging_nodes_clashes == p.init_merging_nodes_clashes
        &&& self.multiple_init_merging_nodes_clashes == p.multiple_init_merging_nodes_clashes
        &&& self.distinct_set_node_relocated == p.distinct_set_node_relocated
        &&& self.succ_choice_triggering_installed == p.succ_choice_triggering_installed
        &&& self.succ_choice_triggering_installed_count == p.succ_choice_triggering_installed_count
        &&& self.last_checked_succ_choice_trigger_linker@ == p.last_checked_succ_choice_trigger_linker@
    }

    /// A restriction with nothing to merge.
    pub fn new() -> (r: Self)
        ensures
            r.is_initial(),
    {
        BranchingMergingProcessingRestrictionSpecification {
            next_restriction: Id::NONE,
            distinct_merged_nodes_set: None,
            last_distinct_merged_nodes_set: None,
            nominal_merging_nodes_linker: Id::NONE,
            merging_nodes_linker: Id::NONE,
            merging_init_nodes_linker: Id::NONE,
            only_pos_qualify_nodes_linker: Id::NONE,
            only_neg_qualify_nodes_linker: Id::NONE,
            both_qualify_nodes_linker: Id::NONE,
            indi_link: Id::NONE,
            remaining_linker_merging_candidate_indi_node_count: 0,
            remaining_valid_merging_candidate_indi_node_count: 0,
            distinct_set_fixed: false,
            has_merging_init_candidates: false,
            remaining_nominal_creation_count: 0,
            added_blockable_pred_merging_node_candidate: false,
            added_blockable_pred_dep_track_point: Id::NONE,
            dependency_track_point: Id::NONE,
            merging_dependency_node: Id::NONE,
            init_merging_nodes_clashes: Id::NONE,
            multiple_init_merging_nodes_clashes: Id::NONE,
            distinct_set_node_relocated: false,
            succ_choice_triggering_installed: false,
            succ_choice_triggering_installed_count: 0,
            last_checked_succ_choice_trigger_linker: Vec::new(),
        }
    }

    /// Continues the merging of `prev_rest`, or resets every merging field,
    /// keeping the distinct set read so far; the link to the next restriction
    /// is kept.
    pub fn init_branching_merging_processing_restriction(&mut self, prev_rest: Option<&Self>) -> (r: &mut Self)
        ensures
            r.next_restriction == old(self).next_restriction,
            match prev_rest {
                Some(p) => r.continues(p),
                None => r.is_reset() && r.last_distinct_merged_nodes_set == old(self).last_distinct_merged_nodes_set,
            },
            *final(self) == *final(r),
    {
        match prev_rest {
            Some(p) => {
                self.distinct_merged_nodes_set = None;
                self.last_distinct_merged_nodes_set = match &p.last_distinct_merged_nodes_set {
                    Some(s) => Some(s.copy()),
                    None => None,
                };
                self.nominal_merging_nodes_linker = p.nominal_merging_nodes_linker;
                self.merging_nodes_linker = p.merging_nodes_linker;
                self.merging_init_nodes_linker = p.merging_init_nodes_linker;
                self.only_pos_qualify_nodes_linker = p.only_pos_qualify_nodes_linker;
                self.only_neg_qualify_nodes_linker = p.only_neg_qualify_nodes_linker;
                self.both_qualify_nodes_linker = p.both_qualify_nodes_linker;
                self.indi_link = p.indi_link;
                self.remaining_linker_merging_candidate_indi_node_count = p.remaining_linker_merging_candidate_indi_node_count;
                self.remaining_valid_merging_candidate_indi_node_count = p.remaining_valid_merging_candidate_indi_node_count;
                self.distinct_set_fixed = p.distinct_set_fixed;
                self.has_merging_init_candidates = p.has_merging_init_candidates;
                self.remaining_nominal_creation_count = p.remaining_nominal_creation_count;
                self.added_blockable_pred_merging_node_candidate = p.added_blockable_pred_merging_node_candidate;
                self.added_blockable_pred_dep_track_point = p.added_blockable_pred_dep_track_point;
                self.dependency_track_point = p.dependency_track_point;
                self.merging_dependency_node = p.merging_dependency_node;
                self.init_merging_nodes_clashes = p.init_merging_nodes_clashes;
                self.multiple_init_merging_nodes_clashes = p.multiple_init_merging_nodes_clashes;
                self.distinct_set_node_relocated = p.distinct_set_node_relocated;
                self.succ_choice_triggering_installed = p.succ_choice_triggering_installed;
                self.succ_choice_triggering_installed_count = p.succ_choice_triggering_installed_count;
                let mut triggers: Vec<EdgeId> = Vec::new();
                let mut i: usize = 0;
                while i < p.last_checked_succ_choice_trigger_linker.len()
                    invariant
                        0 <= i <= p.last_checked_succ_choice_trigger_linker@.len(),
                        triggers@ == p.last_checked_succ_choice_trigger_linker@.subrange(0, i as int),
                    decreases p.last_checked_succ_choice_trigger_linker@.len() - i,
                {
                    triggers.push(p.last_checked_succ_choice_trigger_linker[i]);
                    i = i + 1;
                }
                assert(triggers@ =~= p.last_checked_succ_choice_trigger_linker@);
                self.last_checked_succ_choice_trigger_linker = triggers;
            },
            None => {
                self.last_checked_succ_choice_trigger_linker = Vec::new();
                self.succ_choice_triggering_installed_count = 0;
                self.succ_choice_triggering_installed = false;
                self.distinct_set_node_relocated = false;
                self.distinct_merged_nodes_set = None;
                self.merging_nodes_linker = Id::NONE;
                self.nominal_merging_nodes_linker = Id::NONE;
                self.merging_init_nodes_linker = Id::NONE;
                self.only_pos_qualify_nodes_linker = Id::NONE;
                self.only_neg_qualify_nodes_linker = Id::NONE;
                self.both_qualify_nodes_linker = Id::NONE;
                self.indi_link = Id::NONE;
                self.remaining_linker_merging_candidate_indi_node_count = 0;
                self.remaining_valid_merging_candidate_indi_node_count = 0;
                self.distinct_set_fixed = false;
                self.has_merging_init_candidates = false;
                self.remaining_nominal_creation_count = 0;
                self.added_blockable_pred_merging_node_candidate = false;
                self.added_blockable_pred_dep_track_point = Id::NONE;
                self.dependency_track_point = Id::NONE;
                self.merging_dependency_node = Id::NONE;
                self.init_merging_nodes_clashes = Id::NONE;
                self.multiple_init_merging_nodes_clashes = Id::NONE;
            },
        }
        self
    }

    /// A branch with its own distinct set also reads it.
    pub open spec fn wf(&self) -> bool {
        self.distinct_merged_nodes_set is Some ==> self.last_distinct_merged_nodes_set is Some
    }

    /// Gives the branch a distinct set of its own, holding what it read
    /// before, unless it has one; yields the set the branch reads.
    pub fn create_localized_distinct_merged_node_set(&mut self) -> (r: Option<&IntSet>)
        ensures
            old(self).distinct_merged_nodes_set is None ==> {
                &&& final(self).distinct_merged_nodes_set is Some
                &&& final(self).last_distinct_merged_nodes_set is Some
                &&& set_or_empty(final(self).last_distinct_merged_nodes_set)
                    == set_or_empty(old(self).last_distinct_merged_nodes_set)
            },
            old(self).distinct_merged_nodes_set is Some ==> *final(self) == *old(self),
            match r {
                Some(s) => final(self).last_distinct_merged_nodes_set == Some(*s),
                None => final(self).last_distinct_merged_nodes_set is None,
            },
            *final(self) == (BranchingMergingProcessingRestrictionSpecification {
                distinct_merged_nodes_set: final(self).distinct_merged_nodes_set,
                last_distinct_merged_nodes_set: final(self).last_distinct_merged_nodes_set,
                ..*old(self)
            }),
    {
        if self.distinct_merged_nodes_set.is_none() {
            let localized = match &self.last_distinct_merged_nodes_set {
                Some(s) => s.copy(),
                None => IntSet::new(),
            };
            self.last_distinct_merged_nodes_set = Some(localized);
            self.distinct_merged_nodes_set = Some(IntSet::new());
        }
        self.last_distinct_merged_nodes_set.as_ref()
    }

    /// The distinct set the branch reads; with `create`, a branch without a
    /// set of its own gets one first.
    pub fn get_distinct_merged_nodes_set(&mut self, create: bool) -> (r: Option<&IntSet>)
        ensures
            old(self).distinct_merged_nodes_set is None && create ==> {
                &&& final(self).distinct_merged_nodes_set is Some
                &&& final(self).last_distinct_merged_nodes_set is Some
                &&& set_or_empty(final(self).last_distinct_merged_nodes_set)
                    == set_or_empty(old(self).last_distinct_merged_nodes_set)
            },
            !(old(self).distinct_merged_nodes_set is None && create) ==> *final(self) == *old(self),
            match r {
                Some(s) => final(self).last_distinct_merged_nodes_set == Some(*s),
                None => final(self).last_distinct_merged_nodes_set is None,
            },
            *final(self) == (BranchingMergingProcessingRestrictionSpecification {
                distinct_merged_nodes_set: final(self).distinct_merged_nodes_set,
                last_distinct_merged_nodes_set: final(self).last_distinct_merged_nodes_set,
                ..*old(self)
            }),
    {
        if self.distinct_merged_nodes_set.is_none() && create {
            self.create_localized_distinct_merged_node_set();
        }
        self.last_distinct_merged_nodes_set.as_ref()
    }

    /// Adds node `merged_indi_node` to the branch's own distinct set.
    pub fn add_distinct_merged_node(&mut self, merged_indi_node: Cint64) -> (r: &mut Self)
        requires
            old(self).wf(),
        ensures
            r.distinct_merged_nodes_set is Some,
            r.last_distinct_merged_nodes_set is Some,
            set_or_empty(r.last_distinct_merged_nodes_set)
                == set_or_empty(old(self).last_distinct_merged_nodes_set).insert(merged_indi_node),
            *r == (BranchingMergingProcessingRestrictionSpecification {
                distinct_merged_nodes_set: r.distinct_merged_nodes_set,
                last_distinct_merged_nodes_set: r.last_distinct_merged_nodes_set,
                ..*old(self)
            }),
            *final(self) == *final(r),
    {
        self.create_localized_distinct_merged_node_set();
        let mut set = match self.last_distinct_merged_nodes_set.take() {
            Some(s) => s,
            None => IntSet::new(),
        };
        set.insert(merged_indi_node);
        self.last_distinct_merged_nodes_set = Some(set);
        self
    }

    /// Removes node `merged_indi_node` from the branch's own distinct set.
    pub fn remove_distinct_merged_node(&mut self, merged_indi_node: Cint64) -> (r: &mut Self)
        requires
            old(self).wf(),
        ensures
            r.distinct_merged_nodes_set is Some,
            r.last_distinct_merged_nodes_set is Some,
            set_or_empty(r.last_distinct_merged_nodes_set)
                == set_or_empty(old(self).last_distinct_merged_nodes_set).remove(merged_indi_node),
            *r == (BranchingMergingProcessingRestrictionSpecification {
                distinct_merged_nodes_set: r.distinct_merged_nodes_set,
                last_distinct_merged_nodes_set: r.last_distinct_merged_nodes_set,
                ..*old(self)
            }),
            *final(self) == *final(r),
    {
        self.create_localized_distinct_merged_node_set();
        let mut set = match self.last_distinct_merged_nodes_set.take() {
            Some(s) => s,
            None => IntSet::new(),
        };
        set.remove(&merged_indi_node);
        self.last_distinct_merged_nodes_set = Some(set);
        self
    }

    pub fn get_merging_candidate_node_linker(&self) -> (r: CandidateLinkerId)
        ensures
            r == self.merging_nodes_linker,
    {
        self.merging_nodes_linker
    }

    pub fn get_merging_initialization_candidate_node_linker(&self) -> (r: CandidateLinkerId)
        ensures
            r == self.merging_init_nodes_linker,
    {
        self.merging_init_nodes_linker
    }

    pub fn get_only_pos_qualify_candidate_node_linker(&self) -> (r: CandidateLinkerId)
        ensures
            r == self.only_pos_qualify_nodes_linker,
    {
        self.only_pos_qualify_nodes_linker
    }

    pub fn clear_only_pos_qualify_candidate_node_linker(&mut self) -> (r: &mut Self)
        ensures
            *r == (BranchingMergingProcessingRestrictionSpecification { only_pos_qualify_nodes_linker: Id::NONE, ..*old(self) }),
            *final(self) == *final(r),
    {
        self.only_pos_qualify_nodes_linker = Id::NONE;
        self
    }

    pub fn get_only_neg_qualify_candidate_node_linker(&self) -> (r: CandidateLinkerId)
        ensures
            r == self.only_neg_qualify_nodes_linker,
    {
        self.only_neg_qualify_nodes_linker
    }

    pub fn clear_only_neg_qualify_candidate_node_linker(&mut self) -> (r: &mut Self)
        ensures
            *r == (BranchingMergingProcessingRestrictionSpecification { only_neg_qualify_nodes_linker: Id::NONE, ..*old(self) }),
            *final(self) == *final(r),
    {
        self.only_neg_qualify_nodes_linker = Id::NONE;
        self
    }

    pub fn get_both_qualify_candidate_node_linker(&self) -> (r: CandidateLinkerId)
        ensures
            r == self.both_qualify_nodes_linker,
    {
        self.both_qualify_nodes_linker
    }

    pub fn set_both_qualify_candidate_node_linker(&mut self, v: CandidateLinkerId) -> (r: &mut Self)
        ensures
            *r == (BranchingMergingProcessingRestrictionSpecification { both_qualify_nodes_linker: v, ..*old(self) }),
            *final(self) == *final(r),
    {
        self.both_qualify_nodes_linker = v;
        self
    }

    pub fn get_remaining_linker_merging_candidate_individual_node_count(&self) -> (r: Cint64)
        ensures
            r == self.remaining_linker_merging_candidate_indi_node_count,
    {
        self.remaining_linker_merging_candidate_indi_node_count
    }

    pub fn set_remaining_linker_merging_candidate_individual_node_count(&mut self, v: Cint64) -> (r: &mut Self)
        ensures
            *r == (BranchingMergingProcessingRestrictionSpecification { remaining_linker_merging_candidate_indi_node_count: v, ..*old(self) }),
            *final(self) == *final(r),
    {
        self.remaining_linker_merging_candidate_indi_node_count = v;
        self
    }

    pub fn get_last_individual_link(&self) -> (r: EdgeId)
        ensures
            r == self.indi_link,
    {
        self.indi_link
    }

    pub fn set_last_individual_link(&mut self, v: EdgeId) -> (r: &mut Self)
        ensures
            *r == (BranchingMergingProcessingRestrictionSpecification { indi_link: v, ..*old(self) }),
            *final(self) == *final(r),
    {
        self.indi_link = v;
        self
    }

    pub fn get_remaining_valid_merging_candidate_individual_node_count(&self) -> (r: Cint64)
        ensures
            r == self.remaining_valid_merging_candidate_indi_node_count,
    {
        self.remaining_valid_merging_candidate_indi_node_count
    }

    pub fn set_remaining_valid_merging_candidate_individual_node_count(&mut self, v: Cint64) -> (r: &mut Self)
        ensures
            *r == (BranchingMergingProcessingRestrictionSpecification { remaining_valid_merging_candidate_indi_node_count: v, ..*old(self) }),
            *final(self) == *final(r),
    {
        self.remaining_valid_merging_candidate_indi_node_count = v;
        self
    }

    pub fn has_merging_initialization_candidates(&self) -> (r: bool)
        ensures
            r == self.has_merging_init_candidates,
    {
        self.has_merging_init_candidates
    }

    pub fn has_added_blockable_predecessor_merging_node_candidate(&self) -> (r: bool)
        ensures
            r == self.added_blockable_pred_merging_node_candidate,
    {
        self.added_blockable_pred_merging_node_candidate
    }

    pub fn get_added_blockable_predecessor_dependency_track_point(&self) -> (r: TrackPointId)
        ensures
            r == self.added_blockable_pred_dep_track_point,
    {
        self.added_blockable_pred_dep_track_point
    }

    pub fn init_merging_dependency_node(&mut self, v: DependencyId) -> (r: &mut Self)
        ensures
            *r == (BranchingMergingProcessingRestrictionSpecification { merging_dependency_node: v, ..*old(self) }),
            *final(self) == *final(r),
    {
        self.merging_dependency_node = v;
        self
    }

    pub fn get_merging_dependency_node(&self) -> (r: DependencyId)
        ensures
            r == self.merging_dependency_node,
    {
        self.merging_dependency_node
    }

    pub fn set_merging_nodes_initialization_clashes_descriptors(&mut self, v: ClashDescId) -> (r: &mut Self)
        ensures
            *r == (BranchingMergingProcessingRestrictionSpecification { init_merging_nodes_clashes: v, ..*old(self) }),
            *final(self) == *final(r),
    {
        self.init_merging_nodes_clashes = v;
        self
    }

    pub fn get_merging_nodes_initialization_clashes_descriptors(&self) -> (r: ClashDescId)
        ensures
            r == self.init_merging_nodes_clashes,
    {
        self.init_merging_nodes_clashes
    }

    pub fn set_multiple_merging_nodes_initialization_clashes_descriptors(&mut self, v: ClashDescId) -> (r: &mut Self)
        ensures
            *r == (BranchingMergingProcessingRestrictionSpecification { multiple_init_merging_nodes_clashes: v, ..*old(self) }),
            *final(self) == *final(r),
    {
        self.multiple_init_merging_nodes_clashes = v;
        self
    }

    pub fn get_multiple_merging_nodes_initialization_clashes_descriptors(&self) -> (r: ClashDescId)
        ensures
            r == self.multiple_init_merging_nodes_clashes,
    {
        self.multiple_init_merging_nodes_clashes
    }

    pub fn is_distinct_set_node_relocated(&self) -> (r: bool)
        ensures
            r == self.distinct_set_node_relocated,
    {
        self.distinct_set_node_relocated
    }

    pub fn set_distinct_set_node_relocated(&mut self, v: bool) -> (r: &mut Self)
        ensures
            *r == (BranchingMergingProcessingRestrictionSpecification { distinct_set_node_relocated: v, ..*old(self) }),
            *final(self) == *final(r),
    {
        self.distinct_set_node_relocated = v;
        self
    }

    pub fn has_successor_choice_triggering_installed(&self) -> (r: bool)
        ensures
            r == self.succ_choice_triggering_installed,
    {
        self.succ_choice_triggering_installed
    }

    pub fn set_successor_choice_triggering_installed(&mut self, v: bool) -> (r: &mut Self)
        ensures
            *r == (BranchingMergingProcessingRestrictionSpecification { succ_choice_triggering_installed: v, ..*old(self) }),
            *final(self) == *final(r),
    {
        self.succ_choice_triggering_installed = v;
        self
    }

    pub fn get_successor_choice_triggering_installed_count(&self) -> (r: Cint64)
        ensures
            r == self.succ_choice_triggering_installed_count,
    {
        self.succ_choice_triggering_installed_count
    }

    pub fn set_last_checked_successor_choice_trigger_linker(&mut self, v: Vec<EdgeId>) -> (r: &mut Self)
        ensures
            *r == (BranchingMergingProcessingRestrictionSpecification { last_checked_succ_choice_trigger_linker: v, ..*old(self) }),
            *final(self) == *final(r),
    {
        self.last_checked_succ_choice_trigger_linker = v;
        self
    }

    /// Takes the first candidate of the initialisation chain and uncounts
    /// it; `Id::NONE` when the chain is empty.
    pub fn take_next_merging_initialization_candidate_node_linker(&mut self, process_context: &ProcessContext) -> (r: CandidateLinkerId)
        requires
            old(self).merging_init_nodes_linker is At ==> {
                &&& valid_in(old(self).merging_init_nodes_linker, process_context.branching_merging_candidate_linkers@.len())
                &&& old(self).remaining_linker_merging_candidate_indi_node_count > i64::MIN
                &&& old(self).remaining_valid_merging_candidate_indi_node_count > i64::MIN
            },
        ensures
            r == old(self).merging_init_nodes_linker,
            r is At ==> *final(self) == (BranchingMergingProcessingRestrictionSpecification {
                merging_init_nodes_linker: process_context.branching_merging_candidate_linkers@[r.index()].next,
                remaining_linker_merging_candidate_indi_node_count:
                    (old(self).remaining_linker_merging_candidate_indi_node_count - 1) as i64,
                remaining_valid_merging_candidate_indi_node_count:
                    (old(self).remaining_valid_merging_candidate_indi_node_count - 1) as i64,
                ..*old(self)
            }),
            r is NONE ==> *final(self) == *old(self),
    {
        let tmp_merging_node_linker = self.merging_init_nodes_linker;
        if self.merging_init_nodes_linker.is_some() {
            self.remaining_linker_merging_candidate_indi_node_count = self.remaining_linker_merging_candidate_indi_node_count - 1;
            self.remaining_valid_merging_candidate_indi_node_count = self.remaining_valid_merging_candidate_indi_node_count - 1;
            self.merging_init_nodes_linker = process_context.branching_merging_candidate_linker(self.merging_init_nodes_linker).get_next();
        }
        tmp_merging_node_linker
    }

    /// Takes the next candidate to merge: first from the initialisation
    /// chain, then from the nominal chain, then from the other chain; the
    /// candidate is uncounted. `Id::NONE` when every chain is empty.
    pub fn take_next_merging_candidate_node_linker(&mut self, process_context: &ProcessContext) -> (r: CandidateLinkerId)
        requires
            old(self).merging_init_nodes_linker is At
                ==> valid_in(old(self).merging_init_nodes_linker, process_context.branching_merging_candidate_linkers@.len()),
            old(self).nominal_merging_nodes_linker is At
                ==> valid_in(old(self).nominal_merging_nodes_linker, process_context.branching_merging_candidate_linkers@.len()),
            old(self).merging_nodes_linker is At
                ==> valid_in(old(self).merging_nodes_linker, process_context.branching_merging_candidate_linkers@.len()),
            old(self).remaining_linker_merging_candidate_indi_node_count > i64::MIN,
            old(self).remaining_valid_merging_candidate_indi_node_count > i64::MIN,
        ensures
            ({
                let s = *old(self);
                let links = process_context.branching_merging_candidate_linkers@;
                let taken = BranchingMergingProcessingRestrictionSpecification {
                    remaining_linker_merging_candidate_indi_node_count: (s.remaining_linker_merging_candidate_indi_node_count - 1) as i64,
                    remaining_valid_merging_candidate_indi_node_count: (s.remaining_valid_merging_candidate_indi_node_count - 1) as i64,
                    ..s
                };
                if s.merging_init_nodes_linker is At {
                    &&& r == s.merging_init_nodes_linker
                    &&& *final(self) == (BranchingMergingProcessingRestrictionSpecification {
                        merging_init_nodes_linker: links[r.index()].next, ..taken })
                } else if s.nominal_merging_nodes_linker is At {
                    &&& r == s.nominal_merging_nodes_linker
                    &&& *final(self) == (BranchingMergingProcessingRestrictionSpecification {
                        nominal_merging_nodes_linker: links[r.index()].next, ..taken })
                } else if s.merging_nodes_linker is At {
                    &&& r == s.merging_nodes_linker
                    &&& *final(self) == (BranchingMergingProcessingRestrictionSpecification {
                        merging_nodes_linker: links[r.index()].next, ..taken })
                } else {
                    &&& r == Id::NONE
                    &&& *final(self) == s
                }
            }),
    {
        let mut tmp_merging_node_linker = self.take_next_merging_initialization_candidate_node_linker(process_context);
        if tmp_merging_node_linker.is_none() {
            tmp_merging_node_linker = self.nominal_merging_nodes_linker;
            if self.nominal_merging_nodes_linker.is_some() {
                self.remaining_linker_merging_candidate_indi_node_count = self.remaining_linker_merging_candidate_indi_node_count - 1;
                self.remaining_valid_merging_candidate_indi_node_count = self.remaining_valid_merging_candidate_indi_node_count - 1;
                self.nominal_merging_nodes_linker =
                    process_context.branching_merging_candidate_linker(self.nominal_merging_nodes_linker).get_next();
            }
            if tmp_merging_node_linker.is_none() {
                tmp_merging_node_linker = self.merging_nodes_linker;
                if self.merging_nodes_linker.is_some() {
                    self.remaining_linker_merging_candidate_indi_node_count = self.remaining_linker_merging_candidate_indi_node_count - 1;
                    self.remaining_valid_merging_candidate_indi_node_count = self.remaining_valid_merging_candidate_indi_node_count - 1;
                    self.merging_nodes_linker =
                        process_context.branching_merging_candidate_linker(self.merging_nodes_linker).get_next();
                }
            }
        }
        tmp_merging_node_linker
    }

    /// Whether candidate linker `linker` offers a blockable node through a
    /// link that this node created.
    fn cl_is_candidate_blockable_and_creator(process_context: &ProcessContext, linker: CandidateLinkerId) -> (r: bool)
        requires
            valid_in(linker, process_context.branching_merging_candidate_linkers@.len()),
            ({
                let l = process_context.branching_merging_candidate_linkers@[linker.index()];
                l.candidate_individual_node is At && l.merging_individual_link is At ==> {
                    &&& valid_in(l.candidate_individual_node, process_context.nodes@.len())
                    &&& valid_in(l.merging_individual_link, process_context.edges@.len())
                }
            }),
        ensures
            r == blockable_creator(*process_context, process_context.branching_merging_candidate_linkers@[linker.index()]),
    {
        let l = process_context.branching_merging_candidate_linker(linker);
        let merging_candidate = l.get_merging_individual_node_candidate();
        let merging_link = l.get_merging_individual_link();
        merging_candidate.is_some() && merging_link.is_some()
            && process_context.node(merging_candidate).is_blockable_individual()
            && process_context.edge(merging_link).get_creator_individual() == merging_candidate
    }

    /// Moves the candidates of the chain from `linker`, one by one, to the
    /// front of the nominal chain or of the other chain, by the type of
    /// their node, and counts them; the first candidate that offers a
    /// blockable node through a link it created records the dependency of
    /// that link, unless one was recorded before.
    pub fn add_merging_candidate_node_linker(&mut self, linker: CandidateLinkerId, process_context: &mut ProcessContext) -> (r: &mut Self)
        requires
            exists|n: nat| {
                &&& chain_len_is(old(process_context).branching_merging_candidate_linker_nexts(), linker, n)
                &&& candidates_readable(*old(process_context), linker, n, true)
                &&& old(self).remaining_linker_merging_candidate_indi_node_count + n <= i64::MAX
                &&& old(self).remaining_valid_merging_candidate_indi_node_count + n <= i64::MAX
            },
        ensures
            ({
                let c0 = *old(process_context);
                let n = chain_len(c0.branching_merging_candidate_linker_nexts(), linker);
                let sp = split_candidates(c0, linker, n, old(self).nominal_merging_nodes_linker, old(self).merging_nodes_linker);
                let sc = blockable_scan(c0, linker, n, old(self).added_blockable_pred_merging_node_candidate,
                    old(self).added_blockable_pred_dep_track_point);
                &&& *r == (BranchingMergingProcessingRestrictionSpecification {
                    nominal_merging_nodes_linker: sp.0,
                    merging_nodes_linker: sp.1,
                    remaining_linker_merging_candidate_indi_node_count:
                        (old(self).remaining_linker_merging_candidate_indi_node_count + n) as i64,
                    remaining_valid_merging_candidate_indi_node_count:
                        (old(self).remaining_valid_merging_candidate_indi_node_count + n) as i64,
                    added_blockable_pred_merging_node_candidate: sc.0,
                    added_blockable_pred_dep_track_point: sc.1,
                    ..*old(self)
                })
                &&& final(process_context).branching_merging_candidate_linker_nexts() == sp.2
            }),
            candidate_linkers_changed_only_in_next(*final(process_context), *old(process_context)),
            *final(self) == *final(r),
    {
        let ghost c0 = *process_context;
        let ghost nexts0 = c0.branching_merging_candidate_linker_nexts();
        let ghost n = choose|n: nat| {
            &&& chain_len_is(nexts0, linker, n)
            &&& candidates_readable(c0, linker, n, true)
            &&& old(self).remaining_linker_merging_candidate_indi_node_count + n <= i64::MAX
            &&& old(self).remaining_valid_merging_candidate_indi_node_count + n <= i64::MAX
        };
        proof {
            lemma_chain_len(nexts0, linker, n);
        }
        let ghost s0 = *self;
        let ghost start = linker;
        let mut linker = linker;
        let ghost mut k: nat = 0;
        while linker.is_some()
            invariant
                k <= n,
                nexts0 == c0.branching_merging_candidate_linker_nexts(),
                chain_len_is(nexts0, start, n),
                candidates_readable(c0, start, n, true),
                s0.remaining_linker_merging_candidate_indi_node_count + n <= i64::MAX,
                s0.remaining_valid_merging_candidate_indi_node_count + n <= i64::MAX,
                linker == walk(nexts0, start, k),
                candidate_linkers_changed_only_in_next(*process_context, c0),
                process_context.branching_merging_candidate_linker_nexts()
                    == split_candidates(c0, start, k, s0.nominal_merging_nodes_linker, s0.merging_nodes_linker).2,
                *self == (BranchingMergingProcessingRestrictionSpecification {
                    nominal_merging_nodes_linker:
                        split_candidates(c0, start, k, s0.nominal_merging_nodes_linker, s0.merging_nodes_linker).0,
                    merging_nodes_linker:
                        split_candidates(c0, start, k, s0.nominal_merging_nodes_linker, s0.merging_nodes_linker).1,
                    remaining_linker_merging_candidate_indi_node_count:
                        (s0.remaining_linker_merging_candidate_indi_node_count + k) as i64,
                    remaining_valid_merging_candidate_indi_node_count:
                        (s0.remaining_valid_merging_candidate_indi_node_count + k) as i64,
                    added_blockable_pred_merging_node_candidate: blockable_scan(c0, start, k,
                        s0.added_blockable_pred_merging_node_candidate, s0.added_blockable_pred_dep_track_point).0,
                    added_blockable_pred_dep_track_point: blockable_scan(c0, start, k,
                        s0.added_blockable_pred_merging_node_candidate, s0.added_blockable_pred_dep_track_point).1,
                    ..s0
                }),
            decreases n - k,
        {
            proof {
                if k == n {
                    assert(walk(nexts0, start, n) == Id::NONE);
                }
                assert(valid_in(walk(nexts0, start, k), nexts0.len()));
                assert forall|j: nat| j < k implies (#[trigger] walk(nexts0, start, j)).index() != linker.index() by {
                    lemma_chain_no_repeat(nexts0, start, n, j, k);
                    assert(valid_in(walk(nexts0, start, j), nexts0.len()));
                }
                lemma_split_frame(c0, start, k, s0.nominal_merging_nodes_linker, s0.merging_nodes_linker, n, linker.index());
                assert(walk(nexts0, start, k + 1) == nexts0[linker.index()]);
                assert(candidate_at(c0, start, k) == c0.branching_merging_candidate_linkers@[linker.index()]);
            }
            let linker_it = linker;
            linker = process_context.branching_merging_candidate_linker(linker_it).get_next();
            if !self.added_blockable_pred_merging_node_candidate
                && Self::cl_is_candidate_blockable_and_creator(process_context, linker_it)
            {
                let merging_individual_link = process_context.branching_merging_candidate_linker(linker_it).get_merging_individual_link();
                self.added_blockable_pred_dep_track_point =
                    process_context.edge(merging_individual_link).get_dependency_track_point();
                self.added_blockable_pred_merging_node_candidate = true;
            }
            self.remaining_linker_merging_candidate_indi_node_count = self.remaining_linker_merging_candidate_indi_node_count + 1;
            self.remaining_valid_merging_candidate_indi_node_count = self.remaining_valid_merging_candidate_indi_node_count + 1;
            let merging_candidate = process_context.branching_merging_candidate_linker(linker_it).get_merging_individual_node_candidate();
            let ghost before = process_context.branching_merging_candidate_linker_nexts();
            if process_context.node(merging_candidate).is_nominal_individual_node() {
                let head = self.nominal_merging_nodes_linker;
                process_context.branching_merging_candidate_linker_mut(linker_it).next = head;
                self.nominal_merging_nodes_linker = linker_it;
                proof {
                    assert(process_context.branching_merging_candidate_linker_nexts() =~= before.update(linker_it.index(), head));
                }
            } else {
                let head = self.merging_nodes_linker;
                process_context.branching_merging_candidate_linker_mut(linker_it).next = head;
                self.merging_nodes_linker = linker_it;
                proof {
                    assert(process_context.branching_merging_candidate_linker_nexts() =~= before.update(linker_it.index(), head));
                }
            }
            proof {
                k = k + 1;
            }
        }
        proof {
            if k < n {
                assert(valid_in(walk(nexts0, start, k), nexts0.len()));
            }
        }
        self
    }

    /// Puts the chain from `linker` in front of the initialisation chain and
    /// counts its candidates; the first candidate that offers a blockable
    /// node through a link it created records the dependency of that link,
    /// unless one was recorded before. An empty chain changes nothing.
    pub fn add_merging_initialization_candidate_node_linker(&mut self, linker: CandidateLinkerId, process_context: &mut ProcessContext) -> (r: &mut Self)
        requires
            exists|n: nat| {
                &&& chain_len_is(old(process_context).branching_merging_candidate_linker_nexts(), linker, n)
                &&& candidates_readable(*old(process_context), linker, n, false)
                &&& old(self).remaining_linker_merging_candidate_indi_node_count + n <= i64::MAX
                &&& old(self).remaining_valid_merging_candidate_indi_node_count + n <= i64::MAX
            },
        ensures
            ({
                let c0 = *old(process_context);
                let nexts = c0.branching_merging_candidate_linker_nexts();
                let n = chain_len(nexts, linker);
                let sc = blockable_scan(c0, linker, n, old(self).added_blockable_pred_merging_node_candidate,
                    old(self).added_blockable_pred_dep_track_point);
                if linker is At {
                    &&& *r == (BranchingMergingProcessingRestrictionSpecification {
                        has_merging_init_candidates: true,
                        merging_init_nodes_linker: linker,
                        remaining_linker_merging_candidate_indi_node_count:
                            (old(self).remaining_linker_merging_candidate_indi_node_count + n) as i64,
                        remaining_valid_merging_candidate_indi_node_count:
                            (old(self).remaining_valid_merging_candidate_indi_node_count + n) as i64,
                        added_blockable_pred_merging_node_candidate: sc.0,
                        added_blockable_pred_dep_track_point: sc.1,
                        ..*old(self)
                    })
                    &&& final(process_context).branching_merging_candidate_linker_nexts()
                        == nexts.update(walk(nexts, linker, (n - 1) as nat).index(), old(self).merging_init_nodes_linker)
                } else {
                    &&& *r == *old(self)
                    &&& final(process_context).branching_merging_candidate_linker_nexts() == nexts
                }
            }),
            candidate_linkers_changed_only_in_next(*final(process_context), *old(process_context)),
            *final(self) == *final(r),
    {
        let ghost c0 = *process_context;
        let ghost nexts0 = c0.branching_merging_candidate_linker_nexts();
        let ghost n = choose|n: nat| {
            &&& chain_len_is(nexts0, linker, n)
            &&& candidates_readable(c0, linker, n, false)
            &&& old(self).remaining_linker_merging_candidate_indi_node_count + n <= i64::MAX
            &&& old(self).remaining_valid_merging_candidate_indi_node_count + n <= i64::MAX
        };
        proof {
            lemma_chain_len(nexts0, linker, n);
        }
        if linker.is_some() {
            let ghost s0 = *self;
            self.has_merging_init_candidates = true;
            let mut linker_it = linker;
            let ghost mut k: nat = 0;
            while linker_it.is_some()
                invariant
                    k <= n,
                    *process_context == c0,
                    nexts0 == c0.branching_merging_candidate_linker_nexts(),
                    chain_len_is(nexts0, linker, n),
                    candidates_readable(c0, linker, n, false),
                    s0.remaining_linker_merging_candidate_indi_node_count + n <= i64::MAX,
                    s0.remaining_valid_merging_candidate_indi_node_count + n <= i64::MAX,
                    linker_it == walk(nexts0, linker, k),
                    *self == (BranchingMergingProcessingRestrictionSpecification {
                        has_merging_init_candidates: true,
                        remaining_linker_merging_candidate_indi_node_count:
                            (s0.remaining_linker_merging_candidate_indi_node_count + k) as i64,
                        remaining_valid_merging_candidate_indi_node_count:
                            (s0.remaining_valid_merging_candidate_indi_node_count + k) as i64,
                        added_blockable_pred_merging_node_candidate: blockable_scan(c0, linker, k,
                            s0.added_blockable_pred_merging_node_candidate, s0.added_blockable_pred_dep_track_point).0,
                        added_blockable_pred_dep_track_point: blockable_scan(c0, linker, k,
                            s0.added_blockable_pred_merging_node_candidate, s0.added_blockable_pred_dep_track_point).1,
                        ..s0
                    }),
                decreases n - k,
            {
                proof {
                    if k == n {
                        assert(walk(nexts0, linker, n) == Id::NONE);
                    }
                    assert(valid_in(walk(nexts0, linker, k), nexts0.len()));
                    assert(walk(nexts0, linker, k + 1) == nexts0[linker_it.index()]);
                    assert(candidate_at(c0, linker, k) == c0.branching_merging_candidate_linkers@[linker_it.index()]);
                }
                if !self.added_blockable_pred_merging_node_candidate
                    && Self::cl_is_candidate_blockable_and_creator(process_context, linker_it)
                {
                    let merging_individual_link = process_context.branching_merging_candidate_linker(linker_it).get_merging_individual_link();
                    self.added_blockable_pred_dep_track_point =
                        process_context.edge(merging_individual_link).get_dependency_track_point();
                    self.added_blockable_pred_merging_node_candidate = true;
                }
                self.remaining_linker_merging_candidate_indi_node_count = self.remaining_linker_merging_candidate_indi_node_count + 1;
                self.remaining_valid_merging_candidate_indi_node_count = self.remaining_valid_merging_candidate_indi_node_count + 1;
                linker_it = process_context.branching_merging_candidate_linker(linker_it).get_next();
                proof {
                    k = k + 1;
                }
            }
            proof {
                if k < n {
                    assert(valid_in(walk(nexts0, linker, k), nexts0.len()));
                }
            }
            let head = self.merging_init_nodes_linker;
            self.merging_init_nodes_linker = cl_append(process_context, linker, head);
        } else {
            proof {
                assert(process_context.branching_merging_candidate_linker_nexts() == nexts0);
            }
        }
        self
    }

    /// Puts the chain from `linker` in front of the candidates that only
    /// qualify positively; an empty chain changes nothing.
    pub fn add_only_pos_qualify_candidate_node_linker(&mut self, linker: CandidateLinkerId, process_context: &mut ProcessContext) -> (r: &mut Self)
        requires
            chain_ok(old(process_context).branching_merging_candidate_linker_nexts(), linker),
        ensures
            ({
                let nexts = old(process_context).branching_merging_candidate_linker_nexts();
                let n = chain_len(nexts, linker);
                if linker is At {
                    &&& *r == (BranchingMergingProcessingRestrictionSpecification { only_pos_qualify_nodes_linker: linker, ..*old(self) })
                    &&& final(process_context).branching_merging_candidate_linker_nexts()
                        == nexts.update(walk(nexts, linker, (n - 1) as nat).index(), old(self).only_pos_qualify_nodes_linker)
                } else {
                    &&& *r == *old(self)
                    &&& final(process_context).branching_merging_candidate_linker_nexts() == nexts
                }
            }),
            candidate_linkers_changed_only_in_next(*final(process_context), *old(process_context)),
            *final(self) == *final(r),
    {
        if linker.is_some() {
            let head = self.only_pos_qualify_nodes_linker;
            self.only_pos_qualify_nodes_linker = cl_append(process_context, linker, head);
        } else {
            proof {
                assert(process_context.branching_merging_candidate_linker_nexts()
                    == old(process_context).branching_merging_candidate_linker_nexts());
            }
        }
        self
    }

    /// Puts the chain from `linker` in front of the candidates that only
    /// qualify negatively; an empty chain changes nothing.
    pub fn add_only_neg_qualify_candidate_node_linker(&mut self, linker: CandidateLinkerId, process_context: &mut ProcessContext) -> (r: &mut Self)
        requires
            chain_ok(old(process_context).branching_merging_candidate_linker_nexts(), linker),
        ensures
            ({
                let nexts = old(process_context).branching_merging_candidate_linker_nexts();
                let n = chain_len(nexts, linker);
                if linker is At {
                    &&& *r == (BranchingMergingProcessingRestrictionSpecification { only_neg_qualify_nodes_linker: linker, ..*old(self) })
                    &&& final(process_context).branching_merging_candidate_linker_nexts()
                        == nexts.update(walk(nexts, linker, (n - 1) as nat).index(), old(self).only_neg_qualify_nodes_linker)
                } else {
                    &&& *r == *old(self)
                    &&& final(process_context).branching_merging_candidate_linker_nexts() == nexts
                }
            }),
            candidate_linkers_changed_only_in_next(*final(process_context), *old(process_context)),
            *final(self) == *final(r),
    {
        if linker.is_some() {
            let head = self.only_neg_qualify_nodes_linker;
            self.only_neg_qualify_nodes_linker = cl_append(process_context, linker, head);
        } else {
            proof {
                assert(process_context.branching_merging_candidate_linker_nexts()
                    == old(process_context).branching_merging_candidate_linker_nexts());
            }
        }
        self
    }

    /// Puts the chain from `linker` in front of the candidates that qualify
    /// both ways; an empty chain changes nothing.
    pub fn add_both_qualify_candidate_node_linker(&mut self, linker: CandidateLinkerId, process_context: &mut ProcessContext) -> (r: &mut Self)
        requires
            chain_ok(old(process_context).branching_merging_candidate_linker_nexts(), linker),
        ensures
            ({
                let nexts = old(process_context).branching_merging_candidate_linker_nexts();
                let n = chain_len(nexts, linker);
                if linker is At {
                    &&& *r == (BranchingMergingProcessingRestrictionSpecification { both_qualify_nodes_linker: linker, ..*old(self) })
                    &&& final(process_context).branching_merging_candidate_linker_nexts()
                        == nexts.update(walk(nexts, linker, (n - 1) as nat).index(), old(self).both_qualify_nodes_linker)
                } else {
                    &&& *r == *old(self)
                    &&& final(process_context).branching_merging_candidate_linker_nexts() == nexts
                }
            }),
            candidate_linkers_changed_only_in_next(*final(process_context), *old(process_context)),
            *final(self) == *final(r),
    {
        if linker.is_some() {
            let head = self.both_qualify_nodes_linker;
            self.both_qualify_nodes_linker = cl_append(process_context, linker, head);
        } else {
            proof {
                assert(process_context.branching_merging_candidate_linker_nexts()
                    == old(process_context).branching_merging_candidate_linker_nexts());
            }
        }
        self
    }

    pub fn inc_remaining_valid_merging_candidate_individual_node_count(&mut self) -> (r: &mut Self)
        requires
            old(self).remaining_valid_merging_candidate_indi_node_count < i64::MAX,
        ensures
            *r == (BranchingMergingProcessingRestrictionSpecification {
                remaining_valid_merging_candidate_indi_node_count:
                    (old(self).remaining_valid_merging_candidate_indi_node_count + 1) as i64,
                ..*old(self)
            }),
            *final(self) == *final(r),
    {
        self.remaining_valid_merging_candidate_indi_node_count = self.remaining_valid_merging_candidate_indi_node_count + 1;
        self
    }

    /// Whether every remaining candidate is still valid.
    pub fn has_valid_remaining_merging_candidates(&self) -> (r: bool)
        ensures
            r == (self.remaining_valid_merging_candidate_indi_node_count
                == self.remaining_linker_merging_candidate_indi_node_count),
    {
        self.remaining_valid_merging_candidate_indi_node_count == self.remaining_linker_merging_candidate_indi_node_count
    }

    /// Whether a candidate waits in the nominal, the other or the
    /// initialisation chain.
    pub fn has_remaining_merging_candidates(&self) -> (r: bool)
        ensures
            r == (self.nominal_merging_nodes_linker is At || self.merging_nodes_linker is At
                || self.merging_init_nodes_linker is At),
    {
        self.nominal_merging_nodes_linker.is_some() || self.merging_nodes_linker.is_some()
            || self.merging_init_nodes_linker.is_some()
    }

    /// Whether a candidate waits in the initialisation chain.
    pub fn has_remaining_merging_initialization_candidates(&self) -> (r: bool)
        ensures
            r == (self.merging_init_nodes_linker is At),
    {
        self.merging_init_nodes_linker.is_some()
    }

    pub fn dec_remaining_nominal_creation_count(&mut self, dec_count: Cint64) -> (r: &mut Self)
        requires
            i64::MIN <= old(self).remaining_nominal_creation_count - dec_count <= i64::MAX,
        ensures
            *r == (BranchingMergingProcessingRestrictionSpecification {
                remaining_nominal_creation_count: (old(self).remaining_nominal_creation_count - dec_count) as i64,
                ..*old(self)
            }),
            *final(self) == *final(r),
    {
        self.remaining_nominal_creation_count = self.remaining_nominal_creation_count - dec_count;
        self
    }

    pub fn inc_successor_choice_triggering_installed_count(&mut self, count: Cint64) -> (r: &mut Self)
        requires
            i64::MIN <= old(self).succ_choice_triggering_installed_count + count <= i64::MAX,
        ensures
            *r == (BranchingMergingProcessingRestrictionSpecification {
                succ_choice_triggering_installed_count: (old(self).succ_choice_triggering_installed_count + count) as i64,
                ..*old(self)
            }),
            *final(self) == *final(r),
    {
        self.succ_choice_triggering_installed_count = self.succ_choice_triggering_installed_count + count;
        self
    }

    pub fn dec_successor_choice_triggering_installed_count(&mut self, count: Cint64) -> (r: &mut Self)
        requires
            i64::MIN <= old(self).succ_choice_triggering_installed_count - count <= i64::MAX,
        ensures
            *r == (BranchingMergingProcessingRestrictionSpecification {
                succ_choice_triggering_installed_count: (old(self).succ_choice_triggering_installed_count - count) as i64,
                ..*old(self)
            }),
            *final(self) == *final(r),
    {
        self.succ_choice_triggering_installed_count = self.succ_choice_triggering_installed_count - count;
        self
    }

    pub fn get_last_checked_successor_choice_trigger_linker(&self) -> (r: &[EdgeId])
        ensures
            r@ == self.last_checked_succ_choice_trigger_linker@,
    {
        self.last_checked_succ_choice_trigger_linker.as_slice()
    }
}

impl Default for BranchingMergingProcessingRestrictionSpecification {
    fn default() -> (r: Self)
        ensures
            r.is_initial(),
    {
        Self::new()
    }
}

} // verus!
