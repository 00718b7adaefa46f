//! Properties that hold across operations of the process data: branch-tree
//! navigation, localisation of inherited objects, review order, candidate
//! walks and signature candidate counts.

use vstd::prelude::*;
use crate::ids::{Id, Cint64, NodeId, valid_in};
use crate::collections::{PairKey, ascending, has_key, entries_map, first_index, is_first, lemma_first_index,
    lemma_first_exists};
use crate::context::{ProcessContext, branch_step, pushed_one, base_dep_outcome, label_insert_outcome,
    role_extension_outcome, back_link_outcome, back_desc_outcome, label_copy_outcome};
use crate::models::{BranchTreeNode, IndividualType};
use crate::branching_tree::BranchingTree;
use crate::blocking_hash::{BlockingCandidateHashData, BlockingLinkedCandidateHashData, unlocalized, unlocalized_linked,
    first_above, cand_lookup_outcome, linked_lookup_outcome, BlockingIndividualNodeCandidateIterator};
use crate::binding_hash::var_path_lookup_outcome;
use crate::review::{taken_at, depth_ordered};
use crate::journal::{epoch_opened, epoch_closed, journaled_same};
use crate::merging_restriction::{blockable_scan, candidate_at, split_candidates};
use crate::saturation_label::{ReapplyConceptSaturationLabelSet, ConceptSaturationDescriptorReapplyData, flattened_additional,
    merged};
use crate::chain::walk;
use crate::signature_candidates::{signature_count, candidate_pairs, lemma_signature_count_append,
    lemma_candidate_pairs_count};

verus! {

/// The inputs on which a branch tree can be asked for the node of `task`:
/// its current and last current nodes are nodes of `nodes`, a tree with a
/// current node has it as its last current node too, and a node that gets a
/// child is not at the deepest level.
pub open spec fn branch_step_ready(t: BranchingTree, nodes: Seq<BranchTreeNode>, force: bool) -> bool {
    &&& nodes.len() + 2 < usize::MAX
    &&& t.curr_node is At ==> t.prev_curr_node == t.curr_node
    &&& t.curr_node is At ==> valid_in(t.curr_node, nodes.len())
    &&& t.curr_node is At && force ==> nodes[t.curr_node.index()].branching_level < i64::MAX
    &&& t.curr_node is NONE && t.prev_curr_node is At ==> valid_in(t.prev_curr_node, nodes.len())
        && nodes[t.prev_curr_node.index()].branching_level < i64::MAX
}

/// Asking a branch tree for the node of a task yields a node of that task
/// which becomes both the current and the last current node of the tree;
/// the nodes that existed before are kept unchanged.
pub proof fn law_branch_node_is_current_node_of_task(
    t: BranchingTree,
    nodes: Seq<BranchTreeNode>,
    task: Cint64,
    force: bool,
)
    requires
        branch_step_ready(t, nodes, force),
    ensures
        ({
            let step = branch_step(t, nodes, task, force);
            &&& step.0.curr_node == step.2
            &&& step.0.prev_curr_node == step.2
            &&& valid_in(step.2, step.1.len())
            &&& step.1[step.2.index()].sat_calc_task == task
            &&& nodes.len() <= step.1.len()
            &&& forall|i: int| 0 <= i < nodes.len() ==> #[trigger] step.1[i] == nodes[i]
        }),
{
    let step = branch_step(t, nodes, task, force);
    let id1 = Id::At(nodes.len() as usize);
    assert(id1.index() == nodes.len());
    if t.curr_node is At {
        let c = nodes[t.curr_node.index()];
        if c.sat_calc_task != task {
            let nodes1 = nodes.push(crate::context::copied_branch_node(c, t.curr_node, id1, task));
            let id2 = Id::At(nodes1.len() as usize);
            assert(id2.index() == nodes1.len());
            if force {
                assert(step.1 == nodes1.push(crate::context::child_branch_node(nodes1[id1.index()], id1, task)));
            }
        } else {
            if force {
                let id2 = Id::At(nodes.len() as usize);
                assert(id2.index() == nodes.len());
            }
        }
    }
}

/// Asking a second time for the node of the same task, without forcing a
/// new branch, yields the same node and changes neither the tree nor its
/// nodes.
pub proof fn law_branch_node_asked_again_is_stable(
    t: BranchingTree,
    nodes: Seq<BranchTreeNode>,
    task: Cint64,
    force: bool,
)
    requires
        branch_step_ready(t, nodes, force),
    ensures
        ({
            let step = branch_step(t, nodes, task, force);
            branch_step(step.0, step.1, task, false) == step
        }),
{
    let step = branch_step(t, nodes, task, force);
    law_branch_node_is_current_node_of_task(t, nodes, task, force);
    assert(step.0.curr_node is At);
}

/// A forced branch is a child of the node that would be current otherwise:
/// one level deeper and under the same root.
pub proof fn law_forced_branch_is_child(t: BranchingTree, nodes: Seq<BranchTreeNode>, task: Cint64)
    requires
        branch_step_ready(t, nodes, true),
        t.curr_node is At,
    ensures
        ({
            let plain = branch_step(t, nodes, task, false);
            let forced = branch_step(t, nodes, task, true);
            let child = forced.1[forced.2.index()];
            &&& child.parent == plain.2
            &&& child.root == plain.1[plain.2.index()].root
            &&& child.branching_level == plain.1[plain.2.index()].branching_level + 1
            &&& forced.1.len() == plain.1.len() + 1
        }),
{
}

/// Localising an inherited object adds the copy at the end of its arena:
/// the inherited object, like every other one, stays as it was.
pub proof fn law_localized_copy_keeps_parent<T>(old_arena: Seq<T>, new_arena: Seq<T>, prev: Id)
    requires
        pushed_one(old_arena, new_arena),
        valid_in(prev, old_arena.len()),
    ensures
        new_arena[prev.index()] == old_arena[prev.index()],
{
}

/// Inheriting a candidate hash from a hash that was itself inherited gives
/// the same buckets as inheriting from the first hash: nothing stays
/// localised, the data in use is kept.
pub proof fn law_inherited_candidate_buckets_settle(m: Map<PairKey, BlockingCandidateHashData>)
    ensures
        m.map_values(|d: BlockingCandidateHashData| unlocalized(d)).map_values(
            |d: BlockingCandidateHashData| unlocalized(d))
            == m.map_values(|d: BlockingCandidateHashData| unlocalized(d)),
{
    assert(m.map_values(|d: BlockingCandidateHashData| unlocalized(d)).map_values(
        |d: BlockingCandidateHashData| unlocalized(d))
        =~= m.map_values(|d: BlockingCandidateHashData| unlocalized(d)));
}

/// The same for linked candidate hashes.
pub proof fn law_inherited_linked_candidate_buckets_settle(m: Map<PairKey, BlockingLinkedCandidateHashData>)
    ensures
        m.map_values(|d: BlockingLinkedCandidateHashData| unlocalized_linked(d)).map_values(
            |d: BlockingLinkedCandidateHashData| unlocalized_linked(d))
            == m.map_values(|d: BlockingLinkedCandidateHashData| unlocalized_linked(d)),
{
    assert(m.map_values(|d: BlockingLinkedCandidateHashData| unlocalized_linked(d)).map_values(
        |d: BlockingLinkedCandidateHashData| unlocalized_linked(d))
        =~= m.map_values(|d: BlockingLinkedCandidateHashData| unlocalized_linked(d)));
}

/// The reusing review hands out the shallowest queued member of a
/// depth-ordered queue, drops it from the members, and leaves the queue
/// depth-ordered.
pub proof fn law_review_takes_shallowest_member(
    q: Seq<(i64, i64)>,
    members: Set<i64>,
    k: int,
    r: i64,
    final_members: Set<i64>,
    final_queue: Seq<(i64, i64)>,
)
    requires
        depth_ordered(q),
        taken_at(q, members, k, r, final_members, final_queue),
    ensures
        depth_ordered(final_queue),
        k < q.len() ==> {
            &&& members.contains(r)
            &&& !final_members.contains(r)
            &&& forall|i: int| 0 <= i < q.len() && members.contains(#[trigger] q[i].1) ==> q[k].0 <= q[i].0
        },
        k == q.len() ==> forall|i: int| 0 <= i < q.len() ==> !members.contains(#[trigger] q[i].1),
{
    if k < q.len() {
        assert forall|i: int| 0 <= i < q.len() && members.contains(#[trigger] q[i].1) implies q[k].0 <= q[i].0 by {
            if i < k {
                assert(!members.contains(q[i].1));
            }
        }
        assert forall|i: int, j: int| 0 <= i < j < final_queue.len() implies final_queue[i].0 <= final_queue[j].0 by {
            assert(final_queue[i] == q[k + 1 + i]);
            assert(final_queue[j] == q[k + 1 + j]);
        }
    }
}

/// A fresh walk over an ascending candidate map, started below identifier
/// `id`, yields only candidates with an identifier below `id`, each with a
/// larger identifier than the one after it.
pub proof fn law_candidate_walk_descends_below_bound(entries: Seq<(i64, NodeId)>, id: i64, begin: int)
    requires
        ascending(entries),
        id != i64::MIN,
        first_above(entries, -id as i64, begin),
    ensures
        forall|j: int| begin <= j < entries.len() ==> -(#[trigger] entries[j]).0 < id,
        forall|i: int, j: int| begin <= i < j < entries.len() ==> -entries[i].0 > -entries[j].0,
{
    assert forall|j: int| begin <= j < entries.len() implies -(#[trigger] entries[j]).0 < id by {
        if begin < j {
            assert(entries[begin].0 < entries[j].0);
        }
    }
}

/// Recording candidates for a signature adds their number to the count of
/// that signature and leaves the count of every other signature unchanged.
pub proof fn law_signature_candidates_counted(
    old_pairs: Seq<(i64, i64)>,
    signature: i64,
    cands: Seq<i64>,
    other: i64,
)
    requires
        other != signature,
    ensures
        signature_count(old_pairs + candidate_pairs(signature, cands), signature)
            == signature_count(old_pairs, signature) + cands.len(),
        signature_count(old_pairs + candidate_pairs(signature, cands), other)
            == signature_count(old_pairs, other),
{
    lemma_signature_count_append(old_pairs, candidate_pairs(signature, cands), signature);
    lemma_signature_count_append(old_pairs, candidate_pairs(signature, cands), other);
    lemma_candidate_pairs_count(signature, cands);
    lemma_other_signature_uncounted(signature, cands, other);
}

/// Pairs recorded for one signature do not count for another.
proof fn lemma_other_signature_uncounted(signature: i64, cands: Seq<i64>, other: i64)
    requires
        other != signature,
    ensures
        signature_count(candidate_pairs(signature, cands), other) == 0,
    decreases cands.len(),
{
    if cands.len() > 0 {
        lemma_other_signature_uncounted(signature, cands.drop_last(), other);
        assert(candidate_pairs(signature, cands).drop_last() =~= candidate_pairs(signature, cands.drop_last()));
    }
}


/// A tree gets its base dependency node at most once: a creating call
/// yields a node, an independent base dependency node when it was created,
/// and every later call yields the same node and changes nothing.
pub proof fn law_base_dependency_created_once(
    c0: ProcessContext,
    c1: ProcessContext,
    c2: ProcessContext,
    tree_id: Id,
    create2: bool,
    r1: Id,
    r2: Id,
)
    requires
        valid_in(tree_id, c0.branching_trees@.len()),
        c0.dep_nodes@.len() < usize::MAX,
        base_dep_outcome(c0, c1, tree_id, true, r1),
        base_dep_outcome(c1, c2, tree_id, create2, r2),
    ensures
        r1 is At,
        c0.branching_trees@[tree_id.index()].base_dep_node is NONE ==> {
            &&& valid_in(r1, c1.dep_nodes@.len())
            &&& c1.dep_nodes@[r1.index()].independent_base
            &&& c1.dep_nodes@.len() == c0.dep_nodes@.len() + 1
        },
        r2 == r1,
        c2.dep_nodes@ == c1.dep_nodes@,
        c2.branching_trees@ == c1.branching_trees@,
{
    assert(c1.branching_trees@[tree_id.index()].base_dep_node == r1);
}

/// Blocking candidate data is localised in a bucket at most once: after a
/// creating lookup, every later lookup of the same bucket yields the same
/// data and allocates nothing.
pub proof fn law_candidate_data_localised_once(
    c0: ProcessContext,
    c1: ProcessContext,
    c2: ProcessContext,
    this: Id,
    key: PairKey,
    create2: bool,
    r1: Id,
    r2: Id,
)
    requires
        valid_in(this, c0.blocking_indi_node_cand_hashes@.len()),
        cand_lookup_outcome(c0, c1, this, key, true, r1),
        cand_lookup_outcome(c1, c2, this, key, create2, r2),
    ensures
        r2 == r1,
        c2.blocking_indi_node_cand_datas@ == c1.blocking_indi_node_cand_datas@,
        c1.blocking_indi_node_cand_hashes@[this.index()].block_candidate_hash@.contains_key(key),
        c1.blocking_indi_node_cand_hashes@[this.index()].block_candidate_hash@[key].candidate_indi_data is At,
{
}

/// The same for linked candidate data.
pub proof fn law_linked_candidate_data_localised_once(
    c0: ProcessContext,
    c1: ProcessContext,
    c2: ProcessContext,
    this: Id,
    key: PairKey,
    create2: bool,
    r1: Id,
    r2: Id,
)
    requires
        valid_in(this, c0.blocking_indi_node_linked_cand_hashes@.len()),
        linked_lookup_outcome(c0, c1, this, key, true, r1),
        linked_lookup_outcome(c1, c2, this, key, create2, r2),
    ensures
        r2 == r1,
        c2.blocking_indi_node_linked_cand_datas@ == c1.blocking_indi_node_linked_cand_datas@,
        c1.blocking_indi_node_linked_cand_hashes@[this.index()].block_candidate_hash@.contains_key(key),
        c1.blocking_indi_node_linked_cand_hashes@[this.index()].block_candidate_hash@[key].candidate_indi_data is At,
{
}

/// A variable-binding path set is localised for a concept at most once:
/// after a localising call, every later call for the same concept yields the
/// same set and allocates nothing.
pub proof fn law_variable_binding_path_set_localised_once(
    c0: ProcessContext,
    c1: ProcessContext,
    c2: ProcessContext,
    this: Id,
    con_tag: i64,
    localize2: bool,
    r1: Id,
    r2: Id,
)
    requires
        valid_in(this, c0.con_var_bind_path_set_hashes@.len()),
        var_path_lookup_outcome(c0, c1, this, con_tag, true, r1),
        var_path_lookup_outcome(c1, c2, this, con_tag, localize2, r2),
    ensures
        r2 == r1,
        c2.var_binding_path_sets@ == c1.var_binding_path_sets@,
{
}

/// Opening a branch epoch, working under it in any way that leaves the
/// epoch stack as it is, and closing the epoch gives every journaled arena
/// back what it held when the epoch was opened: what was allocated under the
/// epoch is gone and what was changed in place is undone. The epoch stack is
/// back as it was, and the shared arenas (concept descriptors, branch nodes,
/// dependency nodes) keep what was added under the epoch.
pub proof fn law_branch_epoch_rolls_back(
    before: ProcessContext,
    opened: ProcessContext,
    worked: ProcessContext,
    closed: ProcessContext,
)
    requires
        epoch_opened(before, opened),
        worked.epochs@ == opened.epochs@,
        epoch_closed(worked, closed),
    ensures
        journaled_same(closed, before),
        closed.epochs@ == before.epochs@,
        closed.con_descs@ == worked.con_descs@,
        closed.branch_nodes@ == worked.branch_nodes@,
        closed.dep_nodes@ == worked.dep_nodes@,
{
}

/// A concept descriptor put into a reapply label stays there: inserting a
/// second descriptor under the same tag inserts nothing, and it reports a
/// clash exactly when the two descriptors have opposite polarities.
pub proof fn law_label_insert_then_clash(
    c0: ProcessContext,
    c1: ProcessContext,
    c2: ProcessContext,
    label_set: Id,
    d1: Id,
    d2: Id,
    con_tag: i64,
    r1: (bool, bool, Id),
    r2: (bool, bool, Id),
)
    requires
        valid_in(label_set, c0.reapply_con_sat_label_sets@.len()),
        valid_in(d1, c0.con_sat_descs@.len()),
        valid_in(d2, c0.con_sat_descs@.len()),
        label_insert_outcome(c0, c1, label_set, d1, con_tag, r1),
        label_insert_outcome(c1, c2, label_set, d2, con_tag, r2),
        r1.1,
    ensures
        !r2.1,
        r2.0 == (c0.con_sat_descs@[d1.index()].negated != c0.con_sat_descs@[d2.index()].negated),
        c2.reapply_con_sat_label_sets@[label_set.index()].concept_count
            == c1.reapply_con_sat_label_sets@[label_set.index()].concept_count,
{
    let ls1 = c1.reapply_con_sat_label_sets@[label_set.index()];
    assert(ls1.concept_des_dep_hash@.contains_key(con_tag));
    assert(ls1.effective_entry(con_tag).con_sat_des == d1);
}

/// The successor extension of a role is made at most once: asking again for
/// the extension of the same role gives the extension made the first time
/// and allocates nothing.
pub proof fn law_role_extension_created_once(
    c0: ProcessContext,
    c1: ProcessContext,
    c2: ProcessContext,
    linked: Id,
    role: Id,
    r1: Id,
    r2: Id,
)
    requires
        valid_in(linked, c0.sat_linked_succ_indi_all_concept_ext_datas@.len()),
        role is At,
        role_extension_outcome(c0, c1, linked, role, r1),
        role_extension_outcome(c1, c2, linked, role, r2),
    ensures
        r2 == r1,
        c2.sat_successor_all_concept_ext_datas@ == c1.sat_successor_all_concept_ext_datas@,
        c2.sat_successor_concept_extension_maps@ == c1.sat_successor_concept_extension_maps@,
{
    let l1 = c1.sat_linked_succ_indi_all_concept_ext_datas@[linked.index()];
    assert(!l1.other_role_inline(role));
    assert(l1.hash_after_release(role) == l1.role_concept_extension_hash@);
    if !(l1.role_concept_extension_hash@.dom() =~= Set::<Id>::empty()) {
        assert(l1.role_concept_extension_hash@.contains_key(role));
    }
}

/// Links and waiting descriptors of a role meet whichever comes first: a
/// link added after a descriptor is handed that descriptor, and a
/// descriptor added after a link is handed that link; afterwards the role
/// holds both at the heads of its chains.
pub proof fn law_backward_propagation_meets(
    c0: ProcessContext,
    c1: ProcessContext,
    c2: ProcessContext,
    hash: Id,
    role: Id,
    desc: Id,
    link: Id,
    r1: Id,
    r2: Id,
    descriptor_first: bool,
)
    requires
        valid_in(hash, c0.role_backward_prop_hashes@.len()),
        valid_in(link, c0.backward_prop_links@.len()),
        desc is At,
        c0.role_backward_prop_hashes@[hash.index()].data_of(role).link_linker is NONE,
        descriptor_first ==> back_desc_outcome(c0, c1, hash, role, desc, r1),
        descriptor_first ==> back_link_outcome(c1, c2, hash, role, link, r2),
        !descriptor_first ==> back_link_outcome(c0, c1, hash, role, link, r1),
        !descriptor_first ==> back_desc_outcome(c1, c2, hash, role, desc, r2),
    ensures
        descriptor_first ==> r1 is NONE && r2 == desc,
        !descriptor_first ==> r2 == link,
        c2.role_backward_prop_hashes@[hash.index()].data_of(role).link_linker == link,
        c2.role_backward_prop_hashes@[hash.index()].data_of(role).reapply_linker == desc,
{
}

/// The state `its[k]` of a walk after `k` steps, each moving on and
/// yielding `ys[k]`.
pub open spec fn candidate_walk(its: Seq<BlockingIndividualNodeCandidateIterator>, ys: Seq<Option<NodeId>>) -> bool {
    &&& its.len() == ys.len() + 1
    &&& forall|k: int| 0 <= k < ys.len() ==> {
        &&& its[k + 1].stepped(its[k], true)
        &&& #[trigger] ys[k] == (if its[k].map_present && its[k].it_begin != its[k].it_end {
            Some(its[k].entries@[its[k].it_begin as int].1)
        } else {
            None
        })
    }
}

/// After `k` steps a walk started at `begin` stands at `begin + k`, or at
/// the end.
proof fn lemma_candidate_walk_position(
    entries: Seq<(i64, NodeId)>,
    its: Seq<BlockingIndividualNodeCandidateIterator>,
    ys: Seq<Option<NodeId>>,
    k: int,
)
    requires
        candidate_walk(its, ys),
        its[0].wf(),
        its[0].map_present,
        its[0].entries@ == entries,
        0 <= k <= ys.len(),
    ensures
        its[k].entries@ == entries,
        its[k].map_present,
        its[k].it_end == entries.len(),
        its[k].it_begin == (if its[0].it_begin + k <= entries.len() { its[0].it_begin + k } else { entries.len() as int }),
    decreases k,
{
    if k > 0 {
        lemma_candidate_walk_position(entries, its, ys, k - 1);
        assert(ys[k - 1] == ys[k - 1]);
        assert(its[k].stepped(its[k - 1], true));
    }
}

/// A walk over an ascending candidate map started below identifier `id`
/// yields, one per step, exactly the candidates whose key lies above `-id`
/// (the individuals with an identifier below `id`), in ascending key order,
/// and nothing once they are used up.
pub proof fn law_candidate_walk_yields_candidates_below_bound(
    entries: Seq<(i64, NodeId)>,
    id: i64,
    owner: Id,
    its: Seq<BlockingIndividualNodeCandidateIterator>,
    ys: Seq<Option<NodeId>>,
)
    requires
        ascending(entries),
        id != i64::MIN,
        its.len() > 0,
        its[0].starts_over(entries, id, owner),
        candidate_walk(its, ys),
    ensures
        forall|k: int| 0 <= k < ys.len() ==> #[trigger] ys[k] == (if its[0].it_begin + k < entries.len() {
            Some(entries[its[0].it_begin + k].1)
        } else {
            None
        }),
        forall|j: int| 0 <= j < entries.len() ==> (its[0].it_begin <= j <==> #[trigger] entries[j].0 > -id),
{
    let begin = its[0].it_begin as int;
    assert forall|k: int| 0 <= k < ys.len() implies #[trigger] ys[k] == (if begin + k < entries.len() {
        Some(entries[begin + k].1)
    } else {
        None
    }) by {
        lemma_candidate_walk_position(entries, its, ys, k);
    }
    assert forall|j: int| 0 <= j < entries.len() implies (begin <= j <==> #[trigger] entries[j].0 > -id) by {
        if begin < j {
            assert(entries[begin].0 < entries[j].0);
        }
    }
}

/// Every branch node with a parent lies one level below it, under the same
/// root, and every node without one is a root of its own at level 0.
pub open spec fn levels_follow_parents(nodes: Seq<BranchTreeNode>) -> bool {
    forall|i: int| 0 <= i < nodes.len() ==> #[trigger] branch_node_in_place(nodes, nodes[i], i)
}

/// Node `x`, stored at `i`, lies one level below its parent and under the
/// parent's root, or is a root of its own at level 0; its root is a node of
/// `nodes` without a parent.
pub open spec fn branch_node_in_place(nodes: Seq<BranchTreeNode>, x: BranchTreeNode, i: int) -> bool {
    &&& x.parent is At ==> valid_in(x.parent, nodes.len())
        && x.branching_level == nodes[x.parent.index()].branching_level + 1
        && x.root == nodes[x.parent.index()].root
    &&& x.parent is NONE ==> x.branching_level == 0 && x.root == Id::At(i as usize)
    &&& valid_in(x.root, nodes.len())
    &&& nodes[x.root.index()].parent is NONE
}

/// Adding a node that stands in its place keeps every node in its place.
proof fn lemma_push_in_place(nodes: Seq<BranchTreeNode>, x: BranchTreeNode)
    requires
        levels_follow_parents(nodes),
        nodes.len() < usize::MAX,
        x.parent is At ==> valid_in(x.parent, nodes.len())
            && x.branching_level == nodes[x.parent.index()].branching_level + 1
            && x.root == nodes[x.parent.index()].root,
        x.parent is NONE ==> x.branching_level == 0 && x.root == Id::At(nodes.len() as usize),
    ensures
        levels_follow_parents(nodes.push(x)),
{
    let n = nodes.push(x);
    assert forall|i: int| 0 <= i < n.len() implies #[trigger] branch_node_in_place(n, n[i], i) by {
        if i < nodes.len() {
            assert(branch_node_in_place(nodes, nodes[i], i));
            assert(n[i] == nodes[i]);
            if nodes[i].parent is At {
                assert(branch_node_in_place(nodes, nodes[nodes[i].parent.index()], nodes[i].parent.index()));
            }
        } else {
            if x.parent is At {
                let p = x.parent.index();
                assert(branch_node_in_place(nodes, nodes[p], p));
                assert(n[p] == nodes[p]);
            }
        }
    }
}

/// When the current node of a tree belongs to another task, the node given
/// for the new task stands in the current node's place: it has the same
/// parent and the same branching level, and it is a new node.
pub proof fn law_copied_branch_node_keeps_its_place(t: BranchingTree, nodes: Seq<BranchTreeNode>, task: Cint64)
    requires
        branch_step_ready(t, nodes, false),
        t.curr_node is At,
        nodes[t.curr_node.index()].sat_calc_task != task,
    ensures
        ({
            let step = branch_step(t, nodes, task, false);
            let c = nodes[t.curr_node.index()];
            &&& step.2 == Id::At(nodes.len() as usize)
            &&& step.1[step.2.index()].parent == c.parent
            &&& step.1[step.2.index()].branching_level == c.branching_level
            &&& step.1[step.2.index()].sat_calc_task == task
        }),
{
    law_branch_node_is_current_node_of_task(t, nodes, task, false);
}

/// Asking a branch tree for a node keeps every node one level below its
/// parent and under its parent's root: copies keep their parent, level and
/// root, children go one level deeper under the same root, and roots are
/// at level 0.
#[verifier::rlimit(30)]
pub proof fn law_branch_levels_follow_parents(t: BranchingTree, nodes: Seq<BranchTreeNode>, task: Cint64, force: bool)
    requires
        branch_step_ready(t, nodes, force),
        levels_follow_parents(nodes),
    ensures
        levels_follow_parents(branch_step(t, nodes, task, force).1),
{
    let id1 = Id::At(nodes.len() as usize);
    assert(id1.index() == nodes.len());
    if t.curr_node is At {
        let ci = t.curr_node.index();
        let c = nodes[ci];
        assert(branch_node_in_place(nodes, c, ci));
        let nodes1 = if c.sat_calc_task != task {
            let n1 = crate::context::copied_branch_node(c, t.curr_node, id1, task);
            if c.parent is At {
                assert(branch_node_in_place(nodes, nodes[c.parent.index()], c.parent.index()));
                assert(c.root != t.curr_node);
            }
            lemma_push_in_place(nodes, n1);
            nodes.push(n1)
        } else {
            nodes
        };
        let cur = if c.sat_calc_task != task { id1 } else { t.curr_node };
        if force {
            assert(valid_in(cur, nodes1.len()));
            lemma_push_in_place(nodes1, crate::context::child_branch_node(nodes1[cur.index()], cur, task));
        }
    } else if t.prev_curr_node is At {
        lemma_push_in_place(nodes, crate::context::child_branch_node(nodes[t.prev_curr_node.index()], t.prev_curr_node, task));
    } else {
        lemma_push_in_place(nodes, crate::context::root_branch_node(id1, task));
    }
}

/// The explicit condition under which a candidate linker records the
/// blockable-predecessor dependency: its node is blockable and created the
/// link the candidate is reached over.
pub open spec fn offers_created_blockable(ctx: ProcessContext, start: Id, j: nat) -> bool {
    let l = candidate_at(ctx, start, j);
    &&& l.candidate_individual_node is At
    &&& l.merging_individual_link is At
    &&& ctx.nodes@[l.candidate_individual_node.index()].individual_type == IndividualType::Blockable
    &&& ctx.edges@[l.merging_individual_link.index()].creator_individual == l.candidate_individual_node
}

/// Adding merging candidates records the blockable-predecessor dependency
/// only from a candidate whose node is blockable and created the candidate's
/// link, and then the dependency of the first such candidate; when no
/// candidate is such a creator, nothing is recorded.
pub proof fn law_blockable_predecessor_only_from_creator(ctx: ProcessContext, start: Id, k: nat, tp0: Id)
    ensures
        ({
            let sc = blockable_scan(ctx, start, k, false, tp0);
            &&& sc.0 <==> exists|j: nat| j < k && #[trigger] offers_created_blockable(ctx, start, j)
            &&& sc.0 ==> exists|j: nat| j < k && #[trigger] offers_created_blockable(ctx, start, j)
                && (forall|i: nat| i < j ==> !#[trigger] offers_created_blockable(ctx, start, i))
                && sc.1 == ctx.edges@[candidate_at(ctx, start, j).merging_individual_link.index()].dependency_track_point
            &&& !sc.0 ==> sc.1 == tp0
        }),
    decreases k,
{
    if k > 0 {
        law_blockable_predecessor_only_from_creator(ctx, start, (k - 1) as nat, tp0);
        let p = blockable_scan(ctx, start, (k - 1) as nat, false, tp0);
        if p.0 {
            let j = choose|j: nat| j < k - 1 && #[trigger] offers_created_blockable(ctx, start, j)
                && (forall|i: nat| i < j ==> !#[trigger] offers_created_blockable(ctx, start, i))
                && p.1 == ctx.edges@[candidate_at(ctx, start, j).merging_individual_link.index()].dependency_track_point;
            assert(j < k);
        } else {
            if offers_created_blockable(ctx, start, (k - 1) as nat) {
                assert forall|i: nat| i < (k - 1) as nat implies !#[trigger] offers_created_blockable(ctx, start, i) by {
                    if offers_created_blockable(ctx, start, i) {
                        assert(exists|j: nat| j < k - 1 && #[trigger] offers_created_blockable(ctx, start, j));
                    }
                }
            } else {
                assert forall|j: nat| j < k implies !#[trigger] offers_created_blockable(ctx, start, j) by {
                    if j < k - 1 && offers_created_blockable(ctx, start, j) {
                        assert(exists|j2: nat| j2 < k - 1 && #[trigger] offers_created_blockable(ctx, start, j2));
                    }
                }
            }
        }
    }
}

/// Localising blocking candidate data in a bucket that has none of its own
/// starts from the data in use: the new data holds exactly the inherited
/// candidate entries and the inherited largest valid identifier, or none
/// when nothing was inherited; the inherited data stays as it was.
pub proof fn law_candidate_localisation_keeps_inherited_candidates(
    c0: ProcessContext,
    c1: ProcessContext,
    this: Id,
    key: PairKey,
    r: Id,
)
    requires
        valid_in(this, c0.blocking_indi_node_cand_hashes@.len()),
        c0.blocking_indi_node_cand_datas@.len() < usize::MAX,
        cand_lookup_outcome(c0, c1, this, key, true, r),
        unlocalized_bucket(c0, this, key),
    ensures
        ({
            let h = c0.blocking_indi_node_cand_hashes@[this.index()];
            let prev = if h.block_candidate_hash@.contains_key(key) {
                h.block_candidate_hash@[key].prev_candidate_indi_data
            } else {
                Id::NONE
            };
            let d = c1.blocking_indi_node_cand_datas@[r.index()];
            &&& valid_in(r, c1.blocking_indi_node_cand_datas@.len())
            &&& prev is At ==> {
                &&& d.candidate_indi_map.entries@ == c0.blocking_indi_node_cand_datas@[prev.index()].candidate_indi_map.entries@
                &&& d.max_valid_individual_id == c0.blocking_indi_node_cand_datas@[prev.index()].max_valid_individual_id
                &&& c1.blocking_indi_node_cand_datas@[prev.index()] == c0.blocking_indi_node_cand_datas@[prev.index()]
            }
            &&& prev is NONE ==> d.candidate_indi_map.entries@.len() == 0 && d.max_valid_individual_id == 0
        }),
{
    let datas = c0.blocking_indi_node_cand_datas@;
    assert(r == Id::At(datas.len() as usize));
    assert(r.index() == datas.len());
    let h = c0.blocking_indi_node_cand_hashes@[this.index()];
    if h.block_candidate_hash@.contains_key(key) {
        let p = h.block_candidate_hash@[key].prev_candidate_indi_data;
        if p is At {
            assert(c1.blocking_indi_node_cand_datas@[p.index()]
                == c1.blocking_indi_node_cand_datas@.subrange(0, datas.len() as int)[p.index()]);
        }
    }
}

/// The bucket `key` of hash `this` has no data of its own, and the data it
/// inherits, if any, is an element of the data arena.
pub open spec fn unlocalized_bucket(c: ProcessContext, this: Id, key: PairKey) -> bool {
    let h = c.blocking_indi_node_cand_hashes@[this.index()];
    h.block_candidate_hash@.contains_key(key) ==> {
        &&& h.block_candidate_hash@[key].candidate_indi_data is NONE
        &&& h.block_candidate_hash@[key].prev_candidate_indi_data is At
            ==> valid_in(h.block_candidate_hash@[key].prev_candidate_indi_data, c.blocking_indi_node_cand_datas@.len())
    }
}

/// Laying the entries of `from`, whose keys are ascending, over `base`
/// gives, for a key of `from`, the base entry (or an empty one) with the set
/// fields of the `from` entry laid over it, and the base entry for any other
/// key.
proof fn lemma_merged_at(
    base: Map<i64, ConceptSaturationDescriptorReapplyData>,
    from: Seq<(i64, ConceptSaturationDescriptorReapplyData)>,
    k: i64,
)
    requires
        ascending(from),
    ensures
        has_key(from, k) ==> {
            let b = if base.contains_key(k) { base[k] } else {
                ConceptSaturationDescriptorReapplyData { con_sat_des: Id::NONE, imp_reapply_con_sat_des: Id::NONE }
            };
            let o = entries_map(from)[k];
            &&& merged(base, from).contains_key(k)
            &&& merged(base, from)[k].con_sat_des == (if o.con_sat_des is At { o.con_sat_des } else { b.con_sat_des })
            &&& merged(base, from)[k].imp_reapply_con_sat_des
                == (if o.imp_reapply_con_sat_des is At { o.imp_reapply_con_sat_des } else { b.imp_reapply_con_sat_des })
        },
        !has_key(from, k) ==> {
            &&& merged(base, from).contains_key(k) == base.contains_key(k)
            &&& base.contains_key(k) ==> merged(base, from)[k] == base[k]
        },
    decreases from.len(),
{
    if from.len() > 0 {
        let p = from.drop_last();
        assert(forall|j: int| 0 <= j < p.len() ==> p[j] == from[j]);
        assert(ascending(p));
        lemma_merged_at(base, p, k);
        let last = from.last();
        let li = from.len() - 1;
        if last.0 == k {
            assert(!has_key(p, k)) by {
                if has_key(p, k) {
                    let j = choose|j: int| 0 <= j < p.len() && p[j].0 == k;
                    assert(from[j].0 < from[li].0);
                }
            }
            assert(is_first(from, k, li));
            lemma_first_index(from, k, li);
            assert(has_key(from, k));
        } else {
            assert(has_key(from, k) == has_key(p, k)) by {
                if has_key(from, k) {
                    let j = choose|j: int| 0 <= j < from.len() && from[j].0 == k;
                    assert(j != li);
                    assert(p[j].0 == k);
                }
                if has_key(p, k) {
                    let j = choose|j: int| 0 <= j < p.len() && p[j].0 == k;
                    assert(from[j].0 == k);
                }
            }
            if has_key(p, k) {
                lemma_first_exists(p, k);
                let j = first_index(p, k);
                assert(is_first(from, k, j));
                lemma_first_index(from, k, j);
            }
        }
    }
}

/// Flattening a reapply label on copy lays the map with fewer entries over
/// the one with more: when the additional map has more entries, every field
/// the main map sets for a tag is the field of the flattened entry, and the
/// additional map supplies only what the main map leaves unset; otherwise
/// the additional map's set fields win over the main map. Every tag of
/// either map is in the flattened map, and no other.
pub proof fn law_flattening_lays_smaller_map_over_larger(ls: ReapplyConceptSaturationLabelSet, tag: i64)
    requires
        ls.has_additional_concept_des_dep_hash,
        ascending(ls.concept_des_dep_hash.entries@),
        ascending(ls.additional_concept_des_dep_hash.entries@),
    ensures
        ({
            let f = flattened_additional(&ls);
            let main = ls.concept_des_dep_hash@;
            let add = ls.additional_concept_des_dep_hash@;
            let empty = ConceptSaturationDescriptorReapplyData { con_sat_des: Id::NONE, imp_reapply_con_sat_des: Id::NONE };
            let m = if main.contains_key(tag) { main[tag] } else { empty };
            let a = if add.contains_key(tag) { add[tag] } else { empty };
            let (over, under) = if ls.additional_concept_des_dep_hash.entries@.len()
                > ls.concept_des_dep_hash.entries@.len() { (m, a) } else { (a, m) };
            &&& f.contains_key(tag) == (main.contains_key(tag) || add.contains_key(tag))
            &&& f.contains_key(tag) ==> {
                &&& f[tag].con_sat_des == (if over.con_sat_des is At { over.con_sat_des } else { under.con_sat_des })
                &&& f[tag].imp_reapply_con_sat_des == (if over.imp_reapply_con_sat_des is At {
                    over.imp_reapply_con_sat_des
                } else {
                    under.imp_reapply_con_sat_des
                })
            }
        }),
{
    let me = ls.concept_des_dep_hash.entries@;
    let ae = ls.additional_concept_des_dep_hash.entries@;
    if ae.len() > me.len() {
        lemma_merged_at(ls.additional_concept_des_dep_hash@, me, tag);
    } else {
        lemma_merged_at(ls.concept_des_dep_hash@, ae, tag);
    }
}

/// Localising linked blocking candidate data in a bucket that has none of
/// its own starts from the data in use: the new data has the inherited
/// candidate count and candidate chain, or none when nothing was inherited;
/// the inherited data stays as it was.
pub proof fn law_linked_candidate_localisation_keeps_inherited_candidates(
    c0: ProcessContext,
    c1: ProcessContext,
    this: Id,
    key: PairKey,
    r: Id,
)
    requires
        valid_in(this, c0.blocking_indi_node_linked_cand_hashes@.len()),
        c0.blocking_indi_node_linked_cand_datas@.len() < usize::MAX,
        linked_lookup_outcome(c0, c1, this, key, true, r),
        ({
            let h = c0.blocking_indi_node_linked_cand_hashes@[this.index()];
            h.block_candidate_hash@.contains_key(key) ==> {
                &&& h.block_candidate_hash@[key].candidate_indi_data is NONE
                &&& h.block_candidate_hash@[key].prev_candidate_indi_data is At ==> valid_in(
                    h.block_candidate_hash@[key].prev_candidate_indi_data, c0.blocking_indi_node_linked_cand_datas@.len())
            }
        }),
    ensures
        ({
            let h = c0.blocking_indi_node_linked_cand_hashes@[this.index()];
            let prev = if h.block_candidate_hash@.contains_key(key) {
                h.block_candidate_hash@[key].prev_candidate_indi_data
            } else {
                Id::NONE
            };
            let d = c1.blocking_indi_node_linked_cand_datas@[r.index()];
            &&& valid_in(r, c1.blocking_indi_node_linked_cand_datas@.len())
            &&& prev is At ==> {
                &&& d.candidate_count == c0.blocking_indi_node_linked_cand_datas@[prev.index()].candidate_count
                &&& d.cand_linker == c0.blocking_indi_node_linked_cand_datas@[prev.index()].cand_linker
                &&& c1.blocking_indi_node_linked_cand_datas@[prev.index()]
                    == c0.blocking_indi_node_linked_cand_datas@[prev.index()]
            }
            &&& prev is NONE ==> d.candidate_count == 0 && d.cand_linker is NONE
        }),
{
    let datas = c0.blocking_indi_node_linked_cand_datas@;
    assert(r == Id::At(datas.len() as usize));
    assert(r.index() == datas.len());
}

/// Localising the variable-binding path set of a concept that has none of
/// its own starts from the set in use: the new set holds exactly the
/// inherited binding paths, or none when nothing was inherited; the
/// inherited set stays as it was.
pub proof fn law_path_set_localisation_keeps_inherited_paths(
    c0: ProcessContext,
    c1: ProcessContext,
    this: Id,
    con_tag: i64,
    r: Id,
)
    requires
        valid_in(this, c0.con_var_bind_path_set_hashes@.len()),
        c0.var_binding_path_sets@.len() < usize::MAX,
        var_path_lookup_outcome(c0, c1, this, con_tag, true, r),
        ({
            let m = c0.con_var_bind_path_set_hashes@[this.index()].map@;
            m.contains_key(con_tag) ==> {
                &&& m[con_tag].loc_variable_binding_path_set is NONE
                &&& m[con_tag].use_variable_binding_path_set is At
                    ==> valid_in(m[con_tag].use_variable_binding_path_set, c0.var_binding_path_sets@.len())
            }
        }),
    ensures
        ({
            let m = c0.con_var_bind_path_set_hashes@[this.index()].map@;
            let used = if m.contains_key(con_tag) { m[con_tag].use_variable_binding_path_set } else { Id::NONE };
            let set = c1.var_binding_path_sets@[r.index()];
            &&& valid_in(r, c1.var_binding_path_sets@.len())
            &&& used is At ==> {
                &&& set.binding_paths@ == c0.var_binding_path_sets@[used.index()].binding_paths@
                &&& c1.var_binding_path_sets@[used.index()] == c0.var_binding_path_sets@[used.index()]
            }
            &&& used is NONE ==> set.binding_paths@.len() == 0
        }),
{
    let sets = c0.var_binding_path_sets@;
    assert(r == Id::At(sets.len() as usize));
    assert(r.index() == sets.len());
    let m = c0.con_var_bind_path_set_hashes@[this.index()].map@;
    if m.contains_key(con_tag) {
        let u = m[con_tag].use_variable_binding_path_set;
        if u is At {
            assert(c1.var_binding_path_sets@[u.index()] == c1.var_binding_path_sets@.subrange(0, sets.len() as int)[u.index()]);
        }
    }
}

/// The tree's root node is the root of its current node, or of its last
/// current node when it has no current one.
pub open spec fn tree_root_follows_current(t: BranchingTree, nodes: Seq<BranchTreeNode>) -> bool {
    &&& t.curr_node is At ==> t.root_node == nodes[t.curr_node.index()].root
    &&& t.curr_node is NONE && t.prev_curr_node is At ==> t.root_node == nodes[t.prev_curr_node.index()].root
}

/// Asking a branch tree for a node keeps the tree's root node the root of
/// its current node: a copy of a root becomes the new root, and every other
/// node given stays under the tree's root.
pub proof fn law_branch_tree_root_follows_current(t: BranchingTree, nodes: Seq<BranchTreeNode>, task: Cint64, force: bool)
    requires
        branch_step_ready(t, nodes, force),
        levels_follow_parents(nodes),
        tree_root_follows_current(t, nodes),
    ensures
        ({
            let step = branch_step(t, nodes, task, force);
            &&& step.0.root_node == step.1[step.2.index()].root
            &&& tree_root_follows_current(step.0, step.1)
        }),
{
    let step = branch_step(t, nodes, task, force);
    law_branch_node_is_current_node_of_task(t, nodes, task, force);
    let id1 = Id::At(nodes.len() as usize);
    assert(id1.index() == nodes.len());
    if t.curr_node is At {
        let ci = t.curr_node.index();
        let c = nodes[ci];
        assert(branch_node_in_place(nodes, c, ci));
        if c.parent is At {
            assert(branch_node_in_place(nodes, nodes[c.parent.index()], c.parent.index()));
            assert(c.root != t.curr_node);
        }
        if c.sat_calc_task != task && force {
            let nodes1 = nodes.push(crate::context::copied_branch_node(c, t.curr_node, id1, task));
            let id2 = Id::At(nodes1.len() as usize);
            assert(id2.index() == nodes1.len());
            assert(step.1 == nodes1.push(crate::context::child_branch_node(nodes1[id1.index()], id1, task)));
        } else if force {
            let id2 = Id::At(nodes.len() as usize);
            assert(id2.index() == nodes.len());
        }
    }
}

/// Splitting merging candidates puts nominal candidates only in front of
/// the nominal chain and the others only in front of the other chain: a
/// changed nominal head is one of the candidates, whose node is a nominal,
/// and a changed other head is one of the candidates, whose node is not.
pub proof fn law_split_candidates_by_node_type(ctx: ProcessContext, start: Id, k: nat, nom: Id, mer: Id)
    ensures
        ({
            let sp = split_candidates(ctx, start, k, nom, mer);
            &&& sp.0 != nom ==> exists|j: nat| j < k
                && walk(ctx.branching_merging_candidate_linker_nexts(), start, j) == sp.0
                && ctx.nodes@[(#[trigger] candidate_at(ctx, start, j)).candidate_individual_node.index()].individual_type
                    == IndividualType::Nominal
            &&& sp.1 != mer ==> exists|j: nat| j < k
                && walk(ctx.branching_merging_candidate_linker_nexts(), start, j) == sp.1
                && ctx.nodes@[(#[trigger] candidate_at(ctx, start, j)).candidate_individual_node.index()].individual_type
                    != IndividualType::Nominal
        }),
    decreases k,
{
    if k > 0 {
        law_split_candidates_by_node_type(ctx, start, (k - 1) as nat, nom, mer);
        let j = (k - 1) as nat;
        let c = candidate_at(ctx, start, j);
        let p = split_candidates(ctx, start, j, nom, mer);
        let sp = split_candidates(ctx, start, k, nom, mer);
        if sp.0 != nom && sp.0 == p.0 {
            let i = choose|i: nat| i < j
                && walk(ctx.branching_merging_candidate_linker_nexts(), start, i) == p.0
                && ctx.nodes@[(#[trigger] candidate_at(ctx, start, i)).candidate_individual_node.index()].individual_type
                    == IndividualType::Nominal;
            assert(i < k);
        }
        if sp.1 != mer && sp.1 == p.1 {
            let i = choose|i: nat| i < j
                && walk(ctx.branching_merging_candidate_linker_nexts(), start, i) == p.1
                && ctx.nodes@[(#[trigger] candidate_at(ctx, start, i)).candidate_individual_node.index()].individual_type
                    != IndividualType::Nominal;
            assert(i < k);
        }
    }
}

/// Copying a reapply label flattens the source exactly when its main map
/// has at least `additional_copy_size` entries, or when a flat copy is
/// asked for and the main map is not empty: then the source's main map is
/// empty and it has an additional map; otherwise the source keeps its maps.
/// Either way the target ends with the source's maps.
pub proof fn law_label_copy_flattens_exactly_when_large(
    c0: ProcessContext,
    c1: ProcessContext,
    target: Id,
    source: Id,
    try_flat_label_copy: bool,
    additional_copy_size: usize,
)
    requires
        label_copy_outcome(c0, c1, target, source, try_flat_label_copy, additional_copy_size),
    ensures
        ({
            let s = c0.reapply_con_sat_label_sets@[source.index()];
            let ns = c1.reapply_con_sat_label_sets@[source.index()];
            let nt = c1.reapply_con_sat_label_sets@[target.index()];
            let main_len = s.concept_des_dep_hash.entries@.len();
            &&& (main_len >= additional_copy_size || (try_flat_label_copy && main_len > 0)) ==> {
                &&& ns.concept_des_dep_hash.entries@.len() == 0
                &&& ns.has_additional_concept_des_dep_hash
            }
            &&& !(main_len >= additional_copy_size || (try_flat_label_copy && main_len > 0)) ==> {
                &&& ns.concept_des_dep_hash.entries@ == s.concept_des_dep_hash.entries@
                &&& ns.additional_concept_des_dep_hash.entries@ == s.additional_concept_des_dep_hash.entries@
                &&& ns.has_additional_concept_des_dep_hash == s.has_additional_concept_des_dep_hash
            }
            &&& nt.concept_des_dep_hash.entries@ == ns.concept_des_dep_hash.entries@
            &&& nt.additional_concept_des_dep_hash.entries@ == ns.additional_concept_des_dep_hash.entries@
            &&& nt.has_additional_concept_des_dep_hash == ns.has_additional_concept_des_dep_hash
        }),
{
}

} // verus!
