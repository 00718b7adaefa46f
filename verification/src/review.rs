//! Review queues of signature blocking and of reusing: the individuals to
//! review again, each queued with its depth and taken in order of depth, then
//! of queueing. Removing an individual only drops it from the member set;
//! its stale queue entries are skipped when the queue is read.

use vstd::prelude::*;
use crate::ids::{Id, Cint64};
use crate::collections::IntSet;

verus! {

pub type SignatureBlockingReviewSetId = Id;
pub type ReusingReviewDataId = Id;


/// Depths non-decreasing along the queue.
pub open spec fn depth_ordered(q: Seq<(i64, i64)>) -> bool {
    forall|i: int, j: int| 0 <= i < j < q.len() ==> q[i].0 <= q[j].0
}

/// The queue without its front entry.
pub open spec fn front_popped(q: Seq<(i64, i64)>) -> Seq<(i64, i64)> {
    if q.len() == 0 { q } else { q.subrange(1, q.len() as int) }
}

/// The first `k` entries are stale (not members) and entry `k`, if there is
/// one, is a member.
pub open spec fn stale_prefix(q: Seq<(i64, i64)>, members: Set<i64>, k: int) -> bool {
    &&& 0 <= k <= q.len()
    &&& forall|i: int| 0 <= i < k ==> !members.contains(#[trigger] q[i].1)
    &&& k < q.len() ==> members.contains(q[k].1)
}

/// The queue after inserting `(depth, id)` behind every entry of depth at
/// most `depth`.
pub open spec fn queue_insert(q: Seq<(i64, i64)>, depth: i64, id: i64, p: int) -> bool {
    &&& 0 <= p <= q.len()
    &&& forall|i: int| 0 <= i < p ==> q[i].0 <= depth
    &&& p < q.len() ==> q[p].0 > depth
}

/// The position behind the last entry of depth at most `depth`, reading
/// from the front until the first deeper entry.
fn insertion_point(q: &Vec<(i64, i64)>, depth: i64) -> (r: usize)
    ensures
        queue_insert(q@, depth, 0, r as int),
{
    let mut i: usize = 0;
    while i < q.len()
        invariant
            0 <= i <= q@.len(),
            forall|j: int| 0 <= j < i ==> q@[j].0 <= depth,
        decreases q@.len() - i,
    {
        if q[i].0 > depth {
            return i;
        }
        i = i + 1;
    }
    i
}

/// Queues `(depth, id)` behind every entry of depth at most `depth`.
fn queue_push(q: &mut Vec<(i64, i64)>, depth: i64, id: i64)
    ensures
        exists|p: int| queue_insert(old(q)@, depth, id, p) && final(q)@ == old(q)@.insert(p, (depth, id)),
        depth_ordered(old(q)@) ==> depth_ordered(final(q)@),
{
    let p = insertion_point(q, depth);
    let ghost s = q@;
    q.insert(p, (depth, id));
    proof {
        assert(queue_insert(s, depth, id, p as int));
        if depth_ordered(s) {
            let t = q@;
            assert forall|i: int, j: int| 0 <= i < j < t.len() implies t[i].0 <= t[j].0 by {
                if j < p {
                    assert(t[i] == s[i] && t[j] == s[j]);
                } else if j == p {
                    assert(t[i] == s[i]);
                } else if i < p {
                    assert(t[i] == s[i] && t[j] == s[j - 1]);
                    assert(s[p as int].0 > depth);
                } else if i == p {
                    assert(t[j] == s[j - 1]);
                    assert(s[p as int].0 > depth);
                } else {
                    assert(t[i] == s[i - 1] && t[j] == s[j - 1]);
                }
            }
        }
    }
}

/// A copy of a queue.
fn copy_queue(q: &Vec<(i64, i64)>) -> (r: Vec<(i64, i64)>)
    ensures
        r@ == q@,
{
    let mut r: Vec<(i64, i64)> = Vec::new();
    let mut i: usize = 0;
    while i < q.len()
        invariant
            0 <= i <= q@.len(),
            r@ == q@.subrange(0, i as int),
        decreases q@.len() - i,
    {
        r.push(q[i]);
        i = i + 1;
    }
    assert(r@ =~= q@);
    r
}

/// Drops stale entries from the front of the queue; the first member left,
/// if any, is returned and stays queued.
fn skip_stale(q: &mut Vec<(i64, i64)>, members: &IntSet) -> (r: Option<i64>)
    ensures
        exists|k: int| stale_prefix(old(q)@, members@, k) && final(q)@ == old(q)@.subrange(k, old(q)@.len() as int),
        r == (if final(q)@.len() == 0 { None } else { Some(final(q)@[0].1) }),
        depth_ordered(old(q)@) ==> depth_ordered(final(q)@),
{
    let ghost s = q@;
    let ghost mut k: int = 0;
    while q.len() > 0 && !members.contains(&q[0].1)
        invariant
            0 <= k <= s.len(),
            q@ == s.subrange(k, s.len() as int),
            forall|i: int| 0 <= i < k ==> !members@.contains(#[trigger] s[i].1),
        decreases q@.len(),
    {
        q.remove(0);
        proof {
            k = k + 1;
            assert(q@ =~= s.subrange(k, s.len() as int));
        }
    }
    proof {
        assert(stale_prefix(s, members@, k));
        if depth_ordered(s) {
            assert forall|i: int, j: int| 0 <= i < j < q@.len() implies q@[i].0 <= q@[j].0 by {
                assert(q@[i] == s[i + k] && q@[j] == s[j + k]);
            }
        }
    }
    if q.len() == 0 {
        None
    } else {
        Some(q[0].1)
    }
}

/// Some queue entry names a member.
pub open spec fn has_queued_member(d: SignatureBlockingReviewData) -> bool {
    exists|i: int| 0 <= i < d.depth_individual_map@.len() && d.individual_set@.contains(#[trigger] d.depth_individual_map@[i].1)
}

/// `x` is the member named by the first queue entry that names a member.
pub open spec fn first_queued_member(d: SignatureBlockingReviewData, x: i64) -> bool {
    exists|k: int| stale_prefix(d.depth_individual_map@, d.individual_set@, k)
        && k < d.depth_individual_map@.len() && d.depth_individual_map@[k].1 == x
}

/// The individuals queued for a signature-blocking review.
pub struct SignatureBlockingReviewData {
    /// The individuals still to review.
    pub individual_set: IntSet,
    /// `(depth, identifier)` entries in order of depth, then of queueing.
    pub depth_individual_map: Vec<(i64, i64)>,
}

impl SignatureBlockingReviewData {
    pub fn new() -> (r: Self)
        ensures
            r.individual_set@ == Set::<i64>::empty(),
            r.depth_individual_map@.len() == 0,
    {
        SignatureBlockingReviewData { individual_set: IntSet::new(), depth_individual_map: Vec::new() }
    }

    /// Takes the members and the queue of `prev`, or starts empty.
    pub fn init_signature_blocking_review_data(&mut self, prev: Option<&SignatureBlockingReviewData>) -> (r: &mut Self)
        ensures
            match prev {
                Some(p) => r.individual_set@ == p.individual_set@ && r.depth_individual_map@ == p.depth_individual_map@,
                None => r.individual_set@ == Set::<i64>::empty() && r.depth_individual_map@.len() == 0,
            },
            *final(self) == *final(r),
    {
        match prev {
            Some(p) => {
                self.individual_set = p.individual_set.copy();
                self.depth_individual_map = copy_queue(&p.depth_individual_map);
            },
            None => {
                self.individual_set.clear();
                self.depth_individual_map.clear();
            },
        }
        self
    }

    /// Queues `indi_id` at `depth` unless it is already a member.
    pub fn insert(&mut self, depth: Cint64, indi_id: Cint64) -> (r: &mut Self)
        ensures
            r.individual_set@ == old(self).individual_set@.insert(indi_id),
            old(self).individual_set@.contains(indi_id) ==> r.depth_individual_map@ == old(self).depth_individual_map@,
            !old(self).individual_set@.contains(indi_id) ==> exists|p: int|
                queue_insert(old(self).depth_individual_map@, depth, indi_id, p)
                && r.depth_individual_map@ == old(self).depth_individual_map@.insert(p, (depth, indi_id)),
            depth_ordered(old(self).depth_individual_map@) ==> depth_ordered(r.depth_individual_map@),
            *final(self) == *final(r),
    {
        if !self.individual_set.contains(&indi_id) {
            self.individual_set.insert(indi_id);
            queue_push(&mut self.depth_individual_map, depth, indi_id);
        } else {
            assert(self.individual_set@ =~= self.individual_set@.insert(indi_id));
        }
        self
    }

    pub fn contains(&self, indi_id: Cint64) -> (r: bool)
        ensures
            r == self.individual_set@.contains(indi_id),
    {
        self.individual_set.contains(&indi_id)
    }

    /// Drops `indi_id` from the members; its queue entries become stale.
    pub fn remove(&mut self, indi_id: Cint64) -> (r: &mut Self)
        ensures
            r.individual_set@ == old(self).individual_set@.remove(indi_id),
            r.depth_individual_map@ == old(self).depth_individual_map@,
            *final(self) == *final(r),
    {
        self.individual_set.remove(&indi_id);
        self
    }

    /// Whether no individual is left to review.
    pub fn is_empty(&self) -> (r: bool)
        ensures
            r == (self.individual_set@ =~= Set::<i64>::empty()),
    {
        self.individual_set.is_empty()
    }

    /// A reader positioned at the first member in the queue.
    pub fn get_iterator(&mut self) -> (r: SignatureBlockingReviewDataIterator<'_>)
        ensures
            r.data.individual_set@ == old(self).individual_set@,
            exists|k: int| stale_prefix(old(self).depth_individual_map@, old(self).individual_set@, k)
                && r.data.depth_individual_map@ == old(self).depth_individual_map@.subrange(k, old(self).depth_individual_map@.len() as int),
            r.current == (if r.data.depth_individual_map@.len() == 0 { None } else { Some(r.data.depth_individual_map@[0].1) }),
            *final(self) == *final(r.data),
    {
        SignatureBlockingReviewDataIterator::new(self)
    }

    /// Drops stale entries from the front; returns the first member queued.
    pub fn front_valid_id(&mut self) -> (r: Option<Cint64>)
        ensures
            final(self).individual_set@ == old(self).individual_set@,
            exists|k: int| stale_prefix(old(self).depth_individual_map@, old(self).individual_set@, k)
                && final(self).depth_individual_map@ == old(self).depth_individual_map@.subrange(k, old(self).depth_individual_map@.len() as int),
            r == (if final(self).depth_individual_map@.len() == 0 { None } else { Some(final(self).depth_individual_map@[0].1) }),
            depth_ordered(old(self).depth_individual_map@) ==> depth_ordered(final(self).depth_individual_map@),
    {
        skip_stale(&mut self.depth_individual_map, &self.individual_set)
    }

    /// Drops the front queue entry, if any.
    pub fn pop_front_current(&mut self)
        ensures
            final(self).individual_set@ == old(self).individual_set@,
            final(self).depth_individual_map@ == front_popped(old(self).depth_individual_map@),
    {
        if self.depth_individual_map.len() > 0 {
            self.depth_individual_map.remove(0);
            assert(self.depth_individual_map@ =~= old(self).depth_individual_map@.subrange(1, old(self).depth_individual_map@.len() as int));
        }
    }
}

impl Default for SignatureBlockingReviewData {
    fn default() -> (r: Self)
        ensures
            r.individual_set@ == Set::<i64>::empty(),
            r.depth_individual_map@.len() == 0,
    {
        Self::new()
    }
}

/// A reader over the members queued in a review data.
pub struct SignatureBlockingReviewDataIterator<'a> {
    pub data: &'a mut SignatureBlockingReviewData,
    pub current: Option<Cint64>,
}

impl<'a> SignatureBlockingReviewDataIterator<'a> {
    pub fn new(data: &'a mut SignatureBlockingReviewData) -> (r: Self)
        ensures
            r.data.individual_set@ == old(data).individual_set@,
            exists|k: int| stale_prefix(old(data).depth_individual_map@, old(data).individual_set@, k)
                && r.data.depth_individual_map@ == old(data).depth_individual_map@.subrange(k, old(data).depth_individual_map@.len() as int),
            r.current == (if r.data.depth_individual_map@.len() == 0 { None } else { Some(r.data.depth_individual_map@[0].1) }),
            *final(data) == *final(r.data),
    {
        let current = data.front_valid_id();
        SignatureBlockingReviewDataIterator { data, current }
    }

    /// Whether a member is at hand.
    pub fn has_next(&self) -> (r: bool)
        ensures
            r == (self.current is Some),
    {
        self.current.is_some()
    }

    /// The member at hand, or -1; with `move_next` the reader is positioned
    /// again at the first member queued, which is the same one while nothing
    /// was removed.
    pub fn next(&mut self, move_next: bool) -> (r: Cint64)
        ensures
            r == (match old(self).current { Some(x) => x, None => -1i64 }),
            !move_next ==> final(self).current == old(self).current && *final(self).data == *old(self).data,
            final(self).data.individual_set@ == old(self).data.individual_set@,
            move_next ==> exists|k: int| stale_prefix(old(self).data.depth_individual_map@, old(self).data.individual_set@, k)
                && final(self).data.depth_individual_map@ == old(self).data.depth_individual_map@.subrange(k, old(self).data.depth_individual_map@.len() as int),
            move_next ==> final(self).current == (if final(self).data.depth_individual_map@.len() == 0 { None } else { Some(final(self).data.depth_individual_map@[0].1) }),
    {
        let indi_id = match self.current {
            Some(x) => x,
            None => -1,
        };
        if move_next {
            self.current = self.data.front_valid_id();
        }
        indi_id
    }

    /// Drops the member at hand from the review and from the front of the
    /// queue, then moves to the next member; false when none was at hand.
    pub fn remove_and_move_next(&mut self) -> (r: bool)
        ensures
            r == (old(self).current is Some),
            old(self).current is None ==> final(self).current == old(self).current,
            old(self).current is None ==> *final(self).data == *old(self).data,
            old(self).current matches Some(x) ==> final(self).data.individual_set@ == old(self).data.individual_set@.remove(x),
            old(self).current matches Some(x) ==> exists|k: int|
                stale_prefix(front_popped(old(self).data.depth_individual_map@), old(self).data.individual_set@.remove(x), k)
                && final(self).data.depth_individual_map@ == front_popped(old(self).data.depth_individual_map@).subrange(
                    k, front_popped(old(self).data.depth_individual_map@).len() as int),
            old(self).current is Some ==> final(self).current == (if final(self).data.depth_individual_map@.len() == 0 { None } else {
                Some(final(self).data.depth_individual_map@[0].1) }),
    {
        match self.current {
            None => false,
            Some(indi_id) => {
                let ghost q = self.data.depth_individual_map@;
                self.data.individual_set.remove(&indi_id);
                assert(self.data.depth_individual_map@ == q);
                self.data.pop_front_current();
                self.current = self.data.front_valid_id();
                true
            },
        }
    }
}

/// The review queues of one node: subset and non-subset candidates.
pub struct SignatureBlockingReviewSet {
    pub subset_reviews: SignatureBlockingReviewData,
    pub non_subset_reviews: SignatureBlockingReviewData,
}

impl SignatureBlockingReviewSet {
    pub fn new() -> (r: Self)
        ensures
            r.subset_reviews.individual_set@ == Set::<i64>::empty(),
            r.subset_reviews.depth_individual_map@.len() == 0,
            r.non_subset_reviews.individual_set@ == Set::<i64>::empty(),
            r.non_subset_reviews.depth_individual_map@.len() == 0,
    {
        SignatureBlockingReviewSet {
            subset_reviews: SignatureBlockingReviewData::new(),
            non_subset_reviews: SignatureBlockingReviewData::new(),
        }
    }

    /// Takes both queues of `prev`, or starts both empty.
    pub fn init_signature_blocking_review_set(&mut self, prev: Option<&SignatureBlockingReviewSet>) -> (r: &mut Self)
        ensures
            match prev {
                Some(p) => {
                    &&& r.subset_reviews.individual_set@ == p.subset_reviews.individual_set@
                    &&& r.subset_reviews.depth_individual_map@ == p.subset_reviews.depth_individual_map@
                    &&& r.non_subset_reviews.individual_set@ == p.non_subset_reviews.individual_set@
                    &&& r.non_subset_reviews.depth_individual_map@ == p.non_subset_reviews.depth_individual_map@
                },
                None => {
                    &&& r.subset_reviews.individual_set@ == Set::<i64>::empty()
                    &&& r.subset_reviews.depth_individual_map@.len() == 0
                    &&& r.non_subset_reviews.individual_set@ == Set::<i64>::empty()
                    &&& r.non_subset_reviews.depth_individual_map@.len() == 0
                },
            },
            *final(self) == *final(r),
    {
        match prev {
            Some(p) => {
                self.subset_reviews.init_signature_blocking_review_data(Some(&p.subset_reviews));
                self.non_subset_reviews.init_signature_blocking_review_data(Some(&p.non_subset_reviews));
            },
            None => {
                self.subset_reviews.init_signature_blocking_review_data(None);
                self.non_subset_reviews.init_signature_blocking_review_data(None);
            },
        }
        self
    }

    pub fn get_subset_review_data(&mut self) -> (r: &mut SignatureBlockingReviewData)
        ensures
            *r == old(self).subset_reviews,
            final(self).subset_reviews == *final(r),
            final(self).non_subset_reviews == old(self).non_subset_reviews,
    {
        &mut self.subset_reviews
    }

    /// The subset queue when `subset`, the non-subset queue otherwise.
    pub fn get_review_data(&mut self, subset: bool) -> (r: &mut SignatureBlockingReviewData)
        ensures
            subset ==> *r == old(self).subset_reviews && final(self).subset_reviews == *final(r)
                && final(self).non_subset_reviews == old(self).non_subset_reviews,
            !subset ==> *r == old(self).non_subset_reviews && final(self).non_subset_reviews == *final(r)
                && final(self).subset_reviews == old(self).subset_reviews,
    {
        if subset {
            &mut self.subset_reviews
        } else {
            &mut self.non_subset_reviews
        }
    }

    pub fn get_non_subset_review_data(&mut self) -> (r: &mut SignatureBlockingReviewData)
        ensures
            *r == old(self).non_subset_reviews,
            final(self).non_subset_reviews == *final(r),
            final(self).subset_reviews == old(self).subset_reviews,
    {
        &mut self.non_subset_reviews
    }

    /// Whether neither queue has a member left.
    pub fn is_empty(&self) -> (r: bool)
        ensures
            r == (self.subset_reviews.individual_set@ =~= Set::<i64>::empty()
                && self.non_subset_reviews.individual_set@ =~= Set::<i64>::empty()),
    {
        self.subset_reviews.is_empty() && self.non_subset_reviews.is_empty()
    }

    /// Takes the member queued first in the non-subset queue, or else the
    /// member queued first in the subset queue, and drops it from its
    /// review; tells whether it came from the non-subset queue.
    pub fn take_next_review_individual(&mut self) -> (r: Option<(Cint64, bool)>)
        ensures
            match r {
                Some((x, true)) => {
                    &&& first_queued_member(old(self).non_subset_reviews, x)
                    &&& final(self).non_subset_reviews.individual_set@ == old(self).non_subset_reviews.individual_set@.remove(x)
                    &&& final(self).subset_reviews == old(self).subset_reviews
                },
                Some((x, false)) => {
                    &&& !has_queued_member(old(self).non_subset_reviews)
                    &&& first_queued_member(old(self).subset_reviews, x)
                    &&& final(self).subset_reviews.individual_set@ == old(self).subset_reviews.individual_set@.remove(x)
                    &&& final(self).non_subset_reviews.individual_set@ == old(self).non_subset_reviews.individual_set@
                },
                None => {
                    &&& !has_queued_member(old(self).non_subset_reviews)
                    &&& !has_queued_member(old(self).subset_reviews)
                    &&& final(self).non_subset_reviews.individual_set@ == old(self).non_subset_reviews.individual_set@
                    &&& final(self).subset_reviews.individual_set@ == old(self).subset_reviews.individual_set@
                },
            },
    {
        if !self.non_subset_reviews.is_empty() {
            match self.non_subset_reviews.front_valid_id() {
                Some(indi_id) => {
                    self.non_subset_reviews.individual_set.remove(&indi_id);
                    self.non_subset_reviews.pop_front_current();
                    self.non_subset_reviews.front_valid_id();
                    return Some((indi_id, true));
                },
                None => {},
            }
        }
        if !self.subset_reviews.is_empty() {
            match self.subset_reviews.front_valid_id() {
                Some(indi_id) => {
                    self.subset_reviews.individual_set.remove(&indi_id);
                    self.subset_reviews.pop_front_current();
                    self.subset_reviews.front_valid_id();
                    return Some((indi_id, false));
                },
                None => {},
            }
        }
        None
    }
}

/// The outcome of taking the next reusing review: the first `k` entries were
/// stale; entry `k`, if any, named the member `r`, which was dropped.
pub open spec fn taken_at(
    q: Seq<(i64, i64)>,
    members: Set<i64>,
    k: int,
    r: i64,
    final_members: Set<i64>,
    final_queue: Seq<(i64, i64)>,
) -> bool {
    &&& stale_prefix(q, members, k)
    &&& k < q.len() ==> {
        &&& r == q[k].1
        &&& final_members == members.remove(q[k].1)
        &&& final_queue == q.subrange(k + 1, q.len() as int)
    }
    &&& k == q.len() ==> {
        &&& r == (if q.len() == 0 { 0 } else { q[q.len() - 1].1 })
        &&& final_members == members
        &&& final_queue.len() == 0
    }
}

/// The individuals queued for a reusing review.
pub struct ReusingReviewData {
    /// The individuals still to review.
    pub individual_set: IntSet,
    /// `(depth, identifier)` entries in order of depth, then of queueing.
    pub depth_individual_map: Vec<(i64, i64)>,
}

impl ReusingReviewData {
    pub fn new() -> (r: Self)
        ensures
            r.individual_set@ == Set::<i64>::empty(),
            r.depth_individual_map@.len() == 0,
    {
        ReusingReviewData { individual_set: IntSet::new(), depth_individual_map: Vec::new() }
    }

    /// Takes the members and the queue of `prev`, or starts empty.
    pub fn init_review_data(&mut self, prev: Option<&ReusingReviewData>) -> (r: &mut Self)
        ensures
            match prev {
                Some(p) => r.individual_set@ == p.individual_set@ && r.depth_individual_map@ == p.depth_individual_map@,
                None => r.individual_set@ == Set::<i64>::empty() && r.depth_individual_map@.len() == 0,
            },
            *final(self) == *final(r),
    {
        match prev {
            Some(p) => {
                self.individual_set = p.individual_set.copy();
                self.depth_individual_map = copy_queue(&p.depth_individual_map);
            },
            None => {
                self.individual_set.clear();
                self.depth_individual_map.clear();
            },
        }
        self
    }

    /// Queues `indi_id` at `depth` unless it is already a member.
    pub fn insert(&mut self, depth: Cint64, indi_id: Cint64) -> (r: &mut Self)
        ensures
            r.individual_set@ == old(self).individual_set@.insert(indi_id),
            old(self).individual_set@.contains(indi_id) ==> r.depth_individual_map@ == old(self).depth_individual_map@,
            !old(self).individual_set@.contains(indi_id) ==> exists|p: int|
                queue_insert(old(self).depth_individual_map@, depth, indi_id, p)
                && r.depth_individual_map@ == old(self).depth_individual_map@.insert(p, (depth, indi_id)),
            depth_ordered(old(self).depth_individual_map@) ==> depth_ordered(r.depth_individual_map@),
            *final(self) == *final(r),
    {
        if !self.individual_set.contains(&indi_id) {
            self.individual_set.insert(indi_id);
            queue_push(&mut self.depth_individual_map, depth, indi_id);
        } else {
            assert(self.individual_set@ =~= self.individual_set@.insert(indi_id));
        }
        self
    }

    pub fn contains(&self, indi_id: Cint64) -> (r: bool)
        ensures
            r == self.individual_set@.contains(indi_id),
    {
        self.individual_set.contains(&indi_id)
    }

    /// Drops `indi_id` from the members; its queue entries become stale.
    pub fn remove(&mut self, indi_id: Cint64) -> (r: &mut Self)
        ensures
            r.individual_set@ == old(self).individual_set@.remove(indi_id),
            r.depth_individual_map@ == old(self).depth_individual_map@,
            *final(self) == *final(r),
    {
        self.individual_set.remove(&indi_id);
        self
    }

    pub fn is_empty(&self) -> (r: bool)
        ensures
            r == (self.individual_set@ =~= Set::<i64>::empty()),
    {
        self.individual_set.is_empty()
    }

    /// True exactly when no member is left: the reviewing loop of the
    /// completion engine runs on this test as it stands.
    pub fn has_next_individual_id(&self) -> (r: bool)
        ensures
            r == (self.individual_set@ =~= Set::<i64>::empty()),
    {
        self.individual_set.is_empty()
    }

    /// Takes queue entries from the front until one names a member, drops
    /// that member and returns it. When no entry names a member the queue is
    /// emptied and the identifier of its last entry is returned, or 0 for an
    /// empty queue.
    pub fn take_next_individual_id(&mut self) -> (r: Cint64)
        ensures
            exists|k: int| taken_at(old(self).depth_individual_map@, old(self).individual_set@, k, r,
                final(self).individual_set@, final(self).depth_individual_map@),
    {
        let ghost q = self.depth_individual_map@;
        let ghost members = self.individual_set@;
        let mut indi_id: i64 = 0;
        let ghost mut k: int = 0;
        while self.depth_individual_map.len() > 0
            invariant
                q == old(self).depth_individual_map@,
                members == old(self).individual_set@,
                0 <= k <= q.len(),
                self.depth_individual_map@ == q.subrange(k, q.len() as int),
                self.individual_set@ == members,
                forall|i: int| 0 <= i < k ==> !members.contains(#[trigger] q[i].1),
                indi_id == (if k == 0 { 0 } else { q[k - 1].1 }),
            decreases self.depth_individual_map@.len(),
        {
            indi_id = self.depth_individual_map[0].1;
            self.depth_individual_map.remove(0);
            proof {
                assert(q[k].1 == indi_id);
                k = k + 1;
                assert(self.depth_individual_map@ =~= q.subrange(k, q.len() as int));
            }
            if self.individual_set.contains(&indi_id) {
                self.individual_set.remove(&indi_id);
                proof {
                    assert(stale_prefix(q, members, k - 1));
                    assert(self.depth_individual_map@ =~= q.subrange(k, q.len() as int));
                    assert(taken_at(q, members, k - 1, indi_id, self.individual_set@, self.depth_individual_map@));
                }
                return indi_id;
            }
        }
        proof {
            assert(stale_prefix(q, members, k));
            assert(taken_at(q, members, k, indi_id, self.individual_set@, self.depth_individual_map@));
        }
        indi_id
    }
}

impl Default for ReusingReviewData {
    fn default() -> (r: Self)
        ensures
            r.individual_set@ == Set::<i64>::empty(),
            r.depth_individual_map@.len() == 0,
    {
        Self::new()
    }
}

} // verus!
