//! Reviews: the stored record, its vote ledger and append-only history log,
//! and the reader-facing views derived from it.

use vstd::prelude::*;

verus! {

/// A structured review score.
#[derive(Debug, Clone, Copy, PartialEq, Eq, Structural)]
pub struct Rank {
    pub overall: i64,
    pub content: i64,
    pub workload: i64,
    pub assessment: i64,
}

/// A request body carrying the mutable content of a review: used both to
/// create a review and to edit one.
#[derive(Debug, Clone)]
pub struct NewReview {
    pub title: String,
    pub content: String,
    pub rank: Rank,
}

/// An immutable record of a review's content, captured at the moment before
/// an edit is applied.
#[derive(Debug, Clone)]
pub struct HistorySnapshot {
    pub title: String,
    pub content: String,
    pub reviewer_id: i32,
    pub time_created: i64,
    pub time_updated: i64,
    pub rank: Rank,
}

/// One entry of a review's history log: who edited, when, and the content
/// as it stood before that edit.
#[derive(Debug, Clone)]
pub struct HistoryEntry {
    pub alter_by: i32,
    pub time: i64,
    pub original: HistorySnapshot,
}

/// A vote toggle request: `upvote` selects the direction.
#[derive(Debug, Clone, Copy, PartialEq, Eq, Structural)]
pub struct NewVote {
    pub upvote: bool,
}

/// A stored review: content, author, timestamps, the vote ledger
/// (upvoters and downvoters), and the append-only history log.
#[derive(Debug, Clone)]
pub struct Review {
    pub id: i32,
    pub course_id: i32,
    pub title: String,
    pub content: String,
    pub reviewer_id: i32,
    pub time_created: i64,
    pub time_updated: i64,
    pub rank: Rank,
    pub upvoters: Vec<i32>,
    pub downvoters: Vec<i32>,
    pub history: Vec<HistoryEntry>,
}

impl Review {
    /// The upvoter identities as a set.
    pub open spec fn up_set(self) -> Set<i32> {
        self.upvoters@.to_set()
    }

    /// The downvoter identities as a set.
    pub open spec fn down_set(self) -> Set<i32> {
        self.downvoters@.to_set()
    }

    /// Vote ledger well-formedness: each side holds unique identities, and
    /// no identity is on both sides at once.
    pub open spec fn votes_wf(self) -> bool {
        &&& self.upvoters@.no_duplicates()
        &&& self.downvoters@.no_duplicates()
        &&& forall|v: i32| !(self.upvoters@.contains(v) && self.downvoters@.contains(v))
    }

    /// The snapshot of this review's current content.
    pub open spec fn snapshot_spec(self) -> HistorySnapshot {
        HistorySnapshot {
            title: self.title,
            content: self.content,
            reviewer_id: self.reviewer_id,
            time_created: self.time_created,
            time_updated: self.time_updated,
            rank: self.rank,
        }
    }

    /// Captures the current content as a history snapshot.
    pub fn snapshot(&self) -> (s: HistorySnapshot)
        ensures
            s == self.snapshot_spec(),
    {
        HistorySnapshot {
            title: self.title.clone(),
            content: self.content.clone(),
            reviewer_id: self.reviewer_id,
            time_created: self.time_created,
            time_updated: self.time_updated,
            rank: self.rank,
        }
    }

    /// How a review may vote for a given reader: -1 if they are among the
    /// downvoters, otherwise 1 if among the upvoters, otherwise 0.
    pub open spec fn vote_of(self, user_id: i32) -> int {
        if self.downvoters@.contains(user_id) {
            -1
        } else if self.upvoters@.contains(user_id) {
            1
        } else {
            0
        }
    }

    /// The net remark score: number of upvoters minus number of downvoters.
    pub open spec fn remark_of(self) -> int {
        self.upvoters@.len() - self.downvoters@.len()
    }

    /// Records the current content in the history log, then applies the new
    /// content and refreshes the update time. The log only ever grows by
    /// exactly the one snapshot; every earlier entry stays in place.
    pub fn record_and_apply(&mut self, new_content: NewReview, editor: i32, now: i64)
        ensures
            final(self).history@ == old(self).history@.push(
                HistoryEntry { alter_by: editor, time: now, original: old(self).snapshot_spec() },
            ),
            final(self).title == new_content.title,
            final(self).content == new_content.content,
            final(self).rank == new_content.rank,
            final(self).time_updated == now,
            final(self).id == old(self).id,
            final(self).course_id == old(self).course_id,
            final(self).reviewer_id == old(self).reviewer_id,
            final(self).time_created == old(self).time_created,
            final(self).upvoters == old(self).upvoters,
            final(self).downvoters == old(self).downvoters,
    {
        let entry = HistoryEntry { alter_by: editor, time: now, original: self.snapshot() };
        self.history.push(entry);
        self.title = new_content.title;
        self.content = new_content.content;
        self.rank = new_content.rank;
        self.time_updated = now;
    }
}

impl NewReview {
    /// Builds the stored review for a fresh submission: empty vote ledger,
    /// empty history, creation and update time both set to now.
    pub fn into_review(self, id: i32, course_id: i32, reviewer_id: i32, now: i64) -> (r: Review)
        ensures
            r.id == id,
            r.course_id == course_id,
            r.title == self.title,
            r.content == self.content,
            r.rank == self.rank,
            r.reviewer_id == reviewer_id,
            r.time_created == now,
            r.time_updated == now,
            r.upvoters@ == Seq::<i32>::empty(),
            r.downvoters@ == Seq::<i32>::empty(),
            r.history@ == Seq::<HistoryEntry>::empty(),
            r.votes_wf(),
    {
        let r = Review {
            id,
            course_id,
            title: self.title,
            content: self.content,
            reviewer_id,
            time_created: now,
            time_updated: now,
            rank: self.rank,
            upvoters: Vec::new(),
            downvoters: Vec::new(),
            history: Vec::new(),
        };
        proof {
            assert(r.upvoters@ =~= Seq::<i32>::empty());
            assert(r.downvoters@ =~= Seq::<i32>::empty());
            assert(r.history@ =~= Seq::<HistoryEntry>::empty());
        }
        r
    }
}

impl HistorySnapshot {
    /// An exact copy of this snapshot.
    pub fn duplicate(&self) -> (s: HistorySnapshot)
        ensures
            s == *self,
    {
        HistorySnapshot {
            title: self.title.clone(),
            content: self.content.clone(),
            reviewer_id: self.reviewer_id,
            time_created: self.time_created,
            time_updated: self.time_updated,
            rank: self.rank,
        }
    }
}

impl HistoryEntry {
    /// An exact copy of this history entry.
    pub fn duplicate(&self) -> (e: HistoryEntry)
        ensures
            e == *self,
    {
        HistoryEntry { alter_by: self.alter_by, time: self.time, original: self.original.duplicate() }
    }
}

/// An exact copy of a voter list.
fn copy_voters(v: &Vec<i32>) -> (r: Vec<i32>)
    ensures
        r@ == v@,
{
    let mut r: Vec<i32> = Vec::new();
    let mut i: usize = 0;
    while i < v.len()
        invariant
            i <= v@.len(),
            r@ == v@.take(i as int),
        decreases v@.len() - i,
    {
        r.push(v[i]);
        proof {
            assert(r@ =~= v@.take(i + 1));
        }
        i = i + 1;
    }
    proof {
        assert(v@.take(v@.len() as int) =~= v@);
    }
    r
}

/// An exact copy of a history log.
fn copy_history(v: &Vec<HistoryEntry>) -> (r: Vec<HistoryEntry>)
    ensures
        r@ == v@,
{
    let mut r: Vec<HistoryEntry> = Vec::new();
    let mut i: usize = 0;
    while i < v.len()
        invariant
            i <= v@.len(),
            r@ == v@.take(i as int),
        decreases v@.len() - i,
    {
        r.push(v[i].duplicate());
        proof {
            assert(r@ =~= v@.take(i + 1));
        }
        i = i + 1;
    }
    proof {
        assert(v@.take(v@.len() as int) =~= v@);
    }
    r
}

impl Review {
    /// A copy of this review with the same observable value: every scalar
    /// and text field equal, and the ledger and log equal element for
    /// element.
    pub fn duplicate(&self) -> (r: Review)
        ensures
            r.id == self.id,
            r.course_id == self.course_id,
            r.title == self.title,
            r.content == self.content,
            r.reviewer_id == self.reviewer_id,
            r.time_created == self.time_created,
            r.time_updated == self.time_updated,
            r.rank == self.rank,
            r.upvoters@ == self.upvoters@,
            r.downvoters@ == self.downvoters@,
            r.history@ == self.history@,
    {
        Review {
            id: self.id,
            course_id: self.course_id,
            title: self.title.clone(),
            content: self.content.clone(),
            reviewer_id: self.reviewer_id,
            time_created: self.time_created,
            time_updated: self.time_updated,
            rank: self.rank,
            upvoters: copy_voters(&self.upvoters),
            downvoters: copy_voters(&self.downvoters),
            history: copy_history(&self.history),
        }
    }
}

/// One review state follows another by a single edit: the later history log
/// is the earlier one with exactly one entry appended.
pub open spec fn is_edit_of(pre: Review, post: Review) -> bool {
    exists|e: HistoryEntry| post.history@ == pre.history@.push(e)
}

/// History monotonicity: along any chain of edits, the history log grows by
/// exactly one entry per edit, and the entries present before the chain are
/// never changed or reordered. In particular, after N edits the log holds
/// exactly N more entries than it started with.
pub proof fn lemma_history_monotonic(states: Seq<Review>)
    requires
        states.len() >= 1,
        forall|i: int, j: int|
            #![trigger states[i], states[j]]
            0 <= i && j == i + 1 && j < states.len() ==> is_edit_of(states[i], states[j]),
    ensures
        states.last().history@.len() == states[0].history@.len() + states.len() - 1,
        forall|k: int|
            0 <= k < states[0].history@.len() ==> #[trigger] states.last().history@[k]
                == states[0].history@[k],
    decreases states.len(),
{
    if states.len() > 1 {
        let prefix = states.drop_last();
        assert forall|i: int, j: int|
            #![trigger prefix[i], prefix[j]]
            0 <= i && j == i + 1 && j < prefix.len() implies is_edit_of(prefix[i], prefix[j]) by {
            assert(prefix[i] == states[i]);
            assert(prefix[j] == states[j]);
        }
        lemma_history_monotonic(prefix);
        let n = states.len() - 1;
        assert(is_edit_of(states[n - 1], states[n]));
        let e = choose|e: HistoryEntry| states[n].history@ == #[trigger] states[n - 1].history@.push(e);
        assert(prefix.last() == states[n - 1]);
        assert(states.last().history@.len() == states[0].history@.len() + states.len() - 1);
    }
}

/// The reader-facing form of a review: content and history plus the derived
/// vote figures for the requesting user.
#[derive(Debug, Clone)]
pub struct GetReview {
    pub id: i32,
    pub title: String,
    pub content: String,
    pub history: Vec<HistoryEntry>,
    pub reviewer_id: i32,
    pub time_created: i64,
    pub time_updated: i64,
    pub rank: Rank,
    pub is_me: bool,
    pub vote: i32,
    pub remark: i32,
}

/// The reader-facing form of one's own review, carrying its course instead
/// of the `is_me` marker.
#[derive(Debug, Clone)]
pub struct GetMyReview {
    pub id: i32,
    pub title: String,
    pub content: String,
    pub history: Vec<HistoryEntry>,
    pub time_created: i64,
    pub time_updated: i64,
    pub rank: Rank,
    pub vote: i32,
    pub remark: i32,
    pub course: crate::model::Course,
}

/// Derives the vote figures of a review for a given reader: the number of
/// upvoters, the number of downvoters, and the reader's own vote.
pub fn calculate_votes(model: &Review, user_id: i32) -> (r: (i32, i32, i32))
    requires
        model.upvoters@.len() <= i32::MAX,
        model.downvoters@.len() <= i32::MAX,
    ensures
        r.0 == model.upvoters@.len(),
        r.1 == model.downvoters@.len(),
        r.2 == model.vote_of(user_id),
{
    let mut voted: i32 = 0;
    if contains_voter(&model.upvoters, user_id) {
        voted = 1;
    }
    if contains_voter(&model.downvoters, user_id) {
        voted = -1;
    }
    (model.upvoters.len() as i32, model.downvoters.len() as i32, voted)
}

/// Whether a voter identity occurs in a voter list.
pub fn contains_voter(v: &Vec<i32>, x: i32) -> (r: bool)
    ensures
        r == v@.contains(x),
{
    let mut i: usize = 0;
    while i < v.len()
        invariant
            i <= v@.len(),
            forall|j: int| 0 <= j < i ==> v@[j] != x,
        decreases v@.len() - i,
    {
        if v[i] == x {
            return true;
        }
        i = i + 1;
    }
    false
}

/// What the reader-facing form of a review holds, relative to the stored
/// review and the requesting user.
pub open spec fn is_get_review_of(g: GetReview, r: Review, user_id: i32) -> bool {
    &&& g.id == r.id
    &&& g.title == r.title
    &&& g.content == r.content
    &&& g.history@ == r.history@
    &&& g.reviewer_id == r.reviewer_id
    &&& g.time_created == r.time_created
    &&& g.time_updated == r.time_updated
    &&& g.rank == r.rank
    &&& g.is_me == (r.reviewer_id == user_id)
    &&& g.vote == r.vote_of(user_id)
    &&& g.remark == r.remark_of()
}

/// What one's own reader-facing review holds, relative to the stored review,
/// its course, and the requesting user.
pub open spec fn is_get_my_review_of(
    g: GetMyReview,
    r: Review,
    c: crate::model::Course,
    user_id: i32,
) -> bool {
    &&& g.id == r.id
    &&& g.title == r.title
    &&& g.content == r.content
    &&& g.history@ == r.history@
    &&& g.time_created == r.time_created
    &&& g.time_updated == r.time_updated
    &&& g.rank == r.rank
    &&& g.vote == r.vote_of(user_id)
    &&& g.remark == r.remark_of()
    &&& g.course == c
}

impl GetReview {
    /// The reader-facing form of this review for the given user.
    pub fn new(model: Review, user_id: i32) -> (g: GetReview)
        requires
            model.upvoters@.len() <= i32::MAX,
            model.downvoters@.len() <= i32::MAX,
        ensures
            is_get_review_of(g, model, user_id),
    {
        let (upvote, downvote, voted) = calculate_votes(&model, user_id);
        GetReview {
            id: model.id,
            title: model.title,
            content: model.content,
            history: model.history,
            reviewer_id: model.reviewer_id,
            time_created: model.time_created,
            time_updated: model.time_updated,
            rank: model.rank,
            is_me: model.reviewer_id == user_id,
            vote: voted,
            remark: upvote - downvote,
        }
    }
}

impl GetMyReview {
    /// The reader-facing form of this review together with its course.
    pub fn new(model: Review, course: crate::model::Course, user_id: i32) -> (g: GetMyReview)
        requires
            model.upvoters@.len() <= i32::MAX,
            model.downvoters@.len() <= i32::MAX,
        ensures
            is_get_my_review_of(g, model, course, user_id),
    {
        let (upvote, downvote, voted) = calculate_votes(&model, user_id);
        GetMyReview {
            id: model.id,
            title: model.title,
            content: model.content,
            history: model.history,
            time_created: model.time_created,
            time_updated: model.time_updated,
            rank: model.rank,
            vote: voted,
            remark: upvote - downvote,
            course,
        }
    }
}

} // verus!
