//! The in-memory persistence store of the board and the request-level
//! operations on it: course creation with implicit grouping, review
//! creation with duplicate rejection, history-tracked edits, vote toggles,
//! and the bounded-retry random sampler.

use vstd::prelude::*;

verus! {

use crate::error::{conflict, internal_server_error, not_found, unauthorized, ApiError, ErrorKind};
use crate::model::{
    course_from_new,
    is_group_from_new,
    is_group_plus_course,
    Course,
    CourseGroup,
    GetSingleCourse,
    GetSingleCourseGroup,
    NewCourse,
    UserInfo,
};
use crate::review::{
    is_get_my_review_of,
    is_get_review_of,
    GetMyReview,
    GetReview,
    HistoryEntry,
    NewReview,
    NewVote,
    Review,
};
use crate::vote::toggle_step;

/// Relies on rand::random_range over u64: a draw somewhere in the
/// inclusive range. Nothing more is promised of a random value.
#[verifier::external_body]
fn random_in_range(lo: u64, hi: u64) -> (r: u64)
    requires
        lo <= hi,
    ensures
        lo <= r <= hi,
{
    rand::random_range(lo..=hi)
}

/// Relies on chrono::Local::now for the current moment as a UTC timestamp
/// in seconds. Nothing is promised of the clock's value.
#[verifier::external_body]
fn now_timestamp() -> i64 {
    chrono::Local::now().naive_utc().and_utc().timestamp()
}

/// The row-count result shape for the review table.
#[derive(Debug, Clone, Copy, PartialEq, Eq, Structural)]
pub struct Counts {
    pub cnt: i32,
}

/// The persistence store of the board, held in memory: course groups owning
/// their courses, and the flat review table. Identities are handed out
/// sequentially from 1, as the storage engine's auto-increment key would.
#[derive(Debug, Clone)]
pub struct Store {
    pub groups: Vec<CourseGroup>,
    pub reviews: Vec<Review>,
    pub next_course_id: i32,
}

impl Store {
    /// Whether some stored course has this identity.
    pub open spec fn has_course(self, course_id: i32) -> bool {
        exists|i: int, j: int|
            #![trigger self.groups@[i].courses@[j]]
            0 <= i < self.groups@.len() && 0 <= j < self.groups@[i].courses@.len()
                && self.groups@[i].courses@[j].id == course_id
    }

    /// Whether this exact course value is stored.
    pub open spec fn stores_course(self, c: Course) -> bool {
        exists|i: int, j: int|
            #![trigger self.groups@[i].courses@[j]]
            0 <= i < self.groups@.len() && 0 <= j < self.groups@[i].courses@.len()
                && self.groups@[i].courses@[j] == c
    }

    /// Whether this author already has a stored review for this course.
    pub open spec fn has_review_by(self, course_id: i32, reviewer_id: i32) -> bool {
        exists|k: int|
            0 <= k < self.reviews@.len() && (#[trigger] self.reviews@[k]).course_id == course_id
                && self.reviews@[k].reviewer_id == reviewer_id
    }

    /// Whether some group holds this course code.
    pub open spec fn has_group_code(self, code: Seq<char>) -> bool {
        exists|i: int| 0 <= i < self.groups@.len() && (#[trigger] self.groups@[i]).code@ == code
    }

    /// Store well-formedness: group identities are dense from 1 in store
    /// order and their codes unique; every course sits in the group of its
    /// code with an identity below the course counter, and no two courses
    /// share an identity; review identities are dense from 1, every review
    /// has a well-formed vote ledger of machine-representable size, and
    /// every review points at a stored course.
    pub open spec fn wf(self) -> bool {
        &&& forall|i: int| 0 <= i < self.groups@.len() ==> (#[trigger] self.groups@[i]).id == i + 1
        &&& forall|i: int| 0 <= i < self.groups@.len() ==> (#[trigger] self.groups@[i]).wf()
        &&& forall|i: int, j: int|
            0 <= i < j < self.groups@.len() ==> (#[trigger] self.groups@[i]).code@ != (
            #[trigger] self.groups@[j]).code@
        &&& self.next_course_id >= 1
        &&& forall|i: int, j: int|
            #![trigger self.groups@[i].courses@[j]]
            0 <= i < self.groups@.len() && 0 <= j < self.groups@[i].courses@.len() ==> 1
                <= self.groups@[i].courses@[j].id < self.next_course_id
        &&& forall|i1: int, j1: int, i2: int, j2: int|
            #![trigger self.groups@[i1].courses@[j1], self.groups@[i2].courses@[j2]]
            0 <= i1 < self.groups@.len() && 0 <= j1 < self.groups@[i1].courses@.len() && 0 <= i2
                < self.groups@.len() && 0 <= j2 < self.groups@[i2].courses@.len() && (i1 != i2 || j1
                != j2) ==> self.groups@[i1].courses@[j1].id != self.groups@[i2].courses@[j2].id
        &&& forall|k: int| 0 <= k < self.reviews@.len() ==> (#[trigger] self.reviews@[k]).id == k + 1
        &&& forall|k: int| 0 <= k < self.reviews@.len() ==> (#[trigger] self.reviews@[k]).votes_wf()
        &&& forall|k: int|
            0 <= k < self.reviews@.len() ==> (#[trigger] self.reviews@[k]).upvoters@.len()
                <= i32::MAX && self.reviews@[k].downvoters@.len() <= i32::MAX
        &&& forall|k: int|
            0 <= k < self.reviews@.len() ==> self.has_course(
                (#[trigger] self.reviews@[k]).course_id,
            )
    }

    /// An empty store.
    pub fn new() -> (s: Store)
        ensures
            s.wf(),
            s.groups@.len() == 0,
            s.reviews@.len() == 0,
            s.next_course_id == 1,
    {
        Store { groups: Vec::new(), reviews: Vec::new(), next_course_id: 1 }
    }

    /// The total number of stored reviews.
    pub fn review_count(&self) -> (c: Counts)
        requires
            self.wf(),
        ensures
            c.cnt == self.reviews@.len(),
    {
        proof {
            if self.reviews@.len() > 0 {
                assert(self.reviews@[self.reviews@.len() - 1].id == self.reviews@.len() as int);
            }
        }
        Counts { cnt: self.reviews.len() as i32 }
    }

    /// Finds the index of the group holding this course code.
    fn find_group_by_code(&self, code: &String) -> (r: Option<usize>)
        ensures
            match r {
                Some(i) => i < self.groups@.len() && self.groups@[i as int].code@ == code@,
                None => !self.has_group_code(code@),
            },
    {
        let mut i: usize = 0;
        while i < self.groups.len()
            invariant
                i <= self.groups@.len(),
                forall|j: int| 0 <= j < i ==> (#[trigger] self.groups@[j]).code@ != code@,
            decreases self.groups@.len() - i,
        {
            if self.groups[i].code == *code {
                return Some(i);
            }
            i = i + 1;
        }
        None
    }

    /// Finds the position of the stored course with this identity.
    fn find_course(&self, course_id: i32) -> (r: Option<(usize, usize)>)
        ensures
            match r {
                Some(p) => p.0 < self.groups@.len() && p.1
                    < self.groups@[p.0 as int].courses@.len()
                    && self.groups@[p.0 as int].courses@[p.1 as int].id == course_id,
                None => !self.has_course(course_id),
            },
    {
        let mut i: usize = 0;
        while i < self.groups.len()
            invariant
                i <= self.groups@.len(),
                forall|a: int, b: int|
                    #![trigger self.groups@[a].courses@[b]]
                    0 <= a < i && 0 <= b < self.groups@[a].courses@.len()
                        ==> self.groups@[a].courses@[b].id != course_id,
            decreases self.groups@.len() - i,
        {
            let mut j: usize = 0;
            while j < self.groups[i].courses.len()
                invariant
                    i < self.groups@.len(),
                    j <= self.groups@[i as int].courses@.len(),
                    forall|a: int, b: int|
                        #![trigger self.groups@[a].courses@[b]]
                        0 <= a < i && 0 <= b < self.groups@[a].courses@.len()
                            ==> self.groups@[a].courses@[b].id != course_id,
                    forall|b: int|
                        0 <= b < j ==> (#[trigger] self.groups@[i as int].courses@[b]).id
                            != course_id,
                decreases self.groups@[i as int].courses@.len() - j,
            {
                if self.groups[i].courses[j].id == course_id {
                    return Some((i, j));
                }
                j = j + 1;
            }
            i = i + 1;
        }
        None
    }
}

/// The course-creation transition on an admin request: the course counter
/// advances by one and the reviews are untouched. When a group already
/// holds the new course's code, exactly that group gains the course, built
/// with the old counter as its identity; otherwise a fresh group for the
/// code is appended holding just that course.
pub open spec fn add_course_step(pre: Store, post: Store, nc: NewCourse, c: Course) -> bool {
    &&& post.next_course_id == pre.next_course_id + 1
    &&& post.reviews == pre.reviews
    &&& if pre.has_group_code(nc.code@) {
        exists|i: int|
            #![trigger pre.groups@[i]]
            0 <= i < pre.groups@.len() && pre.groups@[i].code@ == nc.code@ && c == course_from_new(
                nc,
                pre.next_course_id,
                pre.groups@[i].id,
            ) && post.groups@.len() == pre.groups@.len() && (forall|k: int|
                0 <= k < pre.groups@.len() && k != i ==> post.groups@[k] == pre.groups@[k])
                && is_group_plus_course(post.groups@[i], pre.groups@[i], c)
    } else {
        &&& c == course_from_new(nc, pre.next_course_id, (pre.groups@.len() + 1) as i32)
        &&& post.groups@.len() == pre.groups@.len() + 1
        &&& post.groups@.drop_last() == pre.groups@
        &&& is_group_from_new(
            post.groups@.last(),
            nc,
            (pre.groups@.len() + 1) as i32,
            pre.next_course_id,
        )
    }
}

impl Store {
    /// Creates a course on an admin's request, adding it to the group of
    /// its code, or creating that group first if the code is new; a
    /// non-admin request is rejected and changes nothing.
    pub fn add_course(&mut self, new_course: NewCourse, user: UserInfo) -> (r: Result<
        Course,
        ApiError,
    >)
        requires
            old(self).wf(),
            old(self).next_course_id < i32::MAX,
            old(self).groups@.len() < i32::MAX,
        ensures
            final(self).wf(),
            !user.is_admin ==> r is Err && r->Err_0.kind == ErrorKind::Unauthorized && *final(self)
                == *old(self),
            user.is_admin ==> r is Ok && add_course_step(
                *old(self),
                *final(self),
                new_course,
                r->Ok_0,
            ),
    {
        if !user.is_admin {
            return Err(unauthorized("Only admin can add new course".to_owned()));
        }
        let course_id = self.next_course_id;
        match self.find_group_by_code(&new_course.code) {
            Some(i) => {
                let gid = self.groups[i].id;
                let course = Course::from_new(new_course, course_id, gid);
                let mut g = self.groups.remove(i);
                g.courses.push(course.duplicate());
                self.groups.insert(i, g);
                self.next_course_id = course_id + 1;
                proof {
                    let pre = *old(self);
                    let post = *self;
                    assert(post.groups@ =~= pre.groups@.update(
                        i as int,
                        post.groups@[i as int],
                    ));
                    assert(is_group_plus_course(post.groups@[i as int], pre.groups@[i as int], course));
                    assert(pre.has_group_code(new_course.code@));
                    assert forall|k: int|
                        0 <= k < post.reviews@.len() implies post.has_course(
                        (#[trigger] post.reviews@[k]).course_id,
                    ) by {
                        let cid = post.reviews@[k].course_id;
                        assert(pre.has_course(cid));
                        let (a, b): (int, int) = choose|a: int, b: int|
                            #![trigger pre.groups@[a].courses@[b]]
                            0 <= a < pre.groups@.len() && 0 <= b < pre.groups@[a].courses@.len()
                                && pre.groups@[a].courses@[b].id == cid;
                        assert(post.groups@[a].courses@[b].id == cid);
                    }
                    assert(post.wf());
                }
                Ok(course)
            },
            None => {
                let gid = self.groups.len() as i32 + 1;
                let course = Course::from_new(new_course, course_id, gid);
                let mut courses: Vec<Course> = Vec::new();
                courses.push(course.duplicate());
                let g = CourseGroup {
                    id: gid,
                    name: course.name.clone(),
                    code: course.code.clone(),
                    department: course.department.clone(),
                    campus_name: course.campus_name.clone(),
                    courses,
                };
                self.groups.push(g);
                self.next_course_id = course_id + 1;
                proof {
                    let pre = *old(self);
                    let post = *self;
                    assert(post.groups@.drop_last() =~= pre.groups@);
                    assert(post.groups@.last().courses@ =~= Seq::empty().push(
                        course_from_new(new_course, pre.next_course_id, gid),
                    ));
                    assert(is_group_from_new(post.groups@.last(), new_course, gid, course_id));
                    assert forall|k: int|
                        0 <= k < post.reviews@.len() implies post.has_course(
                        (#[trigger] post.reviews@[k]).course_id,
                    ) by {
                        let cid = post.reviews@[k].course_id;
                        assert(pre.has_course(cid));
                        let (a, b): (int, int) = choose|a: int, b: int|
                            #![trigger pre.groups@[a].courses@[b]]
                            0 <= a < pre.groups@.len() && 0 <= b < pre.groups@[a].courses@.len()
                                && pre.groups@[a].courses@[b].id == cid;
                        assert(post.groups@[a].courses@[b].id == cid);
                    }
                    assert(post.wf());
                }
                Ok(course)
            },
        }
    }
}

/// A freshly created review: the submitted content under the given
/// identities, both timestamps at the creation moment, and empty ledger
/// and history.
pub open spec fn is_new_review(
    r: Review,
    nr: NewReview,
    id: i32,
    course_id: i32,
    reviewer_id: i32,
    t: i64,
) -> bool {
    &&& r.id == id
    &&& r.course_id == course_id
    &&& r.title == nr.title
    &&& r.content == nr.content
    &&& r.rank == nr.rank
    &&& r.reviewer_id == reviewer_id
    &&& r.time_created == t
    &&& r.time_updated == t
    &&& r.upvoters@ == Seq::<i32>::empty()
    &&& r.downvoters@ == Seq::<i32>::empty()
    &&& r.history@ == Seq::<HistoryEntry>::empty()
}

/// The history-tracked edit transition on one review: the prior content is
/// appended to the history log as of the edit moment, the new content and
/// update time installed, and everything else kept.
pub open spec fn edit_applied(pre: Review, post: Review, nr: NewReview, editor: i32, t: i64) -> bool {
    &&& post.history@ == pre.history@.push(
        HistoryEntry { alter_by: editor, time: t, original: pre.snapshot_spec() },
    )
    &&& post.title == nr.title
    &&& post.content == nr.content
    &&& post.rank == nr.rank
    &&& post.time_updated == t
    &&& post.id == pre.id
    &&& post.course_id == pre.course_id
    &&& post.reviewer_id == pre.reviewer_id
    &&& post.time_created == pre.time_created
    &&& post.upvoters@ == pre.upvoters@
    &&& post.downvoters@ == pre.downvoters@
}

impl Store {
    /// Finds the index of this author's review of this course.
    fn find_review_by(&self, course_id: i32, reviewer_id: i32) -> (r: Option<usize>)
        ensures
            match r {
                Some(k) => k < self.reviews@.len() && self.reviews@[k as int].course_id == course_id
                    && self.reviews@[k as int].reviewer_id == reviewer_id,
                None => !self.has_review_by(course_id, reviewer_id),
            },
    {
        let mut k: usize = 0;
        while k < self.reviews.len()
            invariant
                k <= self.reviews@.len(),
                forall|a: int|
                    0 <= a < k ==> !((#[trigger] self.reviews@[a]).course_id == course_id
                        && self.reviews@[a].reviewer_id == reviewer_id),
            decreases self.reviews@.len() - k,
        {
            if self.reviews[k].course_id == course_id && self.reviews[k].reviewer_id
                == reviewer_id {
                return Some(k);
            }
            k = k + 1;
        }
        None
    }

    /// Creates a review for a course: the course must exist, and a second
    /// review by the same author for the same course is rejected with a
    /// conflict. On success the review is appended with the next dense
    /// identity, timestamped at the creation moment.
    pub fn add_review(&mut self, course_id: i32, new_review: NewReview, user: UserInfo) -> (r:
        Result<GetReview, ApiError>)
        requires
            old(self).wf(),
            old(self).reviews@.len() < i32::MAX,
        ensures
            final(self).wf(),
            final(self).groups == old(self).groups,
            final(self).next_course_id == old(self).next_course_id,
            !old(self).has_course(course_id) ==> r is Err && r->Err_0.kind == ErrorKind::NotFound
                && *final(self) == *old(self),
            old(self).has_course(course_id) && old(self).has_review_by(course_id, user.id) ==> r
                is Err && r->Err_0.kind == ErrorKind::Conflict && *final(self) == *old(self),
            old(self).has_course(course_id) && !old(self).has_review_by(course_id, user.id) ==> r
                is Ok && final(self).reviews@.len() == old(self).reviews@.len() + 1
                && final(self).reviews@.drop_last() == old(self).reviews@ && (exists|t: i64|
                #[trigger] is_new_review(
                    final(self).reviews@.last(),
                    new_review,
                    (old(self).reviews@.len() + 1) as i32,
                    course_id,
                    user.id,
                    t,
                )) && is_get_review_of(r->Ok_0, final(self).reviews@.last(), user.id),
    {
        if self.find_course(course_id).is_none() {
            return Err(not_found("Course is not found.".to_owned()));
        }
        if self.find_review_by(course_id, user.id).is_some() {
            return Err(conflict("You cannot post more than one review.".to_owned()));
        }
        let id = self.reviews.len() as i32 + 1;
        let now = now_timestamp();
        let review = new_review.into_review(id, course_id, user.id, now);
        let g = GetReview::new(review.duplicate(), user.id);
        self.reviews.push(review);
        proof {
            let pre = *old(self);
            let post = *self;
            assert(post.reviews@.drop_last() =~= pre.reviews@);
            assert(post.groups@ == pre.groups@);
            assert(is_new_review(
                post.reviews@.last(),
                new_review,
                (pre.reviews@.len() + 1) as i32,
                course_id,
                user.id,
                now,
            ));
            assert(is_get_review_of(g, post.reviews@.last(), user.id));
            assert forall|k: int| 0 <= k < post.reviews@.len() implies post.has_course(
                (#[trigger] post.reviews@[k]).course_id,
            ) by {
                let cid = post.reviews@[k].course_id;
                assert(pre.has_course(cid));
                let (a, b): (int, int) = choose|a: int, b: int|
                    #![trigger pre.groups@[a].courses@[b]]
                    0 <= a < pre.groups@.len() && 0 <= b < pre.groups@[a].courses@.len()
                        && pre.groups@[a].courses@[b].id == cid;
                assert(post.groups@[a].courses@[b].id == cid);
            }
            assert(post.wf());
        }
        Ok(g)
    }

    /// Applies a history-tracked edit to a review: only the original
    /// author or an admin may edit. The prior content is appended to the
    /// history log and the new content installed, as one update.
    pub fn modify_review(&mut self, review_id: i32, new_review: NewReview, user: UserInfo) -> (r:
        Result<GetReview, ApiError>)
        requires
            old(self).wf(),
        ensures
            final(self).wf(),
            final(self).groups == old(self).groups,
            final(self).next_course_id == old(self).next_course_id,
            !(1 <= review_id <= old(self).reviews@.len()) ==> r is Err && r->Err_0.kind
                == ErrorKind::NotFound && *final(self) == *old(self),
            1 <= review_id <= old(self).reviews@.len() && old(self).reviews@[review_id
                - 1].reviewer_id != user.id && !user.is_admin ==> r is Err && r->Err_0.kind
                == ErrorKind::Unauthorized && *final(self) == *old(self),
            1 <= review_id <= old(self).reviews@.len() && (old(self).reviews@[review_id
                - 1].reviewer_id == user.id || user.is_admin) ==> r is Ok
                && final(self).reviews@.len() == old(self).reviews@.len() && (forall|k: int|
                0 <= k < old(self).reviews@.len() && k != review_id - 1
                    ==> final(self).reviews@[k] == old(self).reviews@[k]) && (exists|t: i64|
                #[trigger] edit_applied(
                    old(self).reviews@[review_id - 1],
                    final(self).reviews@[review_id - 1],
                    new_review,
                    user.id,
                    t,
                )) && is_get_review_of(r->Ok_0, final(self).reviews@[review_id - 1], user.id),
    {
        if review_id < 1 || review_id as usize > self.reviews.len() {
            return Err(not_found("Review is not found.".to_owned()));
        }
        let idx = (review_id - 1) as usize;
        if self.reviews[idx].reviewer_id != user.id && !user.is_admin {
            return Err(unauthorized("You have no permission to modify this review!".to_owned()));
        }
        let now = now_timestamp();
        let mut review = self.reviews.remove(idx);
        review.record_and_apply(new_review, user.id, now);
        let g = GetReview::new(review.duplicate(), user.id);
        self.reviews.insert(idx, review);
        proof {
            let pre = *old(self);
            let post = *self;
            assert(post.reviews@ =~= pre.reviews@.update(idx as int, post.reviews@[idx as int]));
            assert(edit_applied(
                pre.reviews@[idx as int],
                post.reviews@[idx as int],
                new_review,
                user.id,
                now,
            ));
            assert forall|k: int| 0 <= k < post.reviews@.len() implies post.has_course(
                (#[trigger] post.reviews@[k]).course_id,
            ) by {
                let cid = post.reviews@[k].course_id;
                assert(pre.reviews@[k].course_id == cid);
                assert(pre.has_course(cid));
                let (a, b): (int, int) = choose|a: int, b: int|
                    #![trigger pre.groups@[a].courses@[b]]
                    0 <= a < pre.groups@.len() && 0 <= b < pre.groups@[a].courses@.len()
                        && pre.groups@[a].courses@[b].id == cid;
                assert(post.groups@[a].courses@[b].id == cid);
            }
            assert(post.wf());
        }
        Ok(g)
    }

    /// Applies one voter's vote toggle to a review, replacing the vote-set
    /// pair as a single update. A ledger side already at the machine's
    /// representable limit is reported as malformed stored data.
    pub fn vote_for_review(&mut self, review_id: i32, vote_data: NewVote, user: UserInfo) -> (r:
        Result<GetReview, ApiError>)
        requires
            old(self).wf(),
        ensures
            final(self).wf(),
            final(self).groups == old(self).groups,
            final(self).next_course_id == old(self).next_course_id,
            !(1 <= review_id <= old(self).reviews@.len()) ==> r is Err && r->Err_0.kind
                == ErrorKind::NotFound && *final(self) == *old(self),
            1 <= review_id <= old(self).reviews@.len() && (old(self).reviews@[review_id
                - 1].upvoters@.len() >= i32::MAX || old(self).reviews@[review_id
                - 1].downvoters@.len() >= i32::MAX) ==> r is Err && r->Err_0.kind
                == ErrorKind::Internal && *final(self) == *old(self),
            1 <= review_id <= old(self).reviews@.len() && old(self).reviews@[review_id
                - 1].upvoters@.len() < i32::MAX && old(self).reviews@[review_id
                - 1].downvoters@.len() < i32::MAX ==> r is Ok
                && final(self).reviews@.len() == old(self).reviews@.len() && (forall|k: int|
                0 <= k < old(self).reviews@.len() && k != review_id - 1
                    ==> final(self).reviews@[k] == old(self).reviews@[k]) && toggle_step(
                old(self).reviews@[review_id - 1],
                final(self).reviews@[review_id - 1],
                user.id,
                vote_data.upvote,
            ) && is_get_review_of(r->Ok_0, final(self).reviews@[review_id - 1], user.id),
    {
        if review_id < 1 || review_id as usize > self.reviews.len() {
            return Err(not_found("Review is not found.".to_owned()));
        }
        let idx = (review_id - 1) as usize;
        let cap: usize = i32::MAX as usize;
        if self.reviews[idx].upvoters.len() >= cap || self.reviews[idx].downvoters.len() >= cap {
            return Err(internal_server_error("Unable to parse the review's voter fields.".to_owned()));
        }
        let mut review = self.reviews.remove(idx);
        review.toggle_vote(user.id, vote_data.upvote);
        let g = GetReview::new(review.duplicate(), user.id);
        self.reviews.insert(idx, review);
        proof {
            let pre = *old(self);
            let post = *self;
            assert(post.reviews@ =~= pre.reviews@.update(idx as int, post.reviews@[idx as int]));
            assert(toggle_step(
                pre.reviews@[idx as int],
                post.reviews@[idx as int],
                user.id,
                vote_data.upvote,
            ));
            assert forall|k: int| 0 <= k < post.reviews@.len() implies post.has_course(
                (#[trigger] post.reviews@[k]).course_id,
            ) by {
                let cid = post.reviews@[k].course_id;
                assert(pre.reviews@[k].course_id == cid);
                assert(pre.has_course(cid));
                let (a, b): (int, int) = choose|a: int, b: int|
                    #![trigger pre.groups@[a].courses@[b]]
                    0 <= a < pre.groups@.len() && 0 <= b < pre.groups@[a].courses@.len()
                        && pre.groups@[a].courses@[b].id == cid;
                assert(post.groups@[a].courses@[b].id == cid);
            }
            assert(post.wf());
        }
        Ok(g)
    }
}

/// The reviews of one course, in store order.
pub open spec fn reviews_of(reviews: Seq<Review>, course_id: i32) -> Seq<Review> {
    reviews.filter(|r: Review| r.course_id == course_id)
}

/// The reviews by one author, in store order.
pub open spec fn reviews_by(reviews: Seq<Review>, reviewer_id: i32) -> Seq<Review> {
    reviews.filter(|r: Review| r.reviewer_id == reviewer_id)
}

/// Appending a review keeps the earlier per-course selection and extends it
/// by the new review exactly when it belongs to the course.
proof fn lemma_reviews_of_push(s: Seq<Review>, x: Review, course_id: i32)
    ensures
        reviews_of(s.push(x), course_id) == if x.course_id == course_id {
            reviews_of(s, course_id).push(x)
        } else {
            reviews_of(s, course_id)
        },
{
    reveal(Seq::filter);
    assert(s.push(x).drop_last() =~= s);
    assert(s.push(x).last() == x);
}

/// Appending a review keeps the earlier per-author selection and extends
/// it by the new review exactly when it is by the same author.
proof fn lemma_reviews_by_push(s: Seq<Review>, x: Review, reviewer_id: i32)
    ensures
        reviews_by(s.push(x), reviewer_id) == if x.reviewer_id == reviewer_id {
            reviews_by(s, reviewer_id).push(x)
        } else {
            reviews_by(s, reviewer_id)
        },
{
    reveal(Seq::filter);
    assert(s.push(x).drop_last() =~= s);
    assert(s.push(x).last() == x);
}

/// What a loaded review list holds: the reader-facing forms of exactly the
/// course's reviews, in store order.
pub open spec fn is_review_list_of(
    list: Seq<GetReview>,
    reviews: Seq<Review>,
    course_id: i32,
    user_id: i32,
) -> bool {
    &&& list.len() == reviews_of(reviews, course_id).len()
    &&& forall|m: int|
        0 <= m < list.len() ==> is_get_review_of(
            #[trigger] list[m],
            reviews_of(reviews, course_id)[m],
            user_id,
        )
}

/// What a loaded course holds: the course itself with its review list.
pub open spec fn is_single_course_of(
    sc: GetSingleCourse,
    c: Course,
    reviews: Seq<Review>,
    user_id: i32,
) -> bool {
    &&& sc.course == c
    &&& is_review_list_of(sc.review_list@, reviews, c.id, user_id)
}

/// One element of a reader's own-review listing: the reader-facing form of
/// a stored review, joined with the stored course it belongs to.
pub open spec fn my_review_entry(g: GetMyReview, r: Review, s: Store, user_id: i32) -> bool {
    exists|c: Course|
        #[trigger] is_get_my_review_of(g, r, c, user_id) && s.stores_course(c) && c.id
            == r.course_id
}

impl GetSingleCourse {
    /// Loads a course together with its reviews from the store, for one
    /// reader.
    pub fn load(course: Course, store: &Store, user_id: i32) -> (sc: GetSingleCourse)
        requires
            store.wf(),
        ensures
            is_single_course_of(sc, course, store.reviews@, user_id),
    {
        let cid = course.id;
        let mut review_list: Vec<GetReview> = Vec::new();
        let mut k: usize = 0;
        while k < store.reviews.len()
            invariant
                store.wf(),
                k <= store.reviews@.len(),
                cid == course.id,
                is_review_list_of(review_list@, store.reviews@.take(k as int), cid, user_id),
            decreases store.reviews@.len() - k,
        {
            proof {
                assert(store.reviews@.take(k + 1) =~= store.reviews@.take(k as int).push(
                    store.reviews@[k as int],
                ));
                lemma_reviews_of_push(
                    store.reviews@.take(k as int),
                    store.reviews@[k as int],
                    cid,
                );
            }
            if store.reviews[k].course_id == cid {
                let g = GetReview::new(store.reviews[k].duplicate(), user_id);
                review_list.push(g);
                proof {
                    assert(is_get_review_of(g, store.reviews@[k as int], user_id));
                    assert(is_review_list_of(
                        review_list@,
                        store.reviews@.take(k + 1),
                        cid,
                        user_id,
                    ));
                }
            } else {
                proof {
                    assert(is_review_list_of(
                        review_list@,
                        store.reviews@.take(k + 1),
                        cid,
                        user_id,
                    ));
                }
            }
            k = k + 1;
        }
        proof {
            assert(store.reviews@.take(store.reviews@.len() as int) =~= store.reviews@);
        }
        GetSingleCourse { course, review_list }
    }
}

impl Store {
    /// Loads one course with its reviews; an unknown identity is not found.
    pub fn get_course(&self, course_id: i32, user: UserInfo) -> (r: Result<
        GetSingleCourse,
        ApiError,
    >)
        requires
            self.wf(),
        ensures
            r is Ok <==> self.has_course(course_id),
            r is Err ==> r->Err_0.kind == ErrorKind::NotFound,
            r is Ok ==> self.stores_course(r->Ok_0.course) && r->Ok_0.course.id == course_id
                && is_review_list_of(r->Ok_0.review_list@, self.reviews@, course_id, user.id),
    {
        match self.find_course(course_id) {
            Some((i, j)) => {
                let c = self.groups[i].courses[j].duplicate();
                let sc = GetSingleCourse::load(c, self, user.id);
                proof {
                    assert(self.groups@[i as int].courses@[j as int] == sc.course);
                }
                Ok(sc)
            },
            None => Err(not_found("Course is not found.".to_owned())),
        }
    }

    /// Loads one course group with all its courses and their reviews; an
    /// unknown identity is not found.
    pub fn get_course_group(&self, group_id: i32, user: UserInfo) -> (r: Result<
        GetSingleCourseGroup,
        ApiError,
    >)
        requires
            self.wf(),
        ensures
            r is Ok <==> 1 <= group_id <= self.groups@.len(),
            r is Err ==> r->Err_0.kind == ErrorKind::NotFound,
            r is Ok ==> ({
                let g = self.groups@[group_id - 1];
                let gg = r->Ok_0;
                &&& gg.id == g.id
                &&& gg.name == g.name
                &&& gg.code == g.code
                &&& gg.department == g.department
                &&& gg.campus_name == g.campus_name
                &&& gg.course_list@.len() == g.courses@.len()
                &&& forall|j: int|
                    0 <= j < g.courses@.len() ==> is_single_course_of(
                        #[trigger] gg.course_list@[j],
                        g.courses@[j],
                        self.reviews@,
                        user.id,
                    )
            }),
    {
        if group_id < 1 || group_id as usize > self.groups.len() {
            return Err(not_found("Course group is not found.".to_owned()));
        }
        let gi = (group_id - 1) as usize;
        let mut course_list: Vec<GetSingleCourse> = Vec::new();
        let mut j: usize = 0;
        while j < self.groups[gi].courses.len()
            invariant
                self.wf(),
                gi < self.groups@.len(),
                j <= self.groups@[gi as int].courses@.len(),
                course_list@.len() == j,
                forall|m: int|
                    0 <= m < j ==> is_single_course_of(
                        #[trigger] course_list@[m],
                        self.groups@[gi as int].courses@[m],
                        self.reviews@,
                        user.id,
                    ),
            decreases self.groups@[gi as int].courses@.len() - j,
        {
            let c = self.groups[gi].courses[j].duplicate();
            course_list.push(GetSingleCourse::load(c, self, user.id));
            j = j + 1;
        }
        let g = &self.groups[gi];
        Ok(
            GetSingleCourseGroup {
                id: g.id,
                name: g.name.clone(),
                code: g.code.clone(),
                department: g.department.clone(),
                campus_name: g.campus_name.clone(),
                course_list,
            },
        )
    }

    /// Lists the requesting user's reviews, each joined with its course.
    pub fn get_reviews(&self, user: UserInfo) -> (r: Vec<GetMyReview>)
        requires
            self.wf(),
        ensures
            r@.len() == reviews_by(self.reviews@, user.id).len(),
            forall|m: int|
                0 <= m < r@.len() ==> my_review_entry(
                    #[trigger] r@[m],
                    reviews_by(self.reviews@, user.id)[m],
                    *self,
                    user.id,
                ),
    {
        let mut out: Vec<GetMyReview> = Vec::new();
        let mut k: usize = 0;
        while k < self.reviews.len()
            invariant
                self.wf(),
                k <= self.reviews@.len(),
                out@.len() == reviews_by(self.reviews@.take(k as int), user.id).len(),
                forall|m: int|
                    0 <= m < out@.len() ==> my_review_entry(
                        #[trigger] out@[m],
                        reviews_by(self.reviews@.take(k as int), user.id)[m],
                        *self,
                        user.id,
                    ),
            decreases self.reviews@.len() - k,
        {
            proof {
                assert(self.reviews@.take(k + 1) =~= self.reviews@.take(k as int).push(
                    self.reviews@[k as int],
                ));
                lemma_reviews_by_push(
                    self.reviews@.take(k as int),
                    self.reviews@[k as int],
                    user.id,
                );
            }
            if self.reviews[k].reviewer_id == user.id {
                match self.find_course(self.reviews[k].course_id) {
                    Some((a, b)) => {
                        let c = self.groups[a].courses[b].duplicate();
                        let g = GetMyReview::new(self.reviews[k].duplicate(), c, user.id);
                        out.push(g);
                        proof {
                            assert(is_get_my_review_of(g, self.reviews@[k as int], c, user.id));
                            assert(self.groups@[a as int].courses@[b as int] == c);
                            assert(my_review_entry(g, self.reviews@[k as int], *self, user.id));
                        }
                    },
                    None => {
                        proof {
                            assert(self.has_course(self.reviews@[k as int].course_id));
                        }
                    },
                }
            }
            k = k + 1;
        }
        proof {
            assert(self.reviews@.take(self.reviews@.len() as int) =~= self.reviews@);
        }
        out
    }

    /// Finds the index of the review with this identity.
    fn find_review_pos(&self, id: i32) -> (r: Option<usize>)
        ensures
            match r {
                Some(k) => k < self.reviews@.len() && self.reviews@[k as int].id == id,
                None => forall|k: int|
                    0 <= k < self.reviews@.len() ==> (#[trigger] self.reviews@[k]).id != id,
            },
    {
        let mut k: usize = 0;
        while k < self.reviews.len()
            invariant
                k <= self.reviews@.len(),
                forall|a: int| 0 <= a < k ==> (#[trigger] self.reviews@[a]).id != id,
            decreases self.reviews@.len() - k,
        {
            if self.reviews[k].id == id {
                return Some(k);
            }
            k = k + 1;
        }
        None
    }

    /// Samples one stored review with its course: a uniformly random draw
    /// over the identity space, retried a bounded number of times. With no
    /// reviews stored it fails as not found; identities are dense in this
    /// store, so a draw always lands and the retry budget is never spent.
    pub fn get_random_reviews(&self, user: UserInfo) -> (r: Result<GetMyReview, ApiError>)
        requires
            self.wf(),
        ensures
            r is Err <==> self.reviews@.len() == 0,
            r is Err ==> r->Err_0.kind == ErrorKind::NotFound,
            r is Ok ==> exists|k: int|
                0 <= k < self.reviews@.len() && my_review_entry(
                    r->Ok_0,
                    #[trigger] self.reviews@[k],
                    *self,
                    user.id,
                ),
            self.reviews@.len() == 1 ==> r is Ok && my_review_entry(
                r->Ok_0,
                self.reviews@[0],
                *self,
                user.id,
            ),
    {
        let count = self.review_count().cnt;
        if count == 0 {
            return Err(not_found("No review is found.".to_owned()));
        }
        let mut attempt: usize = 0;
        while attempt < 4
            invariant
                self.wf(),
                count == self.reviews@.len(),
                count > 0,
                attempt == 0,
            decreases 4 - attempt,
        {
            let id_u = random_in_range(1, count as u64);
            let id = id_u as i32;
            match self.find_review_pos(id) {
                Some(k) => {
                    match self.find_course(self.reviews[k].course_id) {
                        Some((a, b)) => {
                            let c = self.groups[a].courses[b].duplicate();
                            let g = GetMyReview::new(self.reviews[k].duplicate(), c, user.id);
                            proof {
                                assert(is_get_my_review_of(
                                    g,
                                    self.reviews@[k as int],
                                    c,
                                    user.id,
                                ));
                                assert(self.groups@[a as int].courses@[b as int] == c);
                                assert(my_review_entry(g, self.reviews@[k as int], *self, user.id));
                                if self.reviews@.len() == 1 {
                                    assert(self.reviews@[k as int].id == k + 1);
                                    assert(k == 0);
                                }
                            }
                            return Ok(g);
                        },
                        None => {
                            proof {
                                assert(self.has_course(self.reviews@[k as int].course_id));
                            }
                            return Err(
                                internal_server_error(
                                    "Unable to find the course of the review.".to_owned(),
                                ),
                            );
                        },
                    }
                },
                None => {
                    proof {
                        assert(self.reviews@[id - 1].id == id);
                    }
                    return Err(
                        internal_server_error(
                            "Unable to fetch a random review. Retry later.".to_owned(),
                        ),
                    );
                },
            }
        }
        Err(internal_server_error("Unable to fetch a random review. Retry later.".to_owned()))
    }
}

} // verus!
