//! The vote ledger: mutual-exclusion toggle semantics over a review's two
//! voter sets.

use vstd::prelude::*;

verus! {

use crate::review::Review;

/// Finds the position of a voter identity in a voter list.
fn find_voter_pos(v: &Vec<i32>, x: i32) -> (r: Option<usize>)
    ensures
        match r {
            Some(i) => i < v@.len() && v@[i as int] == x,
            None => !v@.contains(x),
        },
{
    let mut i: usize = 0;
    while i < v.len()
        invariant
            i <= v@.len(),
            forall|j: int| 0 <= j < i ==> v@[j] != x,
        decreases v@.len() - i,
    {
        if v[i] == x {
            return Some(i);
        }
        i = i + 1;
    }
    None
}

/// Removing a position from a duplicate-free list by swapping in the last
/// element removes exactly that one value and keeps the rest.
proof fn lemma_removed_membership(pre: Seq<i32>, post: Seq<i32>, p: int)
    requires
        0 <= p < pre.len(),
        pre.no_duplicates(),
        post == pre.update(p, pre.last()).drop_last(),
    ensures
        post.no_duplicates(),
        post.len() == pre.len() - 1,
        forall|x: i32|
            #![trigger post.contains(x)]
            post.contains(x) <==> (pre.contains(x) && x != pre[p]),
{
    let n = pre.len() as int;
    assert forall|i: int, j: int| 0 <= i < j < post.len() implies post[i] != post[j] by {
        assert(post[i] == (if i == p { pre[n - 1] } else { pre[i] }));
        assert(post[j] == (if j == p { pre[n - 1] } else { pre[j] }));
    }
    assert forall|x: i32| post.contains(x) implies (pre.contains(x) && x != pre[p]) by {
        let i = choose|i: int| 0 <= i < post.len() && post[i] == x;
        if i == p {
            assert(pre[n - 1] == x);
            assert(p < n - 1);
        } else {
            assert(pre[i] == x);
        }
    }
    assert forall|x: i32| pre.contains(x) && x != pre[p] implies post.contains(x) by {
        let j = choose|j: int| 0 <= j < n && pre[j] == x;
        if j < n - 1 {
            assert(post[j] == x);
        } else {
            assert(p < n - 1);
            assert(post[p] == x);
        }
    }
}

/// Appending a fresh value to a duplicate-free list keeps it duplicate-free
/// and adds exactly that one value.
proof fn lemma_pushed_membership(pre: Seq<i32>, post: Seq<i32>, v: i32)
    requires
        pre.no_duplicates(),
        !pre.contains(v),
        post == pre.push(v),
    ensures
        post.no_duplicates(),
        post.len() == pre.len() + 1,
        forall|x: i32| #![trigger post.contains(x)] post.contains(x) <==> (pre.contains(x) || x == v),
{
    assert forall|i: int, j: int| 0 <= i < j < post.len() implies post[i] != post[j] by {
        if j == pre.len() {
            assert(post[i] == pre[i]);
            assert(pre.contains(pre[i]));
        } else {
            assert(post[i] == pre[i]);
            assert(post[j] == pre[j]);
        }
    }
    assert forall|x: i32| post.contains(x) implies (pre.contains(x) || x == v) by {
        let i = choose|i: int| 0 <= i < post.len() && post[i] == x;
        if i < pre.len() {
            assert(pre[i] == x);
        }
    }
    assert forall|x: i32| pre.contains(x) || x == v implies post.contains(x) by {
        if pre.contains(x) {
            let j = choose|j: int| 0 <= j < pre.len() && pre[j] == x;
            assert(post[j] == x);
        } else {
            assert(post[pre.len() as int] == x);
        }
    }
}

/// The vote-toggle transition: everything but the two voter lists is kept;
/// the toggled side loses the voter if it held them (un-vote), else gains
/// them while the opposite side loses them (vote, clearing a switched
/// vote); and the ledger stays well-formed.
pub open spec fn toggle_step(pre: Review, post: Review, voter: i32, upvote: bool) -> bool {
    &&& post.votes_wf()
    &&& post.id == pre.id
    &&& post.course_id == pre.course_id
    &&& post.title == pre.title
    &&& post.content == pre.content
    &&& post.reviewer_id == pre.reviewer_id
    &&& post.time_created == pre.time_created
    &&& post.time_updated == pre.time_updated
    &&& post.rank == pre.rank
    &&& post.history == pre.history
    &&& (if upvote {
        if pre.upvoters@.contains(voter) {
            &&& post.up_set() == pre.up_set().remove(voter)
            &&& forall|x: i32|
                #![trigger post.upvoters@.contains(x)]
                post.upvoters@.contains(x) <==> (pre.upvoters@.contains(x) && x != voter)
            &&& post.upvoters@.len() == pre.upvoters@.len() - 1
            &&& post.downvoters == pre.downvoters
        } else {
            &&& post.up_set() == pre.up_set().insert(voter)
            &&& forall|x: i32|
                #![trigger post.upvoters@.contains(x)]
                post.upvoters@.contains(x) <==> (pre.upvoters@.contains(x) || x == voter)
            &&& post.upvoters@.len() == pre.upvoters@.len() + 1
            &&& post.down_set() == pre.down_set().remove(voter)
            &&& forall|x: i32|
                #![trigger post.downvoters@.contains(x)]
                post.downvoters@.contains(x) <==> (pre.downvoters@.contains(x) && x != voter)
            &&& post.downvoters@.len() == (if pre.downvoters@.contains(voter) {
                pre.downvoters@.len() - 1
            } else {
                pre.downvoters@.len() as int
            })
        }
    } else {
        if pre.downvoters@.contains(voter) {
            &&& post.down_set() == pre.down_set().remove(voter)
            &&& forall|x: i32|
                #![trigger post.downvoters@.contains(x)]
                post.downvoters@.contains(x) <==> (pre.downvoters@.contains(x) && x != voter)
            &&& post.downvoters@.len() == pre.downvoters@.len() - 1
            &&& post.upvoters == pre.upvoters
        } else {
            &&& post.down_set() == pre.down_set().insert(voter)
            &&& forall|x: i32|
                #![trigger post.downvoters@.contains(x)]
                post.downvoters@.contains(x) <==> (pre.downvoters@.contains(x) || x == voter)
            &&& post.downvoters@.len() == pre.downvoters@.len() + 1
            &&& post.up_set() == pre.up_set().remove(voter)
            &&& forall|x: i32|
                #![trigger post.upvoters@.contains(x)]
                post.upvoters@.contains(x) <==> (pre.upvoters@.contains(x) && x != voter)
            &&& post.upvoters@.len() == (if pre.upvoters@.contains(voter) {
                pre.upvoters@.len() - 1
            } else {
                pre.upvoters@.len() as int
            })
        }
    })
}

impl Review {
    /// Toggles one voter's vote in the given direction, with set semantics:
    /// a repeated vote in the same direction un-votes, a vote in the other
    /// direction switches sides, and no voter ever ends up on both sides.
    pub fn toggle_vote(&mut self, voter: i32, upvote: bool)
        requires
            old(self).votes_wf(),
        ensures
            toggle_step(*old(self), *final(self), voter, upvote),
    {
        if upvote {
            match find_voter_pos(&self.upvoters, voter) {
                Some(p) => {
                    self.upvoters.swap_remove(p);
                    proof {
                        lemma_removed_membership(old(self).upvoters@, self.upvoters@, p as int);
                        assert(self.up_set() =~= old(self).up_set().remove(voter));
                    }
                },
                None => {
                    self.upvoters.push(voter);
                    match find_voter_pos(&self.downvoters, voter) {
                        Some(dp) => {
                            self.downvoters.swap_remove(dp);
                            proof {
                                lemma_removed_membership(
                                    old(self).downvoters@,
                                    self.downvoters@,
                                    dp as int,
                                );
                                assert(self.down_set() =~= old(self).down_set().remove(voter));
                            }
                        },
                        None => {
                            proof {
                                assert(self.down_set() =~= old(self).down_set().remove(voter));
                            }
                        },
                    }
                    proof {
                        lemma_pushed_membership(old(self).upvoters@, self.upvoters@, voter);
                        assert(self.up_set() =~= old(self).up_set().insert(voter));
                    }
                },
            }
        } else {
            match find_voter_pos(&self.downvoters, voter) {
                Some(p) => {
                    self.downvoters.swap_remove(p);
                    proof {
                        lemma_removed_membership(old(self).downvoters@, self.downvoters@, p as int);
                        assert(self.down_set() =~= old(self).down_set().remove(voter));
                    }
                },
                None => {
                    self.downvoters.push(voter);
                    match find_voter_pos(&self.upvoters, voter) {
                        Some(up) => {
                            self.upvoters.swap_remove(up);
                            proof {
                                lemma_removed_membership(
                                    old(self).upvoters@,
                                    self.upvoters@,
                                    up as int,
                                );
                                assert(self.up_set() =~= old(self).up_set().remove(voter));
                            }
                        },
                        None => {
                            proof {
                                assert(self.up_set() =~= old(self).up_set().remove(voter));
                            }
                        },
                    }
                    proof {
                        lemma_pushed_membership(old(self).downvoters@, self.downvoters@, voter);
                        assert(self.down_set() =~= old(self).down_set().insert(voter));
                    }
                },
            }
        }
    }
}

/// Vote toggle exclusivity: after any toggle the ledger is well-formed, so
/// no voter is ever on both sides of one review at the same time.
pub proof fn lemma_toggle_vote_exclusive(pre: Review, post: Review, voter: i32, upvote: bool)
    requires
        toggle_step(pre, post, voter, upvote),
    ensures
        post.votes_wf(),
        forall|v: i32| !(post.upvoters@.contains(v) && post.downvoters@.contains(v)),
{
}

/// Vote toggle idempotence: toggling the same direction twice in
/// succession, starting from a state where the voter has not voted that
/// direction, returns the voter to the un-voted state on both sides.
pub proof fn lemma_toggle_vote_idempotent(r0: Review, r1: Review, r2: Review, voter: i32, upvote: bool)
    requires
        r0.votes_wf(),
        upvote ==> !r0.upvoters@.contains(voter),
        !upvote ==> !r0.downvoters@.contains(voter),
        toggle_step(r0, r1, voter, upvote),
        toggle_step(r1, r2, voter, upvote),
    ensures
        !r2.upvoters@.contains(voter),
        !r2.downvoters@.contains(voter),
{
    if upvote {
        assert(r1.up_set().contains(voter));
        assert(r1.upvoters@.contains(voter));
        assert(r2.up_set() == r1.up_set().remove(voter));
        assert(!r2.up_set().contains(voter));
        assert(!r2.upvoters@.contains(voter));
        assert(!r1.down_set().contains(voter));
        assert(!r1.downvoters@.contains(voter));
        assert(r2.downvoters@ == r1.downvoters@);
        assert(!r2.downvoters@.contains(voter));
    } else {
        assert(r1.down_set().contains(voter));
        assert(r1.downvoters@.contains(voter));
        assert(r2.down_set() == r1.down_set().remove(voter));
        assert(!r2.down_set().contains(voter));
        assert(!r2.downvoters@.contains(voter));
        assert(!r1.up_set().contains(voter));
        assert(!r1.upvoters@.contains(voter));
        assert(r2.upvoters@ == r1.upvoters@);
        assert(!r2.upvoters@.contains(voter));
    }
}

} // verus!
