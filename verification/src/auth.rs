//! The credential cache in front of the external authentication service: a
//! bounded map from bearer credential to verified identity, so that a
//! request burst does not re-validate the same credential on every request.

use vstd::prelude::*;

verus! {

use crate::model::UserInfo;

/// A bounded credential cache. Entries are kept in insertion order; when
/// the cache is full, the oldest entry makes room for a new one.
#[derive(Debug, Clone)]
pub struct AuthCache {
    pub entries: Vec<(String, UserInfo)>,
    pub capacity: usize,
}

impl AuthCache {
    /// Cache well-formedness: a positive capacity bound that the cache
    /// never exceeds, with each credential cached at most once.
    pub open spec fn wf(self) -> bool {
        &&& self.capacity >= 1
        &&& self.entries@.len() <= self.capacity
        &&& forall|i: int, j: int|
            0 <= i < j < self.entries@.len() ==> (#[trigger] self.entries@[i]).0@ != (
            #[trigger] self.entries@[j]).0@
    }

    /// Whether a credential is cached.
    pub open spec fn has_key(self, k: Seq<char>) -> bool {
        exists|i: int| 0 <= i < self.entries@.len() && (#[trigger] self.entries@[i]).0@ == k
    }

    /// An empty cache with the given capacity bound.
    pub fn new(capacity: usize) -> (c: AuthCache)
        requires
            capacity >= 1,
        ensures
            c.wf(),
            c.entries@.len() == 0,
            c.capacity == capacity,
    {
        AuthCache { entries: Vec::new(), capacity }
    }

    /// Finds the position of a cached credential.
    fn find_key_pos(&self, k: &String) -> (r: Option<usize>)
        ensures
            match r {
                Some(i) => i < self.entries@.len() && self.entries@[i as int].0@ == k@,
                None => !self.has_key(k@),
            },
    {
        let mut i: usize = 0;
        while i < self.entries.len()
            invariant
                i <= self.entries@.len(),
                forall|j: int| 0 <= j < i ==> (#[trigger] self.entries@[j]).0@ != k@,
            decreases self.entries@.len() - i,
        {
            if self.entries[i].0 == *k {
                return Some(i);
            }
            i = i + 1;
        }
        None
    }

    /// Returns the cached identity for a credential, if present.
    pub fn get(&self, header: &String) -> (r: Option<UserInfo>)
        ensures
            match r {
                Some(u) => exists|i: int|
                    0 <= i < self.entries@.len() && (#[trigger] self.entries@[i]).0@ == header@
                        && self.entries@[i].1 == u,
                None => !self.has_key(header@),
            },
    {
        match self.find_key_pos(header) {
            Some(i) => Some(self.entries[i].1),
            None => None,
        }
    }

    /// Caches the identity verified for a credential: an already-cached
    /// credential is updated in place; otherwise the entry is appended,
    /// evicting the oldest entry when the cache is full.
    pub fn insert(&mut self, header: String, info: UserInfo)
        requires
            old(self).wf(),
        ensures
            final(self).wf(),
            final(self).capacity == old(self).capacity,
            final(self).has_key(header@),
            old(self).has_key(header@) ==> exists|i: int|
                0 <= i < old(self).entries@.len() && (#[trigger] old(self).entries@[i]).0@
                    == header@ && final(self).entries@ == old(self).entries@.update(
                    i,
                    (header, info),
                ),
            !old(self).has_key(header@) && old(self).entries@.len() < old(self).capacity
                ==> final(self).entries@ == old(self).entries@.push((header, info)),
            !old(self).has_key(header@) && old(self).entries@.len() == old(self).capacity
                ==> final(self).entries@ == old(self).entries@.drop_first().push((header, info)),
    {
        match self.find_key_pos(&header) {
            Some(i) => {
                self.entries.remove(i);
                self.entries.insert(i, (header, info));
                proof {
                    assert(self.entries@ =~= old(self).entries@.update(
                        i as int,
                        self.entries@[i as int],
                    ));
                    assert((#[trigger] self.entries@[i as int]).0@ == header@);
                }
            },
            None => {
                if self.entries.len() == self.capacity {
                    self.entries.remove(0);
                    self.entries.push((header, info));
                    proof {
                        assert(self.entries@ =~= old(self).entries@.drop_first().push(
                            self.entries@.last(),
                        ));
                        assert((#[trigger] self.entries@[self.entries@.len() - 1]).0@ == header@);
                    }
                } else {
                    self.entries.push((header, info));
                    proof {
                        assert((#[trigger] self.entries@[self.entries@.len() - 1]).0@ == header@);
                    }
                }
            },
        }
    }
}

} // verus!
