//! The group-listing cache: one process-wide value holding the serialized
//! listing snapshot and its fingerprint, filled lazily on read-miss,
//! cleared by an explicit invalidation signal, and never partially updated.

use vstd::prelude::*;

verus! {

use crate::fingerprint::{fingerprint_of, fingerprint_spec};
use crate::listing::{listing_json, render_listing};
use crate::model::{CourseGroup, HashMessage};

/// One installed cache value: the serialized snapshot and its fingerprint,
/// always replaced together as a unit.
#[derive(Debug, Clone)]
pub struct CacheEntry {
    pub payload: String,
    pub fingerprint: String,
}

/// The group-listing cache: empty at startup, populated on first read or
/// explicit rebuild, invalidated by an explicit signal.
#[derive(Debug, Clone)]
pub struct ListingCache {
    pub entry: Option<CacheEntry>,
}

impl ListingCache {
    /// Whether a valid cache value is installed.
    pub open spec fn valid(self) -> bool {
        self.entry is Some
    }

    /// The cached serialized snapshot.
    pub open spec fn payload_view(self) -> Seq<char>
        recommends
            self.valid(),
    {
        self.entry->Some_0.payload@
    }

    /// The cached fingerprint.
    pub open spec fn fingerprint_view(self) -> Seq<char>
        recommends
            self.valid(),
    {
        self.entry->Some_0.fingerprint@
    }

    /// Cache well-formedness: an installed fingerprint is exactly the
    /// fingerprint of the installed payload, so the two reads always serve
    /// the same underlying snapshot.
    pub open spec fn wf(self) -> bool {
        self.valid() ==> self.fingerprint_view() == fingerprint_spec(self.payload_view())
    }

    /// An empty cache, as at process start.
    pub fn new() -> (c: ListingCache)
        ensures
            !c.valid(),
            c.wf(),
    {
        ListingCache { entry: None }
    }

    /// Clears payload and fingerprint together; the next read rebuilds.
    /// Never fails and performs no fetch.
    pub fn invalidate(&mut self)
        ensures
            invalidate_step(*old(self), *final(self)),
    {
        self.entry = None;
    }

    /// Rebuilds the cache from freshly fetched rows: serializes them to the
    /// canonical form, fingerprints that form, and installs both as a unit,
    /// replacing any prior value.
    pub fn rebuild(&mut self, groups: &Vec<CourseGroup>)
        ensures
            final(self).valid(),
            final(self).wf(),
            final(self).payload_view() == listing_json(groups@),
    {
        let payload = render_listing(groups);
        let fingerprint = fingerprint_of(payload.as_str());
        self.entry = Some(CacheEntry { payload, fingerprint });
    }

    /// Returns the cached snapshot with its fingerprint, first rebuilding
    /// from the given rows if no valid value is installed (read-miss fill).
    pub fn get_listing(&mut self, groups: &Vec<CourseGroup>) -> (r: (String, String))
        requires
            old(self).wf(),
        ensures
            listing_read(*old(self), *final(self), groups@, r.0@, r.1@),
    {
        if self.entry.is_none() {
            self.rebuild(groups);
        }
        let e = self.entry.as_ref().unwrap();
        (e.payload.clone(), e.fingerprint.clone())
    }

    /// Returns only the cached fingerprint, sharing the same underlying
    /// value as `get_listing`, rebuilding first on a read-miss.
    pub fn get_fingerprint(&mut self, groups: &Vec<CourseGroup>) -> (r: String)
        requires
            old(self).wf(),
        ensures
            fingerprint_read(*old(self), *final(self), groups@, r@),
    {
        if self.entry.is_none() {
            self.rebuild(groups);
        }
        let e = self.entry.as_ref().unwrap();
        e.fingerprint.clone()
    }
}

/// The invalidation transition: the cache ends empty and well-formed,
/// whatever it held before.
pub open spec fn invalidate_step(pre: ListingCache, post: ListingCache) -> bool {
    &&& !post.valid()
    &&& post.wf()
}

/// The read transition of `get_listing`: a valid cache is served unchanged;
/// an empty one is filled from the rows fetched at the time of this read;
/// what is returned is exactly the installed pair.
pub open spec fn listing_read(
    pre: ListingCache,
    post: ListingCache,
    groups: Seq<CourseGroup>,
    payload: Seq<char>,
    fp: Seq<char>,
) -> bool {
    &&& post.valid()
    &&& post.wf()
    &&& (pre.valid() ==> post == pre)
    &&& (!pre.valid() ==> post.payload_view() == listing_json(groups))
    &&& payload == post.payload_view()
    &&& fp == post.fingerprint_view()
}

/// The read transition of `get_fingerprint`: the same as `listing_read`,
/// returning only the fingerprint half of the installed pair.
pub open spec fn fingerprint_read(
    pre: ListingCache,
    post: ListingCache,
    groups: Seq<CourseGroup>,
    fp: Seq<char>,
) -> bool {
    &&& post.valid()
    &&& post.wf()
    &&& (pre.valid() ==> post == pre)
    &&& (!pre.valid() ==> post.payload_view() == listing_json(groups))
    &&& fp == post.fingerprint_view()
}

/// Fingerprint stability: across any two fingerprint reads with no
/// invalidation in between, the same fingerprint is returned, whatever the
/// store looks like at the second read.
pub proof fn lemma_fingerprint_stable(
    c0: ListingCache,
    c1: ListingCache,
    c2: ListingCache,
    gs1: Seq<CourseGroup>,
    gs2: Seq<CourseGroup>,
    r1: Seq<char>,
    r2: Seq<char>,
)
    requires
        fingerprint_read(c0, c1, gs1, r1),
        fingerprint_read(c1, c2, gs2, r2),
    ensures
        r2 == r1,
        c2 == c1,
{
}

/// Rebuild correctness: a listing read right after an invalidation returns
/// the serialization of the rows fetched at the time of that read, with its
/// fingerprint — never the previously cached value's state.
pub proof fn lemma_rebuild_fresh(
    c0: ListingCache,
    c1: ListingCache,
    c2: ListingCache,
    gs: Seq<CourseGroup>,
    payload: Seq<char>,
    fp: Seq<char>,
)
    requires
        invalidate_step(c0, c1),
        listing_read(c1, c2, gs, payload, fp),
    ensures
        payload == listing_json(gs),
        fp == fingerprint_spec(listing_json(gs)),
{
}

/// The `{hash}` body for the fingerprint endpoint, served from the same
/// cached value as the listing itself.
pub fn get_course_groups_hash(cache: &mut ListingCache, groups: &Vec<CourseGroup>) -> (m:
    HashMessage)
    requires
        old(cache).wf(),
    ensures
        fingerprint_read(*old(cache), *final(cache), groups@, m.hash@),
{
    let hash = cache.get_fingerprint(groups);
    HashMessage { hash }
}

} // verus!
