//! One tier of the cache pipeline: the in-process coordination state of
//! a content-addressed blob store.
//!
//! A tier tracks two things per digest: the blob it has committed, and
//! whether a producer for that digest is currently running.  The
//! committed contents change only all at once — a blob is either absent
//! or present whole — which is the model the on-disk realization must
//! honour by writing each blob to a temporary path and atomically
//! renaming it into place.  The in-flight marks give the single-flight
//! guarantee: concurrent resolutions of one key share one producing
//! computation.

use vstd::prelude::*;

use crate::cache_key::CacheKey;

verus! {

/// Copies a blob byte for byte.
pub fn clone_blob(v: &Vec<u8>) -> (r: Vec<u8>)
    ensures
        r@ == v@,
{
    let mut r: Vec<u8> = Vec::new();
    let mut i: usize = 0;
    while i < v.len()
        invariant
            i <= v@.len(),
            r@ == v@.subrange(0, i as int),
        decreases v@.len() - i,
    {
        r.push(v[i]);
        proof {
            assert(r@ =~= v@.subrange(0, i + 1 as int));
        }
        i += 1;
    }
    proof {
        assert(r@ =~= v@);
    }
    r
}

/// The committed blob for a digest among `entries`, if any; the latest
/// commitment wins.
pub open spec fn blob_of(entries: Seq<(CacheKey, Vec<u8>)>, d: Seq<u8>) -> Option<Seq<u8>>
    decreases entries.len(),
{
    if entries.len() == 0 {
        Option::None
    } else if entries.last().0.hash@ == d {
        Option::Some(entries.last().1@)
    } else {
        blob_of(entries.drop_last(), d)
    }
}

/// Whether some key among `producing` carries digest `d`.
pub open spec fn flight_has(producing: Seq<CacheKey>, d: Seq<u8>) -> bool {
    exists|i: int| 0 <= i < producing.len() && producing[i].hash@ == d
}

/// What a resolution attempt must do next.
pub enum ResolveAction {
    /// The tier already holds the blob: use it as is.
    Hit(Vec<u8>),
    /// Another resolution of the same key is already producing: wait for
    /// its result and reuse it instead of producing again.
    Wait,
    /// Nobody holds or produces this key yet: the caller must run the
    /// producer and then report `complete` or `fail`.
    Produce,
}

/// The in-process state of one cache tier.
pub struct CacheTier {
    /// The version under which this tier derives its blob paths.
    pub version: u32,
    /// Whether a backing store is configured.  A disabled tier holds
    /// nothing: every lookup misses and nothing is ever persisted.
    pub enabled: bool,
    /// The committed blobs, each keyed by the cache key it was stored
    /// under.
    pub entries: Vec<(CacheKey, Vec<u8>)>,
    /// The keys whose producer is currently running.
    pub producing: Vec<CacheKey>,
}

impl CacheTier {
    /// The tier's invariant: at most one in-flight producer per digest,
    /// and a disabled tier holds no blobs.
    pub open spec fn wf(self) -> bool {
        &&& forall|i: int, j: int|
            0 <= i < j < self.producing@.len() ==> self.producing@[i].hash@
                != self.producing@[j].hash@
        &&& !self.enabled ==> self.entries@.len() == 0
    }

    /// Whether this tier has committed a blob for digest `d`.
    pub open spec fn is_stored(self, d: Seq<u8>) -> bool {
        blob_of(self.entries@, d) is Some
    }

    /// The committed blob for digest `d`.
    pub open spec fn stored_blob(self, d: Seq<u8>) -> Seq<u8> {
        blob_of(self.entries@, d)->Some_0
    }

    /// Whether a producer for digest `d` is currently running.
    pub open spec fn is_producing(self, d: Seq<u8>) -> bool {
        flight_has(self.producing@, d)
    }

    /// Whether a fresh resolution of `key` would have to run the
    /// producer: nothing committed and nobody producing.
    pub open spec fn must_produce(self, key: CacheKey) -> bool {
        !self.is_stored(key.hash@) && !self.is_producing(key.hash@)
    }

    /// A fresh tier: nothing committed, nothing in flight.
    pub fn new(version: u32, enabled: bool) -> (t: CacheTier)
        ensures
            t.wf(),
            t.version == version,
            t.enabled == enabled,
            forall|d: Seq<u8>| !(#[trigger] t.is_stored(d)),
            forall|d: Seq<u8>| !(#[trigger] t.is_producing(d)),
    {
        CacheTier { version, enabled, entries: Vec::new(), producing: Vec::new() }
    }

    /// Looks the key up in the committed contents: the blob if the tier
    /// holds one, `None` on an ordinary miss.  Changes nothing.
    pub fn lookup(&self, key: &CacheKey) -> (r: Option<Vec<u8>>)
        ensures
            match r {
                Option::Some(b) => self.is_stored(key.hash@) && b@ == self.stored_blob(key.hash@),
                Option::None => !self.is_stored(key.hash@),
            },
    {
        let ghost d = key.hash@;
        let mut i: usize = self.entries.len();
        proof {
            assert(self.entries@.subrange(0, i as int) =~= self.entries@);
        }
        while i > 0
            invariant
                i <= self.entries@.len(),
                blob_of(self.entries@, d) == blob_of(self.entries@.subrange(0, i as int), d),
                d == key.hash@,
            decreases i,
        {
            i = i - 1;
            let hit = *key == self.entries[i].0;
            proof {
                let pre = self.entries@.subrange(0, i + 1);
                assert(pre.last() == self.entries@[i as int]);
                assert(pre.drop_last() =~= self.entries@.subrange(0, i as int));
            }
            if hit {
                let b = clone_blob(&self.entries[i].1);
                return Some(b);
            }
        }
        proof {
            assert(self.entries@.subrange(0, 0) =~= Seq::<(CacheKey, Vec<u8>)>::empty());
        }
        None
    }

    /// Commits a blob for `key`.  Commitment is all-or-nothing: from one
    /// call to the next the tier goes from not holding the key at all to
    /// holding the complete blob, never anything in between.  The
    /// on-disk realization must give the same guarantee by writing to a
    /// temporary path and atomically renaming it into place.
    pub fn store(&mut self, key: &CacheKey, blob: Vec<u8>)
        requires
            old(self).wf(),
            old(self).enabled,
        ensures
            final(self).wf(),
            final(self).version == old(self).version,
            final(self).enabled == old(self).enabled,
            final(self).producing@ == old(self).producing@,
            final(self).is_stored(key.hash@),
            final(self).stored_blob(key.hash@) == blob@,
            forall|d: Seq<u8>|
                d != key.hash@ ==> #[trigger] blob_of(final(self).entries@, d) == blob_of(
                    old(self).entries@,
                    d,
                ),
    {
        let ghost b = blob@;
        self.entries.push((key.clone(), blob));
        proof {
            assert(self.entries@.last() == (self.entries@.last().0, self.entries@.last().1));
            assert(self.entries@.last().0.hash@ == key.hash@);
            assert(self.entries@.last().1@ == b);
            assert forall|d: Seq<u8>| d != key.hash@ implies #[trigger] blob_of(
                self.entries@,
                d,
            ) == blob_of(old(self).entries@, d) by {
                assert(self.entries@.drop_last() =~= old(self).entries@);
            }
        }
    }

    /// One resolution attempt for `key`: a hit returns the committed
    /// blob; a miss with a producer already in flight says to wait for
    /// it; a miss with nobody producing marks the key in flight and says
    /// to produce.  Exactly the attempt that is told to produce must
    /// later report `complete` or `fail`.
    pub fn begin_resolve(&mut self, key: &CacheKey) -> (a: ResolveAction)
        requires
            old(self).wf(),
        ensures
            final(self).wf(),
            final(self).version == old(self).version,
            final(self).enabled == old(self).enabled,
            final(self).entries@ == old(self).entries@,
            match a {
                ResolveAction::Hit(b) => {
                    &&& old(self).is_stored(key.hash@)
                    &&& b@ == old(self).stored_blob(key.hash@)
                    &&& final(self).producing@ == old(self).producing@
                },
                ResolveAction::Wait => {
                    &&& !old(self).is_stored(key.hash@)
                    &&& old(self).is_producing(key.hash@)
                    &&& final(self).producing@ == old(self).producing@
                },
                ResolveAction::Produce => {
                    &&& old(self).must_produce(*key)
                    &&& final(self).producing@ == old(self).producing@.push(*key)
                },
            },
    {
        if let Some(b) = self.lookup(key) {
            return ResolveAction::Hit(b);
        }
        let mut i: usize = 0;
        while i < self.producing.len()
            invariant
                i <= self.producing@.len(),
                forall|j: int| 0 <= j < i ==> self.producing@[j].hash@ != key.hash@,
                *self == *old(self),
                self.wf(),
                !self.is_stored(key.hash@),
            decreases self.producing@.len() - i,
        {
            if *key == self.producing[i] {
                return ResolveAction::Wait;
            }
            i += 1;
        }
        self.producing.push(key.clone());
        ResolveAction::Produce
    }

    /// Finds the in-flight mark for a digest.
    fn flight_index(&self, key: &CacheKey) -> (r: Option<usize>)
        ensures
            match r {
                Option::Some(i) => i < self.producing@.len() && self.producing@[i as int].hash@
                    == key.hash@,
                Option::None => !self.is_producing(key.hash@),
            },
    {
        let mut i: usize = 0;
        while i < self.producing.len()
            invariant
                i <= self.producing@.len(),
                forall|j: int| 0 <= j < i ==> self.producing@[j].hash@ != key.hash@,
            decreases self.producing@.len() - i,
        {
            if *key == self.producing[i] {
                return Some(i);
            }
            i += 1;
        }
        None
    }

    /// Clears the in-flight mark for `key`'s digest, leaving every other
    /// digest's mark alone.
    fn clear_flight(&mut self, key: &CacheKey)
        requires
            old(self).wf(),
        ensures
            final(self).wf(),
            final(self).version == old(self).version,
            final(self).enabled == old(self).enabled,
            final(self).entries@ == old(self).entries@,
            !final(self).is_producing(key.hash@),
            forall|d: Seq<u8>|
                d != key.hash@ ==> (#[trigger] final(self).is_producing(d) == old(
                    self,
                ).is_producing(d)),
    {
        let found = self.flight_index(key);
        if let Some(i) = found {
            let _ = self.producing.remove(i);
            proof {
                let oldp = old(self).producing@;
                let newp = self.producing@;
                assert forall|d: Seq<u8>| d != key.hash@ implies (#[trigger] self.is_producing(d)
                    == old(self).is_producing(d)) by {
                    if old(self).is_producing(d) {
                        let j = choose|j: int| 0 <= j < oldp.len() && oldp[j].hash@ == d;
                        if j < i {
                            assert(newp[j].hash@ == d);
                        } else {
                            assert(newp[j - 1].hash@ == d);
                        }
                    }
                    if self.is_producing(d) {
                        let j = choose|j: int| 0 <= j < newp.len() && newp[j].hash@ == d;
                        if j < i {
                            assert(oldp[j].hash@ == d);
                        } else {
                            assert(oldp[j + 1].hash@ == d);
                        }
                    }
                }
                assert forall|j: int| 0 <= j < newp.len() implies newp[j].hash@
                    != key.hash@ by {
                    if j < i {
                        assert(newp[j] == oldp[j]);
                    } else {
                        assert(newp[j] == oldp[j + 1]);
                    }
                }
            }
        }
    }

    /// The producer for `key` finished with `blob`: commit the blob
    /// (unless the tier is disabled, which persists nothing) and release
    /// the in-flight mark so that later resolutions hit.
    pub fn complete(&mut self, key: &CacheKey, blob: Vec<u8>)
        requires
            old(self).wf(),
        ensures
            final(self).wf(),
            final(self).version == old(self).version,
            final(self).enabled == old(self).enabled,
            !final(self).is_producing(key.hash@),
            forall|d: Seq<u8>|
                d != key.hash@ ==> (#[trigger] final(self).is_producing(d) == old(
                    self,
                ).is_producing(d)),
            old(self).enabled ==> final(self).is_stored(key.hash@) && final(self).stored_blob(
                key.hash@,
            ) == blob@,
            !old(self).enabled ==> final(self).entries@ == old(self).entries@,
            forall|d: Seq<u8>|
                d != key.hash@ ==> #[trigger] blob_of(final(self).entries@, d) == blob_of(
                    old(self).entries@,
                    d,
                ),
    {
        if self.enabled {
            self.store(key, blob);
        }
        self.clear_flight(key);
    }

    /// The producer for `key` failed: release the in-flight mark without
    /// committing anything, so that a later resolution may try again.
    pub fn fail(&mut self, key: &CacheKey)
        requires
            old(self).wf(),
        ensures
            final(self).wf(),
            final(self).version == old(self).version,
            final(self).enabled == old(self).enabled,
            final(self).entries@ == old(self).entries@,
            !final(self).is_producing(key.hash@),
            forall|d: Seq<u8>|
                d != key.hash@ ==> (#[trigger] final(self).is_producing(d) == old(
                    self,
                ).is_producing(d)),
    {
        self.clear_flight(key);
    }
}

/// Law: single flight.  Once one resolution attempt has been told to
/// produce a key, the key is in flight, and any further attempt for a
/// key with the same digest is not told to produce — it waits for or
/// reuses the one running producer.  The mark outlives operations on
/// other digests (`complete` and `fail` keep every other digest's mark)
/// and is released only by `complete` or `fail` of this digest.
pub proof fn lemma_single_flight(pre: CacheTier, post: CacheTier, k1: CacheKey, k2: CacheKey)
    requires
        pre.must_produce(k1),
        post.producing@ == pre.producing@.push(k1),
        post.entries@ == pre.entries@,
        k2.hash@ == k1.hash@,
    ensures
        post.is_producing(k2.hash@),
        !post.must_produce(k2),
{
    assert(post.producing@.last() == k1);
}

/// The keys in flight after a sequence of resolution attempts begins,
/// starting from `producing`, while the committed digests are `stored`.
/// This is exactly the evolution `begin_resolve` allows while nothing
/// completes or fails: an attempt marks its key in flight when its
/// digest is neither committed nor already in flight (it is told to
/// produce), and otherwise changes nothing (it hits or waits).
pub open spec fn flight_after_begins(
    producing: Seq<CacheKey>,
    stored: Set<Seq<u8>>,
    attempts: Seq<CacheKey>,
) -> Seq<CacheKey>
    decreases attempts.len(),
{
    if attempts.len() == 0 {
        producing
    } else {
        let rest = flight_after_begins(producing, stored, attempts.drop_last());
        let k = attempts.last();
        if !stored.contains(k.hash@) && !flight_has(rest, k.hash@) {
            rest.push(k)
        } else {
            rest
        }
    }
}

/// Law: single flight over a whole trace.  While a digest is in flight,
/// any number of further resolution attempts may begin, for keys with
/// this digest and others, in any order: the digest stays in flight at
/// every intermediate state, so none of the attempts with this digest is
/// ever told to produce.  Only `complete` or `fail` of the digest itself
/// releases it.
pub proof fn lemma_single_flight_trace(
    producing: Seq<CacheKey>,
    stored: Set<Seq<u8>>,
    attempts: Seq<CacheKey>,
    d: Seq<u8>,
)
    requires
        flight_has(producing, d),
    ensures
        forall|n: int|
            0 <= n <= attempts.len() ==> flight_has(
                #[trigger] flight_after_begins(producing, stored, attempts.take(n)),
                d,
            ),
    decreases attempts.len(),
{
    if attempts.len() == 0 {
        assert(attempts.take(0) =~= attempts);
    } else {
        lemma_single_flight_trace(producing, stored, attempts.drop_last(), d);
        assert forall|n: int| 0 <= n <= attempts.len() implies flight_has(
            #[trigger] flight_after_begins(producing, stored, attempts.take(n)),
            d,
        ) by {
            if n < attempts.len() {
                assert(attempts.take(n) =~= attempts.drop_last().take(n));
            } else {
                assert(attempts.take(n) =~= attempts);
                let rest = flight_after_begins(producing, stored, attempts.drop_last());
                assert(attempts.drop_last() =~= attempts.drop_last().take(
                    attempts.drop_last().len() as int,
                ));
                assert(flight_has(rest, d));
                let i = choose|i: int| 0 <= i < rest.len() && rest[i].hash@ == d;
                let k = attempts.last();
                if !stored.contains(k.hash@) && !flight_has(rest, k.hash@) {
                    assert(flight_after_begins(producing, stored, attempts)[i].hash@ == d);
                } else {
                    assert(flight_after_begins(producing, stored, attempts)[i].hash@ == d);
                }
            }
        }
    }
}

/// Law: commitment is all-or-nothing.  Committing blob `b` for key `k`
/// makes the observable contents for `k`'s digest exactly `b`, whole —
/// a reader sees the complete blob or, before the commitment, nothing,
/// never a truncated value — and leaves every other digest's contents
/// untouched.
pub proof fn lemma_store_visibility(pre: CacheTier, post: CacheTier, k: CacheKey, b: Vec<u8>)
    requires
        post.entries@ == pre.entries@.push((k, b)),
    ensures
        post.is_stored(k.hash@),
        post.stored_blob(k.hash@) == b@,
        post.stored_blob(k.hash@).len() == b@.len(),
        forall|d: Seq<u8>|
            d != k.hash@ ==> #[trigger] blob_of(post.entries@, d) == blob_of(pre.entries@, d),
{
    assert(post.entries@.last() == (k, b));
    assert forall|d: Seq<u8>| d != k.hash@ implies #[trigger] blob_of(post.entries@, d) == blob_of(
        pre.entries@,
        d,
    ) by {
        assert(post.entries@.drop_last() =~= pre.entries@);
    }
}

} // verus!
