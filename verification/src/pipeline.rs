//! The top-level orchestration of a multi-file resolution request.
//!
//! A request names a scope and a set of remote files.  The orchestrator
//! derives one cache key per file, drives the tier resolution for each,
//! and aggregates per-file outcomes: an error is attached to the file it
//! concerns, so a partially resolvable request yields a partial result
//! by default instead of one opaque failure.

use vstd::prelude::*;

use crate::cache_key::file_meta;
use crate::cache_key::scope_preamble;
use crate::cache_key::CacheKey;
use crate::errors::CacheError;
use crate::remote_file::RemoteFile;
use crate::scope::Scope;
use crate::tier::blob_of;
use crate::tier::clone_blob;
use crate::tier::CacheTier;

verus! {

/// The outcome of resolving one file of a request: the resolved blob,
/// or the failure attached to that specific file.
#[derive(Debug)]
pub enum FileOutcome {
    /// The derived artifact for this file, complete.
    Resolved(Vec<u8>),
    /// Why this file, and this file alone, could not be resolved.
    Failed(CacheError),
}

/// Derives the cache key of every file of a request: one key per file,
/// in request order, each tied to the request's scope.
pub fn request_keys(scope: &Scope, files: &Vec<RemoteFile>) -> (keys: Vec<CacheKey>)
    ensures
        keys@.len() == files@.len(),
        forall|i: int|
            0 <= i < files@.len() ==> {
                &&& (#[trigger] keys@[i]).wf()
                &&& keys@[i].metadata@ == scope_preamble(*scope) + file_meta(files@[i])
            },
{
    let mut keys: Vec<CacheKey> = Vec::new();
    let mut i: usize = 0;
    while i < files.len()
        invariant
            i <= files@.len(),
            keys@.len() == i,
            forall|j: int|
                0 <= j < i ==> {
                    &&& (#[trigger] keys@[j]).wf()
                    &&& keys@[j].metadata@ == scope_preamble(*scope) + file_meta(files@[j])
                },
        decreases files@.len() - i,
    {
        let key = CacheKey::from_scoped_file(scope, &files[i]);
        keys.push(key);
        i += 1;
    }
    keys
}

/// Settles one production: the resolution attempt that was told to
/// produce reports its producer's outcome here.  A produced blob is
/// committed into the tier (when the tier persists at all) and handed
/// back whole; a failure releases the key for a later retry and becomes
/// the outcome attached to the file.  Either way the key is no longer in
/// flight afterwards.
pub fn settle_production(
    tier: &mut CacheTier,
    key: &CacheKey,
    produced: Result<Vec<u8>, CacheError>,
) -> (r: FileOutcome)
    requires
        old(tier).wf(),
    ensures
        final(tier).wf(),
        final(tier).version == old(tier).version,
        final(tier).enabled == old(tier).enabled,
        !final(tier).is_producing(key.hash@),
        forall|d: Seq<u8>|
            d != key.hash@ ==> (#[trigger] final(tier).is_producing(d) == old(tier).is_producing(
                d,
            )),
        forall|d: Seq<u8>|
            d != key.hash@ ==> #[trigger] blob_of(final(tier).entries@, d) == blob_of(
                old(tier).entries@,
                d,
            ),
        match produced {
            Result::Ok(b) => {
                &&& r matches FileOutcome::Resolved(v) && v@ == b@
                &&& old(tier).enabled ==> final(tier).is_stored(key.hash@)
                    && final(tier).stored_blob(key.hash@) == b@
                &&& !old(tier).enabled ==> final(tier).entries@ == old(tier).entries@
            },
            Result::Err(e) => {
                &&& r == FileOutcome::Failed(e)
                &&& final(tier).entries@ == old(tier).entries@
            },
        },
{
    match produced {
        Ok(blob) => {
            let out = clone_blob(&blob);
            tier.complete(key, blob);
            FileOutcome::Resolved(out)
        },
        Err(e) => {
            tier.fail(key);
            FileOutcome::Failed(e)
        },
    }
}

/// Aggregates a request's result: every file paired with its own
/// outcome, in request order.  No file is ever dropped and no single
/// failure aborts the rest — a partial result is the default shape.
pub fn assemble_response(files: Vec<RemoteFile>, outcomes: Vec<FileOutcome>) -> (r: Vec<
    (RemoteFile, FileOutcome),
>)
    requires
        files@.len() == outcomes@.len(),
    ensures
        r@.len() == files@.len(),
        forall|i: int|
            0 <= i < r@.len() ==> (#[trigger] r@[i]).0 == files@[i] && r@[i].1 == outcomes@[i],
{
    let ghost all_files = files@;
    let ghost all_outcomes = outcomes@;
    let mut files = files;
    let mut outcomes = outcomes;
    let mut r: Vec<(RemoteFile, FileOutcome)> = Vec::new();
    while files.len() > 0
        invariant
            outcomes@.len() == files@.len(),
            r@.len() + files@.len() == all_files.len(),
            all_outcomes.len() == all_files.len(),
            files@ == all_files.subrange(r@.len() as int, all_files.len() as int),
            outcomes@ == all_outcomes.subrange(r@.len() as int, all_outcomes.len() as int),
            forall|i: int|
                0 <= i < r@.len() ==> (#[trigger] r@[i]).0 == all_files[i] && r@[i].1
                    == all_outcomes[i],
        decreases files@.len(),
    {
        let ghost k = r@.len() as int;
        let file = files.remove(0);
        let outcome = outcomes.remove(0);
        proof {
            assert(file == all_files[k]);
            assert(outcome == all_outcomes[k]);
            assert(files@ =~= all_files.subrange(k + 1, all_files.len() as int));
            assert(outcomes@ =~= all_outcomes.subrange(k + 1, all_outcomes.len() as int));
        }
        r.push((file, outcome));
    }
    r
}

} // verus!
