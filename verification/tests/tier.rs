use symcache::cache_key::CacheKey;
use symcache::errors::CacheError;
use symcache::errors::DerivationErrorKind;
use symcache::errors::FetchErrorKind;
use symcache::pipeline::assemble_response;
use symcache::pipeline::request_keys;
use symcache::pipeline::settle_production;
use symcache::pipeline::FileOutcome;
use symcache::remote_file::RemoteFile;
use symcache::scope::Scope;
use symcache::tier::CacheTier;
use symcache::tier::ResolveAction;

fn blob(text: &str) -> Vec<u8> {
    text.as_bytes().to_vec()
}

#[test]
fn test_single_flight() {
    let mut tier = CacheTier::new(0, true);
    let key = CacheKey::for_testing("one key");
    let other = CacheKey::for_testing("another key");

    // The first of N concurrent resolutions is told to produce...
    assert!(matches!(tier.begin_resolve(&key), ResolveAction::Produce));
    // ...and every later one for the same key is told to wait, even while
    // unrelated keys come and go.
    assert!(matches!(tier.begin_resolve(&key), ResolveAction::Wait));
    assert!(matches!(tier.begin_resolve(&other), ResolveAction::Produce));
    assert!(matches!(tier.begin_resolve(&key), ResolveAction::Wait));
    tier.fail(&other);
    assert!(matches!(tier.begin_resolve(&key), ResolveAction::Wait));

    // Once the producer reports, everyone sees the one produced blob.
    tier.complete(&key, blob("produced exactly once"));
    for _ in 0..3 {
        match tier.begin_resolve(&key) {
            ResolveAction::Hit(b) => assert_eq!(b, blob("produced exactly once")),
            _ => panic!("expected a hit after completion"),
        }
    }
}

#[test]
fn test_failed_production_releases_the_key() {
    let mut tier = CacheTier::new(0, true);
    let key = CacheKey::for_testing("flaky");
    assert!(matches!(tier.begin_resolve(&key), ResolveAction::Produce));
    tier.fail(&key);
    // Nothing was committed, so a later resolution may try again.
    assert!(tier.lookup(&key).is_none());
    assert!(matches!(tier.begin_resolve(&key), ResolveAction::Produce));
}

#[test]
fn test_store_then_lookup_is_whole() {
    let mut tier = CacheTier::new(2, true);
    let key = CacheKey::for_testing("blob key");
    assert!(tier.lookup(&key).is_none());
    tier.store(&key, blob("0123456789"));
    let got = tier.lookup(&key).expect("stored blob must be visible");
    // The reader sees the complete blob, length included - never a
    // truncated value.
    assert_eq!(got.len(), 10);
    assert_eq!(got, blob("0123456789"));
    // Other keys are untouched.
    let other = CacheKey::for_testing("some other key");
    assert!(tier.lookup(&other).is_none());
}

#[test]
fn test_disabled_tier_never_persists() {
    let mut tier = CacheTier::new(0, false);
    let key = CacheKey::for_testing("uncached");
    assert!(matches!(tier.begin_resolve(&key), ResolveAction::Produce));
    tier.complete(&key, blob("ephemeral"));
    // A disabled tier persists nothing: the next resolution produces anew.
    assert!(tier.lookup(&key).is_none());
    assert!(matches!(tier.begin_resolve(&key), ResolveAction::Produce));
}

#[test]
fn test_request_keys_per_file() {
    let scope = Scope::Global;
    let files = vec![
        RemoteFile::filesystem("foo", "bar.baz"),
        RemoteFile::filesystem("foo", "bar.quux"),
    ];
    let keys = request_keys(&scope, &files);
    assert_eq!(keys.len(), 2);
    assert_ne!(keys[0], keys[1]);
    assert_eq!(
        keys[0],
        CacheKey::from_scoped_file(&scope, &files[0])
    );
    assert_eq!(
        keys[1],
        CacheKey::from_scoped_file(&scope, &files[1])
    );
}

#[test]
fn test_settle_production_commits_success() {
    let mut tier = CacheTier::new(0, true);
    let key = CacheKey::for_testing("settled");
    assert!(matches!(tier.begin_resolve(&key), ResolveAction::Produce));
    let outcome = settle_production(&mut tier, &key, Ok(blob("artifact")));
    match outcome {
        FileOutcome::Resolved(b) => assert_eq!(b, blob("artifact")),
        FileOutcome::Failed(_) => panic!("success must resolve"),
    }
    assert_eq!(tier.lookup(&key).unwrap(), blob("artifact"));
}

#[test]
fn test_settle_production_attaches_errors() {
    let mut tier = CacheTier::new(0, true);

    let key = CacheKey::for_testing("absent");
    assert!(matches!(tier.begin_resolve(&key), ResolveAction::Produce));
    let outcome = settle_production(
        &mut tier,
        &key,
        Err(CacheError::FetchFailure(FetchErrorKind::NotFound)),
    );
    assert!(matches!(
        outcome,
        FileOutcome::Failed(CacheError::FetchFailure(FetchErrorKind::NotFound))
    ));

    let key = CacheKey::for_testing("unreachable");
    assert!(matches!(tier.begin_resolve(&key), ResolveAction::Produce));
    let outcome = settle_production(
        &mut tier,
        &key,
        Err(CacheError::FetchFailure(FetchErrorKind::Transient)),
    );
    assert!(matches!(
        outcome,
        FileOutcome::Failed(CacheError::FetchFailure(FetchErrorKind::Transient))
    ));

    let key = CacheKey::for_testing("garbled");
    assert!(matches!(tier.begin_resolve(&key), ResolveAction::Produce));
    let outcome = settle_production(
        &mut tier,
        &key,
        Err(CacheError::DerivationFailure(DerivationErrorKind::Malformed)),
    );
    assert!(matches!(
        outcome,
        FileOutcome::Failed(CacheError::DerivationFailure(DerivationErrorKind::Malformed))
    ));

    let key = CacheKey::for_testing("exotic");
    assert!(matches!(tier.begin_resolve(&key), ResolveAction::Produce));
    let outcome = settle_production(
        &mut tier,
        &key,
        Err(CacheError::DerivationFailure(DerivationErrorKind::Unsupported)),
    );
    assert!(matches!(
        outcome,
        FileOutcome::Failed(CacheError::DerivationFailure(DerivationErrorKind::Unsupported))
    ));

    let key = CacheKey::for_testing("disk trouble");
    assert!(matches!(tier.begin_resolve(&key), ResolveAction::Produce));
    let outcome = settle_production(
        &mut tier,
        &key,
        Err(CacheError::CacheIoFailure(String::from("read failed"))),
    );
    match outcome {
        FileOutcome::Failed(CacheError::CacheIoFailure(msg)) => assert_eq!(msg, "read failed"),
        _ => panic!("the error must stay attached to its file"),
    }

    // Nothing failed was committed.
    assert!(tier.lookup(&CacheKey::for_testing("absent")).is_none());
}

#[test]
fn test_assemble_response_is_partial_by_default() {
    let files = vec![
        RemoteFile::filesystem("foo", "ok.bin"),
        RemoteFile::filesystem("foo", "missing.bin"),
        RemoteFile::filesystem("foo", "also-ok.bin"),
    ];
    let outcomes = vec![
        FileOutcome::Resolved(blob("first")),
        FileOutcome::Failed(CacheError::FetchFailure(FetchErrorKind::NotFound)),
        FileOutcome::Resolved(blob("third")),
    ];
    let response = assemble_response(files, outcomes);
    assert_eq!(response.len(), 3);
    assert_eq!(response[0].0.uri(), "file:///ok.bin");
    assert!(matches!(&response[0].1, FileOutcome::Resolved(b) if *b == blob("first")));
    assert_eq!(response[1].0.uri(), "file:///missing.bin");
    assert!(matches!(
        &response[1].1,
        FileOutcome::Failed(CacheError::FetchFailure(FetchErrorKind::NotFound))
    ));
    assert_eq!(response[2].0.uri(), "file:///also-ok.bin");
    assert!(matches!(&response[2].1, FileOutcome::Resolved(b) if *b == blob("third")));
}
