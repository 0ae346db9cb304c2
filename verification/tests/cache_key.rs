use std::collections::hash_map::DefaultHasher;
use std::hash::Hash;
use std::hash::Hasher;

use symcache::cache_key::CacheKey;
use symcache::remote_file::RemoteFile;
use symcache::scope::Scope;

fn std_hash(key: &CacheKey) -> u64 {
    let mut hasher = DefaultHasher::new();
    key.hash(&mut hasher);
    hasher.finish()
}

#[test]
fn test_hashed_paths() {
    let scope = Scope::Global;
    let file = RemoteFile::filesystem("foo", "bar.baz");

    let key = CacheKey::from_scoped_file(&scope, &file);

    assert_eq!(
        &key.cache_path(0),
        "v0/6f/200788/bd4e6760d55bf6bd50c6d6e98b52379e194f9989fb788b4d37796427"
    );
    assert_eq!(
        key.metadata(),
        "scope: global\n\nsource: foo\nlocation: file:///bar.baz\n"
    );

    let built_key = CacheKey::from_scoped_file(&scope, &file);

    assert_eq!(built_key.cache_path(0), key.cache_path(0));

    let mut builder = CacheKey::scoped_builder(&scope);
    builder.write_file_meta(&file).unwrap();

    let file = RemoteFile::filesystem("foo", "bar.quux");
    builder.write_str("\nsecond_source:\n").unwrap();
    builder.write_file_meta(&file).unwrap();
    let key = builder.build();

    assert_eq!(
        &key.cache_path(0),
        "v0/07/e89036/d56878a462eb7949a744afa0a4deb5ed1b7a8154be16f7dd3b220518"
    );
    assert_eq!(
        key.metadata(),
        "scope: global\n\nsource: foo\nlocation: file:///bar.baz\n\nsecond_source:\nsource: foo\nlocation: file:///bar.quux\n"
    );
}

#[test]
fn test_determinism() {
    let scope = Scope::Scoped(String::from("org-17"));
    let file = RemoteFile::new(String::from("s3-bucket"), String::from("s3://bucket/a/b.so"));
    let k1 = CacheKey::from_scoped_file(&scope, &file);
    let k2 = CacheKey::from_scoped_file(&scope, &file);
    assert_eq!(k1, k2);
    assert_eq!(k1.metadata(), k2.metadata());
    assert_eq!(k1.cache_path(3), k2.cache_path(3));
    assert_eq!(std_hash(&k1), std_hash(&k2));
}

#[test]
fn test_sensitivity() {
    let base = CacheKey::from_scoped_file(&Scope::Global, &RemoteFile::filesystem("foo", "bar.baz"));
    let other_source =
        CacheKey::from_scoped_file(&Scope::Global, &RemoteFile::filesystem("fop", "bar.baz"));
    let other_location =
        CacheKey::from_scoped_file(&Scope::Global, &RemoteFile::filesystem("foo", "bar.baz2"));
    let other_scope = CacheKey::from_scoped_file(
        &Scope::Scoped(String::from("globax")),
        &RemoteFile::filesystem("foo", "bar.baz"),
    );
    assert_ne!(base, other_source);
    assert_ne!(base, other_location);
    assert_ne!(base, other_scope);
    assert_ne!(base.cache_path(0), other_source.cache_path(0));
    assert_ne!(base.cache_path(0), other_location.cache_path(0));
    assert_ne!(base.cache_path(0), other_scope.cache_path(0));
}

#[test]
fn test_path_shape() {
    let key = CacheKey::for_testing("some metadata text");
    let path = key.cache_path(1234);
    let segments: Vec<&str> = path.split('/').collect();
    assert_eq!(segments.len(), 4);
    assert_eq!(segments[0], "v1234");
    assert_eq!(segments[1].len(), 2);
    assert_eq!(segments[2].len(), 6);
    assert_eq!(segments[3].len(), 56);
    for segment in &segments[1..] {
        assert!(segment.chars().all(|c| c.is_ascii_hexdigit()));
        assert!(segment.chars().all(|c| !c.is_ascii_uppercase()));
    }
}

#[test]
fn test_path_shape_empty_metadata() {
    // The digest is fixed at 32 bytes even for empty metadata.
    let key = CacheKey::for_testing("");
    let path = key.cache_path(0);
    let segments: Vec<&str> = path.split('/').collect();
    assert_eq!(segments.len(), 4);
    assert_eq!(segments[0], "v0");
    assert_eq!(segments[1].len(), 2);
    assert_eq!(segments[2].len(), 6);
    assert_eq!(segments[3].len(), 56);
}

#[test]
fn test_version_independence() {
    let key = CacheKey::for_testing("some metadata text");
    let p0 = key.cache_path(0);
    let p7 = key.cache_path(7);
    assert_ne!(p0, p7);
    let tail0 = p0.strip_prefix("v0").unwrap();
    let tail7 = p7.strip_prefix("v7").unwrap();
    assert_eq!(tail0, tail7);
}

#[test]
fn test_equality_contract() {
    // The same accumulated text, built through different call sequences,
    // gives keys that compare equal and hash equal.
    let k1 = CacheKey::for_testing("abc");
    let mut builder = CacheKey::scoped_builder(&Scope::Global);
    builder.write_str("tail").unwrap();
    let k2 = builder.build();
    let mut builder = CacheKey::scoped_builder(&Scope::Global);
    builder.write_str("ta").unwrap();
    builder.write_str("il").unwrap();
    let k3 = builder.build();
    assert_eq!(k2, k3);
    assert_eq!(std_hash(&k2), std_hash(&k3));
    assert_ne!(k1, k2);
}

#[test]
fn test_display_path_is_fixed_version() {
    let key = CacheKey::for_testing("some metadata text");
    assert_eq!(key.display_path(), key.cache_path(1234));
    assert!(key.display_path().starts_with("v1234/"));
}

#[test]
fn test_for_testing_metadata() {
    let key = CacheKey::for_testing("exactly this text");
    assert_eq!(key.metadata(), "exactly this text");
}

#[test]
fn test_clone_is_same_key() {
    let key = CacheKey::from_scoped_file(&Scope::Global, &RemoteFile::filesystem("foo", "bar.baz"));
    let copy = key.clone();
    assert_eq!(key, copy);
    assert_eq!(key.metadata(), copy.metadata());
    assert_eq!(key.cache_path(5), copy.cache_path(5));
}

#[test]
fn test_remote_file_accessors() {
    let file = RemoteFile::filesystem("foo", "bar.baz");
    assert_eq!(file.source_id(), "foo");
    assert_eq!(file.uri(), "file:///bar.baz");
    let file = RemoteFile::new(String::from("http-src"), String::from("https://x/y.pdb"));
    assert_eq!(file.source_id(), "http-src");
    assert_eq!(file.uri(), "https://x/y.pdb");
}
