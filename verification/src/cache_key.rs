//! Content-addressed cache identities.
//!
//! A cache identity is defined over human-readable, stable text rather
//! than a binary encoding, so an engineer can read the metadata of a key
//! and see exactly why two inputs hashed differently, and so that schema
//! evolution only means writing different text.

use sha2::Digest;
use vstd::prelude::*;

use crate::digits::dec_of;
use crate::digits::hex_of;
use crate::digits::push_dec;
use crate::digits::push_hex;
use crate::errors::CacheError;
use crate::remote_file::RemoteFile;
use crate::scope::Scope;

verus! {

/// The digest of provenance text: SHA-256 over the UTF-8 encoding of the
/// characters.  A pure function of the text alone, 32 bytes long.
pub uninterp spec fn sha256_of(text: Seq<char>) -> Seq<u8>;

/// Relies on sha2::Sha256::digest: the SHA-256 digest of the input
/// bytes, always 32 bytes, a pure function of the input alone.
#[verifier::external_body]
fn sha256_digest(text: &str) -> (r: [u8; 32])
    ensures
        r@ == sha256_of(text@),
{
    let out = sha2::Sha256::digest(text.as_bytes());
    out.into()
}

/// The text a scope seeds a builder with: `scope: <scope>` and a blank
/// line, so the scope is always the first line of the metadata.
pub open spec fn scope_preamble(scope: Scope) -> Seq<char> {
    "scope: "@ + scope.text() + "\n\n"@
}

/// The two provenance lines one remote file contributes to a key:
/// its source identifier line and its location line.
pub open spec fn file_meta(file: RemoteFile) -> Seq<char> {
    "source: "@ + file.source_id@ + "\n"@ + "location: "@ + file.uri@ + "\n"@
}

/// The exact relative path for digest `hash` at `version`: `v<version>`,
/// the first digest byte as a 2-hex-digit shard directory, the next
/// three bytes as a 6-hex-digit shard directory, and the remaining 28
/// bytes as the 56-hex-digit file name.
pub open spec fn cache_path_chars(version: u32, hash: Seq<u8>) -> Seq<char> {
    seq!['v'] + dec_of(version) + seq!['/'] + hex_of(hash.subrange(0, 1)) + seq!['/'] + hex_of(
        hash.subrange(1, 4),
    ) + seq!['/'] + hex_of(hash.subrange(4, 32))
}

/// Compares two digests byte for byte.
fn bytes32_eq(a: &[u8; 32], b: &[u8; 32]) -> (r: bool)
    ensures
        r == (a@ == b@),
{
    let mut i: usize = 0;
    while i < 32
        invariant
            i <= 32,
            forall|j: int| 0 <= j < i ==> a@[j] == b@[j],
        decreases 32 - i,
    {
        if a[i] != b[i] {
            return false;
        }
        i += 1;
    }
    proof {
        assert(a@ =~= b@);
    }
    true
}

/// The immutable, content-based identity of a cacheable artifact: the
/// full provenance text it was derived from, and the digest of that text.
///
/// Equality and hashing are defined solely by the digest, never by the
/// metadata text: two keys with the same digest are the same key.  This
/// is a deliberate bet on collision resistance, so that a key can be
/// used as a map key without ever comparing the (arbitrarily long) text.
#[derive(Debug, Eq, Hash)]
pub struct CacheKey {
    /// The accumulated provenance text, retained for diagnostics only.
    pub metadata: String,
    /// The SHA-256 digest of `metadata`: the sole basis of equality and
    /// of the derived cache path.
    pub hash: [u8; 32],
}

impl PartialEq for CacheKey {
    /// Two keys are equal exactly when their digests are.
    fn eq(&self, other: &Self) -> (r: bool) {
        bytes32_eq(&self.hash, &other.hash)
    }
}

impl vstd::std_specs::cmp::PartialEqSpecImpl for CacheKey {
    open spec fn obeys_eq_spec() -> bool {
        true
    }

    open spec fn eq_spec(&self, other: &Self) -> bool {
        self.hash@ == other.hash@
    }
}

impl Clone for CacheKey {
    /// A clone is the same key: same text, same digest.
    fn clone(&self) -> (r: Self)
        ensures
            r == *self,
    {
        CacheKey { metadata: self.metadata.clone(), hash: self.hash }
    }
}

impl CacheKey {
    /// A key is well formed when its digest really is the digest of its
    /// metadata text.  Every key built by this module is.
    pub open spec fn wf(self) -> bool {
        self.hash@ == sha256_of(self.metadata@)
    }

    /// Creates the key for a single remote file tied to a scope.
    pub fn from_scoped_file(scope: &Scope, file: &RemoteFile) -> (r: CacheKey)
        ensures
            r.metadata@ == scope_preamble(*scope) + file_meta(*file),
            r.wf(),
    {
        let mut builder = Self::scoped_builder(scope);
        let _ = builder.write_file_meta(file);
        builder.build()
    }

    /// The human-readable provenance text this key was derived from, for
    /// diagnostics and logging only; never an input to equality.
    pub fn metadata(&self) -> (r: &str)
        ensures
            r@ == self.metadata@,
    {
        self.metadata.as_str()
    }

    /// The relative path for this key at a cache version.
    ///
    /// The path is `v<version>/` followed by the digest split into a
    /// 2-hex-digit shard directory, a 6-hex-digit shard directory and a
    /// 56-hex-digit file name, which bounds the number of entries per
    /// directory however large the cache grows.
    pub fn cache_path(&self, version: u32) -> (r: String)
        ensures
            r@ == cache_path_chars(version, self.hash@),
    {
        let mut path = String::from_str("v");
        push_dec(&mut path, version);
        path.append("/");
        push_hex(&mut path, &self.hash, 0, 1);
        path.append("/");
        push_hex(&mut path, &self.hash, 1, 4);
        path.append("/");
        push_hex(&mut path, &self.hash, 4, 32);
        proof {
            reveal_strlit("v");
            reveal_strlit("/");
            assert(path@ =~= cache_path_chars(version, self.hash@));
        }
        path
    }

    /// Renders the key for a log line: the path scheme at a fixed,
    /// arbitrary version.  Callers of a real store must use `cache_path`
    /// with the tier's current version instead.
    pub fn display_path(&self) -> (r: String)
        ensures
            r@ == cache_path_chars(1234, self.hash@),
    {
        self.cache_path(1234)
    }

    /// Creates a builder seeded with the scope preamble, so the scope is
    /// always the first line of the eventual metadata text.
    pub fn scoped_builder(scope: &Scope) -> (b: CacheKeyBuilder)
        ensures
            b@ == scope_preamble(*scope),
    {
        let mut metadata = String::from_str("scope: ");
        scope.push_text(&mut metadata);
        metadata.append("\n\n");
        proof {
            assert(metadata@ =~= scope_preamble(*scope));
        }
        CacheKeyBuilder { metadata }
    }

    /// Builds a key directly over literal metadata text.
    pub fn for_testing(key: &str) -> (r: CacheKey)
        ensures
            r.metadata@ == key@,
            r.wf(),
    {
        let metadata = String::from_str(key);
        CacheKeyBuilder { metadata }.build()
    }
}

/// Accumulates the human-readable, stable text that defines one cache
/// identity.
///
/// The builder is write-only: text can only ever be appended, and
/// finalizing consumes the builder.  Any two builders that accumulate
/// byte-identical text produce identical keys.
pub struct CacheKeyBuilder {
    /// The text accumulated so far.
    pub metadata: String,
}

impl View for CacheKeyBuilder {
    type V = Seq<char>;

    open spec fn view(&self) -> Seq<char> {
        self.metadata@
    }
}

impl CacheKeyBuilder {
    /// Appends the provenance of one remote file: its source identifier
    /// line and its location line.
    ///
    /// May be called several times on one builder to form a composite key
    /// covering several files.  The builder inserts no separator of its
    /// own between calls: a caller that needs to disambiguate files must
    /// write its own separator text in between.
    pub fn write_file_meta(&mut self, file: &RemoteFile) -> (r: Result<(), CacheError>)
        ensures
            r is Ok,
            final(self)@ == old(self)@ + file_meta(*file),
    {
        self.metadata.append("source: ");
        self.metadata.append(file.source_id());
        self.metadata.append("\n");
        self.metadata.append("location: ");
        self.metadata.append(file.uri());
        self.metadata.append("\n");
        proof {
            assert(self@ =~= old(self)@ + file_meta(*file));
        }
        Ok(())
    }

    /// Appends literal text: a separator between files of a composite
    /// key, a tool version, algorithm parameters, or any other provenance
    /// that must invalidate the cache when it changes.
    pub fn write_str(&mut self, s: &str) -> (r: Result<(), CacheError>)
        ensures
            r is Ok,
            final(self)@ == old(self)@ + s@,
    {
        self.metadata.append(s);
        Ok(())
    }

    /// Finalizes the key: digests the exact accumulated text.
    pub fn build(self) -> (r: CacheKey)
        ensures
            r.metadata@ == self@,
            r.wf(),
    {
        let hash = sha256_digest(self.metadata.as_str());
        CacheKey { metadata: self.metadata, hash }
    }
}

} // verus!
