//! The global guarantees of the key-derivation scheme, stated and proved
//! once, for every digest and every version.

use vstd::prelude::*;
use vstd::std_specs::cmp::PartialEqSpec;

use crate::cache_key::cache_path_chars;
use crate::cache_key::file_meta;
use crate::cache_key::scope_preamble;
use crate::cache_key::CacheKey;
use crate::digits::dec_of;
use crate::digits::hex_of;
use crate::digits::is_dec_digit;
use crate::digits::is_hex_digit;
use crate::digits::lemma_dec_of_digits;
use crate::digits::lemma_dec_of_nonempty;
use crate::digits::lemma_hex_of_digits;
use crate::digits::lemma_hex_of_len;
use crate::remote_file::RemoteFile;
use crate::scope::Scope;

verus! {

/// Law: key derivation is deterministic.  Any two well-formed keys whose
/// metadata is the provenance text of the same scope and the same file
/// carry the same digest, and render the same cache path at every
/// version.
pub proof fn lemma_key_determinism(scope: Scope, file: RemoteFile, k1: CacheKey, k2: CacheKey)
    requires
        k1.wf(),
        k2.wf(),
        k1.metadata@ == scope_preamble(scope) + file_meta(file),
        k2.metadata@ == scope_preamble(scope) + file_meta(file),
    ensures
        k1.hash@ == k2.hash@,
        forall|version: u32| cache_path_chars(version, k1.hash@) == cache_path_chars(
            version,
            k2.hash@,
        ),
{
}

/// Law: equality of keys is decided by the digest alone.  Two keys with
/// equal digests compare equal under `==`, however their metadata text
/// was constructed.
pub proof fn lemma_equality_by_digest(k1: CacheKey, k2: CacheKey)
    requires
        k1.hash@ == k2.hash@,
    ensures
        k1.eq_spec(&k2),
        k2.eq_spec(&k1),
{
}

/// Law: the shape of a cache path.  For every 32-byte digest and every
/// version, the path is `v`, the decimal version, then three segments of
/// exactly 2, 6 and 56 hex characters, with slashes exactly at the three
/// separator positions and nowhere else.
pub proof fn lemma_cache_path_shape(version: u32, hash: Seq<u8>)
    requires
        hash.len() == 32,
    ensures
        ({
            let p = cache_path_chars(version, hash);
            let d = dec_of(version).len() as int;
            &&& p.len() == d + 68
            &&& d >= 1
            &&& p[0] == 'v'
            &&& forall|i: int| 1 <= i < 1 + d ==> is_dec_digit(#[trigger] p[i])
            &&& forall|i: int|
                1 + d <= i < p.len() ==> (#[trigger] p[i] == '/' <==> (i == 1 + d || i == 4 + d
                    || i == 11 + d))
            &&& p.subrange(2 + d, 4 + d) == hex_of(hash.subrange(0, 1))
            &&& p.subrange(5 + d, 11 + d) == hex_of(hash.subrange(1, 4))
            &&& p.subrange(12 + d, 68 + d) == hex_of(hash.subrange(4, 32))
            &&& forall|i: int|
                1 + d <= i < p.len() && p[i] != '/' ==> is_hex_digit(#[trigger] p[i])
        }),
{
    let p = cache_path_chars(version, hash);
    let d = dec_of(version).len() as int;
    let h2 = hex_of(hash.subrange(0, 1));
    let h6 = hex_of(hash.subrange(1, 4));
    let h56 = hex_of(hash.subrange(4, 32));
    lemma_dec_of_nonempty(version);
    lemma_hex_of_len(hash.subrange(0, 1));
    lemma_hex_of_len(hash.subrange(1, 4));
    lemma_hex_of_len(hash.subrange(4, 32));
    lemma_dec_of_digits(version);
    lemma_hex_of_digits(hash.subrange(0, 1));
    lemma_hex_of_digits(hash.subrange(1, 4));
    lemma_hex_of_digits(hash.subrange(4, 32));
    assert(h2.len() == 2 && h6.len() == 6 && h56.len() == 56);
    assert(p.len() == d + 68);
    assert forall|i: int| 1 <= i < 1 + d implies is_dec_digit(#[trigger] p[i]) by {
        assert(p[i] == dec_of(version)[i - 1]);
    }
    assert(p[1 + d] == '/' && p[4 + d] == '/' && p[11 + d] == '/');
    assert forall|i: int| 2 + d <= i < 4 + d implies is_hex_digit(#[trigger] p[i]) && p[i] != '/' by {
        assert(p[i] == h2[i - (2 + d)]);
    }
    assert forall|i: int| 5 + d <= i < 11 + d implies is_hex_digit(#[trigger] p[i]) && p[i]
        != '/' by {
        assert(p[i] == h6[i - (5 + d)]);
    }
    assert forall|i: int| 12 + d <= i < 68 + d implies is_hex_digit(#[trigger] p[i]) && p[i]
        != '/' by {
        assert(p[i] == h56[i - (12 + d)]);
    }
    assert(p.subrange(2 + d, 4 + d) =~= h2);
    assert(p.subrange(5 + d, 11 + d) =~= h6);
    assert(p.subrange(12 + d, 68 + d) =~= h56);
}

/// Law: the version is independent of the digest.  The paths of one key
/// at two versions differ only in the leading version segment: both
/// start with `v` followed by their own decimal version, and the text
/// from the first slash on is identical.
pub proof fn lemma_path_version_independence(v1: u32, v2: u32, hash: Seq<u8>)
    requires
        hash.len() == 32,
    ensures
        ({
            let p1 = cache_path_chars(v1, hash);
            let p2 = cache_path_chars(v2, hash);
            let d1 = dec_of(v1).len() as int;
            let d2 = dec_of(v2).len() as int;
            &&& p1.subrange(0, 1 + d1) == seq!['v'] + dec_of(v1)
            &&& p2.subrange(0, 1 + d2) == seq!['v'] + dec_of(v2)
            &&& p1.subrange(1 + d1, p1.len() as int) == p2.subrange(1 + d2, p2.len() as int)
        }),
{
    let p1 = cache_path_chars(v1, hash);
    let p2 = cache_path_chars(v2, hash);
    let d1 = dec_of(v1).len() as int;
    let d2 = dec_of(v2).len() as int;
    let tail = seq!['/'] + hex_of(hash.subrange(0, 1)) + seq!['/'] + hex_of(hash.subrange(1, 4))
        + seq!['/'] + hex_of(hash.subrange(4, 32));
    assert(p1.subrange(0, 1 + d1) =~= seq!['v'] + dec_of(v1));
    assert(p2.subrange(0, 1 + d2) =~= seq!['v'] + dec_of(v2));
    assert(p1.subrange(1 + d1, p1.len() as int) =~= tail);
    assert(p2.subrange(1 + d2, p2.len() as int) =~= tail);
}

} // verus!
