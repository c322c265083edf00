//! Content-addressed thumbnail cache keys.
//!
//! A cache entry is addressed by a 64-bit-truncated SHA-256 of the
//! source URL: the first sixteen hex characters of the digest. The key
//! is a pure function of the URL string, so it is stable across calls
//! and process restarts, and collisions are treated as cache hits —
//! which is why a cryptographic hash is used.

use vstd::prelude::*;
use crate::strutil::find_after_last;
use crate::strutil::find_first;
use crate::strutil::idx_after_last;
use crate::strutil::idx_first;
use crate::strutil::lower_chars;
use crate::strutil::to_ascii_lower;

verus! {

/// The lowercase hex rendering of the SHA-256 digest of a string's
/// bytes: a pure function of the string, identical in every process.
pub uninterp spec fn sha256_hex_of(s: Seq<char>) -> Seq<char>;

/// Relies on sha2's Sha256: the digest is a pure function of the input
/// bytes, and its 32 bytes render as exactly 64 lowercase hex
/// characters.
#[verifier::external_body]
fn sha256_hex(s: &str) -> (r: String)
    ensures
        r@ == sha256_hex_of(s@),
        r@.len() == 64,
{
    let mut hasher = <sha2::Sha256 as sha2::Digest>::new();
    sha2::Digest::update(&mut hasher, s.as_bytes());
    let digest = sha2::Digest::finalize(hasher);
    let mut out = String::new();
    for b in digest.iter() {
        out.push_str(&format!("{:02x}", b));
    }
    out
}

/// The cache key of a URL: the first sixteen hex characters of its
/// SHA-256 digest, a 64-bit keyspace.
pub fn compute_url_hash(url: &str) -> (r: String)
    ensures
        r@ == sha256_hex_of(url@).take(16),
        r@.len() == 16,
{
    let h = sha256_hex(url);
    let t = h.as_str().substring_char(0, 16);
    let r = String::from_str(t);
    proof {
        assert(r@ =~= sha256_hex_of(url@).take(16));
    }
    r
}

/// The cache file path for a URL under a cache directory:
/// `<dir>/<key>.webp`, with the key the truncated digest of the URL.
pub open spec fn spec_cache_path(dir: Seq<char>, url: Seq<char>) -> Seq<char> {
    dir + "/"@ + sha256_hex_of(url).take(16) + ".webp"@
}

/// Build the cache file path for a URL under a cache directory.
pub fn generate_cache_path(cache_dir: &str, url: &str) -> (r: String)
    ensures
        r@ == spec_cache_path(cache_dir@, url@),
{
    let hash = compute_url_hash(url);
    String::from_str(cache_dir).concat("/").concat(hash.as_str()).concat(".webp")
}

/// Cache-key stability: the key is a pure function of the URL string,
/// so byte-identical URLs address the same cache entry in every
/// process and across restarts.
pub proof fn lemma_cache_key_stable(d1: Seq<char>, d2: Seq<char>, u1: Seq<char>, u2: Seq<char>)
    requires
        d1 == d2,
        u1 == u2,
    ensures
        sha256_hex_of(u1).take(16) == sha256_hex_of(u2).take(16),
        spec_cache_path(d1, u1) == spec_cache_path(d2, u2),
{
}

/// The file extension a URL suggests: everything from the last dot of
/// the final path segment (query string ignored), lowercased; `.jpg`
/// when no extension is present.
pub open spec fn spec_extract_file_extension(u: Seq<char>) -> Seq<char> {
    let q = u.take(idx_first(u, '?'));
    let f = q.skip(idx_after_last(q, '/'));
    if idx_after_last(f, '.') > 0 {
        lower_chars(f.skip(idx_after_last(f, '.') - 1))
    } else {
        ".jpg"@
    }
}

/// Extract the lowercased file extension from a URL, with `.jpg` as
/// the fallback when none can be found.
pub fn extract_file_extension(url: &str) -> (r: String)
    ensures
        r@ == spec_extract_file_extension(url@),
{
    let qpos = find_first(url, '?');
    let q = url.substring_char(0, qpos);
    proof {
        assert(q@ =~= url@.take(idx_first(url@, '?')));
    }
    let qlen = q.unicode_len();
    let spos = find_after_last(q, '/');
    let f = q.substring_char(spos, qlen);
    proof {
        assert(f@ =~= q@.skip(idx_after_last(q@, '/')));
    }
    let flen = f.unicode_len();
    let dpos = find_after_last(f, '.');
    if dpos > 0 {
        let ext = f.substring_char(dpos - 1, flen);
        proof {
            assert(ext@ =~= f@.skip(idx_after_last(f@, '.') - 1));
        }
        to_ascii_lower(ext)
    } else {
        String::from_str(".jpg")
    }
}

} // verus!
