//! Content hashes of files and chunks.
//!
//! A content hash is the BLAKE2b-256 digest of the bytes, stored as text.
//! The digest is computed by `holo_hash`; the verifier knows it only by name.

use vstd::prelude::*;

verus! {

/// The BLAKE2b digest of `data`, 32 bytes long and without a key, as
/// `holo_hash::encode::blake2b_256` computes it.
pub uninterp spec fn blake2b_256(data: Seq<u8>) -> Seq<u8>;

/// The text that `String::from_utf8_lossy` makes of `bytes`: valid UTF-8 is
/// kept, every invalid sequence becomes U+FFFD.
pub uninterp spec fn utf8_lossy(bytes: Seq<u8>) -> Seq<char>;

/// The content hash of `data` in the form in which records carry it.
pub open spec fn content_hash(data: Seq<u8>) -> Seq<char> {
    utf8_lossy(blake2b_256(data))
}

/// Calls `holo_hash::encode::blake2b_256`, which hashes `data` with
/// `blake2b_simd` at a hash length of 32. Trusted: the result is the digest
/// named `blake2b_256`, and it is 32 bytes long. The outside function asks
/// for a length between 1 and 64 and so never fails.
#[verifier::external_body]
fn blake2b_256_of(data: &[u8]) -> (digest: Vec<u8>)
    ensures
        digest@ == blake2b_256(data@),
        digest@.len() == 32,
{
    holo_hash::encode::blake2b_256(data)
}

/// Calls `String::from_utf8_lossy` and takes ownership of what it returns.
/// Trusted: the result is the text named `utf8_lossy`.
#[verifier::external_body]
fn utf8_lossy_of(bytes: &[u8]) -> (text: String)
    ensures
        text@ == utf8_lossy(bytes@),
{
    String::from_utf8_lossy(bytes).into_owned()
}

/// The 32-byte digest of `data`.
pub fn digest(data: &[u8]) -> (out: Vec<u8>)
    ensures
        out@ == blake2b_256(data@),
        out@.len() == 32,
{
    blake2b_256_of(data)
}

/// The content hash of `data` as text.
pub fn content_hash_text(data: &[u8]) -> (text: String)
    ensures
        text@ == content_hash(data@),
{
    let raw = blake2b_256_of(data);
    utf8_lossy_of(raw.as_slice())
}

} // verus!
