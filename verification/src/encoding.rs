//! The text form of chunk bytes: URL-safe base64 without padding.
//!
//! Encoding and decoding are done by the `base64` crate; the verifier knows
//! their results by name, and that decoding undoes encoding.

use vstd::prelude::*;
use vstd::utf8::encode_utf8;

verus! {

/// The URL-safe, unpadded base64 text of `bytes`, as `base64::encode_config`
/// produces it under `base64::URL_SAFE_NO_PAD`.
pub uninterp spec fn base64url_nopad(bytes: Seq<u8>) -> Seq<char>;

/// What `base64::decode_config` makes of `text` under
/// `base64::URL_SAFE_NO_PAD`: the decoded bytes, or `None` where it reports
/// an error.
pub uninterp spec fn base64url_nopad_decoded(text: Seq<char>) -> Option<Seq<u8>>;

/// The error of `base64::decode_config`. Nothing is read from it.
#[verifier::external_type_specification]
#[verifier::external_body]
pub struct ExDecodeError(base64::DecodeError);

/// Whether the text of `len` bytes has a length that fits in `usize`. The
/// text takes four characters for every three bytes.
pub open spec fn encodable(len: nat) -> bool {
    len <= usize::MAX / 4 * 3
}

/// Whether `text` is short enough for the decoder, which rounds the number
/// of its bytes up to the next multiple of eight.
pub open spec fn decodable(text: Seq<char>) -> bool {
    encode_utf8(text).len() + 7 <= usize::MAX
}

/// The bytes that the text of a stored chunk stands for, or `None` where
/// the text is no valid encoding or too long to be looked at.
pub open spec fn chunk_text_decoded(text: Seq<char>) -> Option<Seq<u8>> {
    if decodable(text) {
        base64url_nopad_decoded(text)
    } else {
        None
    }
}

/// Calls `base64::encode_config` with `base64::URL_SAFE_NO_PAD`. Trusted: the
/// result is the text named `base64url_nopad`. The outside function panics
/// where the length of the text overflows `usize`; `requires` leaves those
/// inputs out.
#[verifier::external_body]
fn encode_url_safe_no_pad(bytes: &[u8]) -> (text: String)
    requires
        encodable(bytes@.len()),
    ensures
        text@ == base64url_nopad(bytes@),
{
    base64::encode_config(bytes, base64::URL_SAFE_NO_PAD)
}

/// Calls `base64::decode_config` with `base64::URL_SAFE_NO_PAD`. Trusted: the
/// outcome is the one named `base64url_nopad_decoded`, and a text that is the
/// encoding of some bytes decodes to those bytes. The outside function panics
/// where the number of the text's bytes plus seven overflows `usize`;
/// `requires` leaves those inputs out.
#[verifier::external_body]
fn decode_url_safe_no_pad(text: &str) -> (r: Result<Vec<u8>, base64::DecodeError>)
    requires
        decodable(text@),
    ensures
        r matches Ok(bytes) ==> base64url_nopad_decoded(text@) == Some(bytes@),
        r is Err ==> base64url_nopad_decoded(text@) is None,
        forall|b: Seq<u8>| text@ == #[trigger] base64url_nopad(b) ==> r is Ok && r->Ok_0@ == b,
{
    base64::decode_config(text, base64::URL_SAFE_NO_PAD)
}

/// Encodes the bytes of a chunk for the store.
pub fn encode_chunk(bytes: &[u8]) -> (text: String)
    requires
        encodable(bytes@.len()),
    ensures
        text@ == base64url_nopad(bytes@),
{
    encode_url_safe_no_pad(bytes)
}

/// Decodes the text of a stored chunk. It returns `None` exactly where the
/// text is no valid encoding, or too long to be one that fits in memory. The
/// text that `encode_chunk` made of some bytes decodes to those bytes.
pub fn decode_chunk(text: &str) -> (r: Option<Vec<u8>>)
    ensures
        r matches Some(bytes) ==> chunk_text_decoded(text@) == Some(bytes@),
        r is None <==> chunk_text_decoded(text@) is None,
        forall|b: Seq<u8>|
            text@ == #[trigger] base64url_nopad(b) && decodable(text@) ==> r is Some
                && r->Some_0@ == b,
{
    if text.as_bytes().len() > usize::MAX - 7 {
        return None;
    }
    match decode_url_safe_no_pad(text) {
        Ok(bytes) => Some(bytes),
        Err(_) => None,
    }
}

} // verus!
