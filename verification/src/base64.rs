//! Base64url text without padding, done by the `base64url` crate.

use vstd::prelude::*;

verus! {

/// The unpadded base64url text that `base64url::encode` gives for `bytes`.
pub uninterp spec fn base64url_text(bytes: Seq<u8>) -> Seq<char>;

/// The bytes that `base64url::decode` reads out of `text`, or `None` where
/// it rejects the text.
pub uninterp spec fn base64url_decoded(text: Seq<char>) -> Option<Seq<u8>>;

/// Calls `base64url::encode`, which encodes with the URL-safe alphabet and
/// writes no padding.
///
/// Trusted: the text is a function of `bytes` alone, and `base64url::decode`
/// reads `bytes` back out of it.
#[verifier::external_body]
pub(crate) fn base64url_encode(bytes: &[u8]) -> (text: String)
    ensures
        text@ == base64url_text(bytes@),
        base64url_decoded(text@) == Some(bytes@),
{
    base64url::encode(bytes)
}

/// Calls `base64url::decode`.
///
/// Trusted: whether the text is accepted, and the bytes that it stands for,
/// are a function of `text` alone. A failure carries the text of the decode
/// error.
#[verifier::external_body]
pub(crate) fn base64url_decode(text: &str) -> (result: Result<Vec<u8>, String>)
    ensures
        result is Ok ==> base64url_decoded(text@) == Some(result->Ok_0@),
        result is Err ==> base64url_decoded(text@) is None,
{
    match base64url::decode(text) {
        Ok(bytes) => Ok(bytes),
        Err(e) => Err(e.to_string()),
    }
}

} // verus!
