//! Decoding of the base64url segments that signed tokens and receipts are
//! made of, behind a trusted wrapper around the `base64` crate.

use vstd::prelude::*;

verus! {

/// What the URL-safe, unpadded base64 alphabet decodes a string to: `None`
/// exactly where the engine rejects the input. The decoding depends on the
/// input alone.
pub uninterp spec fn base64url_decoded(s: Seq<char>) -> Option<Seq<u8>>;

/// Relies on `base64::engine::Engine::decode` with the `URL_SAFE_NO_PAD`
/// engine: decoding is a pure function of the input, and fails exactly on
/// input that is not valid unpadded URL-safe base64.
#[verifier::external_body]
pub(crate) fn base64url_decode(s: &str) -> (r: Option<Vec<u8>>)
    ensures
        match r {
            Some(v) => base64url_decoded(s@) == Some(v@),
            None => base64url_decoded(s@) is None,
        },
{
    match base64::engine::Engine::decode(&base64::engine::general_purpose::URL_SAFE_NO_PAD, s) {
        Ok(v) => Some(v),
        Err(_) => None,
    }
}

} // verus!
