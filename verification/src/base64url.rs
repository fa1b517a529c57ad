//! URL-safe base64 without padding, decoded by the `base64` crate.

use vstd::prelude::*;

verus! {

/// The bytes that `text` stands for in URL-safe base64 without padding, or
/// `None` where `text` is no such encoding. No rule of the encoding is
/// spelled out here: the decoder of the `base64` crate is taken at its word.
pub uninterp spec fn base64url_decoding(text: Seq<u8>) -> Option<Seq<u8>>;

/// Decodes `text` with `base64::engine::general_purpose::URL_SAFE_NO_PAD`.
///
/// `Engine::decode` depends on its input alone, so the contract names what it
/// returns: the decoded bytes, or nothing where the decoder reports an error.
#[verifier::external_body]
pub(crate) fn decode(text: &[u8]) -> (decoded: Option<Vec<u8>>)
    ensures
        match decoded {
            Some(bytes) => base64url_decoding(text@) == Some(bytes@),
            None => base64url_decoding(text@) is None,
        },
{
    base64::Engine::decode(&base64::engine::general_purpose::URL_SAFE_NO_PAD, text).ok()
}

} // verus!
