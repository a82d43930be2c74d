//! The text-safe form of content bytes: base64, through the `base64` crate.

use vstd::prelude::*;

verus! {

/// The padded base64 text, in the standard alphabet, that the `base64` crate
/// gives for a sequence of bytes.
pub uninterp spec fn base64_text(bytes: Seq<u8>) -> Seq<char>;

/// The bytes that the `base64` crate reads from a text in the standard
/// alphabet, with or without padding, if it reads any.
pub uninterp spec fn base64_bytes(text: Seq<char>) -> Option<Seq<u8>>;

/// `base64::Engine::encode` of the engine
/// `base64::engine::general_purpose::STANDARD_PAD_INDIFFERENT`. Trusted: the
/// string is the text named by `base64_text`. The call does not fail: the
/// length of the text is computed without overflow from the length of a
/// vector, which is at most `isize::MAX`.
#[verifier::external_body]
pub(crate) fn encode_base64(bytes: &Vec<u8>) -> (s: String)
    ensures
        s@ == base64_text(bytes@),
{
    base64::Engine::encode(&base64::engine::general_purpose::STANDARD_PAD_INDIFFERENT, bytes)
}

/// `base64::Engine::decode` of the same engine, its error dropped. Trusted:
/// the bytes read are those named by `base64_bytes`, and the text that the
/// engine gives for some bytes is read back as those bytes.
#[verifier::external_body]
pub(crate) fn decode_base64(text: &str) -> (r: Option<Vec<u8>>)
    ensures
        match r {
            Some(bytes) => base64_bytes(text@) == Some(bytes@),
            None => base64_bytes(text@) is None,
        },
        forall|bytes: Seq<u8>|
            text@ == #[trigger] base64_text(bytes) ==> (match r {
                Some(read) => read@ == bytes,
                None => false,
            }),
{
    base64::Engine::decode(&base64::engine::general_purpose::STANDARD_PAD_INDIFFERENT, text).ok()
}

} // verus!
