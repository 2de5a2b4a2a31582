//! Audio as it travels inside a message: PCM16 bytes in standard base64.

use vstd::prelude::*;
use base64::Engine;
use crate::pcm16::{pcm16_bytes, pcm16_encode};

verus! {

/// `base64::DecodeError`: why a text is no base64. The library only tells
/// it apart from success.
#[verifier::external_type_specification]
#[verifier::external_body]
pub struct ExDecodeError(base64::DecodeError);

/// The text that the standard base64 engine of the `base64` crate makes of
/// `bytes`: standard alphabet, with padding.
pub uninterp spec fn base64_standard_encoding(bytes: Seq<u8>) -> Seq<char>;

/// The bytes that the standard base64 engine of the `base64` crate makes of
/// `text`, or nothing where it rejects `text`.
pub uninterp spec fn base64_standard_decoding(text: Seq<char>) -> Option<Seq<u8>>;

/// Length of the base64 text of `len` bytes: four characters for every three
/// bytes, the last group padded.
pub open spec fn base64_encoded_len(len: nat) -> nat {
    ((len + 2) / 3 * 4) as nat
}

/// Calls `Engine::encode` of `base64::engine::general_purpose::STANDARD`.
///
/// The engine allocates the whole text at once and panics when its length
/// is beyond what an allocation can hold, `isize::MAX` bytes; such input is
/// left out. Of the result this says only that it is what that engine makes
/// of the bytes.
#[verifier::external_body]
fn base64_encode(bytes: &[u8]) -> (text: String)
    requires
        base64_encoded_len(bytes@.len()) <= isize::MAX,
    ensures
        text@ == base64_standard_encoding(bytes@),
{
    base64::engine::general_purpose::STANDARD.encode(bytes)
}

/// Calls `Engine::decode` of `base64::engine::general_purpose::STANDARD`.
///
/// Of the result this says only that it is what that engine makes of the
/// text, and that an error stands for a text that the engine rejects.
#[verifier::external_body]
fn base64_decode(text: &str) -> (bytes: Result<Vec<u8>, base64::DecodeError>)
    ensures
        match bytes {
            Ok(decoded) => base64_standard_decoding(text@) == Some(decoded@),
            Err(_) => base64_standard_decoding(text@).is_none(),
        },
{
    base64::engine::general_purpose::STANDARD.decode(text)
}

/// Whether `len` bytes have a base64 text that an allocation can hold.
pub fn base64_encodable(len: usize) -> (fits: bool)
    ensures
        fits == (base64_encoded_len(len as nat) <= isize::MAX),
{
    let groups: usize = if len % 3 == 0 {
        len / 3
    } else {
        len / 3 + 1
    };
    assert(groups == (len + 2) / 3);
    groups <= (isize::MAX as usize) / 4
}

/// What `encode_wire_audio` returns for `samples`.
pub open spec fn wire_audio(samples: Seq<i16>) -> Option<Seq<char>> {
    if base64_encoded_len(pcm16_bytes(samples).len()) <= isize::MAX {
        Some(base64_standard_encoding(pcm16_bytes(samples)))
    } else {
        None
    }
}

/// Encodes samples for an audio message: PCM16 bytes, then base64. There is
/// no text for samples whose base64 would be longer than `isize::MAX`.
pub fn encode_wire_audio(samples: &[i16]) -> (audio: Option<String>)
    ensures
        audio.deep_view() == wire_audio(samples@),
{
    let bytes: Vec<u8> = pcm16_encode(samples);
    if base64_encodable(bytes.len()) {
        Some(base64_encode(bytes.as_slice()))
    } else {
        None
    }
}

/// Decodes the base64 text of an audio message into bytes, or into nothing
/// where the text is not base64.
pub fn decode_wire_audio(text: &str) -> (bytes: Option<Vec<u8>>)
    ensures
        bytes.deep_view() == base64_standard_decoding(text@),
{
    match base64_decode(text) {
        Ok(decoded) => {
            assert(decoded.deep_view() =~= decoded@);
            Some(decoded)
        },
        Err(_) => None,
    }
}

} // verus!
