//! Base64, in which audio travels in requests and responses.

use vstd::prelude::*;
use base64::Engine;
use crate::error::{AudioError, AudioErrorView};

verus! {

/// The standard base64 text, with padding, of a run of bytes: what
/// `base64::engine::general_purpose::STANDARD.encode` returns for it.
pub uninterp spec fn base64_encoded(bytes: Seq<u8>) -> Seq<char>;

/// What `base64::engine::general_purpose::STANDARD.decode` makes of a text:
/// the bytes it stands for, or the decoder's complaint in words.
pub uninterp spec fn base64_decoded(text: Seq<char>) -> Result<Seq<u8>, Seq<char>>;

/// The number of characters in the padded base64 text of `length` bytes.
pub open spec fn encoded_length(length: nat) -> nat {
    4 * ((length + 2) / 3)
}

/// Whether the base64 text of `length` bytes fits in memory: an allocation
/// holds at most `isize::MAX` bytes.
pub open spec fn encodable(length: nat) -> bool {
    encoded_length(length) <= isize::MAX
}

/// Calls `STANDARD.encode` of the `base64` crate. The call computes the
/// length of the text first and reserves room for it, and panics where that
/// is more than an allocation can hold; such input is left out. The result
/// is the text named `base64_encoded`.
#[verifier::external_body]
pub(crate) fn encode_standard(bytes: &[u8]) -> (text: String)
    requires
        encodable(bytes@.len()),
    ensures
        text@ == base64_encoded(bytes@),
{
    base64::engine::general_purpose::STANDARD.encode(bytes)
}

/// Calls `STANDARD.decode` of the `base64` crate and hands back its bytes,
/// or the text of its `DecodeError`. Both are named by `base64_decoded`.
#[verifier::external_body]
fn decode_standard(text: &str) -> (outcome: Result<Vec<u8>, String>)
    ensures
        match outcome {
            Ok(bytes) => base64_decoded(text@) == Ok::<Seq<u8>, Seq<char>>(bytes@),
            Err(complaint) => base64_decoded(text@) == Err::<Seq<u8>, Seq<char>>(complaint@),
        },
{
    match base64::engine::general_purpose::STANDARD.decode(text) {
        Ok(bytes) => Ok(bytes),
        Err(error) => Err(error.to_string()),
    }
}

/// What decoding submitted audio answers: the bytes, or a `Decode` error
/// that carries the decoder's complaint.
pub open spec fn decoded_audio(text: Seq<char>) -> Result<Seq<u8>, AudioErrorView> {
    match base64_decoded(text) {
        Ok(bytes) => Ok(bytes),
        Err(complaint) => Err(AudioErrorView::Decode(complaint)),
    }
}

/// Decodes the audio of a request.
pub fn decode_audio(text: &str) -> (outcome: Result<Vec<u8>, AudioError>)
    ensures
        match outcome {
            Ok(bytes) => decoded_audio(text@) == Ok::<Seq<u8>, AudioErrorView>(bytes@),
            Err(error) => decoded_audio(text@) == Err::<Seq<u8>, AudioErrorView>(error@),
        },
{
    match decode_standard(text) {
        Ok(bytes) => Ok(bytes),
        Err(complaint) => Err(AudioError::Decode(complaint)),
    }
}

/// Whether audio of this many bytes can be encoded; see [`encodable`].
pub fn can_encode(length: usize) -> (fits: bool)
    ensures
        fits == encodable(length as nat),
{
    let groups: usize = if length % 3 == 0 {
        length / 3
    } else {
        length / 3 + 1
    };
    groups <= isize::MAX as usize / 4
}

} // verus!
