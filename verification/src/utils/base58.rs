//! The base-58 codec in which node identifiers are written, as the `bs58`
//! crate implements it with its default (Bitcoin) alphabet.
use vstd::prelude::*;

verus! {

/// What `bs58` decodes `text` to: `None` where it rejects the text.
pub uninterp spec fn base58_decoded(text: Seq<char>) -> Option<Seq<u8>>;

/// The text that `bs58` writes for `bytes`.
pub uninterp spec fn base58_encoded(bytes: Seq<u8>) -> Seq<char>;

/// `c` is one of the 58 characters of the alphabet: the digits and letters
/// without `0`, `I`, `O` and `l`.
pub open spec fn is_base58_char(c: char) -> bool {
    ||| '1' <= c <= '9'
    ||| 'A' <= c <= 'H'
    ||| 'J' <= c <= 'N'
    ||| 'P' <= c <= 'Z'
    ||| 'a' <= c <= 'k'
    ||| 'm' <= c <= 'z'
}

/// Every character of `text` belongs to the alphabet.
pub open spec fn is_base58_text(text: Seq<char>) -> bool {
    forall|i: int| 0 <= i < text.len() ==> is_base58_char(#[trigger] text[i])
}

#[verifier::external_type_specification]
#[verifier::external_body]
pub struct ExDecodeError(bs58::decode::Error);

/// Calls `bs58::decode(..).into_vec()`.
///
/// Trusted: the call succeeds exactly on texts made of alphabet characters
/// only (any other character, ASCII or not, is an error), and the bytes it
/// gives are a function of the text alone.
#[verifier::external_body]
pub(crate) fn decode(text: &str) -> (decoded: Result<Vec<u8>, bs58::decode::Error>)
    ensures
        decoded is Ok <==> is_base58_text(text@),
        match decoded {
            Ok(bytes) => base58_decoded(text@) == Some(bytes@),
            Err(_) => base58_decoded(text@) is None,
        },
{
    bs58::decode(text).into_vec()
}

/// Calls `bs58::encode(..).into_string()`.
///
/// Trusted: the text is a function of the bytes alone, holds alphabet
/// characters only, and decodes back to the same bytes.
#[verifier::external_body]
pub(crate) fn encode(bytes: &Vec<u8>) -> (text: String)
    ensures
        text@ == base58_encoded(bytes@),
        is_base58_text(text@),
        base58_decoded(text@) == Some(bytes@),
{
    bs58::encode(bytes).into_string()
}

} // verus!
