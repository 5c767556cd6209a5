//! Base-32 text (RFC 4648, with padding) as the `data-encoding` crate
//! writes and reads it.

use data_encoding::{DecodeError, BASE32};
use vstd::prelude::*;
use vstd::string::StringSliceAdditionalSpecFns;

verus! {

/// The longest byte string that can be encoded.
pub const MAX_DATA_LEN: usize = usize::MAX / 512;

/// The longest text, counted in bytes, that can be decoded.
pub const MAX_TEXT_LEN: usize = usize::MAX / 8;

/// The base-32 text for `data`.
pub uninterp spec fn base32_encoding(data: Seq<u8>) -> Seq<char>;

/// The bytes that `text` stands for, or `None` where `text` is not base-32.
pub uninterp spec fn base32_decoding(text: Seq<char>) -> Option<Seq<u8>>;

/// Whether `c` can occur in base-32 text: an upper-case letter, a digit
/// from `2` to `7`, or the padding sign.
pub open spec fn is_base32_char(c: char) -> bool {
    'A' <= c <= 'Z' || '2' <= c <= '7' || c == '='
}

/// Whether `text` holds base-32 characters only.
pub open spec fn is_base32_text(text: Seq<char>) -> bool {
    forall|i: int| 0 <= i < text.len() ==> is_base32_char(#[trigger] text[i])
}

/// The number of characters in the base-32 text for `len` bytes: eight for
/// every five bytes or part of five.
pub open spec fn encoded_len(len: nat) -> nat {
    (len + 4) / 5 * 8
}

/// Why `data-encoding` could not decode a text.
#[verifier::external_type_specification]
#[verifier::external_body]
pub struct ExDecodeError(data_encoding::DecodeError);

/// Calls `data_encoding::Encoding::encode` on `data_encoding::BASE32`.
///
/// The text depends on the data alone, is made of the 32 symbols and the
/// padding sign of that encoding, has eight characters for every block of
/// five bytes, and decodes to the data again. The call panics on data
/// longer than `MAX_DATA_LEN`.
#[verifier::external_body]
pub(crate) fn base32_encode(data: &[u8]) -> (text: String)
    requires
        data@.len() <= MAX_DATA_LEN,
    ensures
        text@ == base32_encoding(data@),
        base32_decoding(text@) == Some(data@),
        is_base32_text(text@),
        text@.len() == encoded_len(data@.len()),
{
    BASE32.encode(data)
}

/// Calls `data_encoding::Encoding::decode` on `data_encoding::BASE32`, with
/// the bytes of `text`.
///
/// Whether the text decodes, and to which bytes, depends on the text alone.
/// The call panics on a text of more than `MAX_TEXT_LEN` bytes.
#[verifier::external_body]
pub(crate) fn base32_decode(text: &str) -> (data: Result<Vec<u8>, DecodeError>)
    requires
        text.spec_bytes().len() <= MAX_TEXT_LEN,
    ensures
        data matches Ok(bytes) ==> base32_decoding(text@) == Some(bytes@),
        data is Err ==> base32_decoding(text@) is None,
{
    BASE32.decode(text.as_bytes())
}

} // verus!
