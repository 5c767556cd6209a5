//! Secrets: random key bytes, handed around as upper-case base-32 text.

use crate::base32::{
    base32_decode, base32_decoding, base32_encode, base32_encoding, encoded_len, is_base32_text,
    MAX_DATA_LEN, MAX_TEXT_LEN,
};
use crate::error::Error;
use rand::rngs::OsRng;
use rand::RngCore;
use vstd::prelude::*;
use vstd::utf8::{encode_utf8, is_ascii_chars, is_ascii_chars_encode_utf8};

verus! {

/// How many bytes a secret gets where the caller asks for none.
pub const DEFAULT_KEY_LEN: usize = 64;

/// `text` in upper case, as `str::to_uppercase` puts it.
pub uninterp spec fn uppercase(text: Seq<char>) -> Seq<char>;

/// The number of key bytes behind a secret of the requested `size`.
pub open spec fn key_len(size: usize) -> usize {
    if size == 0 {
        DEFAULT_KEY_LEN
    } else {
        size
    }
}

/// The key that `text` stands for as it is written: `text` read as
/// base-32, which knows upper-case letters only. A text that is too long to
/// be decoded, or is not base-32, stands for no key.
pub open spec fn decoded_text(text: Seq<char>) -> Option<Seq<u8>> {
    if encode_utf8(text).len() > MAX_TEXT_LEN {
        None
    } else {
        base32_decoding(text)
    }
}

/// The key that the secret `text` stands for: `text` put in upper case and
/// read as base-32.
pub open spec fn decoded_secret(text: Seq<char>) -> Option<Seq<u8>> {
    decoded_text(uppercase(text))
}

/// Calls `str::to_uppercase`. The result depends on the text alone.
#[verifier::external_body]
pub(crate) fn to_upper(text: &str) -> (upper: String)
    ensures
        upper@ == uppercase(text@),
{
    text.to_uppercase()
}

/// Calls `RngCore::fill_bytes` on `rand::rngs::OsRng`, which overwrites the
/// buffer with bytes from the operating system's random source.
///
/// Nothing is known of the bytes; the buffer keeps its length. The call
/// panics where the operating system cannot supply randomness.
#[verifier::external_body]
pub(crate) fn fill_random(buffer: &mut Vec<u8>)
    ensures
        final(buffer)@.len() == old(buffer)@.len(),
{
    OsRng.fill_bytes(buffer)
}

/// The key behind a secret that is written in upper case already.
pub fn decode_exact(text: &str) -> (key: Result<Vec<u8>, Error>)
    ensures
        match key {
            Ok(bytes) => decoded_text(text@) == Some(bytes@),
            Err(e) => e == Error::InvalidSecretEncoding && decoded_text(text@) is None,
        },
{
    if text.as_bytes().len() > MAX_TEXT_LEN {
        return Err(Error::InvalidSecretEncoding);
    }
    match base32_decode(text) {
        Ok(bytes) => Ok(bytes),
        Err(_) => Err(Error::InvalidSecretEncoding),
    }
}

/// The key behind a secret, whatever the case of its letters.
pub fn decode_secret(text: &str) -> (key: Result<Vec<u8>, Error>)
    ensures
        match key {
            Ok(bytes) => decoded_secret(text@) == Some(bytes@),
            Err(e) => e == Error::InvalidSecretEncoding && decoded_secret(text@) is None,
        },
{
    let upper = to_upper(text);
    decode_exact(upper.as_str())
}

/// The secret text for the key bytes `key`: upper-case base-32 that decodes
/// to `key` again.
pub fn encode_secret(key: &[u8]) -> (text: String)
    requires
        key@.len() <= MAX_DATA_LEN,
    ensures
        text@ == base32_encoding(key@),
        text@.len() == encoded_len(key@.len()),
        is_base32_text(text@),
        decoded_text(text@) == Some(key@),
{
    let text = base32_encode(key);
    proof {
        assert(is_ascii_chars(text@));
        is_ascii_chars_encode_utf8(text@);
    }
    text
}

/// A fresh secret of `size` random bytes, or of `DEFAULT_KEY_LEN` where
/// `size` is zero, as upper-case base-32 text.
///
/// Where the operating system cannot supply randomness, no secret is made:
/// the random source panics.
pub fn secret(size: usize) -> (text: String)
    requires
        key_len(size) <= MAX_DATA_LEN,
    ensures
        text@.len() == encoded_len(key_len(size) as nat),
        is_base32_text(text@),
        decoded_text(text@) matches Some(key) && key.len() == key_len(size) && text@
            == base32_encoding(key),
{
    let len = if size == 0 {
        DEFAULT_KEY_LEN
    } else {
        size
    };
    let mut key = vec![0u8; len];
    fill_random(&mut key);
    encode_secret(key.as_slice())
}

} // verus!
