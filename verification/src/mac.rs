//! The keyed hash under the codes: HMAC (RFC 2104) over SHA-1.

use hmac::digest::InvalidLength;
use hmac::{Hmac, Mac};
use sha1::Sha1;
use vstd::prelude::*;

verus! {

/// The number of bytes in a SHA-1 digest, and so in every authentication
/// code that `authenticate` returns.
pub const DIGEST_LEN: usize = 20;

/// The HMAC-SHA-1 authentication code of `message` under `key`.
pub uninterp spec fn hmac_sha1(key: Seq<u8>, message: Seq<u8>) -> Seq<u8>;

/// The error with which the `hmac` crate refuses a key.
#[verifier::external_type_specification]
#[verifier::external_body]
pub struct ExInvalidLength(hmac::digest::InvalidLength);

/// Keys an `hmac::Hmac<sha1::Sha1>` with `Mac::new_from_slice`, feeds it the
/// message with `Mac::update` and takes the code from `Mac::finalize`.
///
/// The code depends on the key and the message alone and is as long as a
/// SHA-1 digest. `new_from_slice` is the only step that can fail; for HMAC
/// it accepts a key of every length, so the call always succeeds.
#[verifier::external_body]
pub(crate) fn authenticate(key: &[u8], message: &[u8]) -> (tag: Result<Vec<u8>, InvalidLength>)
    ensures
        tag is Ok,
        tag matches Ok(digest) ==> digest@ == hmac_sha1(key@, message@),
        tag matches Ok(digest) ==> digest@.len() == DIGEST_LEN,
{
    let mut mac = Hmac::<Sha1>::new_from_slice(key)?;
    mac.update(message);
    Ok(mac.finalize().into_bytes().to_vec())
}

} // verus!
