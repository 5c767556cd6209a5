//! From a secret and a counter to a 31-bit number: the keyed hash of the
//! counter and its dynamic truncation (RFC 4226, section 5.3).

use crate::endian::{be_bytes, be_value, lemma_be_bytes_len, read_u32_be, write_u64_be};
use crate::error::Error;
use crate::mac::{authenticate, hmac_sha1, DIGEST_LEN};
use vstd::prelude::*;

verus! {

/// The largest value that dynamic truncation can give: 31 bits, all set.
pub const TRUNCATION_MASK: u32 = 0x7fff_ffff;

/// The message that is hashed for `counter`: its eight bytes, most
/// significant first.
pub open spec fn moving_factor(counter: u64) -> Seq<u8> {
    be_bytes(counter as nat, 8)
}

/// Where in `digest` the four bytes to keep begin: the low four bits of its
/// last byte.
pub open spec fn truncation_offset(digest: Seq<u8>) -> int {
    (digest.last() & 0x0f) as int
}

/// The four bytes of `digest` at its truncation offset, read as a
/// big-endian number, without the top bit.
pub open spec fn dynamic_truncation(digest: Seq<u8>) -> u32 {
    let offset = truncation_offset(digest);
    (be_value(digest.subrange(offset, offset + 4)) as u32) & TRUNCATION_MASK
}

/// What `hotp_value` returns for `key` and `counter`.
pub open spec fn hotp(key: Seq<u8>, counter: u64) -> Result<u32, Error> {
    if key.len() == 0 {
        Err(Error::KeyError)
    } else {
        Ok(dynamic_truncation(hmac_sha1(key, moving_factor(counter))))
    }
}

/// The counter as the eight-byte message that is hashed.
pub fn counter_bytes(counter: u64) -> (bytes: Vec<u8>)
    ensures
        bytes@ == moving_factor(counter),
{
    let mut bytes = vec![0u8; 8];
    write_u64_be(&mut bytes, counter);
    proof {
        lemma_be_bytes_len(counter as nat, 8);
    }
    bytes
}

/// Cuts a SHA-1 sized digest down to 31 bits: the low four bits of the last
/// byte say where four bytes are taken, which are read as a big-endian
/// number and lose their top bit.
pub fn hash_result(digest: &[u8]) -> (value: u32)
    requires
        digest@.len() == DIGEST_LEN,
    ensures
        value == dynamic_truncation(digest@),
        value <= TRUNCATION_MASK,
{
    let last = digest[digest.len() - 1];
    let nibble = last & 0x0f;
    assert(nibble <= 15) by (bit_vector)
        requires
            nibble == last & 0x0f,
    ;
    let offset = nibble as usize;
    let window = &digest[offset..offset + 4];
    assert(window@.subrange(0, 4) =~= window@);
    let word = read_u32_be(window);
    let value = word & TRUNCATION_MASK;
    assert(value <= 0x7fff_ffffu32) by (bit_vector)
        requires
            value == word & 0x7fff_ffffu32,
    ;
    value
}

/// The 31-bit number behind the code for `counter` under `key`.
///
/// An empty key is refused: it would make every code depend on the counter
/// alone.
pub fn hotp_value(key: &[u8], counter: u64) -> (value: Result<u32, Error>)
    ensures
        value == hotp(key@, counter),
        value matches Ok(v) ==> v <= TRUNCATION_MASK,
{
    if key.len() == 0 {
        return Err(Error::KeyError);
    }
    let message = counter_bytes(counter);
    match authenticate(key, message.as_slice()) {
        Ok(digest) => Ok(hash_result(digest.as_slice())),
        Err(_) => Err(Error::KeyError),
    }
}

} // verus!
