//! Big-endian (network order) integers and their byte strings.

use byteorder::{BigEndian, ByteOrder};
use vstd::prelude::*;

verus! {

/// The number that `bytes` spell in big-endian order: the first byte is the
/// most significant digit in base 256.
pub open spec fn be_value(bytes: Seq<u8>) -> nat
    decreases bytes.len(),
{
    if bytes.len() == 0 {
        0
    } else {
        be_value(bytes.drop_last()) * 256 + bytes.last() as nat
    }
}

/// The `len` low base-256 digits of `n`, most significant first.
pub open spec fn be_bytes(n: nat, len: nat) -> Seq<u8>
    decreases len,
{
    if len == 0 {
        Seq::empty()
    } else {
        be_bytes(n / 256, (len - 1) as nat).push((n % 256) as u8)
    }
}

/// 256 to the power `len`: the number of byte strings of that length.
pub open spec fn byte_range(len: nat) -> nat
    decreases len,
{
    if len == 0 {
        1
    } else {
        256 * byte_range((len - 1) as nat)
    }
}

/// `be_bytes` yields exactly `len` bytes.
pub proof fn lemma_be_bytes_len(n: nat, len: nat)
    ensures
        be_bytes(n, len).len() == len,
    decreases len,
{
    if len > 0 {
        lemma_be_bytes_len(n / 256, (len - 1) as nat);
    }
}

/// Reading back what was written gives the number again, as far as it fits
/// in `len` bytes.
pub proof fn lemma_be_round_trip(n: nat, len: nat)
    requires
        n < byte_range(len),
    ensures
        be_value(be_bytes(n, len)) == n,
    decreases len,
{
    if len > 0 {
        let rest = be_bytes(n / 256, (len - 1) as nat);
        lemma_be_round_trip(n / 256, (len - 1) as nat);
        assert(be_bytes(n, len).drop_last() =~= rest);
        assert(be_bytes(n, len).last() == (n % 256) as u8);
    }
}

/// Calls `byteorder::ByteOrder::read_u32` of `byteorder::BigEndian`, which
/// reads the first four bytes of the buffer as a big-endian number and
/// panics on a shorter buffer.
#[verifier::external_body]
pub(crate) fn read_u32_be(bytes: &[u8]) -> (value: u32)
    requires
        bytes@.len() >= 4,
    ensures
        value as nat == be_value(bytes@.subrange(0, 4)),
{
    BigEndian::read_u32(bytes)
}

/// Calls `byteorder::ByteOrder::write_u64` of `byteorder::BigEndian`, which
/// overwrites the first eight bytes of the buffer with `n` in big-endian
/// order, leaves the rest as it was and panics on a shorter buffer.
#[verifier::external_body]
pub(crate) fn write_u64_be(buffer: &mut Vec<u8>, n: u64)
    requires
        old(buffer)@.len() >= 8,
    ensures
        final(buffer)@ == be_bytes(n as nat, 8) + old(buffer)@.subrange(
            8,
            old(buffer)@.len() as int,
        ),
{
    BigEndian::write_u64(buffer, n)
}

} // verus!
