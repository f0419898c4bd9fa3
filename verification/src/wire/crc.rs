//! The checksum that closes a low-level message.
//!
//! It is the common 32-bit cyclic redundancy check: the reflected polynomial
//! `0xEDB88320`, a register that starts as all ones, bytes fed least
//! significant bit first, and the register inverted at the end.

use vstd::prelude::*;

verus! {

/// The generator polynomial, reflected.
pub const POLYNOMIAL: u32 = 0xEDB8_8320;

/// The register after one more bit.
pub open spec fn shifted(c: u32) -> u32 {
    if c & 1 == 1 {
        (c >> 1) ^ POLYNOMIAL
    } else {
        c >> 1
    }
}

/// The register after `n` more bits.
pub open spec fn shifted_by(c: u32, n: nat) -> u32
    decreases n,
{
    if n == 0 {
        c
    } else {
        shifted(shifted_by(c, (n - 1) as nat))
    }
}

/// The register after one more byte.
pub open spec fn fed(c: u32, byte: u8) -> u32 {
    shifted_by(c ^ (byte as u32), 8)
}

/// The register after the bytes of `bytes`, in order.
pub open spec fn fed_all(c: u32, bytes: Seq<u8>) -> u32
    decreases bytes.len(),
{
    if bytes.len() == 0 {
        c
    } else {
        fed(fed_all(c, bytes.drop_last()), bytes.last())
    }
}

/// The checksum of `bytes`.
pub open spec fn crc32(bytes: Seq<u8>) -> u32 {
    fed_all(0xFFFF_FFFF, bytes) ^ 0xFFFF_FFFF
}

/// Feeds one byte into the register.
fn feed(c: u32, byte: u8) -> (r: u32)
    ensures
        r == fed(c, byte),
{
    let mut r: u32 = c ^ (byte as u32);
    let mut k: usize = 0;
    while k < 8
        invariant
            k <= 8,
            r == shifted_by(c ^ (byte as u32), k as nat),
        decreases 8 - k,
    {
        r = if (r & 1) == 1 {
            (r >> 1) ^ POLYNOMIAL
        } else {
            r >> 1
        };
        k += 1;
    }
    r
}

/// Computes the checksum of the first `len` bytes of `bytes`.
pub fn checksum_of_prefix(bytes: &[u8], len: usize) -> (r: u32)
    requires
        len <= bytes.len(),
    ensures
        r == crc32(bytes@.subrange(0, len as int)),
{
    let mut c: u32 = 0xFFFF_FFFF;
    let mut i: usize = 0;
    while i < len
        invariant
            i <= len <= bytes.len(),
            c == fed_all(0xFFFF_FFFF, bytes@.subrange(0, i as int)),
        decreases len - i,
    {
        proof {
            let next = bytes@.subrange(0, i + 1);
            assert(next.drop_last() =~= bytes@.subrange(0, i as int));
            assert(next.last() == bytes@[i as int]);
        }
        c = feed(c, bytes[i]);
        i += 1;
    }
    c ^ 0xFFFF_FFFF
}

/// Computes the checksum of `bytes`.
pub fn checksum(bytes: &[u8]) -> (r: u32)
    ensures
        r == crc32(bytes@),
{
    assert(bytes@.subrange(0, bytes@.len() as int) =~= bytes@);
    checksum_of_prefix(bytes, bytes.len())
}

} // verus!
