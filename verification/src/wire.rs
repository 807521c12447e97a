//! Little-endian integer fields inside a frame buffer.
//!
//! The spec functions give the mathematical meaning of a multi-byte field;
//! the executable readers and writer go through the `byteorder` crate, as
//! trusted wrappers whose contracts state exactly that meaning.

use vstd::prelude::*;

use byteorder::{ByteOrder, LittleEndian};

verus! {

/// The 16-bit little-endian integer held by the two bytes at `i`.
pub open spec fn u16_le(b: Seq<u8>, i: int) -> u16
    recommends
        0 <= i,
        i + 2 <= b.len(),
{
    (b[i] as u16) | ((b[i + 1] as u16) << 8)
}

/// The 64-bit little-endian integer held by the eight bytes at `i`.
pub open spec fn u64_le(b: Seq<u8>, i: int) -> u64
    recommends
        0 <= i,
        i + 8 <= b.len(),
{
    (b[i] as u64) | ((b[i + 1] as u64) << 8) | ((b[i + 2] as u64) << 16) | ((b[i + 3] as u64)
        << 24) | ((b[i + 4] as u64) << 32) | ((b[i + 5] as u64) << 40) | ((b[i + 6] as u64) << 48)
        | ((b[i + 7] as u64) << 56)
}

/// Least-significant byte of a 16-bit value.
pub open spec fn u16_lo(x: u16) -> u8 {
    (x & 0xff) as u8
}

/// Most-significant byte of a 16-bit value.
pub open spec fn u16_hi(x: u16) -> u8 {
    (x >> 8) as u8
}

/// Relies on byteorder's `LittleEndian::read_u16`: reads the two bytes at
/// `i` as an unsigned 16-bit integer, least-significant byte first.
#[verifier::external_body]
pub(crate) fn read_u16_at(b: &Vec<u8>, i: usize) -> (r: u16)
    requires
        i + 2 <= b.len(),
    ensures
        r == u16_le(b@, i as int),
{
    LittleEndian::read_u16(&b[i..i + 2])
}

/// Relies on byteorder's `LittleEndian::read_u64`: reads the eight bytes at
/// `i` as an unsigned 64-bit integer, least-significant byte first.
#[verifier::external_body]
pub(crate) fn read_u64_at(b: &Vec<u8>, i: usize) -> (r: u64)
    requires
        i + 8 <= b.len(),
    ensures
        r == u64_le(b@, i as int),
{
    LittleEndian::read_u64(&b[i..i + 8])
}

/// Relies on byteorder's `LittleEndian::write_u16`: overwrites the two bytes
/// at `i` with `x`, least-significant byte first.
#[verifier::external_body]
pub(crate) fn write_u16_at(b: &mut Vec<u8>, i: usize, x: u16)
    requires
        i + 2 <= old(b).len(),
    ensures
        final(b)@ == old(b)@.update(i as int, u16_lo(x)).update(i as int + 1, u16_hi(x)),
{
    LittleEndian::write_u16(&mut b[i..i + 2], x);
}

/// Copy of a byte buffer, element for element.
pub(crate) fn copy_bytes(v: &Vec<u8>) -> (r: Vec<u8>)
    ensures
        r@ == v@,
{
    let mut out: Vec<u8> = Vec::new();
    let mut i: usize = 0;
    while i < v.len()
        invariant
            i <= v.len(),
            out@ == v@.subrange(0, i as int),
        decreases v.len() - i,
    {
        out.push(v[i]);
        proof {
            assert(out@ =~= v@.subrange(0, i + 1));
        }
        i = i + 1;
    }
    proof {
        assert(out@ =~= v@);
    }
    out
}

/// A buffer of `n` zero bytes.
pub(crate) fn zero_vec(n: usize) -> (r: Vec<u8>)
    ensures
        r@ == Seq::new(n as nat, |i: int| 0u8),
{
    let mut out: Vec<u8> = Vec::new();
    let mut i: usize = 0;
    while i < n
        invariant
            i <= n,
            out@ == Seq::new(i as nat, |j: int| 0u8),
        decreases n - i,
    {
        out.push(0);
        proof {
            assert(out@ =~= Seq::new((i + 1) as nat, |j: int| 0u8));
        }
        i = i + 1;
    }
    out
}

/// Copy of the tail of a byte buffer, from `start` to the end.
pub(crate) fn copy_bytes_from(v: &Vec<u8>, start: usize) -> (r: Vec<u8>)
    requires
        start <= v.len(),
    ensures
        r@ == v@.subrange(start as int, v@.len() as int),
{
    let mut out: Vec<u8> = Vec::new();
    let mut i: usize = start;
    while i < v.len()
        invariant
            start <= i <= v.len(),
            out@ == v@.subrange(start as int, i as int),
        decreases v.len() - i,
    {
        out.push(v[i]);
        proof {
            assert(out@ =~= v@.subrange(start as int, i + 1));
        }
        i = i + 1;
    }
    out
}

/// `u16_le` recombines exactly the two bytes that `write_u16_at` lays down.
pub proof fn lemma_u16_le_bytes(x: u16)
    by (bit_vector)
    ensures
        (u16_lo(x) as u16) | ((u16_hi(x) as u16) << 8) == x,
{
}

} // verus!
