//! Fixed-width integers in network byte order. The bytes come from the
//! `byteorder` crate; what they are is stated here.

use byteorder::{BigEndian, ByteOrder};
use vstd::prelude::*;

verus! {

/// The two bytes of `x`, most significant first.
pub open spec fn be_bytes_u16(x: u16) -> Seq<u8> {
    seq![(x >> 8) as u8, (x & 0xff) as u8]
}

/// The four bytes of `x`, most significant first.
pub open spec fn be_bytes_u32(x: u32) -> Seq<u8> {
    seq![
        (x >> 24) as u8,
        ((x >> 16) & 0xff) as u8,
        ((x >> 8) & 0xff) as u8,
        (x & 0xff) as u8,
    ]
}

/// The eight bytes of `x`, most significant first.
pub open spec fn be_bytes_u64(x: u64) -> Seq<u8> {
    seq![
        (x >> 56) as u8,
        ((x >> 48) & 0xff) as u8,
        ((x >> 40) & 0xff) as u8,
        ((x >> 32) & 0xff) as u8,
        ((x >> 24) & 0xff) as u8,
        ((x >> 16) & 0xff) as u8,
        ((x >> 8) & 0xff) as u8,
        (x & 0xff) as u8,
    ]
}

/// `byteorder`'s `ByteOrder::write_i16` for `BigEndian`, on a buffer of two
/// bytes: it fills the buffer with the two's-complement pattern of `n`, most
/// significant byte first. It panics only on a shorter buffer.
#[verifier::external_body]
pub(crate) fn i16_to_be(n: i16) -> (bytes: [u8; 2])
    ensures
        bytes@ == be_bytes_u16(n as u16),
{
    let mut bytes = [0u8; 2];
    BigEndian::write_i16(&mut bytes, n);
    bytes
}

/// `byteorder`'s `ByteOrder::write_i32` for `BigEndian`, on a buffer of four
/// bytes: it fills the buffer with the two's-complement pattern of `n`, most
/// significant byte first. It panics only on a shorter buffer.
#[verifier::external_body]
pub(crate) fn i32_to_be(n: i32) -> (bytes: [u8; 4])
    ensures
        bytes@ == be_bytes_u32(n as u32),
{
    let mut bytes = [0u8; 4];
    BigEndian::write_i32(&mut bytes, n);
    bytes
}

/// `byteorder`'s `ByteOrder::write_i64` for `BigEndian`, on a buffer of eight
/// bytes: it fills the buffer with the two's-complement pattern of `n`, most
/// significant byte first. It panics only on a shorter buffer.
#[verifier::external_body]
pub(crate) fn i64_to_be(n: i64) -> (bytes: [u8; 8])
    ensures
        bytes@ == be_bytes_u64(n as u64),
{
    let mut bytes = [0u8; 8];
    BigEndian::write_i64(&mut bytes, n);
    bytes
}

} // verus!
