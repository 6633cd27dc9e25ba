//! The protocol's variable-length integer: a 32-bit value in one to five
//! bytes, seven value bits to a byte, least significant group first, the top
//! bit of a byte set where another byte follows.

use vstd::prelude::*;

verus! {

/// The most bytes a VarInt takes.
pub const MAX_VARINT_BYTES: usize = 5;

/// The VarInt of a 32-bit pattern.
pub open spec fn varint_of(x: u32) -> Seq<u8>
    decreases x,
    via varint_of_decreases
{
    if x < 0x80 {
        seq![x as u8]
    } else {
        seq![((x & 0x7f) | 0x80) as u8] + varint_of(x >> 7)
    }
}

#[via_fn]
proof fn varint_of_decreases(x: u32) {
    assert(x >= 0x80 ==> (x >> 7) < x) by (bit_vector);
}

/// The VarInt of a signed value: that of its two's-complement pattern, so a
/// negative value takes the full five bytes.
pub open spec fn varint_bytes(v: i32) -> Seq<u8> {
    varint_of(v as u32)
}

/// The number of bytes in the VarInt of `x`.
pub open spec fn varint_len(x: u32) -> nat {
    if x < 0x80 {
        1
    } else if x < 0x4000 {
        2
    } else if x < 0x20_0000 {
        3
    } else if x < 0x1000_0000 {
        4
    } else {
        5
    }
}

/// A VarInt has `varint_len` bytes: between one and five.
pub proof fn lemma_varint_len(x: u32)
    ensures
        varint_of(x).len() == varint_len(x),
        1 <= varint_of(x).len() <= MAX_VARINT_BYTES,
    decreases x,
{
    if x >= 0x80 {
        let y = x >> 7;
        assert(y < x && y >= 1 && (x < 0x4000 <==> y < 0x80) && (x < 0x20_0000 <==> y < 0x4000)
            && (x < 0x1000_0000 <==> y < 0x20_0000) && y < 0x1000_0000) by (bit_vector)
            requires
                x >= 0x80,
                y == x >> 7,
        ;
        lemma_varint_len(y);
    }
}

/// Every byte of a VarInt but the last carries the flag, and the last does
/// not: a reader knows where the VarInt ends.
pub proof fn lemma_varint_flags(x: u32)
    ensures
        forall|i: int|
            0 <= i < varint_of(x).len() ==> ((#[trigger] varint_of(x)[i]) >= 0x80 <==> i
                < varint_of(x).len() - 1),
    decreases x,
{
    if x >= 0x80 {
        let y = x >> 7;
        let b = ((x & 0x7f) | 0x80) as u8;
        assert(y < x && b >= 0x80) by (bit_vector)
            requires
                x >= 0x80,
                y == x >> 7,
                b == ((x & 0x7f) | 0x80) as u8,
        ;
        lemma_varint_flags(y);
        lemma_varint_len(y);
        assert(varint_of(x).len() == 1 + varint_of(y).len());
        assert forall|i: int| 0 <= i < varint_of(x).len() implies ((#[trigger] varint_of(x)[i])
            >= 0x80 <==> i < varint_of(x).len() - 1) by {
            if i > 0 {
                assert(varint_of(x)[i] == varint_of(y)[i - 1]);
            } else {
                assert(varint_of(x)[0] == b);
            }
        }
    }
}

/// The value bits of a VarInt byte, without the flag.
pub open spec fn value_bits(b: u8) -> u32 {
    (b & 0x7f) as u32
}

/// Reads one VarInt of at most `limit` bytes from the front of `s`: the
/// 32-bit pattern and the number of bytes it took. `None` where `s` ends, or
/// `limit` is used up, before a byte without the flag. Bits beyond the 32nd
/// are dropped.
pub open spec fn varint_prefix(s: Seq<u8>, limit: nat) -> Option<(u32, nat)>
    decreases limit,
{
    if limit == 0 || s.len() == 0 {
        None
    } else if s[0] < 0x80 {
        Some((s[0] as u32, 1))
    } else {
        match varint_prefix(s.drop_first(), (limit - 1) as nat) {
            Some((high, n)) => Some((value_bits(s[0]) | (high << 7), n + 1)),
            None => None,
        }
    }
}

/// What a reader makes of the front of `s`: the signed value and the number
/// of bytes read.
pub open spec fn read_varint_spec(s: Seq<u8>) -> Option<(i32, nat)> {
    match varint_prefix(s, MAX_VARINT_BYTES as nat) {
        Some((x, n)) => Some((x as i32, n)),
        None => None,
    }
}

/// Reads one VarInt of at most `limit` bytes that starts at index `at` of
/// `bytes`.
fn read_prefix(bytes: &[u8], at: usize, limit: usize) -> (r: Option<(u32, usize)>)
    requires
        at <= bytes@.len(),
        limit <= MAX_VARINT_BYTES,
    ensures
        match varint_prefix(bytes@.skip(at as int), limit as nat) {
            Some((x, n)) => r == Some((x, n as usize)) && 1 <= n <= limit && at + n
                <= bytes@.len(),
            None => r is None,
        },
    decreases limit,
{
    if limit == 0 || at >= bytes.len() {
        return None;
    }
    let b = bytes[at];
    if b < 0x80 {
        return Some((b as u32, 1));
    }
    assert(bytes@.skip(at as int).drop_first() =~= bytes@.skip(at + 1));
    match read_prefix(bytes, at + 1, limit - 1) {
        Some((high, n)) => Some((((b & 0x7f) as u32) | (high << 7), n + 1)),
        None => None,
    }
}

/// Reads one VarInt from the front of `bytes`: the value, and how many
/// bytes it took. `None` where the first five bytes, or all of `bytes` if
/// there are fewer, all carry the flag.
pub fn read_varint(bytes: &[u8]) -> (r: Option<(i32, usize)>)
    ensures
        match read_varint_spec(bytes@) {
            Some((v, n)) => r == Some((v, n as usize)) && 1 <= n <= MAX_VARINT_BYTES && n
                <= bytes@.len(),
            None => r is None,
        },
{
    assert(bytes@.skip(0) =~= bytes@);
    match read_prefix(bytes, 0, MAX_VARINT_BYTES) {
        Some((x, n)) => Some((#[verifier::truncate] (x as i32), n)),
        None => None,
    }
}

/// A VarInt followed by anything reads back as its pattern, and the read
/// stops where the VarInt ends.
pub proof fn lemma_varint_prefix_of_varint(x: u32, rest: Seq<u8>, limit: nat)
    requires
        varint_len(x) <= limit,
    ensures
        varint_prefix(varint_of(x) + rest, limit) == Some((x, varint_len(x))),
    decreases x,
{
    let s = varint_of(x) + rest;
    if x < 0x80 {
        assert(s[0] == x as u8);
    } else {
        let y = x >> 7;
        let b = ((x & 0x7f) | 0x80) as u8;
        assert(y < x && (x < 0x4000 <==> y < 0x80) && (x < 0x20_0000 <==> y < 0x4000) && (x
            < 0x1000_0000 <==> y < 0x20_0000) && y < 0x1000_0000 && b >= 0x80 && ((b & 0x7f) as u32)
            | (y << 7) == x) by (bit_vector)
            requires
                x >= 0x80,
                y == x >> 7,
                b == ((x & 0x7f) | 0x80) as u8,
        ;
        assert(s[0] == b);
        assert(s.drop_first() =~= varint_of(y) + rest);
        lemma_varint_prefix_of_varint(y, rest, (limit - 1) as nat);
    }
}

/// Decoding the bytes written for `v` yields `v` exactly, whatever follows
/// them, and consumes exactly those bytes.
pub proof fn lemma_varint_round_trip(v: i32, rest: Seq<u8>)
    ensures
        read_varint_spec(varint_bytes(v) + rest) == Some((v, varint_bytes(v).len())),
{
    let x = v as u32;
    lemma_varint_len(x);
    lemma_varint_prefix_of_varint(x, rest, MAX_VARINT_BYTES as nat);
    assert(x as i32 == v) by (bit_vector)
        requires
            x == v as u32,
    ;
}

/// A VarInt takes one byte for a value from 0 to 127 and for no other, at
/// most five bytes for any value, and all five for a negative value.
pub proof fn lemma_varint_bytes_len(v: i32)
    ensures
        1 <= varint_bytes(v).len() <= MAX_VARINT_BYTES,
        varint_bytes(v).len() == 1 <==> 0 <= v <= 127,
        v < 0 ==> varint_bytes(v).len() == MAX_VARINT_BYTES,
{
    let x = v as u32;
    lemma_varint_len(x);
    assert((x < 0x80 <==> 0 <= v <= 127) && (v < 0 ==> x >= 0x1000_0000)) by (bit_vector)
        requires
            x == v as u32,
    ;
}

} // verus!
