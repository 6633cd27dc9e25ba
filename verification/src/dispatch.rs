//! The canonical wire form of each type that a packet field may have: one
//! encoding per type, and for the integer types that have one, the compact
//! VarInt form beside it.

use crate::big_endian::{be_bytes_u16, be_bytes_u32, be_bytes_u64};
use crate::component::Component;
use crate::difficulty::Difficulty;
use crate::error::WriteError;
use crate::game_type::GameType;
use crate::nbt::EncodedTag;
use crate::outcome::{in_turn, refused, wrote, Outcome};
use crate::resource_location::ResourceLocation;
use crate::varint::{varint_bytes, varint_of};
use crate::writable::{length_prefix, nbt_outcome, utf_outcome, Writable, MAX_STRING_LENGTH};
use vstd::prelude::*;

verus! {

/// A byte array that is written without a length before it: the rest of a
/// packet.
pub type UnsizedByteArray = Vec<u8>;

/// A type with a canonical wire form.
pub trait McBufWritable: Sized {
    /// What writing the value does: its canonical encoding, or the failure
    /// where it has none.
    spec fn wire(&self) -> Outcome;

    /// Appends the canonical encoding of the value to `buf`.
    fn write_into(&self, buf: &mut Vec<u8>) -> (r: Result<(), WriteError>)
        ensures
            final(buf)@ == old(buf)@ + self.wire().bytes,
            self.wire().reported_as(r),
    ;
}

/// A type with a compact, variable-width wire form, for the fields that ask
/// for it.
pub trait McBufVarintWritable: Sized {
    /// What writing the value in compact form does.
    spec fn varint_wire(&self) -> Outcome;

    /// Appends the compact encoding of the value to `buf`.
    fn varint_write_into(&self, buf: &mut Vec<u8>) -> (r: Result<(), WriteError>)
        ensures
            final(buf)@ == old(buf)@ + self.varint_wire().bytes,
            self.varint_wire().reported_as(r),
    ;
}

impl McBufWritable for i32 {
    /// Four bytes, most significant first.
    open spec fn wire(&self) -> Outcome {
        wrote(be_bytes_u32(*self as u32))
    }

    fn write_into(&self, buf: &mut Vec<u8>) -> (r: Result<(), WriteError>) {
        buf.write_int(*self)
    }
}

impl McBufVarintWritable for i32 {
    open spec fn varint_wire(&self) -> Outcome {
        wrote(varint_bytes(*self))
    }

    fn varint_write_into(&self, buf: &mut Vec<u8>) -> (r: Result<(), WriteError>) {
        buf.write_varint(*self)
    }
}

impl McBufWritable for Vec<u8> {
    /// The bytes as they are, without a length before them.
    open spec fn wire(&self) -> Outcome {
        wrote(self@)
    }

    fn write_into(&self, buf: &mut Vec<u8>) -> (r: Result<(), WriteError>) {
        buf.write_bytes(self.as_slice())
    }
}

impl McBufWritable for String {
    /// Length-prefixed UTF-8, under the protocol's limit.
    open spec fn wire(&self) -> Outcome {
        utf_outcome(self@, MAX_STRING_LENGTH as usize)
    }

    fn write_into(&self, buf: &mut Vec<u8>) -> (r: Result<(), WriteError>) {
        buf.write_utf(self.as_str())
    }
}

/// A resource identifier on the wire: its canonical string form, written as
/// a string under the protocol's limit.
pub open spec fn location_outcome(location: ResourceLocation) -> Outcome {
    utf_outcome(location.canonical(), MAX_STRING_LENGTH as usize)
}

impl McBufWritable for ResourceLocation {
    /// The canonical string form, as a string.
    open spec fn wire(&self) -> Outcome {
        location_outcome(*self)
    }

    fn write_into(&self, buf: &mut Vec<u8>) -> (r: Result<(), WriteError>) {
        buf.write_resource_location(self)
    }
}

impl McBufWritable for u32 {
    /// Four bytes, most significant first.
    open spec fn wire(&self) -> Outcome {
        wrote(be_bytes_u32(*self))
    }

    fn write_into(&self, buf: &mut Vec<u8>) -> (r: Result<(), WriteError>) {
        let n = #[verifier::truncate] (*self as i32);
        assert(n as u32 == *self) by (bit_vector)
            requires
                n == *self as i32,
        ;
        i32::write_into(&n, buf)
    }
}

impl McBufVarintWritable for u32 {
    /// The VarInt of the 32-bit pattern.
    open spec fn varint_wire(&self) -> Outcome {
        wrote(varint_of(*self))
    }

    fn varint_write_into(&self, buf: &mut Vec<u8>) -> (r: Result<(), WriteError>) {
        let n = #[verifier::truncate] (*self as i32);
        assert(n as u32 == *self) by (bit_vector)
            requires
                n == *self as i32,
        ;
        i32::varint_write_into(&n, buf)
    }
}

impl McBufWritable for u16 {
    /// Two bytes, most significant first.
    open spec fn wire(&self) -> Outcome {
        wrote(be_bytes_u16(*self))
    }

    fn write_into(&self, buf: &mut Vec<u8>) -> (r: Result<(), WriteError>) {
        let n = #[verifier::truncate] (*self as i16);
        assert(n as u16 == *self) by (bit_vector)
            requires
                n == *self as i16,
        ;
        i16::write_into(&n, buf)
    }
}

impl McBufVarintWritable for u16 {
    /// The VarInt of the value.
    open spec fn varint_wire(&self) -> Outcome {
        wrote(varint_of(*self as u32))
    }

    fn varint_write_into(&self, buf: &mut Vec<u8>) -> (r: Result<(), WriteError>) {
        let n = *self as i32;
        assert(n as u32 == *self as u32) by (bit_vector)
            requires
                n == *self as i32,
        ;
        i32::varint_write_into(&n, buf)
    }
}

impl McBufWritable for u8 {
    /// The byte itself.
    open spec fn wire(&self) -> Outcome {
        wrote(seq![*self])
    }

    fn write_into(&self, buf: &mut Vec<u8>) -> (r: Result<(), WriteError>) {
        buf.write_byte(*self)
    }
}

impl McBufWritable for i16 {
    /// Two bytes, most significant first.
    open spec fn wire(&self) -> Outcome {
        wrote(be_bytes_u16(*self as u16))
    }

    fn write_into(&self, buf: &mut Vec<u8>) -> (r: Result<(), WriteError>) {
        buf.write_short(*self)
    }
}

impl McBufWritable for i64 {
    /// Eight bytes, most significant first.
    open spec fn wire(&self) -> Outcome {
        wrote(be_bytes_u64(*self as u64))
    }

    fn write_into(&self, buf: &mut Vec<u8>) -> (r: Result<(), WriteError>) {
        buf.write_long(*self)
    }
}

impl McBufWritable for u64 {
    /// Eight bytes, most significant first.
    open spec fn wire(&self) -> Outcome {
        wrote(be_bytes_u64(*self))
    }

    fn write_into(&self, buf: &mut Vec<u8>) -> (r: Result<(), WriteError>) {
        let n = #[verifier::truncate] (*self as i64);
        assert(n as u64 == *self) by (bit_vector)
            requires
                n == *self as i64,
        ;
        i64::write_into(&n, buf)
    }
}

impl McBufWritable for bool {
    /// One byte: 1 for `true`, 0 for `false`.
    open spec fn wire(&self) -> Outcome {
        wrote(seq![if *self { 1u8 } else { 0u8 }])
    }

    fn write_into(&self, buf: &mut Vec<u8>) -> (r: Result<(), WriteError>) {
        buf.write_boolean(*self)
    }
}

impl McBufWritable for i8 {
    /// The byte that holds the value's two's-complement pattern.
    open spec fn wire(&self) -> Outcome {
        wrote(seq![*self as u8])
    }

    fn write_into(&self, buf: &mut Vec<u8>) -> (r: Result<(), WriteError>) {
        buf.write_byte(#[verifier::truncate] (*self as u8))
    }
}

impl McBufWritable for GameType {
    /// One byte: the game mode's id.
    open spec fn wire(&self) -> Outcome {
        wrote(seq![self.id()])
    }

    fn write_into(&self, buf: &mut Vec<u8>) -> (r: Result<(), WriteError>) {
        u8::write_into(&self.to_id(), buf)
    }
}

impl McBufWritable for Option<GameType> {
    /// One byte: the game mode's id, or the byte 255, which holds the
    /// pattern of `NO_GAME_TYPE_ID`, for none.
    open spec fn wire(&self) -> Outcome {
        wrote(seq![GameType::optional_id(*self) as u8])
    }

    fn write_into(&self, buf: &mut Vec<u8>) -> (r: Result<(), WriteError>) {
        buf.write_byte(#[verifier::truncate] (GameType::to_optional_id(self) as u8))
    }
}

impl McBufWritable for Vec<ResourceLocation> {
    /// The number of names as a VarInt, then each name in order as a
    /// `ResourceLocation` is written; the write stops at the first name that
    /// is too long.
    open spec fn wire(&self) -> Outcome {
        wrote(length_prefix(self@.len())).followed_by(
            in_turn(self@.map_values(|location: ResourceLocation| location_outcome(location))),
        )
    }

    fn write_into(&self, buf: &mut Vec<u8>) -> (r: Result<(), WriteError>) {
        let writer = |buf: &mut Vec<u8>, location: &ResourceLocation| -> (r: Result<
            (),
            WriteError,
        >)
            ensures
                final(buf)@ == old(buf)@ + location_outcome(*location).bytes,
                location_outcome(*location).reported_as(r),
            {
                buf.write_resource_location(location)
            };
        let r = buf.write_list(self.as_slice(), writer);
        proof {
            let enc = |location: ResourceLocation| location_outcome(location);
            let out = wrote(length_prefix(self@.len())).followed_by(
                in_turn(self@.map_values(enc)),
            );
            assert(buf@ == old(buf)@ + out.bytes && out.reported_as(r));
        }
        r
    }
}

impl McBufWritable for EncodedTag {
    /// The codec's bytes; the codec's failure where it failed.
    open spec fn wire(&self) -> Outcome {
        nbt_outcome(*self)
    }

    fn write_into(&self, buf: &mut Vec<u8>) -> (r: Result<(), WriteError>) {
        buf.write_nbt(self)
    }
}

impl McBufWritable for Difficulty {
    /// One byte: the level's id.
    open spec fn wire(&self) -> Outcome {
        wrote(seq![self.spec_id()])
    }

    fn write_into(&self, buf: &mut Vec<u8>) -> (r: Result<(), WriteError>) {
        u8::write_into(&self.id(), buf)
    }
}

impl McBufWritable for Component {
    /// Rich text has no wire form yet: nothing is written.
    open spec fn wire(&self) -> Outcome {
        refused(WriteError::Unimplemented)
    }

    fn write_into(&self, buf: &mut Vec<u8>) -> (r: Result<(), WriteError>) {
        Err(WriteError::Unimplemented)
    }
}

} // verus!
