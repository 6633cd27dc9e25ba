//! The primitive writers of the protocol, and the writers of lists and maps
//! that are built from them, on an append-only sink of bytes.

use crate::big_endian::{be_bytes_u16, be_bytes_u32, be_bytes_u64, i16_to_be, i32_to_be, i64_to_be};
use crate::error::WriteError;
use crate::nbt::EncodedTag;
use crate::outcome::{in_turn, joined, lemma_in_turn_stops, lemma_in_turn_written, refused, wrote, Outcome};
use crate::resource_location::ResourceLocation;
use crate::varint::{varint_bytes, varint_of};
use vstd::prelude::*;
use vstd::utf8::encode_utf8;

verus! {

/// The most bytes that the UTF-8 form of a string may have.
pub const MAX_STRING_LENGTH: u16 = 32767;

/// The count that stands before a sequence of `n` items: the VarInt of `n`
/// taken as a 32-bit value, so that a count beyond the 32-bit range wraps
/// around.
pub open spec fn length_prefix(n: nat) -> Seq<u8> {
    varint_bytes(#[verifier::truncate] (n as i32))
}

/// A string on the wire: the VarInt of the byte length of its UTF-8 form,
/// then that form. A string of more than `max` bytes is refused.
pub open spec fn utf_outcome(s: Seq<char>, max: usize) -> Outcome {
    let bytes = encode_utf8(s);
    if bytes.len() > max {
        refused(WriteError::StringTooLong { len: bytes.len() as usize, max })
    } else {
        wrote(length_prefix(bytes.len()) + bytes)
    }
}

/// A byte array on the wire: the VarInt of its length, then its bytes.
pub open spec fn byte_array_bytes(bytes: Seq<u8>) -> Seq<u8> {
    length_prefix(bytes.len()) + bytes
}

/// A structured tag on the wire: the codec's bytes as they are. Where the
/// codec failed, the write fails with the codec's message.
pub open spec fn nbt_outcome(nbt: EncodedTag) -> Outcome {
    match nbt {
        EncodedTag::Bytes(bytes) => wrote(bytes@),
        EncodedTag::Failed(message) => refused(WriteError::Io { message }),
    }
}

/// The VarInts of `items`, one after another.
pub open spec fn varints(items: Seq<i32>) -> Seq<u8> {
    joined(items.map_values(|v: i32| varint_bytes(v)))
}

/// The outcome of writing each pair of `pairs` in order, the key and then the
/// value, where `key` and `value` give the outcome for a single key and value.
pub open spec fn pairs_in_turn<K, V>(
    pairs: Seq<(K, V)>,
    key: spec_fn(K) -> Outcome,
    value: spec_fn(V) -> Outcome,
) -> Outcome {
    in_turn(pairs.map_values(|p: (K, V)| key(p.0).followed_by(value(p.1))))
}

/// A sink that the protocol's values are written to. Every operation only
/// appends: what was written before stays as it is.
pub trait Writable: Sized {
    /// The bytes written so far.
    spec fn written(&self) -> Seq<u8>;

    /// Writes the number of items as a VarInt and then each item in order
    /// with `writer`, stopping at the first item that `writer` fails on.
    ///
    /// The contract holds for every description `enc` of what `writer` does:
    /// if `writer`, given an item of the list, appends `enc(item).bytes` and
    /// returns `enc(item).failure`, then the list is written as the count
    /// followed by the items' outcomes in turn.
    fn write_list<F, T>(&mut self, list: &[T], writer: F) -> (r: Result<(), WriteError>) where
        F: FnOnce(&mut Self, &T) -> Result<(), WriteError> + Copy,
        T: Sized,

        requires
            forall|b: &mut Self, i: int|
                0 <= i < list@.len() ==> call_requires(writer, (b, &list@[i])),
        ensures
            forall|enc: spec_fn(T) -> Outcome|
                (forall|i: int, b: &mut Self, r: Result<(), WriteError>|
                    0 <= i < list@.len() && #[trigger] call_ensures(writer, (b, &list@[i]), r)
                        ==> final(b).written() == b.written() + enc(list@[i]).bytes && enc(
                        list@[i],
                    ).reported_as(r)) ==> {
                    let out = wrote(length_prefix(list@.len())).followed_by(
                        #[trigger] in_turn(list@.map_values(enc)),
                    );
                    final(self).written() == old(self).written() + out.bytes && out.reported_as(r)
                },
    ;

    /// Writes a list of ids: the number of ids and then each id, all as
    /// VarInts.
    fn write_int_id_list(&mut self, list: &Vec<i32>) -> (r: Result<(), WriteError>)
        ensures
            r is Ok,
            final(self).written() == old(self).written() + length_prefix(list@.len())
                + varints(list@),
    ;

    /// Writes the number of pairs as a VarInt and then each pair in order,
    /// its key with `key_writer` and at once its value with `value_writer`,
    /// stopping at the first failure.
    ///
    /// The contract holds for every description `key`, `value` of what the
    /// two writers do, as in `write_list`.
    fn write_map<KF, VF, KT, VT>(
        &mut self,
        map: Vec<(KT, VT)>,
        key_writer: KF,
        value_writer: VF,
    ) -> (r: Result<(), WriteError>) where
        KF: Fn(&mut Self, KT) -> Result<(), WriteError> + Copy,
        VF: Fn(&mut Self, VT) -> Result<(), WriteError> + Copy,

        requires
            forall|b: &mut Self, i: int|
                0 <= i < map@.len() ==> call_requires(key_writer, (b, map@[i].0)),
            forall|b: &mut Self, i: int|
                0 <= i < map@.len() ==> call_requires(value_writer, (b, map@[i].1)),
        ensures
            forall|key: spec_fn(KT) -> Outcome, value: spec_fn(VT) -> Outcome|
                (forall|i: int, b: &mut Self, r: Result<(), WriteError>|
                    0 <= i < map@.len() && #[trigger] call_ensures(key_writer, (b, map@[i].0), r)
                        ==> final(b).written() == b.written() + key(map@[i].0).bytes && key(
                        map@[i].0,
                    ).reported_as(r)) && (forall|i: int, b: &mut Self, r: Result<(), WriteError>|
                    0 <= i < map@.len() && #[trigger] call_ensures(value_writer, (b, map@[i].1), r)
                        ==> final(b).written() == b.written() + value(map@[i].1).bytes && value(
                        map@[i].1,
                    ).reported_as(r)) ==> {
                    let out = wrote(length_prefix(map@.len())).followed_by(
                        #[trigger] pairs_in_turn(map@, key, value),
                    );
                    final(self).written() == old(self).written() + out.bytes && out.reported_as(r)
                },
    ;

    /// Appends one byte.
    fn write_byte(&mut self, n: u8) -> (r: Result<(), WriteError>)
        ensures
            r is Ok,
            final(self).written() == old(self).written() + seq![n],
    ;

    /// Appends `bytes` as they are, without a length before them.
    fn write_bytes(&mut self, bytes: &[u8]) -> (r: Result<(), WriteError>)
        ensures
            r is Ok,
            final(self).written() == old(self).written() + bytes@,
    ;

    /// Appends the VarInt of `value`.
    fn write_varint(&mut self, value: i32) -> (r: Result<(), WriteError>)
        ensures
            r is Ok,
            final(self).written() == old(self).written() + varint_bytes(value),
    ;

    /// Writes `string` as the VarInt of the byte length of its UTF-8 form
    /// and then that form; fails, and writes nothing, where the form has
    /// more than `len` bytes.
    fn write_utf_with_len(&mut self, string: &str, len: usize) -> (r: Result<(), WriteError>)
        ensures
            final(self).written() == old(self).written() + utf_outcome(string@, len).bytes,
            utf_outcome(string@, len).reported_as(r),
            r is Err <==> encode_utf8(string@).len() > len,
            r is Err ==> final(self).written() == old(self).written(),
    ;

    /// Writes `string` under the protocol's limit, `MAX_STRING_LENGTH`.
    fn write_utf(&mut self, string: &str) -> (r: Result<(), WriteError>)
        ensures
            final(self).written() == old(self).written() + utf_outcome(
                string@,
                MAX_STRING_LENGTH as usize,
            ).bytes,
            utf_outcome(string@, MAX_STRING_LENGTH as usize).reported_as(r),
            r is Err <==> encode_utf8(string@).len() > MAX_STRING_LENGTH,
            r is Err ==> final(self).written() == old(self).written(),
    ;

    /// Appends the two bytes of `n`, most significant first.
    fn write_short(&mut self, n: i16) -> (r: Result<(), WriteError>)
        ensures
            r is Ok,
            final(self).written() == old(self).written() + be_bytes_u16(n as u16),
    ;

    /// Appends the VarInt of the length of `bytes` and then `bytes`.
    fn write_byte_array(&mut self, bytes: &[u8]) -> (r: Result<(), WriteError>)
        ensures
            r is Ok,
            final(self).written() == old(self).written() + byte_array_bytes(bytes@),
    ;

    /// Appends the four bytes of `n`, most significant first.
    fn write_int(&mut self, n: i32) -> (r: Result<(), WriteError>)
        ensures
            r is Ok,
            final(self).written() == old(self).written() + be_bytes_u32(n as u32),
    ;

    /// Appends one byte: 1 for `true`, 0 for `false`.
    fn write_boolean(&mut self, b: bool) -> (r: Result<(), WriteError>)
        ensures
            r is Ok,
            final(self).written() == old(self).written() + seq![if b { 1u8 } else { 0u8 }],
    ;

    /// Appends a structured tag as the tag codec encoded it; fails with the
    /// codec's message, and writes nothing, where the codec failed.
    fn write_nbt(&mut self, nbt: &EncodedTag) -> (r: Result<(), WriteError>)
        ensures
            final(self).written() == old(self).written() + nbt_outcome(*nbt).bytes,
            nbt_outcome(*nbt).reported_as(r),
    ;

    /// Appends the eight bytes of `n`, most significant first.
    fn write_long(&mut self, n: i64) -> (r: Result<(), WriteError>)
        ensures
            r is Ok,
            final(self).written() == old(self).written() + be_bytes_u64(n as u64),
    ;

    /// Writes the canonical string form of `location` as `write_utf` does.
    fn write_resource_location(&mut self, location: &ResourceLocation) -> (r: Result<
        (),
        WriteError,
    >)
        ensures
            final(self).written() == old(self).written() + utf_outcome(
                location.canonical(),
                MAX_STRING_LENGTH as usize,
            ).bytes,
            utf_outcome(location.canonical(), MAX_STRING_LENGTH as usize).reported_as(r),
    ;
}

impl Writable for Vec<u8> {
    open spec fn written(&self) -> Seq<u8> {
        self@
    }

    fn write_list<F, T>(&mut self, list: &[T], writer: F) -> (r: Result<(), WriteError>) where
        F: FnOnce(&mut Self, &T) -> Result<(), WriteError> + Copy,
        T: Sized,
    {
        self.write_varint(#[verifier::truncate] (list.len() as i32))?;
        let ghost start = self@;
        let mut i: usize = 0;
        while i < list.len()
            invariant
                i <= list@.len(),
                start == old(self)@ + length_prefix(list@.len()),
                forall|b: &mut Self, i: int|
                    0 <= i < list@.len() ==> call_requires(writer, (b, &list@[i])),
                forall|enc: spec_fn(T) -> Outcome|
                    (forall|i: int, b: &mut Self, r: Result<(), WriteError>|
                        0 <= i < list@.len() && #[trigger] call_ensures(writer, (b, &list@[i]), r)
                            ==> final(b).written() == b.written() + enc(list@[i]).bytes && enc(
                            list@[i],
                        ).reported_as(r)) ==> {
                        let out = #[trigger] in_turn(list@.take(i as int).map_values(enc));
                        self@ == start + out.bytes && out.failure is None
                    },
            decreases list@.len() - i,
        {
            let ghost before = self@;
            let r = writer(self, &list[i]);
            proof {
                assert forall|enc: spec_fn(T) -> Outcome|
                    (forall|i: int, b: &mut Self, r: Result<(), WriteError>|
                        0 <= i < list@.len() && #[trigger] call_ensures(writer, (b, &list@[i]), r)
                            ==> final(b).written() == b.written() + enc(list@[i]).bytes && enc(
                            list@[i],
                        ).reported_as(r)) implies {
                    let out = #[trigger] in_turn(list@.take(i + 1).map_values(enc));
                    self@ == start + out.bytes && out.reported_as(r)
                } by {
                    let outs = list@.take(i + 1).map_values(enc);
                    let sooner = in_turn(list@.take(i as int).map_values(enc));
                    assert(outs.drop_last() =~= list@.take(i as int).map_values(enc));
                    assert(outs.last() == enc(list@[i as int]));
                    assert(before == start + sooner.bytes);
                    assert(self@ == before + enc(list@[i as int]).bytes);
                }
            }
            if r.is_err() {
                proof {
                    assert forall|enc: spec_fn(T) -> Outcome|
                        (forall|i: int, b: &mut Self, r: Result<(), WriteError>|
                            0 <= i < list@.len() && #[trigger] call_ensures(
                                writer,
                                (b, &list@[i]),
                                r,
                            ) ==> final(b).written() == b.written() + enc(list@[i]).bytes && enc(
                                list@[i],
                            ).reported_as(r)) implies {
                        let out = wrote(length_prefix(list@.len())).followed_by(
                            #[trigger] in_turn(list@.map_values(enc)),
                        );
                        self@ == old(self)@ + out.bytes && out.reported_as(r)
                    } by {
                        let outs = list@.map_values(enc);
                        assert(outs.take(i + 1) =~= list@.take(i + 1).map_values(enc));
                        assert(in_turn(list@.take(i + 1).map_values(enc)).reported_as(r));
                        lemma_in_turn_stops(outs, i + 1);
                    }
                }
                return r;
            }
            i = i + 1;
        }
        proof {
            assert(list@.take(i as int) =~= list@);
            assert forall|enc: spec_fn(T) -> Outcome|
                (forall|i: int, b: &mut Self, r: Result<(), WriteError>|
                    0 <= i < list@.len() && #[trigger] call_ensures(writer, (b, &list@[i]), r)
                        ==> final(b).written() == b.written() + enc(list@[i]).bytes && enc(
                        list@[i],
                    ).reported_as(r)) implies {
                let out = wrote(length_prefix(list@.len())).followed_by(
                    #[trigger] in_turn(list@.map_values(enc)),
                );
                self@ == old(self)@ + out.bytes && out.failure is None
            } by {
                let out = in_turn(list@.take(i as int).map_values(enc));
                assert(self@ == start + out.bytes && out.failure is None);
            }
        }
        Ok(())
    }

    fn write_int_id_list(&mut self, list: &Vec<i32>) -> (r: Result<(), WriteError>) {
        let writer = |buf: &mut Vec<u8>, n: &i32| -> (r: Result<(), WriteError>)
            ensures
                r is Ok,
                final(buf)@ == old(buf)@ + varint_bytes(*n),
            {
                buf.write_varint(*n)
            };
        let r = self.write_list(list.as_slice(), writer);
        proof {
            let enc = |v: i32| wrote(varint_bytes(v));
            let outs = list@.map_values(enc);
            lemma_in_turn_written(outs);
            assert(outs.map_values(|o: Outcome| o.bytes) =~= list@.map_values(
                |v: i32| varint_bytes(v),
            ));
            let out = wrote(length_prefix(list@.len())).followed_by(in_turn(outs));
            assert(self@ == old(self)@ + out.bytes && out.reported_as(r));
        }
        r
    }

    fn write_map<KF, VF, KT, VT>(
        &mut self,
        map: Vec<(KT, VT)>,
        key_writer: KF,
        value_writer: VF,
    ) -> (r: Result<(), WriteError>) where
        KF: Fn(&mut Self, KT) -> Result<(), WriteError> + Copy,
        VF: Fn(&mut Self, VT) -> Result<(), WriteError> + Copy,
    {
        self.write_varint(#[verifier::truncate] (map.len() as i32))?;
        let ghost pairs = map@;
        let ghost start = self@;
        for pair in it: map
            invariant
                it.seq() == pairs,
                start == old(self)@ + length_prefix(pairs.len()),
                forall|b: &mut Self, i: int|
                    0 <= i < pairs.len() ==> call_requires(key_writer, (b, pairs[i].0)),
                forall|b: &mut Self, i: int|
                    0 <= i < pairs.len() ==> call_requires(value_writer, (b, pairs[i].1)),
                forall|key: spec_fn(KT) -> Outcome, value: spec_fn(VT) -> Outcome|
                    (forall|i: int, b: &mut Self, r: Result<(), WriteError>|
                        0 <= i < pairs.len() && #[trigger] call_ensures(
                            key_writer,
                            (b, pairs[i].0),
                            r,
                        ) ==> final(b).written() == b.written() + key(pairs[i].0).bytes && key(
                            pairs[i].0,
                        ).reported_as(r)) && (forall|i: int, b: &mut Self, r: Result<(), WriteError>|
                        0 <= i < pairs.len() && #[trigger] call_ensures(
                            value_writer,
                            (b, pairs[i].1),
                            r,
                        ) ==> final(b).written() == b.written() + value(pairs[i].1).bytes && value(
                            pairs[i].1,
                        ).reported_as(r)) ==> {
                        let out = #[trigger] pairs_in_turn(
                            pairs.take(it.index() as int),
                            key,
                            value,
                        );
                        self@ == start + out.bytes && out.failure is None
                    },
        {
            let ghost at = it.index() as int;
            let ghost before = self@;
            let (key_item, value_item) = pair;
            assert(pairs[at] == (key_item, value_item));
            let rk = key_writer(self, key_item);
            let ghost between = self@;
            if rk.is_err() {
                proof {
                    assert forall|key: spec_fn(KT) -> Outcome, value: spec_fn(VT) -> Outcome|
                        (forall|i: int, b: &mut Self, r: Result<(), WriteError>|
                            0 <= i < pairs.len() && #[trigger] call_ensures(
                                key_writer,
                                (b, pairs[i].0),
                                r,
                            ) ==> final(b).written() == b.written() + key(pairs[i].0).bytes && key(
                                pairs[i].0,
                            ).reported_as(r)) && (forall|
                            i: int,
                            b: &mut Self,
                            r: Result<(), WriteError>,
                        |
                            0 <= i < pairs.len() && #[trigger] call_ensures(
                                value_writer,
                                (b, pairs[i].1),
                                r,
                            ) ==> final(b).written() == b.written() + value(pairs[i].1).bytes
                                && value(pairs[i].1).reported_as(r)) implies {
                        let out = wrote(length_prefix(pairs.len())).followed_by(
                            #[trigger] pairs_in_turn(pairs, key, value),
                        );
                        self@ == old(self)@ + out.bytes && out.reported_as(rk)
                    } by {
                        let each = |p: (KT, VT)| key(p.0).followed_by(value(p.1));
                        let sooner = pairs_in_turn(pairs.take(at), key, value);
                        assert(before == start + sooner.bytes && sooner.failure is None);
                        let outs = pairs.map_values(each);
                        assert(outs.take(at + 1).drop_last() =~= pairs.take(at).map_values(each));
                        assert(outs.take(at + 1).last() == key(key_item).followed_by(
                            value(value_item),
                        ));
                        assert(between == before + key(key_item).bytes);
                        lemma_in_turn_stops(outs, at + 1);
                    }
                }
                return rk;
            }
            let rv = value_writer(self, value_item);
            proof {
                assert forall|key: spec_fn(KT) -> Outcome, value: spec_fn(VT) -> Outcome|
                    (forall|i: int, b: &mut Self, r: Result<(), WriteError>|
                        0 <= i < pairs.len() && #[trigger] call_ensures(
                            key_writer,
                            (b, pairs[i].0),
                            r,
                        ) ==> final(b).written() == b.written() + key(pairs[i].0).bytes && key(
                            pairs[i].0,
                        ).reported_as(r)) && (forall|i: int, b: &mut Self, r: Result<(), WriteError>|
                        0 <= i < pairs.len() && #[trigger] call_ensures(
                            value_writer,
                            (b, pairs[i].1),
                            r,
                        ) ==> final(b).written() == b.written() + value(pairs[i].1).bytes && value(
                            pairs[i].1,
                        ).reported_as(r)) implies {
                    let out = #[trigger] pairs_in_turn(pairs.take(at + 1), key, value);
                    self@ == start + out.bytes && out.reported_as(rv)
                } by {
                    let each = |p: (KT, VT)| key(p.0).followed_by(value(p.1));
                    let sooner = pairs_in_turn(pairs.take(at), key, value);
                    assert(before == start + sooner.bytes && sooner.failure is None);
                    let outs = pairs.take(at + 1).map_values(each);
                    assert(outs.drop_last() =~= pairs.take(at).map_values(each));
                    assert(outs.last() == key(key_item).followed_by(value(value_item)));
                    assert(between == before + key(key_item).bytes);
                    assert(self@ == between + value(value_item).bytes);
                    assert(self@ == start + (sooner.bytes + (key(key_item).bytes + value(
                        value_item,
                    ).bytes)));
                }
            }
            if rv.is_err() {
                proof {
                    assert forall|key: spec_fn(KT) -> Outcome, value: spec_fn(VT) -> Outcome|
                        (forall|i: int, b: &mut Self, r: Result<(), WriteError>|
                            0 <= i < pairs.len() && #[trigger] call_ensures(
                                key_writer,
                                (b, pairs[i].0),
                                r,
                            ) ==> final(b).written() == b.written() + key(pairs[i].0).bytes && key(
                                pairs[i].0,
                            ).reported_as(r)) && (forall|
                            i: int,
                            b: &mut Self,
                            r: Result<(), WriteError>,
                        |
                            0 <= i < pairs.len() && #[trigger] call_ensures(
                                value_writer,
                                (b, pairs[i].1),
                                r,
                            ) ==> final(b).written() == b.written() + value(pairs[i].1).bytes
                                && value(pairs[i].1).reported_as(r)) implies {
                        let out = wrote(length_prefix(pairs.len())).followed_by(
                            #[trigger] pairs_in_turn(pairs, key, value),
                        );
                        self@ == old(self)@ + out.bytes && out.reported_as(rv)
                    } by {
                        let each = |p: (KT, VT)| key(p.0).followed_by(value(p.1));
                        let part = pairs_in_turn(pairs.take(at + 1), key, value);
                        assert(self@ == start + part.bytes && part.reported_as(rv));
                        let outs = pairs.map_values(each);
                        assert(outs.take(at + 1) =~= pairs.take(at + 1).map_values(each));
                        lemma_in_turn_stops(outs, at + 1);
                    }
                }
                return rv;
            }
        }
        proof {
            assert(pairs.take(pairs.len() as int) =~= pairs);
            assert forall|key: spec_fn(KT) -> Outcome, value: spec_fn(VT) -> Outcome|
                (forall|i: int, b: &mut Self, r: Result<(), WriteError>|
                    0 <= i < pairs.len() && #[trigger] call_ensures(key_writer, (b, pairs[i].0), r)
                        ==> final(b).written() == b.written() + key(pairs[i].0).bytes && key(
                        pairs[i].0,
                    ).reported_as(r)) && (forall|i: int, b: &mut Self, r: Result<(), WriteError>|
                    0 <= i < pairs.len() && #[trigger] call_ensures(
                        value_writer,
                        (b, pairs[i].1),
                        r,
                    ) ==> final(b).written() == b.written() + value(pairs[i].1).bytes && value(
                        pairs[i].1,
                    ).reported_as(r)) implies {
                let out = wrote(length_prefix(pairs.len())).followed_by(
                    #[trigger] pairs_in_turn(pairs, key, value),
                );
                self@ == old(self)@ + out.bytes && out.failure is None
            } by {
                let out = pairs_in_turn(pairs.take(pairs.len() as int), key, value);
                assert(self@ == start + out.bytes && out.failure is None);
            }
        }
        Ok(())
    }

    fn write_byte(&mut self, n: u8) -> (r: Result<(), WriteError>) {
        self.push(n);
        assert(self@ == old(self)@ + seq![n]);
        Ok(())
    }

    fn write_bytes(&mut self, bytes: &[u8]) -> (r: Result<(), WriteError>) {
        self.extend_from_slice(bytes);
        assert(self@ == old(self)@ + bytes@);
        Ok(())
    }

    fn write_varint(&mut self, value: i32) -> (r: Result<(), WriteError>) {
        let mut rest: u32 = value as u32;
        if rest == 0 {
            self.push(0);
        }
        while rest != 0
            invariant
                rest != 0 ==> old(self)@ + varint_of(value as u32) == self@ + varint_of(rest),
                rest == 0 ==> self@ == old(self)@ + varint_of(value as u32),
            decreases rest,
        {
            let ghost before = rest;
            let mut byte: u8 = (rest & 0x7f) as u8;
            rest = rest >> 7;
            if rest != 0 {
                byte = byte | 0x80;
            }
            assert(rest < before && (rest != 0 <==> before >= 0x80) && byte == (if before < 0x80 {
                before as u8
            } else {
                ((before & 0x7f) | 0x80) as u8
            })) by (bit_vector)
                requires
                    before != 0,
                    rest == before >> 7,
                    byte == (if rest != 0 {
                        ((before & 0x7f) as u8) | 0x80
                    } else {
                        (before & 0x7f) as u8
                    }),
            ;
            self.push(byte);
            proof {
                let s = old(self)@ + varint_of(value as u32);
                if rest != 0 {
                    assert(s =~= self@ + varint_of(rest));
                } else {
                    assert(self@ =~= s);
                }
            }
        }
        Ok(())
    }

    fn write_utf_with_len(&mut self, string: &str, len: usize) -> (r: Result<(), WriteError>) {
        let bytes = string.as_bytes();
        let n = bytes.len();
        if n > len {
            return Err(WriteError::StringTooLong { len: n, max: len });
        }
        self.write_varint(#[verifier::truncate] (n as i32))?;
        self.write_bytes(bytes)
    }

    fn write_utf(&mut self, string: &str) -> (r: Result<(), WriteError>) {
        self.write_utf_with_len(string, MAX_STRING_LENGTH as usize)
    }

    fn write_short(&mut self, n: i16) -> (r: Result<(), WriteError>) {
        let bytes = i16_to_be(n);
        self.write_bytes(bytes.as_slice())
    }

    fn write_byte_array(&mut self, bytes: &[u8]) -> (r: Result<(), WriteError>) {
        self.write_varint(#[verifier::truncate] (bytes.len() as i32))?;
        self.write_bytes(bytes)
    }

    fn write_int(&mut self, n: i32) -> (r: Result<(), WriteError>) {
        let bytes = i32_to_be(n);
        self.write_bytes(bytes.as_slice())
    }

    fn write_boolean(&mut self, b: bool) -> (r: Result<(), WriteError>) {
        self.write_byte(if b { 1 } else { 0 })
    }

    fn write_nbt(&mut self, nbt: &EncodedTag) -> (r: Result<(), WriteError>) {
        match nbt {
            EncodedTag::Bytes(bytes) => self.write_bytes(bytes.as_slice()),
            EncodedTag::Failed(message) => Err(WriteError::Io { message: message.clone() }),
        }
    }

    fn write_long(&mut self, n: i64) -> (r: Result<(), WriteError>) {
        let bytes = i64_to_be(n);
        self.write_bytes(bytes.as_slice())
    }

    fn write_resource_location(&mut self, location: &ResourceLocation) -> (r: Result<
        (),
        WriteError,
    >) {
        let name = location.to_string();
        self.write_utf(name.as_str())
    }
}

} // verus!
