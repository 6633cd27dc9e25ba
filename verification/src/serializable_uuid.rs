//! A 128-bit identifier as four 32-bit words, the form in which the protocol
//! carries it.

use uuid::Uuid;
use vstd::prelude::*;

verus! {

/// The `uuid` crate's identifier. Nothing inside it is visible here.
#[verifier::external_type_specification]
#[verifier::external_body]
pub struct ExUuid(uuid::Uuid);

/// The 128-bit value that an identifier holds: what `Uuid::as_u128` returns
/// for it.
pub uninterp spec fn uuid_bits(id: Uuid) -> u128;

/// `Uuid::as_u128`: the identifier's sixteen bytes packed into one 128-bit
/// value, first byte most significant.
#[verifier::external_body]
fn uuid_as_u128(id: &Uuid) -> (value: u128)
    ensures
        value == uuid_bits(*id),
{
    id.as_u128()
}

/// `Uuid::from_u128`: the identifier whose sixteen bytes are those of `value`,
/// most significant first, so that `as_u128` gives `value` back.
#[verifier::external_body]
fn uuid_from_u128(value: u128) -> (id: Uuid)
    ensures
        uuid_bits(id) == value,
{
    Uuid::from_u128(value)
}

/// The upper 64 bits of a 128-bit value.
pub open spec fn most_significant(value: u128) -> u64 {
    (value >> 64) as u64
}

/// The lower 64 bits of a 128-bit value.
pub open spec fn least_significant(value: u128) -> u64 {
    (value & 0xffff_ffff_ffff_ffff) as u64
}

/// The four words of two 64-bit halves: the upper and lower 32 bits of
/// `most`, then those of `least`.
pub open spec fn halves_to_words(most: u64, least: u64) -> Seq<u32> {
    seq![
        (most >> 32) as u32,
        (most & 0xffff_ffff) as u32,
        (least >> 32) as u32,
        (least & 0xffff_ffff) as u32,
    ]
}

/// The four words of a 128-bit value, most significant first.
pub open spec fn to_words(value: u128) -> Seq<u32> {
    halves_to_words(most_significant(value), least_significant(value))
}

/// The 128-bit value of four words, most significant first.
pub open spec fn from_words(words: Seq<u32>) -> u128 {
    let most = ((words[0] as u64) << 32) | (words[1] as u64);
    let least = ((words[2] as u64) << 32) | (words[3] as u64);
    ((most as u128) << 64) | (least as u128)
}

/// Splitting a value into words and putting the words together again gives
/// the value back, for every 128-bit value.
pub proof fn lemma_words_round_trip(value: u128)
    ensures
        from_words(to_words(value)) == value,
{
    let most = (value >> 64) as u64;
    let least = (value & 0xffff_ffff_ffff_ffff) as u64;
    let w0 = (most >> 32) as u32;
    let w1 = (most & 0xffff_ffff) as u32;
    let w2 = (least >> 32) as u32;
    let w3 = (least & 0xffff_ffff) as u32;
    assert(((((w0 as u64) << 32) | (w1 as u64)) as u128) << 64 | ((((w2 as u64) << 32) | (
    w3 as u64)) as u128) == value) by (bit_vector)
        requires
            most == (value >> 64) as u64,
            least == (value & 0xffff_ffff_ffff_ffff) as u64,
            w0 == (most >> 32) as u32,
            w1 == (most & 0xffff_ffff) as u32,
            w2 == (least >> 32) as u32,
            w3 == (least & 0xffff_ffff) as u32,
    ;
}

/// Putting four words together and splitting the value again gives the words
/// back: with the law above, the two forms correspond one to one.
pub proof fn lemma_value_round_trip(words: Seq<u32>)
    requires
        words.len() == 4,
    ensures
        to_words(from_words(words)) == words,
{
    let w0 = words[0];
    let w1 = words[1];
    let w2 = words[2];
    let w3 = words[3];
    let value = from_words(words);
    let most = (value >> 64) as u64;
    let least = (value & 0xffff_ffff_ffff_ffff) as u64;
    assert((most >> 32) as u32 == w0 && (most & 0xffff_ffff) as u32 == w1 && (least >> 32) as u32
        == w2 && (least & 0xffff_ffff) as u32 == w3) by (bit_vector)
        requires
            value == ((((w0 as u64) << 32) | (w1 as u64)) as u128) << 64 | ((((w2 as u64) << 32)
                | (w3 as u64)) as u128),
            most == (value >> 64) as u64,
            least == (value & 0xffff_ffff_ffff_ffff) as u64,
    ;
    assert(to_words(value) =~= words);
}

/// The four words of two 64-bit halves.
pub fn least_most_to_int_array(most: u64, least: u64) -> (words: [u32; 4])
    ensures
        words@ == halves_to_words(most, least),
{
    let w0 = #[verifier::truncate] ((most >> 32) as u32);
    let w1 = #[verifier::truncate] (most as u32);
    let w2 = #[verifier::truncate] ((least >> 32) as u32);
    let w3 = #[verifier::truncate] (least as u32);
    assert(w1 == (most & 0xffff_ffff) as u32 && w3 == (least & 0xffff_ffff) as u32)
        by (bit_vector)
        requires
            w1 == most as u32,
            w3 == least as u32,
    ;
    let words = [w0, w1, w2, w3];
    assert(words@ =~= halves_to_words(most, least));
    words
}

/// An identifier that the protocol carries as four 32-bit words.
pub trait SerializableUuid: Sized {
    /// The 128-bit value of the identifier.
    spec fn bits(&self) -> u128;

    /// The identifier's four words, most significant first.
    fn to_int_array(&self) -> (words: [u32; 4])
        ensures
            words@ == to_words(self.bits()),
    ;

    /// The identifier that the four words stand for.
    fn from_int_array(array: [u32; 4]) -> (id: Self)
        ensures
            id.bits() == from_words(array@),
    ;
}

impl SerializableUuid for Uuid {
    open spec fn bits(&self) -> u128 {
        uuid_bits(*self)
    }

    fn to_int_array(&self) -> (words: [u32; 4]) {
        let value = uuid_as_u128(self);
        let most_significant_bits = #[verifier::truncate] ((value >> 64) as u64);
        let least_significant_bits = #[verifier::truncate] ((value & 0xffffffffffffffff) as u64);
        least_most_to_int_array(most_significant_bits, least_significant_bits)
    }

    fn from_int_array(array: [u32; 4]) -> (id: Self) {
        let most = ((array[0] as u64) << 32) | ((array[1] as u64) & 0xFFFFFFFF);
        let least = ((array[2] as u64) << 32) | ((array[3] as u64) & 0xFFFFFFFF);
        let value = ((most as u128) << 64) | (least as u128);
        let ghost w0 = array@[0];
        let ghost w1 = array@[1];
        let ghost w2 = array@[2];
        let ghost w3 = array@[3];
        assert(value == ((((w0 as u64) << 32) | (w1 as u64)) as u128) << 64 | ((((w2 as u64) << 32)
            | (w3 as u64)) as u128)) by (bit_vector)
            requires
                most == ((w0 as u64) << 32) | ((w1 as u64) & 0xFFFFFFFF),
                least == ((w2 as u64) << 32) | ((w3 as u64) & 0xFFFFFFFF),
                value == ((most as u128) << 64) | (least as u128),
        ;
        uuid_from_u128(value)
    }
}

} // verus!
