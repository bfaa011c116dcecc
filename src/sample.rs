//! Benchmark samples: a random signed 16-bit value paired with a random
//! version-4 identifier, rendered as the value's decimal text immediately
//! followed by the identifier's canonical text.

use vstd::prelude::*;

use crate::decimal::{
    decimal_text, int_decimal, is_signed_numeral, lemma_int_decimal_reads_back, signed_value,
};
use crate::identifier::{
    hyphenated, is_v4, is_v4_text, lemma_hyphenated_is_v4_text, random_v4, uuid_text,
};

verus! {

/// How many samples one benchmark run renders.
pub const SAMPLE_COUNT: usize = 10000;

/// Relies on rand::random: a value drawn from the thread-local generator.
/// Nothing is promised of it beyond its type.
pub assume_specification<T>[ rand::random::<T> ]() -> (r: T)
    where
        rand::distributions::Standard: rand::distributions::Distribution<T>,
;

/// One sample: a signed 16-bit value and a 128-bit identifier.
#[derive(Debug, Clone, Copy)]
pub struct TestingStruct {
    pub value: i16,
    pub id: u128,
}

/// The text of a sample with value `value` and identifier `id`.
pub open spec fn entry_text(value: i16, id: u128) -> Seq<char> {
    int_decimal(value as int) + hyphenated(id)
}

/// The leading numeral of an entry: all but its last 36 characters.
pub open spec fn numeral_part(s: Seq<char>) -> Seq<char> {
    s.subrange(0, s.len() - 36)
}

/// The trailing identifier of an entry: its last 36 characters.
pub open spec fn identifier_part(s: Seq<char>) -> Seq<char> {
    s.subrange(s.len() - 36, s.len() as int)
}

/// Whether `s` is a signed numeral immediately followed by the canonical text
/// of a version-4 identifier.
pub open spec fn is_entry(s: Seq<char>) -> bool {
    &&& s.len() > 36
    &&& is_signed_numeral(numeral_part(s))
    &&& is_v4_text(identifier_part(s))
}

/// Whether the numeral of entry `s` reads back as a signed 16-bit value.
pub open spec fn numeral_in_i16_range(s: Seq<char>) -> bool {
    -32768 <= signed_value(numeral_part(s)) <= 32767
}

/// Whether `s` could come out of one sample drawn by `generate_and_format`.
pub open spec fn is_generated_entry(s: Seq<char>) -> bool {
    exists|value: i16, id: u128| is_v4(id) && s == #[trigger] entry_text(value, id)
}

impl TestingStruct {
    /// The sample's text: the value in base 10, then the identifier's canonical text.
    pub fn method(&self) -> (r: String)
        ensures
            r@ == entry_text(self.value, self.id),
    {
        let mut out = decimal_text(self.value);
        let id_text = uuid_text(self.id);
        out.append(id_text.as_str());
        out
    }
}

/// An entry splits back into the value's numeral and the identifier's text:
/// the numeral reads back as the value, and a version-4 identifier gives an
/// entry of the expected shape.
pub proof fn lemma_entry_parts(value: i16, id: u128)
    ensures
        numeral_part(entry_text(value, id)) == int_decimal(value as int),
        identifier_part(entry_text(value, id)) == hyphenated(id),
        signed_value(numeral_part(entry_text(value, id))) == value as int,
        numeral_in_i16_range(entry_text(value, id)),
        is_v4(id) ==> is_entry(entry_text(value, id)),
{
    let s = entry_text(value, id);
    let d = int_decimal(value as int);
    lemma_int_decimal_reads_back(value as int);
    assert(numeral_part(s) =~= d);
    assert(identifier_part(s) =~= hyphenated(id));
    if is_v4(id) {
        lemma_hyphenated_is_v4_text(id);
    }
}

/// Every entry that one draw can produce has the expected shape, and its
/// numeral reads back as a value in the signed 16-bit range.
pub proof fn lemma_generated_entry_shape(s: Seq<char>)
    requires
        is_generated_entry(s),
    ensures
        is_entry(s),
        numeral_in_i16_range(s),
{
    let (value, id) = choose|value: i16, id: u128| is_v4(id) && s == entry_text(value, id);
    lemma_entry_parts(value, id);
}

/// Draws a random value and a random version-4 identifier, and renders them.
pub fn generate_and_format() -> (r: String)
    ensures
        is_generated_entry(r@),
{
    let sample = TestingStruct { value: rand::random::<i16>(), id: random_v4() };
    let r = sample.method();
    assert(is_v4(sample.id) && r@ == entry_text(sample.value, sample.id));
    r
}

/// Renders `count` freshly drawn samples, in the order drawn.
pub fn generate_samples(count: usize) -> (r: Vec<String>)
    ensures
        r.len() == count,
        forall|i: int| 0 <= i < count ==> is_generated_entry(#[trigger] r[i]@),
        forall|i: int| 0 <= i < count ==> is_entry(#[trigger] r[i]@) && numeral_in_i16_range(r[i]@),
{
    let mut out: Vec<String> = Vec::new();
    let mut k: usize = 0;
    while k < count
        invariant
            k <= count,
            out.len() == k,
            forall|i: int| 0 <= i < k ==> is_generated_entry(#[trigger] out[i]@),
        decreases count - k,
    {
        out.push(generate_and_format());
        k = k + 1;
    }
    assert forall|i: int| 0 <= i < count implies is_entry(#[trigger] out[i]@) && numeral_in_i16_range(out[i]@) by {
        lemma_generated_entry_shape(out[i]@);
    }
    out
}

/// One benchmark run: exactly `SAMPLE_COUNT` rendered samples.
pub fn run_benchmark() -> (r: Vec<String>)
    ensures
        r.len() == SAMPLE_COUNT,
        forall|i: int| 0 <= i < SAMPLE_COUNT ==> is_generated_entry(#[trigger] r[i]@),
        forall|i: int| 0 <= i < SAMPLE_COUNT ==> is_entry(#[trigger] r[i]@) && numeral_in_i16_range(r[i]@),
{
    generate_samples(SAMPLE_COUNT)
}

} // verus!
