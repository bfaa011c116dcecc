//! Version-4 identifiers held as 128-bit values, and their canonical text:
//! 32 lowercase hexadecimal digits grouped 8-4-4-4-12 by hyphens.

use vstd::prelude::*;

use crate::decimal::is_digit;

verus! {

/// Sixteen to the power `e`.
pub open spec fn pow16(e: nat) -> nat
    decreases e,
{
    if e == 0 {
        1
    } else {
        16 * pow16((e - 1) as nat)
    }
}

/// The `k`-th hexadecimal digit of `id`, counting from the most significant (0 to 31).
pub open spec fn nibble(id: u128, k: int) -> nat {
    ((id as nat / pow16((31 - k) as nat)) % 16) as nat
}

/// The lowercase character of a hexadecimal digit `d` (below sixteen).
pub open spec fn hex_char(d: nat) -> char {
    if d < 10 {
        crate::decimal::digit_char(d)
    } else if d == 10 { 'a' }
    else if d == 11 { 'b' }
    else if d == 12 { 'c' }
    else if d == 13 { 'd' }
    else if d == 14 { 'e' }
    else { 'f' }
}

/// Whether `c` is one of `0`-`9`, `a`-`f`.
pub open spec fn is_hex_lower(c: char) -> bool {
    is_digit(c) || ('a' <= c && c <= 'f')
}

/// The positions of the four hyphens in the canonical text.
pub open spec fn hyphen_at(i: int) -> bool {
    i == 8 || i == 13 || i == 18 || i == 23
}

/// Which hexadecimal digit stands at position `i` of the canonical text.
pub open spec fn digit_index(i: int) -> int {
    if i < 8 {
        i
    } else if i < 13 {
        i - 1
    } else if i < 18 {
        i - 2
    } else if i < 23 {
        i - 3
    } else {
        i - 4
    }
}

/// The canonical text of `id`: its hexadecimal digits, most significant first,
/// in groups of 8, 4, 4, 4 and 12 joined by hyphens.
pub open spec fn hyphenated(id: u128) -> Seq<char> {
    Seq::new(36, |i: int| if hyphen_at(i) { '-' } else { hex_char(nibble(id, digit_index(i))) })
}

/// Whether `id` carries the version-4 marks: version digit 4, and the variant
/// digit one of 8, 9, a, b.
pub open spec fn is_v4(id: u128) -> bool {
    nibble(id, 12) == 4 && 8 <= nibble(id, 16) <= 11
}

/// Whether `t` has the shape of the canonical text of a version-4 identifier.
pub open spec fn is_v4_text(t: Seq<char>) -> bool {
    &&& t.len() == 36
    &&& forall|i: int|
        0 <= i < 36 ==> if hyphen_at(i) {
            #[trigger] t[i] == '-'
        } else {
            is_hex_lower(t[i])
        }
    &&& t[14] == '4'
    &&& (t[19] == '8' || t[19] == '9' || t[19] == 'a' || t[19] == 'b')
}

/// The canonical text of a version-4 identifier has the version-4 shape.
pub proof fn lemma_hyphenated_is_v4_text(id: u128)
    requires
        is_v4(id),
    ensures
        is_v4_text(hyphenated(id)),
{
    let t = hyphenated(id);
    assert forall|i: int| 0 <= i < 36 && !hyphen_at(i) implies is_hex_lower(#[trigger] t[i]) by {
        assert(nibble(id, digit_index(i)) < 16);
    }
    assert(t[14] == hex_char(nibble(id, 12)));
    assert(t[19] == hex_char(nibble(id, 16)));
}

/// Relies on uuid::Uuid::new_v4: a random 128-bit value with the version
/// digit set to 4 and the variant digit's two high bits set to 10; the value is
/// read out most significant byte first by uuid::Uuid::as_u128.
#[verifier::external_body]
pub(crate) fn random_v4() -> (r: u128)
    ensures
        is_v4(r),
{
    uuid::Uuid::new_v4().as_u128()
}

/// Relies on uuid::Uuid's to_string, through its lowercase hyphenated
/// Display; uuid::Uuid::from_u128 takes the value most significant byte first.
#[verifier::external_body]
pub(crate) fn uuid_text(id: u128) -> (r: String)
    ensures
        r@ == hyphenated(id),
{
    uuid::Uuid::from_u128(id).to_string()
}

} // verus!
