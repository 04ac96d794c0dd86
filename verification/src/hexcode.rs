//! Lowercase hexadecimal encoding of byte strings: the mathematical form of
//! the encoding, its elementary facts, and the executable encoder.

use vstd::prelude::*;

verus! {

/// The lowercase hexadecimal digit for a value below 16.
pub open spec fn hex_digit_char(d: u8) -> char
    recommends
        d < 16,
{
    if d < 10 {
        ((d + 48) as u8) as char
    } else {
        ((d + 87) as u8) as char
    }
}

/// Lowercase hexadecimal encoding of a byte string: two digits per byte,
/// high nibble first.
pub open spec fn hex_of(s: Seq<u8>) -> Seq<char>
    decreases s.len(),
{
    if s.len() == 0 {
        Seq::empty()
    } else {
        hex_of(s.drop_last()).push(hex_digit_char(s.last() / 16)).push(
            hex_digit_char(s.last() % 16),
        )
    }
}

/// Whether a character is a lowercase hexadecimal digit.
pub open spec fn is_lower_hex_char(c: char) -> bool {
    (48 <= c as int <= 57) || (97 <= c as int <= 102)
}

/// The encoding of a byte string has two characters per byte.
pub proof fn lemma_hex_of_len(s: Seq<u8>)
    ensures
        hex_of(s).len() == 2 * s.len(),
    decreases s.len(),
{
    if s.len() > 0 {
        lemma_hex_of_len(s.drop_last());
    }
}

/// Every character of the encoding is a lowercase hexadecimal digit.
pub proof fn lemma_hex_of_chars(s: Seq<u8>)
    ensures
        forall|i: int| 0 <= i < hex_of(s).len() ==> is_lower_hex_char(#[trigger] hex_of(s)[i]),
    decreases s.len(),
{
    if s.len() > 0 {
        lemma_hex_of_chars(s.drop_last());
        let a = hex_of(s.drop_last());
        let h = hex_of(s);
        assert forall|i: int| 0 <= i < h.len() implies is_lower_hex_char(#[trigger] h[i]) by {
            if i < a.len() {
                assert(h[i] == a[i]);
            } else if i == a.len() {
                assert(h[i] == hex_digit_char(s.last() / 16));
            } else {
                assert(h[i] == hex_digit_char(s.last() % 16));
            }
        }
    }
}

/// Relies on hex::encode: encodes a byte string as lowercase hexadecimal,
/// two digits per byte, high nibble first.
#[verifier::external_body]
pub(crate) fn encode_hex(bytes: &[u8]) -> (r: String)
    ensures
        r@ == hex_of(bytes@),
{
    hex::encode(bytes)
}

} // verus!
