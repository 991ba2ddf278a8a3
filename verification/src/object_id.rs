//! Object ids as the store writes them: twelve bytes, shown to clients as
//! twenty-four lower-case hexadecimal digits.

use vstd::prelude::*;
use bson::oid::ObjectId;

verus! {

/// A hexadecimal digit, in either case.
pub open spec fn is_hex_digit(c: char) -> bool {
    let n = c as u32;
    ||| 0x30 <= n <= 0x39
    ||| 0x61 <= n <= 0x66
    ||| 0x41 <= n <= 0x46
}

/// The value of a hexadecimal digit.
pub open spec fn hex_digit_value(c: char) -> int {
    let n = c as u32;
    if 0x30 <= n <= 0x39 {
        n - 0x30
    } else if 0x61 <= n <= 0x66 {
        n - 0x61 + 10
    } else {
        n - 0x41 + 10
    }
}

/// The lower-case hexadecimal digit of a value below sixteen.
pub open spec fn lower_hex_digit(v: int) -> char {
    if v < 10 {
        (0x30 + v) as char
    } else {
        (0x61 + v - 10) as char
    }
}

/// `s` spells an object id: exactly twenty-four hexadecimal digits.
pub open spec fn is_object_id_text(s: Seq<char>) -> bool {
    &&& s.len() == 24
    &&& forall|i: int| 0 <= i < 24 ==> #[trigger] is_hex_digit(s[i])
}

/// The twelve bytes that twenty-four hexadecimal digits spell, two digits
/// to a byte, high digit first.
pub open spec fn object_id_bytes_of(s: Seq<char>) -> Seq<u8> {
    Seq::new(12, |i: int| (hex_digit_value(s[2 * i]) * 16 + hex_digit_value(s[2 * i + 1])) as u8)
}

/// The text of twelve bytes: two lower-case hexadecimal digits for each
/// byte, high digit first.
pub open spec fn object_id_text_of(b: Seq<u8>) -> Seq<char> {
    Seq::new(
        24,
        |i: int|
            if i % 2 == 0 {
                lower_hex_digit(b[i / 2] as int / 16)
            } else {
                lower_hex_digit(b[i / 2] as int % 16)
            },
    )
}

/// `bson::oid::ObjectId::with_string`, then `ObjectId::bytes`. The source
/// decodes the string's bytes with `hex::decode` (pairs of digits of either
/// case, high digit first, an even count) and accepts the result only when
/// it is twelve bytes long: so it succeeds exactly on twenty-four
/// hexadecimal digits, and gives back the bytes they spell.
#[verifier::external_body]
pub(crate) fn parse_object_id(s: &str) -> (r: Option<[u8; 12]>)
    ensures
        r is Some <==> is_object_id_text(s@),
        r matches Some(b) ==> b@ == object_id_bytes_of(s@),
{
    match ObjectId::with_string(s) {
        Ok(oid) => Some(oid.bytes()),
        Err(_) => None,
    }
}

/// `bson::oid::ObjectId::with_bytes`, then `ObjectId::to_hex`. The source
/// encodes the twelve bytes with `hex::encode`: two lower-case digits per
/// byte, high digit first.
#[verifier::external_body]
pub(crate) fn object_id_text(bytes: [u8; 12]) -> (r: String)
    ensures
        r@ == object_id_text_of(bytes@),
{
    ObjectId::with_bytes(bytes).to_hex()
}

proof fn lemma_byte_digits(b: u8)
    ensures
        0 <= b / 16 < 16,
        0 <= b % 16 < 16,
        (b / 16) * 16 + b % 16 == b,
{
}

proof fn lemma_lower_hex_digit(v: int)
    requires
        0 <= v < 16,
    ensures
        is_hex_digit(lower_hex_digit(v)),
        hex_digit_value(lower_hex_digit(v)) == v,
{
}

/// The text written for an id parses back to that same id: what the server
/// hands out as an entry's `_id` is accepted when the entry comes back.
pub proof fn law_object_id_round_trip(b: Seq<u8>)
    requires
        b.len() == 12,
    ensures
        is_object_id_text(object_id_text_of(b)),
        object_id_bytes_of(object_id_text_of(b)) == b,
{
    let t = object_id_text_of(b);
    assert forall|i: int| 0 <= i < 24 implies #[trigger] is_hex_digit(t[i]) by {
        lemma_byte_digits(b[i / 2]);
        lemma_lower_hex_digit((b[i / 2] / 16) as int);
        lemma_lower_hex_digit((b[i / 2] % 16) as int);
    }
    assert forall|i: int| 0 <= i < 12 implies #[trigger] object_id_bytes_of(t)[i] == b[i] by {
        lemma_byte_digits(b[i]);
        lemma_lower_hex_digit((b[i] / 16) as int);
        lemma_lower_hex_digit((b[i] % 16) as int);
        assert((2 * i) / 2 == i);
        assert((2 * i + 1) / 2 == i);
        assert((2 * i) % 2 == 0);
        assert((2 * i + 1) % 2 == 1);
    }
    assert(object_id_bytes_of(t) =~= b);
}

} // verus!
