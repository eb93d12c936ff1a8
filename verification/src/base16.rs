//! Hexadecimal text: what it means, and the calls that produce and read it.

use vstd::prelude::*;

verus! {

/// The lowercase hexadecimal digit that stands for a value below sixteen.
pub open spec fn digit(n: int) -> char {
    if n < 10 {
        ('0' as int + n) as char
    } else {
        ('a' as int + n - 10) as char
    }
}

/// The value of a hexadecimal digit of either case, `None` for every other
/// character.
pub open spec fn digit_value(c: char) -> Option<int> {
    if '0' <= c <= '9' {
        Some(c as int - '0' as int)
    } else if 'a' <= c <= 'f' {
        Some(c as int - 'a' as int + 10)
    } else if 'A' <= c <= 'F' {
        Some(c as int - 'A' as int + 10)
    } else {
        None
    }
}

/// The text form of a byte sequence: two lowercase digits per byte, the
/// high half of each byte first, bytes in order.
pub open spec fn encoded(bytes: Seq<u8>) -> Seq<char> {
    Seq::new(
        2 * bytes.len(),
        |i: int|
            if i % 2 == 0 {
                digit(bytes[i / 2] as int / 16)
            } else {
                digit(bytes[i / 2] as int % 16)
            },
    )
}

/// Text that can be decoded: an even number of characters, each of them a
/// hexadecimal digit.
pub open spec fn well_formed(text: Seq<char>) -> bool {
    &&& text.len() % 2 == 0
    &&& forall|i: int| 0 <= i < text.len() ==> digit_value(#[trigger] text[i]) is Some
}

/// Well-formed text whose letters are all lowercase.
pub open spec fn canonical(text: Seq<char>) -> bool {
    &&& text.len() % 2 == 0
    &&& forall|i: int|
        0 <= i < text.len() ==> ('0' <= #[trigger] text[i] <= '9' || 'a' <= text[i] <= 'f')
}

/// The bytes that well-formed text stands for: one byte per pair of digits,
/// the first digit of a pair being the high half.
pub open spec fn decoded(text: Seq<char>) -> Seq<u8> {
    Seq::new(
        text.len() / 2,
        |i: int| (16 * digit_value(text[2 * i])->0 + digit_value(text[2 * i + 1])->0) as u8,
    )
}

/// Encoded text is canonical, twice as long as the bytes, and decodes to
/// the bytes it was made from.
pub proof fn lemma_decode_encoded(bytes: Seq<u8>)
    ensures
        encoded(bytes).len() == 2 * bytes.len(),
        canonical(encoded(bytes)),
        well_formed(encoded(bytes)),
        decoded(encoded(bytes)) == bytes,
{
    let text = encoded(bytes);
    assert forall|i: int| 0 <= i < text.len() implies ('0' <= #[trigger] text[i] <= '9' || 'a'
        <= text[i] <= 'f') && digit_value(text[i]) is Some by {
        let b = bytes[i / 2] as int;
        assert(0 <= b / 16 < 16 && 0 <= b % 16 < 16);
    }
    assert forall|k: int| 0 <= k < bytes.len() implies #[trigger] decoded(text)[k] == bytes[k] by {
        let b = bytes[k] as int;
        assert(text[2 * k] == digit(b / 16));
        assert(text[2 * k + 1] == digit(b % 16));
        assert(digit_value(digit(b / 16)) == Some(b / 16));
        assert(digit_value(digit(b % 16)) == Some(b % 16));
        assert(16 * (b / 16) + b % 16 == b);
    }
    assert(decoded(text) =~= bytes);
}

/// Decoding canonical text and encoding the bytes gives the text back.
pub proof fn lemma_encode_decoded(text: Seq<char>)
    requires
        canonical(text),
    ensures
        well_formed(text),
        encoded(decoded(text)) == text,
{
    let bytes = decoded(text);
    assert forall|i: int| 0 <= i < text.len() implies #[trigger] encoded(bytes)[i] == text[i] by {
        let k = i / 2;
        let hi = digit_value(text[2 * k])->0;
        let lo = digit_value(text[2 * k + 1])->0;
        assert(0 <= hi < 16 && 0 <= lo < 16);
        assert(bytes[k] as int == 16 * hi + lo);
        assert((16 * hi + lo) / 16 == hi && (16 * hi + lo) % 16 == lo);
        assert(digit(hi) == text[2 * k]);
        assert(digit(lo) == text[2 * k + 1]);
    }
    assert(encoded(bytes) =~= text);
}

/// The error of the `hex` crate's decoder, carried through unread.
#[verifier::external_type_specification]
#[verifier::external_body]
pub struct ExFromHexError(hex::FromHexError);

/// Calls `hex::encode`, which walks the bytes in order and emits for each
/// one the digit of its high half and then the digit of its low half, both
/// taken from the lowercase alphabet `0123456789abcdef`.
#[verifier::external_body]
pub(crate) fn encode(bytes: &[u8]) -> (text: String)
    ensures
        text@ == encoded(bytes@),
{
    hex::encode(bytes)
}

/// Calls `hex::decode` on the text's UTF-8 bytes. The decoder refuses an odd
/// byte count, then reads the bytes two by two and refuses the first one
/// that is not an ASCII digit or a letter `a` to `f` of either case. So it
/// succeeds exactly on an even number of characters that are all
/// hexadecimal digits (any other character has a byte outside that set, and
/// text of digits alone has one byte per character), and each pair yields
/// sixteen times the first digit's value plus the second's.
#[verifier::external_body]
pub(crate) fn decode(text: &str) -> (r: Result<Vec<u8>, hex::FromHexError>)
    ensures
        r is Ok <==> well_formed(text@),
        r matches Ok(bytes) ==> bytes@ == decoded(text@),
{
    hex::decode(text)
}

} // verus!
