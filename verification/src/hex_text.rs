//! Hexadecimal text as the GVM lights speak it: every byte is written as two
//! ASCII hex digits, high nibble first.  Encoding and decoding go through the
//! `hex` crate; this module states what those calls give back.
use vstd::prelude::*;
use vstd::slice::slice_to_vec;
use vstd::string::*;
use vstd::utf8::*;

verus! {

broadcast use is_ascii_chars_encode_utf8;

/// The ASCII code of the upper-case hex digit for a nibble `n` (`0 <= n < 16`).
pub open spec fn upper_hex_digit(n: int) -> u8 {
    if n < 10 {
        (0x30 + n) as u8
    } else {
        (0x37 + n) as u8
    }
}

/// Upper-case hex text of `data`, as bytes: two digits per byte, high nibble first.
pub open spec fn upper_hex(data: Seq<u8>) -> Seq<u8> {
    Seq::new(
        2 * data.len(),
        |i: int|
            if i % 2 == 0 {
                upper_hex_digit(data[i / 2] as int / 16)
            } else {
                upper_hex_digit(data[i / 2] as int % 16)
            },
    )
}

/// The same text as `upper_hex`, as characters.
pub open spec fn upper_hex_chars(data: Seq<u8>) -> Seq<char> {
    upper_hex(data).map_values(|b: u8| b as char)
}

/// Whether `c` is an ASCII hex digit, in either case.
pub open spec fn is_hex_digit(c: u8) -> bool {
    (0x30 <= c <= 0x39) || (0x41 <= c <= 0x46) || (0x61 <= c <= 0x66)
}

/// The value of the hex digit `c`.
pub open spec fn hex_digit_value(c: u8) -> int {
    if c <= 0x39 {
        c - 0x30
    } else if c <= 0x46 {
        c - 0x41 + 10
    } else {
        c - 0x61 + 10
    }
}

/// Whether `text` is a whole number of hex-digit pairs.
pub open spec fn is_hex_text(text: Seq<u8>) -> bool {
    &&& text.len() % 2 == 0
    &&& forall|i: int| 0 <= i < text.len() ==> is_hex_digit(#[trigger] text[i])
}

/// The bytes that the hex text `text` spells.
pub open spec fn hex_value(text: Seq<u8>) -> Seq<u8> {
    Seq::new(
        text.len() / 2,
        |i: int| (hex_digit_value(text[2 * i]) * 16 + hex_digit_value(text[2 * i + 1])) as u8,
    )
}

/// `hex::FromHexError`, the error of `hex::decode`.
#[verifier::external_type_specification]
#[verifier::external_body]
pub struct ExFromHexError(hex::FromHexError);

/// `hex::encode_upper`: the text holds, for each byte of `data` in turn, the
/// upper-case hex digit of its high nibble and then that of its low nibble.
#[verifier::external_body]
pub(crate) fn hex_encode_upper(data: &[u8]) -> (res: String)
    ensures
        res@ == upper_hex_chars(data@),
{
    hex::encode_upper(data)
}

/// `hex::decode`: succeeds exactly on an even number of hex digits (either
/// case), and then gives the byte of each pair, high nibble first.
#[verifier::external_body]
pub(crate) fn hex_decode(text: &[u8]) -> (res: Result<Vec<u8>, hex::FromHexError>)
    ensures
        res is Ok <==> is_hex_text(text@),
        res matches Ok(bytes) ==> bytes@ == hex_value(text@),
{
    hex::decode(text)
}

/// The bytes of upper-case hex text, ready to be put on the wire.
pub fn upper_hex_bytes(data: &[u8]) -> (res: Vec<u8>)
    ensures
        res@ == upper_hex(data@),
{
    let text = hex_encode_upper(data);
    proof {
        assert forall|i: int| 0 <= i < text@.len() implies '\0' <= #[trigger] text@[i] <= '\u{7f}' by {
            assert(upper_hex(data@)[i] < 0x80);
        }
        assert(is_ascii_chars(text@));
    }
    let s = text.as_str();
    let b = s.as_bytes();
    let res = slice_to_vec(b);
    proof {
        assert(s@ == text@);
        assert forall|i: int| 0 <= i < res@.len() implies res@[i] == upper_hex(data@)[i] by {
            assert(res@[i] == encode_utf8(s@)[i]);
            assert(s@[i] as u8 == encode_utf8(s@)[i]);
        }
        assert(res@ =~= upper_hex(data@));
    }
    res
}

/// Hex text of a concatenation is the concatenation of the hex texts.
pub proof fn lemma_upper_hex_concat(x: Seq<u8>, y: Seq<u8>)
    ensures
        upper_hex(x + y) == upper_hex(x) + upper_hex(y),
{
    let l = upper_hex(x + y);
    let r = upper_hex(x) + upper_hex(y);
    assert forall|i: int| 0 <= i < l.len() implies l[i] == r[i] by {
        if i < 2 * x.len() {
            assert((x + y)[i / 2] == x[i / 2]);
        } else {
            assert((i - 2 * x.len()) / 2 == i / 2 - x.len());
            assert((i - 2 * x.len()) % 2 == i % 2);
            assert((x + y)[i / 2] == y[i / 2 - x.len()]);
        }
    }
    assert(l =~= r);
}

/// The hex text of a single byte below 16 is `'0'` followed by its digit.
pub proof fn lemma_upper_hex_nibble(b: u8)
    requires
        b < 16,
    ensures
        upper_hex(seq![b]) == seq![0x30u8, upper_hex_digit(b as int)],
{
    assert(upper_hex(seq![b]) =~= seq![0x30u8, upper_hex_digit(b as int)]);
}

} // verus!
