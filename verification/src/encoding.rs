//! Bytes as text: base64 with the standard alphabet and padding.

use vstd::prelude::*;

verus! {

/// The character that stands for the six bits `v`.
pub open spec fn digit(v: int) -> char {
    if v < 26 {
        (65 + v) as char
    } else if v < 52 {
        (97 + v - 26) as char
    } else if v < 62 {
        (48 + v - 52) as char
    } else if v == 62 {
        '+'
    } else {
        '/'
    }
}

/// The base64 text of `bytes`: four characters for every three bytes, six bits each, the last
/// four filled up with `=`.
pub open spec fn encoded(bytes: Seq<u8>) -> Seq<char>
    decreases bytes.len(),
{
    let b0 = bytes[0] as int;
    let b1 = bytes[1] as int;
    let b2 = bytes[2] as int;
    if bytes.len() == 0 {
        seq![]
    } else if bytes.len() == 1 {
        seq![digit(b0 / 4), digit(b0 % 4 * 16), '=', '=']
    } else if bytes.len() == 2 {
        seq![digit(b0 / 4), digit(b0 % 4 * 16 + b1 / 16), digit(b1 % 16 * 4), '=']
    } else {
        seq![
            digit(b0 / 4),
            digit(b0 % 4 * 16 + b1 / 16),
            digit(b1 % 16 * 4 + b2 / 64),
            digit(b2 % 64),
        ] + encoded(bytes.skip(3))
    }
}

/// The length of the base64 text of `len` bytes.
pub open spec fn encoded_len(len: nat) -> nat {
    (len + 2) / 3 * 4
}

/// The report of why a text is not base64: the `Display` text of `base64::DecodeError`.
pub uninterp spec fn decode_error_text(text: Seq<char>) -> Seq<char>;

/// `base64::Engine::encode` of `general_purpose::STANDARD`: the standard alphabet, with padding.
/// It cannot allocate a text that is longer than any allocation.
#[verifier::external_body]
pub(crate) fn encode(bytes: &[u8]) -> (r: String)
    requires
        encoded_len(bytes@.len()) <= isize::MAX,
    ensures
        r@ == encoded(bytes@),
{
    base64::Engine::encode(&base64::engine::general_purpose::STANDARD, bytes)
}

/// `base64::Engine::decode` of `general_purpose::STANDARD`. It accepts the texts that encoding
/// gives and no others: padding must be there, bits beyond the last byte must be zero, and no
/// other characters may occur. Which report a text leads to is left to the name.
#[verifier::external_body]
pub(crate) fn decode(text: &str) -> (r: Result<Vec<u8>, String>)
    ensures
        match r {
            Ok(bytes) => encoded(bytes@) == text@,
            Err(e) => {
                &&& forall|bytes: Seq<u8>| #[trigger] encoded(bytes) != text@
                &&& e@ == decode_error_text(text@)
            },
        },
{
    base64::Engine::decode(&base64::engine::general_purpose::STANDARD, text).map_err(
        |e| e.to_string(),
    )
}

/// Whether a text is base64.
pub open spec fn is_base64(text: Seq<char>) -> bool {
    exists|bytes: Seq<u8>| #[trigger] encoded(bytes) == text
}

/// The bytes that a base64 text stands for.
pub open spec fn decoded(text: Seq<char>) -> Seq<u8> {
    choose|bytes: Seq<u8>| #[trigger] encoded(bytes) == text
}

proof fn lemma_digit_injective(a: int, b: int)
    requires
        0 <= a < 64,
        0 <= b < 64,
        digit(a) == digit(b),
    ensures
        a == b,
{
    assert(digit(a) as int == digit(b) as int);
}

proof fn lemma_digit_is_no_padding(a: int)
    requires
        0 <= a < 64,
    ensures
        digit(a) != '=',
{
    assert(digit(a) as int != 61);
}

/// The length of the text is determined by the number of bytes.
pub proof fn lemma_encoded_len(bytes: Seq<u8>)
    ensures
        encoded(bytes).len() == encoded_len(bytes.len()),
    decreases bytes.len(),
{
    if bytes.len() > 2 {
        lemma_encoded_len(bytes.skip(3));
    }
}

/// Different bytes have different texts.
pub proof fn law_encoding_is_injective(a: Seq<u8>, b: Seq<u8>)
    requires
        encoded(a) == encoded(b),
    ensures
        a == b,
    decreases a.len(),
{
    lemma_encoded_len(a);
    lemma_encoded_len(b);
    if a.len() == 0 || b.len() == 0 {
        assert(a =~= b);
    } else {
        let s = encoded(a);
        let t = encoded(b);
        lemma_last_group(a);
        lemma_last_group(b);
        lemma_first_byte(a, b);
        if a.len() == 1 || b.len() == 1 {
            assert(a.len() == 1 && b.len() == 1);
            assert(a =~= b);
        } else if a.len() == 2 || b.len() == 2 {
            assert(a.len() == 2 && b.len() == 2);
            assert(a =~= b);
        } else {
            assert(s.skip(4) =~= encoded(a.skip(3)));
            assert(t.skip(4) =~= encoded(b.skip(3)));
            law_encoding_is_injective(a.skip(3), b.skip(3));
            assert(a =~= a.take(3) + a.skip(3));
            assert(b =~= b.take(3) + b.skip(3));
            assert(a.take(3) =~= b.take(3));
        }
    }
}

/// Where the padding of the first group stands, by the number of bytes.
proof fn lemma_last_group(a: Seq<u8>)
    requires
        a.len() > 0,
    ensures
        (encoded(a)[2] == '=') <==> a.len() == 1,
        (encoded(a)[3] == '=') <==> a.len() <= 2,
{
    if a.len() == 2 {
        lemma_digit_is_no_padding(a[1] as int % 16 * 4);
    } else if a.len() > 2 {
        lemma_digit_is_no_padding(a[1] as int % 16 * 4 + a[2] as int / 64);
        lemma_digit_is_no_padding(a[2] as int % 64);
    }
}

/// Equal first groups stand for equal bytes.
proof fn lemma_first_byte(a: Seq<u8>, b: Seq<u8>)
    requires
        a.len() > 0,
        b.len() > 0,
        a.len() == b.len() || (a.len() > 2 && b.len() > 2),
        forall|i: int| 0 <= i < 4 ==> encoded(a)[i] == #[trigger] encoded(b)[i],
    ensures
        a[0] == b[0],
        a.len() > 1 ==> a[1] == b[1],
        a.len() > 2 ==> a[2] == b[2],
{
    let (a0, a1, a2) = (a[0] as int, a[1] as int, a[2] as int);
    let (b0, b1, b2) = (b[0] as int, b[1] as int, b[2] as int);
    assert(encoded(a)[0] == encoded(b)[0]);
    assert(encoded(a)[1] == encoded(b)[1]);
    assert(encoded(a)[2] == encoded(b)[2]);
    assert(encoded(a)[3] == encoded(b)[3]);
    lemma_digit_injective(a0 / 4, b0 / 4);
    if a.len() == 1 {
        lemma_digit_injective(a0 % 4 * 16, b0 % 4 * 16);
    } else {
        lemma_digit_injective(a0 % 4 * 16 + a1 / 16, b0 % 4 * 16 + b1 / 16);
        if a.len() == 2 {
            lemma_digit_injective(a1 % 16 * 4, b1 % 16 * 4);
        } else {
            lemma_digit_injective(a1 % 16 * 4 + a2 / 64, b1 % 16 * 4 + b2 / 64);
            lemma_digit_injective(a2 % 64, b2 % 64);
        }
    }
}

/// Decoding the text of bytes gives the bytes back.
pub proof fn law_decoding_undoes_encoding(bytes: Seq<u8>)
    ensures
        is_base64(encoded(bytes)),
        decoded(encoded(bytes)) == bytes,
{
    law_encoding_is_injective(decoded(encoded(bytes)), bytes);
}

/// Bytes as base64 text.
pub fn to_base64(bytes: &[u8]) -> (r: String)
    requires
        encoded_len(bytes@.len()) <= isize::MAX,
    ensures
        r@ == encoded(bytes@),
        is_base64(r@),
        decoded(r@) == bytes@,
{
    proof {
        law_decoding_undoes_encoding(bytes@);
    }
    encode(bytes)
}

/// The bytes of a base64 text, or the report of why it is none.
pub fn from_base64(text: &str) -> (r: Result<Vec<u8>, String>)
    ensures
        match r {
            Ok(bytes) => is_base64(text@) && bytes@ == decoded(text@),
            Err(e) => !is_base64(text@) && e@ == decode_error_text(text@),
        },
{
    let r = decode(text);
    proof {
        if let Ok(bytes) = &r {
            law_decoding_undoes_encoding(bytes@);
        }
    }
    r
}

/// Bytes survive their way as text: what is written as base64 is read back as it was, and two
/// different texts never stand for the same bytes.
pub proof fn law_written_bytes_are_read_back(
    bytes: &[u8],
    text: String,
    read: &str,
    r: Result<Vec<u8>, String>,
    other: &str,
    s: Result<Vec<u8>, String>,
)
    requires
        call_ensures(to_base64, (bytes,), text),
        call_ensures(from_base64, (read,), r),
        call_ensures(from_base64, (other,), s),
        read@ == text@,
    ensures
        r matches Ok(back) && back@ == bytes@,
        s matches Ok(same) && same@ == bytes@ ==> other@ == text@,
        text@.len() == (bytes@.len() + 2) / 3 * 4,
{
    law_decoding_undoes_encoding(bytes@);
    lemma_encoded_len(bytes@);
}

} // verus!
