//! Base64, hexadecimal and binary notation of bytes, and the reversal of text.

use vstd::prelude::*;
use vstd::string::*;
use vstd::utf8::{decode_utf8, valid_utf8};
use crate::args::{split_words, texts, word_len, words};
use crate::text::{
    chars_of, digit_value, is_numeral, is_space, numeral_value, parse_binary_u8, parsed_binary_u8,
    unsigned_literal,
};

verus! {

/// Why a text could not be decoded.
#[derive(Clone, Copy, Debug, PartialEq, Eq, Structural)]
pub enum CodecError {
    Base64,
    Hex,
    Binary,
}

/// `base64::DecodeError`, the reason `base64::decode` gives for a failure;
/// carried through unread.
#[verifier::external_type_specification]
#[verifier::external_body]
pub struct ExBase64Error(base64::DecodeError);

/// `hex::FromHexError`, the reason `hex::decode` gives for a failure;
/// carried through unread.
#[verifier::external_type_specification]
#[verifier::external_body]
pub struct ExFromHexError(hex::FromHexError);

/// The bytes that `text` stands for in Base64, or `None` where it is not
/// Base64: what `base64::decode` returns for it.
pub uninterp spec fn base64_bytes(text: Seq<char>) -> Option<Seq<u8>>;

/// The text that `bytes` hold, with a replacement character for each part
/// that is no UTF-8: what `String::from_utf8_lossy` returns for them.
pub uninterp spec fn lossy_text(bytes: Seq<u8>) -> Seq<char>;

/// Wraps `base64::encode`, which writes bytes in the standard alphabet with
/// padding, as `base64_text` spells out.
#[verifier::external_body]
fn base64_encode(data: &[u8]) -> (r: String)
    ensures
        r@ == base64_text(data@),
{
    #[allow(deprecated)]
    base64::encode(data)
}

/// Wraps `base64::decode`, which reads the standard alphabet with padding.
/// Besides naming the result, the contract says that decoding undoes
/// encoding: the Base64 text of some bytes decodes to those bytes.
#[verifier::external_body]
fn base64_decode(text: &str) -> (r: Result<Vec<u8>, base64::DecodeError>)
    ensures
        match r {
            Ok(v) => base64_bytes(text@) == Some(v@),
            Err(_) => base64_bytes(text@).is_none(),
        },
        forall|bytes: Seq<u8>| #[trigger] base64_text(bytes) == text@ ==> r.is_ok() && r.unwrap()@ == bytes,
{
    #[allow(deprecated)]
    base64::decode(text)
}

/// Wraps `hex::encode`, which writes each byte as two lower-case
/// hexadecimal digits.
#[verifier::external_body]
fn hex_encode(data: &[u8]) -> (r: String)
    ensures
        r@ == hex_text(data@),
{
    hex::encode(data)
}

/// Wraps `hex::decode`, which reads two hexadecimal digits of either case
/// per byte and fails on an odd length and on any other character.
#[verifier::external_body]
fn hex_decode(text: &str) -> (r: Result<Vec<u8>, hex::FromHexError>)
    ensures
        match r {
            Ok(v) => is_hex_text(text@) && v@ == hex_bytes(text@),
            Err(_) => !is_hex_text(text@),
        },
{
    hex::decode(text)
}

/// Wraps `String::from_utf8_lossy`, which returns valid UTF-8 as the text
/// it holds and replaces what is not valid.
#[verifier::external_body]
fn utf8_lossy(bytes: &[u8]) -> (r: String)
    ensures
        r@ == lossy_text(bytes@),
        valid_utf8(bytes@) ==> r@ == decode_utf8(bytes@),
{
    String::from_utf8_lossy(bytes).into_owned()
}

/// The Base64 digit of `v`, for `v` below sixty-four: the capital letters,
/// the small letters, the digits, `+` and `/`.
pub open spec fn base64_digit(v: int) -> char {
    if v < 26 {
        (65 + v) as u8 as char
    } else if v < 52 {
        (71 + v) as u8 as char
    } else if v < 62 {
        (v - 4) as u8 as char
    } else if v == 62 {
        '+'
    } else {
        '/'
    }
}

/// The Base64 text of `bytes`: four digits for every three bytes, six bits
/// to a digit, and `=` in place of the digits that a last, shorter group
/// has no bits for.
pub open spec fn base64_text(bytes: Seq<u8>) -> Seq<char>
    decreases bytes.len(),
{
    if bytes.len() == 0 {
        Seq::empty()
    } else if bytes.len() == 1 {
        let a = bytes[0] as int;
        seq![base64_digit(a / 4), base64_digit(a % 4 * 16), '=', '=']
    } else if bytes.len() == 2 {
        let a = bytes[0] as int;
        let b = bytes[1] as int;
        seq![base64_digit(a / 4), base64_digit(a % 4 * 16 + b / 16), base64_digit(b % 16 * 4), '=']
    } else {
        let a = bytes[0] as int;
        let b = bytes[1] as int;
        let c = bytes[2] as int;
        seq![
            base64_digit(a / 4),
            base64_digit(a % 4 * 16 + b / 16),
            base64_digit(b % 16 * 4 + c / 64),
            base64_digit(c % 64),
        ] + base64_text(bytes.skip(3))
    }
}

/// The bytes that `text` stands for in Base64, or `None` where it stands
/// for none: the bytes whose Base64 text it is, where there are such.
pub open spec fn base64_decoded(text: Seq<char>) -> Option<Seq<u8>> {
    if exists|bytes: Seq<u8>| #[trigger] base64_text(bytes) == text {
        Some(choose|bytes: Seq<u8>| #[trigger] base64_text(bytes) == text)
    } else {
        base64_bytes(text)
    }
}

/// The text that `bytes` hold: the text they encode where they are UTF-8,
/// and otherwise the text with a replacement character for each part that
/// is no UTF-8.
pub open spec fn plain_text(bytes: Seq<u8>) -> Seq<char> {
    if valid_utf8(bytes) {
        decode_utf8(bytes)
    } else {
        lossy_text(bytes)
    }
}

/// The lower-case hexadecimal digit of `n`, for `n` below sixteen.
pub open spec fn hex_digit(n: int) -> char {
    if n < 10 {
        (48 + n) as u8 as char
    } else {
        (87 + n) as u8 as char
    }
}

/// The value of the hexadecimal digit `c`, of either case.
pub open spec fn hex_value(c: char) -> Option<int> {
    let n = c as u32;
    if 48 <= n <= 57 {
        Some(n - 48)
    } else if 97 <= n <= 102 {
        Some(n - 87)
    } else if 65 <= n <= 70 {
        Some(n - 55)
    } else {
        None
    }
}

/// The hexadecimal text of `bytes`: two lower-case digits per byte, the
/// high half first.
pub open spec fn hex_text(bytes: Seq<u8>) -> Seq<char> {
    Seq::new(
        2 * bytes.len(),
        |i: int|
            if i % 2 == 0 {
                hex_digit(bytes[i / 2] as int / 16)
            } else {
                hex_digit(bytes[i / 2] as int % 16)
            },
    )
}

/// Whether `text` is hexadecimal digits, two per byte.
pub open spec fn is_hex_text(text: Seq<char>) -> bool {
    text.len() % 2 == 0 && forall|i: int| 0 <= i < text.len() ==> hex_value(#[trigger] text[i]).is_some()
}

/// The bytes that the hexadecimal text `text` stands for.
pub open spec fn hex_bytes(text: Seq<char>) -> Seq<u8> {
    Seq::new(
        text.len() / 2,
        |i: int| (hex_value(text[2 * i]).unwrap() * 16 + hex_value(text[2 * i + 1]).unwrap()) as u8,
    )
}

/// The binary digit of the lowest bit of `v`.
pub open spec fn bit_char(v: int) -> char {
    if v % 2 == 1 {
        '1'
    } else {
        '0'
    }
}

/// The eight binary digits of `b`, the highest first.
pub open spec fn bits8(b: u8) -> Seq<char> {
    seq![
        bit_char(b as int / 128),
        bit_char(b as int / 64),
        bit_char(b as int / 32),
        bit_char(b as int / 16),
        bit_char(b as int / 8),
        bit_char(b as int / 4),
        bit_char(b as int / 2),
        bit_char(b as int),
    ]
}

/// The binary text of `bytes`: eight digits per byte, one space between bytes.
pub open spec fn binary_text(bytes: Seq<u8>) -> Seq<char>
    decreases bytes.len(),
{
    if bytes.len() == 0 {
        Seq::empty()
    } else if bytes.len() == 1 {
        bits8(bytes[0])
    } else {
        bits8(bytes[0]) + seq![' '] + binary_text(bytes.skip(1))
    }
}

/// The bytes that the words `ws` stand for in binary, or `None` where one
/// of them is no byte in binary.
pub open spec fn bytes_of_words(ws: Seq<Seq<char>>) -> Option<Seq<u8>> {
    if forall|i: int| 0 <= i < ws.len() ==> parsed_binary_u8(#[trigger] ws[i]).is_some() {
        Some(Seq::new(ws.len(), |i: int| parsed_binary_u8(ws[i]).unwrap()))
    } else {
        None
    }
}

/// The bytes that `text` stands for in binary: one byte per word.
pub open spec fn binary_bytes(text: Seq<char>) -> Option<Seq<u8>> {
    bytes_of_words(words(text))
}

/// Writes `data` in Base64.
pub fn encode_base64(data: &[u8]) -> (r: String)
    ensures
        r@ == base64_text(data@),
{
    base64_encode(data)
}

/// Reads Base64. The Base64 text of some bytes is read back as those
/// bytes; a text that is no Base64 is an error.
pub fn decode_base64(text: &str) -> (r: Result<Vec<u8>, CodecError>)
    ensures
        match r {
            Ok(v) => base64_decoded(text@) == Some(v@),
            Err(e) => e == CodecError::Base64 && base64_decoded(text@).is_none(),
        },
{
    let read = base64_decode(text);
    proof {
        if exists|bytes: Seq<u8>| #[trigger] base64_text(bytes) == text@ {
            let written = choose|bytes: Seq<u8>| #[trigger] base64_text(bytes) == text@;
            assert(base64_text(written) == text@);
            assert(read.is_ok() && read.unwrap()@ == written);
        }
    }
    match read {
        Ok(v) => Ok(v),
        Err(_) => Err(CodecError::Base64),
    }
}

/// Writes `data` in hexadecimal.
pub fn encode_hex(data: &[u8]) -> (r: String)
    ensures
        r@ == hex_text(data@),
{
    hex_encode(data)
}

/// Reads hexadecimal: there are bytes exactly where `text` is hexadecimal
/// digits, two per byte.
pub fn decode_hex(text: &str) -> (r: Result<Vec<u8>, CodecError>)
    ensures
        match r {
            Ok(v) => is_hex_text(text@) && v@ == hex_bytes(text@),
            Err(e) => e == CodecError::Hex && !is_hex_text(text@),
        },
{
    match hex_decode(text) {
        Ok(v) => Ok(v),
        Err(_) => Err(CodecError::Hex),
    }
}

/// The text that `bytes` hold as UTF-8, with a replacement character where
/// they hold none.
pub fn text_of_bytes(bytes: &[u8]) -> (r: String)
    ensures
        r@ == plain_text(bytes@),
{
    utf8_lossy(bytes)
}

fn bit_of(v: u8) -> (r: char)
    ensures
        r == bit_char(v as int),
{
    if v % 2 == 1 {
        '1'
    } else {
        '0'
    }
}

/// Appends the eight binary digits of `b` to `out`.
fn push_bits(out: &mut String, b: u8)
    ensures
        final(out)@ == old(out)@ + bits8(b),
{
    out.push(bit_of(b / 128));
    out.push(bit_of(b / 64));
    out.push(bit_of(b / 32));
    out.push(bit_of(b / 16));
    out.push(bit_of(b / 8));
    out.push(bit_of(b / 4));
    out.push(bit_of(b / 2));
    out.push(bit_of(b));
    proof {
        assert(out@ =~= old(out)@ + bits8(b));
    }
}

/// The binary text of a sequence extended by one byte.
proof fn lemma_binary_text_push(bytes: Seq<u8>, b: u8)
    ensures
        binary_text(bytes.push(b)) == if bytes.len() == 0 {
            bits8(b)
        } else {
            binary_text(bytes) + seq![' '] + bits8(b)
        },
    decreases bytes.len(),
{
    let ext = bytes.push(b);
    if bytes.len() == 0 {
    } else if bytes.len() == 1 {
        assert(ext.skip(1) =~= seq![b]);
        assert(binary_text(ext.skip(1)) == bits8(b));
        assert(binary_text(ext) =~= binary_text(bytes) + seq![' '] + bits8(b));
    } else {
        lemma_binary_text_push(bytes.skip(1), b);
        assert(ext.skip(1) =~= bytes.skip(1).push(b));
        assert(binary_text(ext) =~= binary_text(bytes) + seq![' '] + bits8(b));
    }
}

/// Writes `data` in binary: eight digits per byte, one space between bytes.
pub fn encode_binary(data: &[u8]) -> (r: String)
    ensures
        r@ == binary_text(data@),
{
    let mut out = String::new();
    let mut i: usize = 0;
    while i < data.len()
        invariant
            i <= data@.len(),
            out@ == binary_text(data@.take(i as int)),
        decreases data@.len() - i,
    {
        if i > 0 {
            out.push(' ');
        }
        push_bits(&mut out, data[i]);
        proof {
            lemma_binary_text_push(data@.take(i as int), data@[i as int]);
            assert(data@.take(i + 1) =~= data@.take(i as int).push(data@[i as int]));
            assert(out@ =~= binary_text(data@.take(i + 1)));
        }
        i += 1;
    }
    proof {
        assert(data@.take(data@.len() as int) =~= data@);
    }
    out
}

/// Reads binary: one byte per word of `text`, each word a byte in binary
/// digits. There are bytes exactly where every word is one.
pub fn decode_binary(text: &str) -> (r: Result<Vec<u8>, CodecError>)
    ensures
        match r {
            Ok(v) => binary_bytes(text@) == Some(v@),
            Err(e) => e == CodecError::Binary && binary_bytes(text@).is_none(),
        },
{
    let ws = split_words(text);
    let mut out: Vec<u8> = Vec::new();
    let mut i: usize = 0;
    while i < ws.len()
        invariant
            i <= ws@.len(),
            texts(ws@) == words(text@),
            out@.len() == i,
            forall|j: int| 0 <= j < i ==> parsed_binary_u8(#[trigger] words(text@)[j]) == Some(out@[j]),
        decreases ws@.len() - i,
    {
        proof {
            assert(texts(ws@)[i as int] == ws@[i as int]@);
        }
        match parse_binary_u8(ws[i].as_str()) {
            Some(b) => {
                out.push(b);
            },
            None => {
                return Err(CodecError::Binary);
            },
        }
        i += 1;
    }
    proof {
        assert(texts(ws@).len() == ws@.len());
        assert(out@ =~= bytes_of_words(words(text@)).unwrap());
    }
    Ok(out)
}

/// Writes `text` backwards, character by character.
pub fn reverse(text: &str) -> (r: String)
    ensures
        r@ == text@.reverse(),
{
    let chars = chars_of(text);
    let mut out = String::new();
    let mut i: usize = chars.len();
    while i > 0
        invariant
            i <= chars@.len(),
            chars@ == text@,
            out@.len() == chars@.len() - i,
            forall|j: int| 0 <= j < out@.len() ==> out@[j] == chars@[chars@.len() - 1 - j],
        decreases i,
    {
        i -= 1;
        out.push(chars[i]);
    }
    proof {
        assert(out@ =~= text@.reverse());
    }
    out
}

/// Reversing a text twice gives the text back.
pub proof fn law_reverse_twice(s: Seq<char>)
    ensures
        s.reverse().reverse() == s,
{
    assert(s.reverse().reverse() =~= s);
}

/// A Base64 digit tells its value, and is no padding.
proof fn lemma_base64_digit(u: int, v: int)
    requires
        0 <= u < 64,
        0 <= v < 64,
    ensures
        base64_digit(u) == base64_digit(v) ==> u == v,
        base64_digit(u) != '=',
{
}

/// Base64 text has four characters for every three bytes begun.
proof fn lemma_base64_len(bytes: Seq<u8>)
    ensures
        base64_text(bytes).len() == 4 * ((bytes.len() + 2) / 3),
    decreases bytes.len(),
{
    if bytes.len() >= 3 {
        lemma_base64_len(bytes.skip(3));
    }
}

/// The last group of Base64 text holds padding exactly where the bytes do
/// not come in threes.
proof fn lemma_base64_first_group(bytes: Seq<u8>)
    requires
        bytes.len() > 0,
    ensures
        base64_text(bytes).len() >= 4,
        base64_text(bytes)[0] == base64_digit(bytes[0] as int / 4),
        bytes.len() == 1 ==> base64_text(bytes).len() == 4 && base64_text(bytes)[1] == base64_digit(
            bytes[0] as int % 4 * 16,
        ) && base64_text(bytes)[2] == '=' && base64_text(bytes)[3] == '=',
        bytes.len() == 2 ==> base64_text(bytes).len() == 4 && base64_text(bytes)[1] == base64_digit(
            bytes[0] as int % 4 * 16 + bytes[1] as int / 16,
        ) && base64_text(bytes)[2] == base64_digit(bytes[1] as int % 16 * 4) && base64_text(
            bytes,
        )[3] == '=',
        bytes.len() >= 3 ==> base64_text(bytes)[1] == base64_digit(
            bytes[0] as int % 4 * 16 + bytes[1] as int / 16,
        ) && base64_text(bytes)[2] == base64_digit(
            bytes[1] as int % 16 * 4 + bytes[2] as int / 64,
        ) && base64_text(bytes)[3] == base64_digit(bytes[2] as int % 64) && base64_text(
            bytes,
        ).skip(4) == base64_text(bytes.skip(3)),
{
    if bytes.len() >= 3 {
        let a = bytes[0] as int;
        let b = bytes[1] as int;
        let c = bytes[2] as int;
        let head = seq![
            base64_digit(a / 4),
            base64_digit(a % 4 * 16 + b / 16),
            base64_digit(b % 16 * 4 + c / 64),
            base64_digit(c % 64),
        ];
        assert(base64_text(bytes) == head + base64_text(bytes.skip(3)));
        assert((head + base64_text(bytes.skip(3))).skip(4) =~= base64_text(bytes.skip(3)));
    }
}

/// Different bytes have different Base64 texts.
pub proof fn law_base64_text_is_injective(a: Seq<u8>, b: Seq<u8>)
    requires
        base64_text(a) == base64_text(b),
    ensures
        a == b,
    decreases a.len(),
{
    lemma_base64_len(a);
    lemma_base64_len(b);
    if a.len() == 0 || b.len() == 0 {
        assert(a.len() == 0 && b.len() == 0);
        assert(a =~= b);
    } else {
        lemma_base64_first_group(a);
        lemma_base64_first_group(b);
        let a0 = a[0] as int;
        let b0 = b[0] as int;
        lemma_base64_digit(a0 / 4, b0 / 4);
        if a.len() == 1 {
            lemma_base64_digit(a0 % 4 * 16, 0);
            if b.len() >= 2 {
                lemma_base64_digit(b[1] as int % 16 * 4, 0);
                if b.len() >= 3 {
                    lemma_base64_digit(b[1] as int % 16 * 4 + b[2] as int / 64, 0);
                }
                assert(false);
            }
            lemma_base64_digit(a0 % 4 * 16, b0 % 4 * 16);
            assert(a0 == b0);
            assert(a =~= b);
        } else if a.len() == 2 {
            let a1 = a[1] as int;
            if b.len() == 1 {
                lemma_base64_digit(a1 % 16 * 4, 0);
                assert(false);
            }
            if b.len() >= 3 {
                lemma_base64_digit(b[2] as int % 64, 0);
                assert(false);
            }
            let b1 = b[1] as int;
            lemma_base64_digit(a0 % 4 * 16 + a1 / 16, b0 % 4 * 16 + b1 / 16);
            lemma_base64_digit(a1 % 16 * 4, b1 % 16 * 4);
            assert(a0 == b0 && a1 == b1);
            assert(a =~= b);
        } else {
            let a1 = a[1] as int;
            let a2 = a[2] as int;
            if b.len() == 1 {
                lemma_base64_digit(a1 % 16 * 4 + a2 / 64, 0);
                assert(false);
            }
            if b.len() == 2 {
                lemma_base64_digit(a2 % 64, 0);
                assert(false);
            }
            let b1 = b[1] as int;
            let b2 = b[2] as int;
            lemma_base64_digit(a0 % 4 * 16 + a1 / 16, b0 % 4 * 16 + b1 / 16);
            lemma_base64_digit(a1 % 16 * 4 + a2 / 64, b1 % 16 * 4 + b2 / 64);
            lemma_base64_digit(a2 % 64, b2 % 64);
            assert(a0 == b0 && a1 == b1 && a2 == b2);
            law_base64_text_is_injective(a.skip(3), b.skip(3));
            assert(a =~= a.take(3) + a.skip(3));
            assert(b =~= b.take(3) + b.skip(3));
            assert(a.take(3) =~= b.take(3));
        }
    }
}

/// Text in any of the three notations does not start with whitespace.
pub proof fn lemma_notations_start_with_a_digit(bytes: Seq<u8>)
    ensures
        base64_text(bytes).len() == 0 || !is_space(base64_text(bytes)[0]),
        hex_text(bytes).len() == 0 || !is_space(hex_text(bytes)[0]),
        binary_text(bytes).len() == 0 || !is_space(binary_text(bytes)[0]),
{
    if bytes.len() > 0 {
        lemma_base64_first_group(bytes);
        lemma_base64_digit(bytes[0] as int / 4, 0);
        let d = base64_digit(bytes[0] as int / 4);
        assert(!is_space(d));
        assert(hex_text(bytes)[0] == hex_digit(bytes[0] as int / 16));
        assert(!is_space(hex_digit(bytes[0] as int / 16)));
        assert(binary_text(bytes)[0] == bits8(bytes[0])[0]);
        assert(!is_space(bits8(bytes[0])[0]));
    }
}

/// Base64 text reads back as the bytes it was written for.
pub proof fn law_base64_round_trip(bytes: Seq<u8>)
    ensures
        base64_decoded(base64_text(bytes)) == Some(bytes),
{
    let text = base64_text(bytes);
    let written = choose|b: Seq<u8>| #[trigger] base64_text(b) == text;
    law_base64_text_is_injective(written, bytes);
}

/// A hexadecimal digit has the value it was written for.
proof fn lemma_hex_digit(n: int)
    requires
        0 <= n < 16,
    ensures
        hex_value(hex_digit(n)) == Some(n),
{
}

/// Hexadecimal text reads back as the bytes it was written for.
pub proof fn law_hex_round_trip(bytes: Seq<u8>)
    ensures
        is_hex_text(hex_text(bytes)),
        hex_bytes(hex_text(bytes)) == bytes,
{
    let t = hex_text(bytes);
    assert forall|i: int| 0 <= i < t.len() implies hex_value(#[trigger] t[i]).is_some() by {
        let b = bytes[i / 2] as int;
        lemma_hex_digit(b / 16);
        lemma_hex_digit(b % 16);
    }
    assert forall|i: int| 0 <= i < bytes.len() implies hex_bytes(t)[i] == bytes[i] by {
        let b = bytes[i] as int;
        lemma_hex_digit(b / 16);
        lemma_hex_digit(b % 16);
        assert((2 * i) / 2 == i && (2 * i) % 2 == 0);
        assert((2 * i + 1) / 2 == i && (2 * i + 1) % 2 == 1);
        assert(t[2 * i] == hex_digit(b / 16));
        assert(t[2 * i + 1] == hex_digit(b % 16));
    }
    assert(hex_bytes(t) =~= bytes);
}

/// The value of digits extended by one digit.
proof fn lemma_numeral_push(s: Seq<char>, c: char, radix: nat)
    ensures
        numeral_value(s.push(c), radix) == numeral_value(s, radix) * radix + digit_value(
            c,
            radix,
        ).unwrap(),
{
    assert(s.push(c).drop_last() =~= s);
}

/// The eight binary digits of a byte read back as the byte.
pub proof fn lemma_bits_round_trip(b: u8)
    ensures
        parsed_binary_u8(bits8(b)) == Some(b),
        bits8(b).len() == 8,
        forall|i: int| 0 <= i < 8 ==> !is_space(#[trigger] bits8(b)[i]),
{
    let s = bits8(b);
    let v = b as int;
    assert forall|i: int| 0 <= i < s.len() implies digit_value(#[trigger] s[i], 2).is_some() by {}
    assert(is_numeral(s, 2));
    let e = Seq::<char>::empty();
    let s1 = e.push(s[0]);
    let s2 = s1.push(s[1]);
    let s3 = s2.push(s[2]);
    let s4 = s3.push(s[3]);
    let s5 = s4.push(s[4]);
    let s6 = s5.push(s[5]);
    let s7 = s6.push(s[6]);
    let s8 = s7.push(s[7]);
    assert(s8 =~= s);
    lemma_numeral_push(e, s[0], 2);
    lemma_numeral_push(s1, s[1], 2);
    lemma_numeral_push(s2, s[2], 2);
    lemma_numeral_push(s3, s[3], 2);
    lemma_numeral_push(s4, s[4], 2);
    lemma_numeral_push(s5, s[5], 2);
    lemma_numeral_push(s6, s[6], 2);
    lemma_numeral_push(s7, s[7], 2);
    assert(numeral_value(e, 2) == 0);
    assert(digit_value(s[0], 2).unwrap() == (v / 128) % 2);
    assert(digit_value(s[1], 2).unwrap() == (v / 64) % 2);
    assert(digit_value(s[2], 2).unwrap() == (v / 32) % 2);
    assert(digit_value(s[3], 2).unwrap() == (v / 16) % 2);
    assert(digit_value(s[4], 2).unwrap() == (v / 8) % 2);
    assert(digit_value(s[5], 2).unwrap() == (v / 4) % 2);
    assert(digit_value(s[6], 2).unwrap() == (v / 2) % 2);
    assert(digit_value(s[7], 2).unwrap() == v % 2);
    assert(numeral_value(s, 2) == v);
    assert(unsigned_literal(s, 2) == Some(v as nat));
}

/// A word that whitespace or the end of the text follows is the first word.
pub proof fn lemma_first_word(w: Seq<char>, rest: Seq<char>)
    requires
        forall|i: int| 0 <= i < w.len() ==> !is_space(#[trigger] w[i]),
        rest.len() == 0 || is_space(rest[0]),
    ensures
        word_len(w + rest) == w.len(),
    decreases w.len(),
{
    if w.len() == 0 {
        assert(w + rest =~= rest);
    } else {
        assert((w + rest).skip(1) =~= w.skip(1) + rest);
        assert forall|i: int| 0 <= i < w.skip(1).len() implies !is_space(#[trigger] w.skip(1)[i]) by {
            assert(w.skip(1)[i] == w[i + 1]);
        }
        lemma_first_word(w.skip(1), rest);
        assert((w + rest)[0] == w[0]);
    }
}

/// The words of binary text are the digits of its bytes, byte by byte.
proof fn lemma_words_of_binary_text(bytes: Seq<u8>)
    ensures
        words(binary_text(bytes)) == Seq::new(bytes.len(), |i: int| bits8(bytes[i])),
    decreases bytes.len(),
{
    let expected = Seq::new(bytes.len(), |i: int| bits8(bytes[i]));
    if bytes.len() == 0 {
        assert(words(binary_text(bytes)) =~= expected);
    } else {
        let w = bits8(bytes[0]);
        lemma_bits_round_trip(bytes[0]);
        if bytes.len() == 1 {
            let none = Seq::<char>::empty();
            lemma_first_word(w, none);
            assert(w + none =~= w);
            assert(w.take(8) =~= w);
            assert(w.skip(8) =~= none);
            assert(words(w) =~= seq![w] + words(none));
            assert(words(binary_text(bytes)) =~= expected);
        } else {
            let tail = binary_text(bytes.skip(1));
            let rest = seq![' '] + tail;
            let s = binary_text(bytes);
            assert(s =~= w + rest);
            lemma_first_word(w, rest);
            assert(s.take(8) =~= w);
            assert(s.skip(8) =~= rest);
            assert(rest.skip(1) =~= tail);
            assert(words(rest) == words(tail));
            lemma_words_of_binary_text(bytes.skip(1));
            assert(words(s) == seq![w] + words(tail));
            assert forall|i: int| 0 <= i < bytes.len() implies (seq![w] + words(tail))[i] == expected[i] by {
                if i > 0 {
                    assert(bytes.skip(1)[i - 1] == bytes[i]);
                }
            }
            assert(words(s) =~= expected);
        }
    }
}

/// Binary text reads back as the bytes it was written for.
pub proof fn law_binary_round_trip(bytes: Seq<u8>)
    ensures
        binary_bytes(binary_text(bytes)) == Some(bytes),
{
    lemma_words_of_binary_text(bytes);
    let ws = words(binary_text(bytes));
    assert forall|i: int| 0 <= i < ws.len() implies parsed_binary_u8(#[trigger] ws[i]) == Some(
        bytes[i],
    ) by {
        lemma_bits_round_trip(bytes[i]);
    }
    assert(bytes_of_words(ws).unwrap() =~= bytes);
}

} // verus!
