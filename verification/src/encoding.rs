//! Text encodings used by the protocol: lowercase hex for byte fields,
//! base58 for identifier fragments and decimal for timestamps.

use vstd::prelude::*;
use vstd::string::StringSliceAdditionalSpecFns;
use vstd::utf8::{encode_utf8, decode_utf8, valid_utf8};

verus! {

/// The ASCII code of the lowercase hex digit for a value below 16.
pub open spec fn hex_digit(n: u8) -> u8 {
    if n < 10 {
        (48 + n) as u8
    } else {
        (87 + n) as u8
    }
}

/// The lowercase hex text of `data`: two digits per byte, high nibble first.
pub open spec fn hex_text(data: Seq<u8>) -> Seq<u8> {
    Seq::new(
        2 * data.len(),
        |i: int|
            if i % 2 == 0 {
                hex_digit(data[i / 2] / 16)
            } else {
                hex_digit(data[i / 2] % 16)
            },
    )
}

/// The value of one hex digit, upper or lower case; `None` for any other byte.
pub open spec fn hex_value(c: u8) -> Option<u8> {
    if 48 <= c <= 57 {
        Some((c - 48) as u8)
    } else if 97 <= c <= 102 {
        Some((c - 87) as u8)
    } else if 65 <= c <= 70 {
        Some((c - 55) as u8)
    } else {
        None
    }
}

/// Text that decodes: an even number of hex digits.
pub open spec fn is_hex_text(text: Seq<u8>) -> bool {
    text.len() % 2 == 0 && forall|i: int| 0 <= i < text.len() ==> (#[trigger] hex_value(text[i])) is Some
}

/// Hex text in lower case: the text that encoding its own bytes gives.
pub open spec fn is_lowercase_hex(text: Seq<u8>) -> bool {
    is_hex_text(text) && text == hex_text(hex_bytes(text))
}

/// The bytes that hex text stands for.
pub open spec fn hex_bytes(text: Seq<u8>) -> Seq<u8> {
    Seq::new(
        text.len() / 2,
        |i: int| (16 * hex_value(text[2 * i]).unwrap() + hex_value(text[2 * i + 1]).unwrap()) as u8,
    )
}

/// Decoding the hex text of `data` gives `data` back.
pub proof fn lemma_hex_round_trip(data: Seq<u8>)
    ensures
        is_hex_text(hex_text(data)),
        hex_bytes(hex_text(data)) == data,
        hex_text(data).len() == 2 * data.len(),
        is_lowercase_hex(hex_text(data)),
{
    let text = hex_text(data);
    assert forall|i: int| 0 <= i < text.len() implies (#[trigger] hex_value(text[i])) is Some by {
        let b = data[i / 2];
        assert(b / 16 < 16 && b % 16 < 16);
    }
    assert forall|i: int| 0 <= i < data.len() implies hex_bytes(text)[i] == data[i] by {
        let b = data[i];
        assert((2 * i) / 2 == i && (2 * i) % 2 == 0);
        assert((2 * i + 1) / 2 == i && (2 * i + 1) % 2 == 1);
        assert(text[2 * i] == hex_digit(b / 16));
        assert(text[2 * i + 1] == hex_digit(b % 16));
        assert(hex_value(hex_digit(b / 16)) == Some(b / 16));
        assert(hex_value(hex_digit(b % 16)) == Some(b % 16));
        assert(16 * (b / 16) + b % 16 == b);
    }
    assert(hex_bytes(text) =~= data);
}

/// Calls `hex::encode`: the result is an ASCII string whose bytes are the
/// lowercase hex digits of `data`, two per byte.
#[verifier::external_body]
pub(crate) fn hex_encode(data: &[u8]) -> (r: String)
    ensures
        encode_utf8(r@) == hex_text(data@),
{
    hex::encode(data)
}

/// Calls `hex::decode`, which reads the string's bytes: it succeeds exactly on
/// an even number of hex digits of either case, and then gives their bytes.
/// The error carries the outside error's message.
#[verifier::external_body]
pub(crate) fn hex_decode(text: &str) -> (r: Result<Vec<u8>, String>)
    ensures
        r is Ok <==> is_hex_text(text.spec_bytes()),
        r is Ok ==> r->Ok_0@ == hex_bytes(text.spec_bytes()),
{
    hex::decode(text).map_err(|e| e.to_string())
}

/// The number that a byte string stands for, most significant byte first.
pub open spec fn big_endian(data: Seq<u8>) -> nat
    decreases data.len(),
{
    if data.len() == 0 {
        0
    } else {
        256 * big_endian(data.drop_last()) + data.last() as nat
    }
}

/// How many zero bytes a byte string starts with.
pub open spec fn leading_zeros(data: Seq<u8>) -> nat
    decreases data.len(),
{
    if data.len() == 0 || data[0] != 0 {
        0
    } else {
        1 + leading_zeros(data.drop_first())
    }
}

/// The base58 digit of a value below 58, in the Bitcoin alphabet.
pub open spec fn base58_digit(d: nat) -> char {
    "123456789ABCDEFGHJKLMNPQRSTUVWXYZabcdefghijkmnopqrstuvwxyz"@[d as int]
}

/// The base58 digits of a number, most significant first; none for 0.
pub open spec fn base58_digits(n: nat) -> Seq<char>
    decreases n,
{
    if n == 0 {
        Seq::empty()
    } else {
        base58_digits(n / 58).push(base58_digit(n % 58))
    }
}

/// The base58 text of a byte string: a `1` for every leading zero byte, then
/// the base58 digits of the number that the bytes stand for.
pub open spec fn base58_text(data: Seq<u8>) -> Seq<char> {
    Seq::new(leading_zeros(data), |i: int| '1') + base58_digits(big_endian(data))
}

/// Calls `bs58::encode(..).into_string()` with the default alphabet, the
/// Bitcoin one.
#[verifier::external_body]
pub(crate) fn base58_encode(data: &[u8]) -> (r: String)
    ensures
        r@ == base58_text(data@),
{
    bs58::encode(data).into_string()
}

/// The decimal digits of `n` as ASCII bytes, without leading zeros.
pub open spec fn decimal_text(n: nat) -> Seq<u8>
    decreases n,
{
    if n < 10 {
        seq![(48 + n) as u8]
    } else {
        decimal_text(n / 10).push((48 + n % 10) as u8)
    }
}

/// The number that a run of decimal digits stands for.
pub open spec fn decimal_value(text: Seq<u8>) -> nat
    decreases text.len(),
{
    if text.len() == 0 {
        0
    } else {
        (10 * decimal_value(text.drop_last()) + (text.last() - 48)) as nat
    }
}

/// Decimal text determines its number: distinct numbers have distinct text.
pub proof fn lemma_decimal_value(n: nat)
    ensures
        decimal_value(decimal_text(n)) == n,
    decreases n,
{
    if n < 10 {
        let t = decimal_text(n);
        assert(t.drop_last() =~= Seq::<u8>::empty());
        assert(decimal_value(t.drop_last()) == 0);
    } else {
        lemma_decimal_value(n / 10);
        let t = decimal_text(n);
        assert(t.drop_last() =~= decimal_text(n / 10));
        assert(10 * (n / 10) + n % 10 == n);
    }
}

/// Appends the decimal digits of `n` to `out`.
pub fn push_decimal(out: &mut Vec<u8>, n: u64)
    ensures
        final(out)@ == old(out)@ + decimal_text(n as nat),
    decreases n,
{
    if n >= 10 {
        push_decimal(out, n / 10);
    }
    let digit: u8 = (n % 10) as u8;
    out.push(48 + digit);
    assert(final(out)@ =~= old(out)@ + decimal_text(n as nat));
}

/// Wraps `String::from_utf8`: it succeeds exactly on well-formed UTF-8 and
/// then gives the decoded text.
#[verifier::external_body]
pub(crate) fn string_from_utf8(bytes: Vec<u8>) -> (r: Option<String>)
    ensures
        r is Some <==> valid_utf8(bytes@),
        r is Some ==> r->Some_0@ == decode_utf8(bytes@),
{
    String::from_utf8(bytes).ok()
}

/// Wraps the std conversion of a slice into a fixed-size array, which
/// succeeds exactly when the lengths agree and copies the bytes.
#[verifier::external_body]
pub(crate) fn to_array<const N: usize>(bytes: &[u8]) -> (r: Option<[u8; N]>)
    ensures
        r is Some <==> bytes@.len() == N,
        r is Some ==> r->Some_0@ == bytes@,
{
    bytes.try_into().ok()
}

/// Appends `src` to `out`.
pub fn append_bytes(out: &mut Vec<u8>, src: &[u8])
    ensures
        final(out)@ == old(out)@ + src@,
{
    let mut i: usize = 0;
    while i < src.len()
        invariant
            i <= src@.len(),
            out@ == old(out)@ + src@.subrange(0, i as int),
        decreases src@.len() - i,
    {
        out.push(src[i]);
        i = i + 1;
        assert(out@ =~= old(out)@ + src@.subrange(0, i as int));
    }
    assert(src@.subrange(0, i as int) =~= src@);
}

/// The text of `head` followed by the text of `tail`.
pub fn join(head: &str, tail: &str) -> (r: String)
    ensures
        r@ == head@ + tail@,
{
    let mut out = head.to_owned();
    out.append(tail);
    out
}

} // verus!
