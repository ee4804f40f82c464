//! Base64 (standard alphabet, padded) and lowercase hex text, through the
//! `base64` and `hex` crates.
use vstd::prelude::*;
use base64::Engine;

verus! {

/// The standard base64 alphabet: `A-Z`, `a-z`, `0-9`, `+`, `/`.
pub open spec fn b64_digit(v: int) -> char {
    if v < 26 {
        (65 + v) as char
    } else if v < 52 {
        (97 + v - 26) as char
    } else if v < 62 {
        (48 + v - 52) as char
    } else if v == 62 {
        '+'
    } else {
        '/'
    }
}

/// The padded standard base64 text of `b`: every three bytes become four
/// digits; a final one or two bytes become two or three digits and `=` padding.
pub open spec fn base64_text(b: Seq<u8>) -> Seq<char>
    decreases b.len(),
{
    if b.len() == 0 {
        Seq::empty()
    } else {
        let x = b[0] as int;
        let y = if b.len() > 1 { b[1] as int } else { 0 };
        let z = if b.len() > 2 { b[2] as int } else { 0 };
        if b.len() == 1 {
            seq![b64_digit(x / 4), b64_digit((x % 4) * 16), '=', '=']
        } else if b.len() == 2 {
            seq![b64_digit(x / 4), b64_digit((x % 4) * 16 + y / 16), b64_digit((y % 16) * 4), '=']
        } else {
            seq![
                b64_digit(x / 4),
                b64_digit((x % 4) * 16 + y / 16),
                b64_digit((y % 16) * 4 + z / 64),
                b64_digit(z % 64),
            ] + base64_text(b.subrange(3, b.len() as int))
        }
    }
}

/// `base64::engine::general_purpose::STANDARD.encode`.
/// Trusted: the text is the padded standard base64 encoding of the bytes.
#[verifier::external_body]
pub(crate) fn base64_encode(bytes: &[u8]) -> (text: String)
    ensures
        text@ == base64_text(bytes@),
{
    base64::engine::general_purpose::STANDARD.encode(bytes)
}

/// `base64::engine::general_purpose::STANDARD.decode`.
/// Trusted: the engine requires canonical padding and rejects trailing bits,
/// so it accepts exactly the texts that `encode` produces and gives back the
/// bytes that were encoded.
#[verifier::external_body]
pub(crate) fn base64_decode(text: &str) -> (bytes: Option<Vec<u8>>)
    ensures
        bytes matches Some(b) ==> text@ == base64_text(b@),
        forall|b: Seq<u8>|
            text@ == #[trigger] base64_text(b) ==> bytes is Some && bytes->0@ == b,
{
    base64::engine::general_purpose::STANDARD.decode(text).ok()
}

/// A lowercase hexadecimal digit.
pub open spec fn hex_digit(v: int) -> char {
    if v < 10 {
        (48 + v) as char
    } else {
        (97 + v - 10) as char
    }
}

/// Two lowercase hex digits per byte, high nibble first.
pub open spec fn hex_text(b: Seq<u8>) -> Seq<char>
    decreases b.len(),
{
    if b.len() == 0 {
        Seq::empty()
    } else {
        hex_text(b.drop_last()) + seq![hex_digit(b.last() as int / 16), hex_digit(b.last() as int % 16)]
    }
}

/// `hex::encode`.  Trusted: lowercase hex digits, two per byte, in order.
#[verifier::external_body]
pub(crate) fn hex_encode(bytes: &[u8]) -> (text: String)
    ensures
        text@ == hex_text(bytes@),
{
    hex::encode(bytes)
}

} // verus!
