//! Hexadecimal encoding and decoding of byte strings, as used in the
//! `sha256=<hex-digest>` signature header.
//!
//! The format itself is specified here as spec functions; the executable
//! conversions are delegated to the `hex` crate through trusted wrappers
//! whose contracts restate what that crate's source shows: `decode` accepts
//! an even number of hex digits of either case, and `encode` emits two
//! lowercase digits per byte.

use vstd::prelude::*;

verus! {

/// The numeric value of one hex digit; digits of both cases are accepted,
/// as `hex::decode` does.
pub open spec fn hex_digit_value(c: char) -> Option<u8> {
    if '0' <= c && c <= '9' {
        Some((c as u8 - '0' as u8) as u8)
    } else if 'a' <= c && c <= 'f' {
        Some((c as u8 - 'a' as u8 + 10) as u8)
    } else if 'A' <= c && c <= 'F' {
        Some((c as u8 - 'A' as u8 + 10) as u8)
    } else {
        None
    }
}

/// The lowercase hex digit for a value below 16.
pub open spec fn hex_char_of_nibble(v: u8) -> char
    recommends
        v < 16,
{
    if v < 10 {
        (('0' as u8 + v) as u8) as char
    } else {
        (('a' as u8 + (v - 10)) as u8) as char
    }
}

/// Lowercase hex encoding: two digits per byte, high nibble first.
pub open spec fn spec_hex_encode(bytes: Seq<u8>) -> Seq<char>
    decreases bytes.len(),
{
    if bytes.len() == 0 {
        Seq::empty()
    } else {
        seq![
            hex_char_of_nibble((bytes[0] / 16) as u8),
            hex_char_of_nibble((bytes[0] % 16) as u8),
        ] + spec_hex_encode(bytes.drop_first())
    }
}

/// Hex decoding: `None` on an odd length or any character that is not a
/// hex digit, otherwise the byte string the digit pairs denote.
pub open spec fn spec_hex_decode(s: Seq<char>) -> Option<Seq<u8>>
    decreases s.len(),
{
    if s.len() == 0 {
        Some(Seq::empty())
    } else if s.len() == 1 {
        None
    } else {
        match (hex_digit_value(s[0]), hex_digit_value(s[1])) {
            (Some(hi), Some(lo)) => match spec_hex_decode(s.skip(2)) {
                Some(rest) => Some(seq![(hi * 16 + lo) as u8] + rest),
                None => None,
            },
            _ => None,
        }
    }
}

proof fn lemma_nibble_roundtrip(v: u8)
    requires
        v < 16,
    ensures
        hex_digit_value(hex_char_of_nibble(v)) == Some(v),
{
}

/// Law: decoding undoes encoding, for every byte string.
pub proof fn lemma_hex_roundtrip(bytes: Seq<u8>)
    ensures
        spec_hex_decode(spec_hex_encode(bytes)) == Some(bytes),
    decreases bytes.len(),
{
    if bytes.len() == 0 {
        assert(bytes =~= Seq::<u8>::empty());
    } else {
        let b = bytes[0];
        lemma_nibble_roundtrip((b / 16) as u8);
        lemma_nibble_roundtrip((b % 16) as u8);
        lemma_hex_roundtrip(bytes.drop_first());
        let e = spec_hex_encode(bytes);
        assert(e.skip(2) =~= spec_hex_encode(bytes.drop_first()));
        assert(seq![((b / 16) * 16 + b % 16) as u8] + bytes.drop_first() =~= bytes);
    }
}

/// Relies on `hex::decode`: it yields the bytes of an even-length string
/// of hex digits (either case) and errors on any other input. `decode`
/// reads the UTF-8 bytes of the string; every char that is not an ASCII
/// hex digit contributes only non-digit bytes, so the char-level spec
/// agrees with it.
#[verifier::external_body]
pub(crate) fn hex_decode_str(s: &str) -> (r: Option<Vec<u8>>)
    ensures
        match r {
            Some(v) => spec_hex_decode(s@) == Some(v@),
            None => spec_hex_decode(s@) is None,
        },
{
    match hex::decode(s) {
        Ok(v) => Some(v),
        Err(_) => None,
    }
}

/// Relies on `hex::encode`: two lowercase hex digits per input byte, in
/// order, high nibble first.
#[verifier::external_body]
pub(crate) fn hex_encode_bytes(b: &[u8]) -> (r: String)
    ensures
        r@ == spec_hex_encode(b@),
{
    hex::encode(b)
}

} // verus!
