//! Signature verification for inbound webhook deliveries.
//!
//! A delivery is authenticated by a header of the form
//! `sha256=<lowercase-hex digest>`, where the digest is the HMAC-SHA-256
//! tag of the raw body under a shared secret. Verification collapses every
//! failure — wrong tag, malformed hex, missing prefix — into a single
//! `false`, so a caller cannot tell the reasons apart.

use vstd::prelude::*;
use vstd::string::StrSliceExecFns;
use vstd::string::StringExecFns;
use crate::hexstr::{spec_hex_decode, spec_hex_encode, lemma_hex_roundtrip, hex_decode_str,
    hex_encode_bytes};
use hmac::KeyInit;
use hmac::Mac;

verus! {

/// The HMAC-SHA-256 tag of `msg` under key `key`. The tag is a pure
/// function of the two arguments; its value is stated nowhere and is
/// supplied only by the trusted wrappers below.
pub uninterp spec fn hmac_sha256_of(key: Seq<u8>, msg: Seq<u8>) -> Seq<u8>;

/// Relies on `hmac::Hmac<sha2::Sha256>` (`new_from_slice`, `update`,
/// `finalize`): the tag depends on key and message alone and is 32 bytes
/// long; `new_from_slice` accepts keys of any length.
#[verifier::external_body]
pub(crate) fn hmac_sha256_tag(key: &[u8], msg: &[u8]) -> (r: Vec<u8>)
    ensures
        r@ == hmac_sha256_of(key@, msg@),
        r@.len() == 32,
{
    let mut mac = <hmac::Hmac<sha2::Sha256>>::new_from_slice(key)
        .expect("HMAC accepts keys of any length");
    mac.update(msg);
    mac.finalize().into_bytes().to_vec()
}

/// Relies on `hmac::Hmac<sha2::Sha256>` and `Mac::verify_slice`: the check
/// succeeds exactly when `tag` equals the 32-byte HMAC-SHA-256 tag of
/// `msg` under `key`, compared in constant time.
#[verifier::external_body]
pub(crate) fn hmac_sha256_check(key: &[u8], msg: &[u8], tag: &[u8]) -> (r: bool)
    ensures
        r == (tag@ == hmac_sha256_of(key@, msg@)),
{
    let mut mac = <hmac::Hmac<sha2::Sha256>>::new_from_slice(key)
        .expect("HMAC accepts keys of any length");
    mac.update(msg);
    mac.verify_slice(tag).is_ok()
}

/// What it means for a signature header to authenticate `payload` under
/// `secret`: the literal `sha256=` prefix, followed by the hex encoding of
/// the HMAC-SHA-256 tag.
pub open spec fn spec_verify(secret: Seq<u8>, payload: Seq<u8>, header: Seq<char>) -> bool {
    &&& header.len() >= 7
    &&& header.subrange(0, 7) == "sha256="@
    &&& spec_hex_decode(header.skip(7)) == Some(hmac_sha256_of(secret, payload))
}

/// The header `sign` produces: the `sha256=` tag followed by the lowercase
/// hex digest.
pub open spec fn spec_sign(secret: Seq<u8>, payload: Seq<u8>) -> Seq<char> {
    "sha256="@ + spec_hex_encode(hmac_sha256_of(secret, payload))
}

/// Checks a signature header against the shared secret and the raw body.
/// Every malformed or mismatching header yields `false`; no failure cause
/// is distinguished.
pub fn verify(secret: &[u8], payload: &[u8], header: &str) -> (r: bool)
    ensures
        r == spec_verify(secret@, payload@, header@),
{
    proof {
        reveal_strlit("sha256=");
    }
    let n = header.unicode_len();
    if n < 7 {
        return false;
    }
    let mut i: usize = 0;
    while i < 7
        invariant
            0 <= i <= 7,
            n == header@.len(),
            n >= 7,
            forall|k: int| 0 <= k < i ==> header@[k] == "sha256="@[k],
        decreases 7 - i,
    {
        proof {
            reveal_strlit("sha256=");
        }
        if header.get_char(i) != ("sha256=").get_char(i) {
            proof {
                assert(header@.subrange(0, 7)[i as int] == header@[i as int]);
            }
            return false;
        }
        i += 1;
    }
    proof {
        assert(header@.subrange(0, 7) =~= "sha256="@);
    }
    let suffix = header.substring_char(7, n);
    proof {
        assert(suffix@ =~= header@.skip(7));
    }
    match hex_decode_str(suffix) {
        Some(digest) => hmac_sha256_check(secret, payload, digest.as_slice()),
        None => false,
    }
}

/// Produces the signature header a sender holding `secret` would attach to
/// `payload`: `sha256=` followed by the lowercase hex HMAC-SHA-256 digest.
pub fn sign(secret: &[u8], payload: &[u8]) -> (r: String)
    ensures
        r@ == spec_sign(secret@, payload@),
{
    let tag = hmac_sha256_tag(secret, payload);
    let digits = hex_encode_bytes(tag.as_slice());
    let r = String::from_str("sha256=").concat(digits.as_str());
    r
}

/// Law: a header produced by `sign` always verifies against the same
/// secret and payload.
pub proof fn lemma_sign_verifies(secret: Seq<u8>, payload: Seq<u8>)
    ensures
        spec_verify(secret, payload, spec_sign(secret, payload)),
{
    reveal_strlit("sha256=");
    let h = spec_sign(secret, payload);
    assert(h.subrange(0, 7) =~= "sha256="@);
    assert(h.skip(7) =~= spec_hex_encode(hmac_sha256_of(secret, payload)));
    lemma_hex_roundtrip(hmac_sha256_of(secret, payload));
}

/// Law: a header that lacks the `sha256=` prefix, or whose suffix is not
/// valid hex, never verifies — whatever the secret and payload are.
pub proof fn lemma_malformed_header_rejected(secret: Seq<u8>, payload: Seq<u8>, header: Seq<char>)
    ensures
        header.len() < 7 || header.subrange(0, 7) != "sha256="@ ==> !spec_verify(
            secret,
            payload,
            header,
        ),
        spec_hex_decode(header.skip(7)) is None ==> !spec_verify(secret, payload, header),
{
}

} // verus!
