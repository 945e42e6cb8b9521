use github_webhook::signature::{sign, verify};
use hmac::{KeyInit, Mac};

fn reference_signature(secret: &[u8], payload: &[u8]) -> String {
    let mut mac = <hmac::Hmac<sha2::Sha256>>::new_from_slice(secret).unwrap();
    mac.update(payload);
    format!("sha256={}", hex::encode(mac.finalize().into_bytes()))
}

#[test]
fn sign_matches_reference_hmac() {
    // Known HMAC-SHA-256 vector: key "key", message "The quick brown fox
    // jumps over the lazy dog".
    let header = sign(b"key", b"The quick brown fox jumps over the lazy dog");
    assert_eq!(
        header,
        "sha256=f7bc83f430538424b13298e6aa6fb143ef4d59a14946175997479dbc2d1a3cd8"
    );
}

#[test]
fn signed_payload_verifies() {
    let cases: Vec<(&[u8], &[u8])> = vec![
        (b"topsecret", b"{}"),
        (b"key", b"payload bytes"),
        (b"", b"payload with empty secret"),
        (b"secret", b""),
        (b"", b""),
    ];
    for (secret, payload) in cases {
        let header = sign(secret, payload);
        assert!(verify(secret, payload, &header));
        assert_eq!(header, reference_signature(secret, payload));
    }
}

#[test]
fn mutated_payload_fails_verification() {
    let secret = b"topsecret";
    let payload = b"{\"action\":\"opened\"}".to_vec();
    let header = sign(secret, &payload);
    for i in 0..payload.len() {
        let mut mutated = payload.clone();
        mutated[i] ^= 0x01;
        assert!(!verify(secret, &mutated, &header));
    }
}

#[test]
fn wrong_secret_fails_verification() {
    let header = sign(b"topsecret", b"body");
    assert!(!verify(b"other", b"body", &header));
}

#[test]
fn malformed_headers_are_rejected_not_raised() {
    let secret = b"topsecret";
    let payload = b"body";
    let good = sign(secret, payload);
    // Missing `sha256=` prefix.
    assert!(!verify(secret, payload, &good[7..]));
    assert!(!verify(secret, payload, "sha1=deadbeef"));
    assert!(!verify(secret, payload, ""));
    // Non-hex suffix.
    assert!(!verify(secret, payload, "sha256=zzzz"));
    // Odd-length hex suffix.
    assert!(!verify(secret, payload, "sha256=abc"));
    // Hex of the wrong length still fails the digest comparison.
    assert!(!verify(secret, payload, "sha256=abcd"));
    // Empty secret and empty payload return false with a wrong digest.
    assert!(!verify(b"", payload, "sha256=00"));
    assert!(!verify(secret, b"", "sha256=00"));
}

#[test]
fn verify_accepts_uppercase_hex() {
    let header = sign(b"key", b"msg");
    let upper = format!("sha256={}", header[7..].to_uppercase());
    assert!(verify(b"key", b"msg", &upper));
}
