use tamperlog::sign::{sign_data, verify_signature};

fn bytes(s: &str) -> Vec<u8> {
    s.as_bytes().to_vec()
}

#[test]
fn rfc4231_known_vector() {
    // HMAC-SHA256 test vector (RFC 4231, test case 2).
    let key = bytes("Jefe");
    let data = bytes("what do ya want for nothing?");
    let sig = sign_data(&data, &key);
    assert_eq!(
        String::from_utf8(sig).unwrap(),
        "5bdcc146bf60754e6a042426089575c75a003f089d2739839dec58b964ec3843"
    );
}

#[test]
fn signature_is_64_lowercase_hex_digits() {
    let sig = sign_data(&bytes("some,record,content"), &bytes("key"));
    assert_eq!(sig.len(), 64);
    for b in &sig {
        assert!(b.is_ascii_hexdigit());
        assert!(!b.is_ascii_uppercase());
    }
}

#[test]
fn sign_then_verify_succeeds() {
    let key = bytes("session-secret");
    let content = bytes("2024-01-01 10:00:00,3,7,ACTIVE,term,\"notes\",None");
    let sig = sign_data(&content, &key);
    assert!(verify_signature(&content, &key, &sig));
}

#[test]
fn flipped_content_byte_fails_verification() {
    let key = bytes("session-secret");
    let content = bytes("2024-01-01 10:00:00,3,7,ACTIVE,term,\"notes\",None");
    let sig = sign_data(&content, &key);
    for i in 0..content.len() {
        let mut changed = content.clone();
        changed[i] ^= 0x01;
        assert!(!verify_signature(&changed, &key, &sig));
    }
}

#[test]
fn flipped_key_byte_fails_verification() {
    let key = bytes("session-secret");
    let content = bytes("2024-01-01 10:00:00,3,7,ACTIVE,term,\"notes\",None");
    let sig = sign_data(&content, &key);
    for i in 0..key.len() {
        let mut changed = key.clone();
        changed[i] ^= 0x01;
        assert!(!verify_signature(&content, &changed, &sig));
    }
}

#[test]
fn altered_signature_fails_verification() {
    let key = bytes("session-secret");
    let content = bytes("row content");
    let mut sig = sign_data(&content, &key);
    let first = sig[0];
    sig[0] = if first == b'0' { b'1' } else { b'0' };
    assert!(!verify_signature(&content, &key, &sig));
    // A truncated signature is not accepted either.
    let sig = sign_data(&content, &key);
    assert!(!verify_signature(&content, &key, &sig[..63]));
}

#[test]
fn empty_content_and_empty_key_still_sign() {
    let sig = sign_data(&[], &[]);
    assert_eq!(sig.len(), 64);
    assert!(verify_signature(&[], &[], &sig));
}
