use vstd::prelude::*;

verus! {

/// The HMAC-SHA256 digest of `data` under `key`: a fixed 32-byte value
/// determined by the key and the data alone.  The algorithm itself is not
/// restated here; the digest is only ever produced by the trusted call
/// below and compared for equality.
pub uninterp spec fn hmac_sha256(key: Seq<u8>, data: Seq<u8>) -> Seq<u8>;

/// The lowercase hex digit (as an ASCII byte) for a nibble value.
pub open spec fn hex_digit(n: u8) -> u8
    recommends
        n < 16,
{
    if n < 10 {
        (0x30 + n) as u8
    } else {
        (0x57 + n) as u8
    }
}

/// Lowercase hex encoding of a byte sequence: two digits per byte,
/// high nibble first.
pub open spec fn hex_bytes_of(s: Seq<u8>) -> Seq<u8>
    decreases s.len(),
{
    if s.len() == 0 {
        Seq::<u8>::empty()
    } else {
        seq![hex_digit(s[0] / 16), hex_digit(s[0] % 16)] + hex_bytes_of(s.drop_first())
    }
}

/// The signature written into a log row: the lowercase hex encoding of
/// the record's HMAC-SHA256 digest under the session key.
pub open spec fn signature_spec(key: Seq<u8>, data: Seq<u8>) -> Seq<u8> {
    hex_bytes_of(hmac_sha256(key, data))
}

/// Whether a claimed signature is exactly the one owed to `data` under
/// `key`.
pub open spec fn signature_matches(key: Seq<u8>, data: Seq<u8>, sig: Seq<u8>) -> bool {
    sig == signature_spec(key, data)
}

/// Relies on `hmac::Hmac<sha2::Sha256>` (`new_from_slice`, `update`,
/// `finalize`) for the HMAC-SHA256 digest: a 32-byte output that is a
/// deterministic function of the key and the data; keys of any length are
/// accepted, so the construction never fails.
#[verifier::external_body]
fn hmac_sha256_digest(key: &[u8], data: &[u8]) -> (r: Vec<u8>)
    ensures
        r@ == hmac_sha256(key@, data@),
        r@.len() == 32,
{
    let mut mac = <hmac::Hmac<sha2::Sha256> as hmac::KeyInit>::new_from_slice(key)
        .expect("HMAC accepts keys of any length");
    hmac::Mac::update(&mut mac, data);
    hmac::Mac::finalize(mac).into_bytes().to_vec()
}

/// Relies on `hex::encode`: two lowercase hex digits per input byte, high
/// nibble first.
#[verifier::external_body]
fn hex_lower(bytes: &[u8]) -> (r: Vec<u8>)
    ensures
        r@ == hex_bytes_of(bytes@),
{
    hex::encode(bytes).into_bytes()
}

/// Hex encoding doubles the length.
pub proof fn lemma_hex_bytes_len(s: Seq<u8>)
    ensures
        hex_bytes_of(s).len() == 2 * s.len(),
    decreases s.len(),
{
    if s.len() > 0 {
        lemma_hex_bytes_len(s.drop_first());
    }
}

/// Hex digits are injective on nibble values.
proof fn lemma_hex_digit_injective(a: u8, b: u8)
    requires
        a < 16,
        b < 16,
        hex_digit(a) == hex_digit(b),
    ensures
        a == b,
{
}

/// Hex encoding is injective: equal encodings come from equal inputs.
pub proof fn lemma_hex_bytes_injective(s: Seq<u8>, t: Seq<u8>)
    requires
        hex_bytes_of(s) == hex_bytes_of(t),
    ensures
        s == t,
    decreases s.len(),
{
    lemma_hex_bytes_len(s);
    lemma_hex_bytes_len(t);
    if s.len() == 0 {
        assert(s =~= t);
    } else {
        assert(hex_bytes_of(s)[0] == hex_digit(s[0] / 16));
        assert(hex_bytes_of(t)[0] == hex_digit(t[0] / 16));
        assert(hex_bytes_of(s)[1] == hex_digit(s[0] % 16));
        assert(hex_bytes_of(t)[1] == hex_digit(t[0] % 16));
        lemma_hex_digit_injective(s[0] / 16, t[0] / 16);
        lemma_hex_digit_injective(s[0] % 16, t[0] % 16);
        assert(s[0] == t[0]);
        assert(hex_bytes_of(s.drop_first()) =~= hex_bytes_of(t.drop_first())) by {
            assert(forall|i: int|
                0 <= i < hex_bytes_of(s.drop_first()).len() ==> hex_bytes_of(s.drop_first())[i]
                    == hex_bytes_of(s)[i + 2] && hex_bytes_of(t.drop_first())[i] == hex_bytes_of(
                    t,
                )[i + 2]);
        }
        lemma_hex_bytes_injective(s.drop_first(), t.drop_first());
        assert(forall|i: int|
            1 <= i < s.len() ==> s[i] == s.drop_first()[i - 1] && t[i] == t.drop_first()[i - 1]);
        assert(s =~= t);
    }
}

/// Sign a serialized record: one HMAC-SHA256 pass under `key`, hex-encoded
/// in lowercase.  The result is always 64 hex digits.
pub fn sign_data(data: &[u8], key: &[u8]) -> (sig: Vec<u8>)
    ensures
        sig@ == signature_spec(key@, data@),
        sig@.len() == 64,
{
    let digest = hmac_sha256_digest(key, data);
    let sig = hex_lower(digest.as_slice());
    proof {
        lemma_hex_bytes_len(digest@);
    }
    sig
}

/// Byte-for-byte equality of two slices.
fn bytes_eq(a: &[u8], b: &[u8]) -> (r: bool)
    ensures
        r == (a@ == b@),
{
    if a.len() != b.len() {
        return false;
    }
    let mut i: usize = 0;
    while i < a.len()
        invariant
            i <= a.len(),
            a@.len() == b@.len(),
            forall|j: int| 0 <= j < i ==> a@[j] == b@[j],
        decreases a.len() - i,
    {
        if a[i] != b[i] {
            return false;
        }
        i = i + 1;
    }
    proof {
        assert(a@ =~= b@);
    }
    true
}

/// Recompute the signature for `data` under `key` and compare it with the
/// claimed one; acceptance is exact-match, nothing partial.
pub fn verify_signature(data: &[u8], key: &[u8], sig: &[u8]) -> (ok: bool)
    ensures
        ok == signature_matches(key@, data@, sig@),
{
    let computed = sign_data(data, key);
    bytes_eq(sig, computed.as_slice())
}

/// Law: a signature produced for a record under a key always verifies
/// against that same record and key.
pub proof fn lemma_sign_then_verify(key: Seq<u8>, data: Seq<u8>)
    ensures
        signature_matches(key, data, signature_spec(key, data)),
{
}

/// Law: verification is exact.  A signature produced for one (key, data)
/// pair verifies against another if and only if the two HMAC-SHA256
/// digests coincide; in particular any change to the content or the key
/// that changes the digest flips the verification result to false.
pub proof fn lemma_verify_exact(key1: Seq<u8>, data1: Seq<u8>, key2: Seq<u8>, data2: Seq<u8>)
    ensures
        signature_matches(key2, data2, signature_spec(key1, data1)) <==> hmac_sha256(key2, data2)
            == hmac_sha256(key1, data1),
{
    if signature_matches(key2, data2, signature_spec(key1, data1)) {
        lemma_hex_bytes_injective(hmac_sha256(key1, data1), hmac_sha256(key2, data2));
    }
}

} // verus!
