use vstd::prelude::*;

verus! {

/// Length, in bytes, of a freshly generated signing key.
pub const SESSION_KEY_LEN: usize = 32;

/// Relies on `rand::random::<[u8; 32]>()` for fresh key material.  The
/// bytes are random, so nothing is assumed of them beyond their count.
#[verifier::external_body]
pub fn generate_key() -> (key: Vec<u8>)
    ensures
        key@.len() == SESSION_KEY_LEN,
{
    let bytes: [u8; 32] = rand::random();
    bytes.to_vec()
}

} // verus!
