//! Keypair generation. A keypair's canonical 64-byte secret encoding is the
//! 32-byte seed followed by the derived 32-byte public key; the system
//! emits it once and retains no copy.

use vstd::prelude::*;

use crate::codec::{base58_encode, base58_of, base58_decoded};
use crate::error::ServerError;

verus! {

/// The freshly generated keypair, as the caller receives it: the public key
/// in base-58, the 64-byte secret encoding in base-58.
pub struct KeypairResponse {
    pub pubkey: String,
    pub secret: String,
}

/// Whether 64 bytes form a structurally valid keypair — the last 32 bytes
/// equal the public key derived from the first 32. This is exactly what
/// `Keypair::from_bytes` accepts.
pub uninterp spec fn keypair_bytes_consistent(b: Seq<u8>) -> bool;

/// Relies on `solana_sdk`'s `Keypair::from_bytes`: it succeeds exactly when
/// the bytes pass the structural keypair check.
#[verifier::external_body]
pub(crate) fn keypair_bytes_check(b: &Vec<u8>) -> (r: bool)
    ensures
        r == keypair_bytes_consistent(b@),
{
    solana_sdk::signer::keypair::Keypair::from_bytes(b.as_slice()).is_ok()
}

/// Relies on `Keypair::new` and `Keypair::to_bytes`: a fresh keypair drawn
/// from the secure random source yields 64 bytes — the seed then its
/// derived public key — which therefore pass the structural check. Nothing
/// more is assumed of the random outcome.
#[verifier::external_body]
fn generate_keypair_bytes() -> (r: Vec<u8>)
    ensures
        r@.len() == 64,
        keypair_bytes_consistent(r@),
{
    solana_sdk::signer::keypair::Keypair::new().to_bytes().to_vec()
}

/// Copies the second half of a 64-byte secret encoding: the public-key
/// bytes.
pub fn public_key_bytes(b: &Vec<u8>) -> (r: Vec<u8>)
    requires
        b@.len() == 64,
    ensures
        r@ == b@.subrange(32, 64),
        r@.len() == 32,
{
    let mut r: Vec<u8> = Vec::new();
    let mut i: usize = 32;
    while i < 64
        invariant
            32 <= i <= 64,
            b@.len() == 64,
            r@ == b@.subrange(32, i as int),
        decreases 64 - i,
    {
        r.push(b[i]);
        proof {
            assert(b@.subrange(32, i + 1) =~= b@.subrange(32, i as int).push(b@[i as int]));
        }
        i = i + 1;
    }
    r
}

/// Generates a fresh keypair. No failure path under normal operation; the
/// response carries the base-58 public key and the base-58 encoding of the
/// 64 secret bytes, whose second half is that public key.
pub fn create_new_keypair() -> (r: Result<KeypairResponse, ServerError>)
    ensures
        r is Ok,
        r matches Ok(d) ==> exists|b: Seq<u8>|
            #[trigger] keypair_bytes_consistent(b) && b.len() == 64 && d.secret@ == base58_of(b)
                && base58_decoded(d.secret@) == Some(b) && d.pubkey@ == base58_of(
                b.subrange(32, 64),
            ) && base58_decoded(d.pubkey@) == Some(b.subrange(32, 64)),
{
    let bytes = generate_keypair_bytes();
    let pk = public_key_bytes(&bytes);
    let pubkey = base58_encode(&pk);
    let secret = base58_encode(&bytes);
    let d = KeypairResponse { pubkey, secret };
    proof {
        assert(keypair_bytes_consistent(bytes@) && bytes@.len() == 64 && d.secret@ == base58_of(
            bytes@,
        ) && base58_decoded(d.secret@) == Some(bytes@) && d.pubkey@ == base58_of(
            bytes@.subrange(32, 64),
        ) && base58_decoded(d.pubkey@) == Some(bytes@.subrange(32, 64)));
    }
    Ok(d)
}

} // verus!
