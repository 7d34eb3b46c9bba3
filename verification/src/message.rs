//! Message signing and verification. Signing is deterministic Ed25519 over
//! the raw message bytes; verification never raises on a well-formed but
//! mismatched signature — it reports `valid = false` — and signals an error
//! only for malformed input.

use vstd::prelude::*;

use crate::codec::{
    address_accepts, address_bytes_of, base58_decode, base58_decoded, base58_encode, base58_of,
    base64_decode, base64_decoded, base64_encode, base64_of, clone_bytes, parse_address,
};
use crate::error::{invalid_input_exactly, invalid_input_starting, ServerError};
use crate::keypair::{keypair_bytes_check, keypair_bytes_consistent, public_key_bytes};

verus! {

/// A request to sign `message` with the base-58 encoded 64-byte `secret`.
pub struct SignMessageRequest {
    pub message: Vec<u8>,
    pub secret: String,
}

/// A produced signature: base-64 signature, base-58 public key, and the
/// message that was signed.
pub struct SignMessageData {
    pub signature: String,
    pub public_key: String,
    pub message: Vec<u8>,
}

/// A request to verify `signature` (base-64) over `message` for `pubkey`
/// (base-58).
pub struct VerifyMessageRequest {
    pub message: Vec<u8>,
    pub pubkey: String,
    pub signature: String,
}

/// A verification verdict, echoing the checked message and public key.
pub struct VerifyMessageData {
    pub valid: bool,
    pub message: Vec<u8>,
    pub pubkey: String,
}

/// The Ed25519 signature over a message, as a function of the 64-byte
/// secret encoding and the message alone: signing is deterministic.
pub uninterp spec fn ed25519_signature_of(secret: Seq<u8>, message: Seq<u8>) -> Seq<u8>;

/// Whether a 64-byte signature verifies over a message for 32 public-key
/// bytes: a pure function of the three values.
pub uninterp spec fn ed25519_verifies(signature: Seq<u8>, pubkey: Seq<u8>, message: Seq<u8>) -> bool;

/// The inputs on which signing succeeds: both fields present, the secret
/// decodes from base-58 to exactly 64 bytes, and those bytes pass the
/// structural keypair check.
pub open spec fn sign_accepts(message: Seq<u8>, secret: Seq<char>) -> bool {
    &&& message.len() > 0
    &&& secret.len() > 0
    &&& base58_decoded(secret) matches Some(kp) && kp.len() == 64 && keypair_bytes_consistent(kp)
}

/// The 64 secret bytes of an accepted secret text.
pub open spec fn secret_bytes_of(secret: Seq<char>) -> Seq<u8> {
    base58_decoded(secret)->Some_0
}

/// The inputs on which verification runs: all three fields present, the
/// public key a well-formed address, the signature canonical base-64 for
/// exactly 64 bytes. On these it never errs, however the check comes out.
pub open spec fn verify_accepts(message: Seq<u8>, pubkey: Seq<char>, signature: Seq<char>) -> bool {
    &&& message.len() > 0
    &&& pubkey.len() > 0
    &&& signature.len() > 0
    &&& address_accepts(pubkey)
    &&& base64_decoded(signature) matches Some(sg) && sg.len() == 64
}

/// Relies on `Keypair::from_bytes` (the precondition makes it succeed) and
/// `Keypair::sign_message`: Ed25519 signing is deterministic in the secret
/// and the message, yields 64 bytes, and the produced signature verifies
/// against the keypair's public key — the last 32 secret bytes — for the
/// same message.
#[verifier::external_body]
fn ed25519_sign(secret: &Vec<u8>, message: &Vec<u8>) -> (r: Vec<u8>)
    requires
        secret@.len() == 64,
        keypair_bytes_consistent(secret@),
    ensures
        r@ == ed25519_signature_of(secret@, message@),
        r@.len() == 64,
        ed25519_verifies(r@, secret@.subrange(32, 64), message@),
{
    let kp = solana_sdk::signer::keypair::Keypair::from_bytes(secret.as_slice()).unwrap();
    solana_sdk::signer::Signer::sign_message(&kp, message.as_slice()).as_ref().to_vec()
}

/// Relies on `Signature::verify` (strict Ed25519 verification over the raw
/// public-key bytes): a pure function of the signature, public-key and
/// message bytes, returning false — never panicking — on any mismatch.
#[verifier::external_body]
fn ed25519_verify(signature: &Vec<u8>, pubkey: &Vec<u8>, message: &Vec<u8>) -> (r: bool)
    requires
        signature@.len() == 64,
    ensures
        r == ed25519_verifies(signature@, pubkey@, message@),
{
    let sig = solana_sdk::signature::Signature::try_from(signature.as_slice()).unwrap();
    sig.verify(pubkey.as_slice(), message.as_slice())
}

/// Signs a byte message with a base-58 encoded 64-byte secret.
///
/// Validation, in order: both inputs non-empty, the secret base-58, the
/// decoded secret exactly 64 bytes, the bytes structurally consistent. The
/// output carries the base-64 signature and the base-58 public key (the
/// second half of the secret bytes).
pub fn sign_message(message: &Vec<u8>, secret: &str) -> (r: Result<SignMessageData, ServerError>)
    ensures
        r is Ok <==> sign_accepts(message@, secret@),
        r matches Ok(d) ==> ({
            let kp = secret_bytes_of(secret@);
            &&& d.message@ == message@
            &&& d.public_key@ == base58_of(kp.subrange(32, 64))
            &&& base58_decoded(d.public_key@) == Some(kp.subrange(32, 64))
            &&& d.public_key@.len() > 0
            &&& d.signature@ == base64_of(ed25519_signature_of(kp, message@))
            &&& base64_decoded(d.signature@) == Some(ed25519_signature_of(kp, message@))
            &&& d.signature@.len() > 0
            &&& ed25519_signature_of(kp, message@).len() == 64
            &&& ed25519_verifies(ed25519_signature_of(kp, message@), kp.subrange(32, 64), message@)
        }),
        (message@.len() == 0 || secret@.len() == 0) ==> (r matches Err(e)
            && invalid_input_exactly(e, "Missing required fields"@)),
        (message@.len() > 0 && secret@.len() > 0 && base58_decoded(secret@) is None) ==> (
        r matches Err(e) && e is Base58DecodeError),
        (message@.len() > 0 && secret@.len() > 0 && (base58_decoded(secret@) matches Some(kp)
            && kp.len() != 64)) ==> (r matches Err(e) && invalid_input_exactly(
            e,
            "Invalid secret key length"@,
        )),
        (message@.len() > 0 && secret@.len() > 0 && (base58_decoded(secret@) matches Some(kp)
            && kp.len() == 64 && !keypair_bytes_consistent(kp))) ==> (r matches Err(e)
            && invalid_input_exactly(e, "Failed to create keypair: invalid keypair bytes"@)),
{
    if message.len() == 0 || secret.is_empty() {
        return Err(ServerError::InvalidInput(String::from_str("Missing required fields")));
    }
    let keypair_bytes = match base58_decode(secret) {
        Ok(v) => v,
        Err(e) => {
            return Err(ServerError::Base58DecodeError(e));
        },
    };
    if keypair_bytes.len() != 64 {
        return Err(ServerError::InvalidInput(String::from_str("Invalid secret key length")));
    }
    if !keypair_bytes_check(&keypair_bytes) {
        return Err(
            ServerError::InvalidInput(
                String::from_str("Failed to create keypair: invalid keypair bytes"),
            ),
        );
    }
    let sig = ed25519_sign(&keypair_bytes, message);
    let pk = public_key_bytes(&keypair_bytes);
    let public_key = base58_encode(&pk);
    let signature = base64_encode(&sig);
    Ok(SignMessageData { signature, public_key, message: clone_bytes(message) })
}

/// Checks a (message, public key, signature) triple.
///
/// Validation, in order: all three inputs non-empty, the public key a
/// well-formed 32-byte address, the signature canonical base-64 of exactly
/// 64 bytes. A well-formed but mismatched signature yields `valid = false`,
/// never an error.
pub fn verify_message(message: &Vec<u8>, pubkey_str: &str, signature_str: &str) -> (r: Result<
    VerifyMessageData,
    ServerError,
>)
    ensures
        r is Ok <==> verify_accepts(message@, pubkey_str@, signature_str@),
        r matches Ok(d) ==> d.valid == ed25519_verifies(
            base64_decoded(signature_str@)->Some_0,
            address_bytes_of(pubkey_str@),
            message@,
        ) && d.message@ == message@ && d.pubkey@ == pubkey_str@,
        r matches Err(e) ==> e is InvalidInput,
        (message@.len() == 0 || pubkey_str@.len() == 0 || signature_str@.len() == 0) ==> (
        r matches Err(e) && invalid_input_exactly(e, "Missing required fields"@)),
        (message@.len() > 0 && pubkey_str@.len() > 0 && signature_str@.len() > 0
            && !address_accepts(pubkey_str@)) ==> (r matches Err(e) && invalid_input_starting(
            e,
            "Invalid pubkey: "@,
        )),
        (message@.len() > 0 && pubkey_str@.len() > 0 && signature_str@.len() > 0
            && address_accepts(pubkey_str@) && base64_decoded(signature_str@) is None) ==> (
        r matches Err(e) && invalid_input_starting(e, "Invalid signature format: "@)),
        (message@.len() > 0 && pubkey_str@.len() > 0 && signature_str@.len() > 0
            && address_accepts(pubkey_str@) && (base64_decoded(signature_str@) matches Some(sg)
            && sg.len() != 64)) ==> (r matches Err(e) && invalid_input_exactly(
            e,
            "Invalid signature length"@,
        )),
{
    if message.len() == 0 || pubkey_str.is_empty() || signature_str.is_empty() {
        return Err(ServerError::InvalidInput(String::from_str("Missing required fields")));
    }
    let pk = match parse_address(pubkey_str) {
        Ok(v) => v,
        Err(e) => {
            let msg = String::from_str("Invalid pubkey: ").concat(e.as_str());
            proof {
                assert("Invalid pubkey: "@.is_prefix_of(msg@));
            }
            return Err(ServerError::InvalidInput(msg));
        },
    };
    let sig = match base64_decode(signature_str) {
        Ok(v) => v,
        Err(e) => {
            let msg = String::from_str("Invalid signature format: ").concat(e.as_str());
            proof {
                assert("Invalid signature format: "@.is_prefix_of(msg@));
            }
            return Err(ServerError::InvalidInput(msg));
        },
    };
    if sig.len() != 64 {
        return Err(ServerError::InvalidInput(String::from_str("Invalid signature length")));
    }
    let valid = ed25519_verify(&sig, &pk, message);
    Ok(
        VerifyMessageData {
            valid,
            message: clone_bytes(message),
            pubkey: String::from_str(pubkey_str),
        },
    )
}

/// Law: signing a message and then verifying the returned signature with
/// the returned public key reports the signature valid, on every input
/// signing accepts.
pub fn sign_then_verify(message: &Vec<u8>, secret: &str) -> (r: Result<bool, ServerError>)
    ensures
        r is Ok <==> sign_accepts(message@, secret@),
        r matches Ok(v) ==> v,
{
    match sign_message(message, secret) {
        Ok(d) => {
            match verify_message(message, d.public_key.as_str(), d.signature.as_str()) {
                Ok(vd) => Ok(vd.valid),
                Err(e) => Err(e),
            }
        },
        Err(e) => Err(e),
    }
}

} // verus!
