//! The parts of the `ed25519-dalek` crate that this library builds on, with what is taken on
//! trust of each.

use vstd::prelude::*;

verus! {

/// Whether `ed25519_dalek::VerifyingKey::from_bytes` takes the 32 bytes as a public key.
pub uninterp spec fn ed25519_decodes(key: Seq<u8>) -> bool;

/// Whether `ed25519_dalek::VerifyingKey::verify_strict` takes the 64 bytes as a signature of
/// `message` under the public key.
pub uninterp spec fn ed25519_verifies(key: Seq<u8>, message: Seq<u8>, signature: Seq<u8>) -> bool;

/// `ed25519_dalek::VerifyingKey::from_bytes`, of which only the success is kept. It depends on
/// the bytes alone; a failure says "signature error".
#[verifier::external_body]
pub(crate) fn check_key(key: &[u8; 32]) -> (checked: Result<(), String>)
    ensures
        checked is Ok <==> ed25519_decodes(key@),
        checked matches Err(text) ==> text@ == "signature error"@,
{
    match ed25519_dalek::VerifyingKey::from_bytes(key) {
        Ok(_) => Ok(()),
        Err(e) => Err(e.to_string()),
    }
}

/// `ed25519_dalek::VerifyingKey::verify_strict`, with its key and signature made from plain bytes.
/// Its answer depends on the key, the message and the signature alone; it is no for bytes that
/// are not a public key.
#[verifier::external_body]
pub(crate) fn verify_strict(key: &[u8; 32], message: &[u8], signature: &[u8; 64]) -> (valid: bool)
    ensures
        valid == ed25519_verifies(key@, message@, signature@),
{
    match ed25519_dalek::VerifyingKey::from_bytes(key) {
        Ok(vk) => {
            let signature = ed25519_dalek::Signature::from_bytes(signature);
            vk.verify_strict(message, &signature).is_ok()
        },
        Err(_) => false,
    }
}

} // verus!
