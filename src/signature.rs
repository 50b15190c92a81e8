use vstd::prelude::*;

use crate::error::AchievementError;
use crate::pubkey::Pubkey;

verus! {

/// Whether `sig` is a valid Ed25519 signature of `msg` under the public key
/// `key`: false also when `key` is no valid encoded curve point.
pub uninterp spec fn ed25519_accepts(key: Seq<u8>, msg: Seq<u8>, sig: Seq<u8>) -> bool;

/// Relies on ed25519_dalek (`VerifyingKey::from_bytes` to decode the key,
/// `Signature::from_bytes` to split the signature, `Verifier::verify` to check
/// it): the outcome depends on the three byte strings alone, and a key that does
/// not decode is a failure.
#[verifier::external_body]
fn ed25519_verify(key: &[u8; 32], msg: &[u8], sig: &[u8; 64]) -> (r: bool)
    ensures
        r == ed25519_accepts(key@, msg@, sig@),
{
    match ed25519_dalek::VerifyingKey::from_bytes(key) {
        Ok(vk) => {
            let s = ed25519_dalek::Signature::from_bytes(sig);
            ed25519_dalek::Verifier::verify(&vk, msg, &s).is_ok()
        },
        Err(_) => false,
    }
}

/// Maps the outcome of a signature check to the registry's result.
pub fn signature_outcome(accepted: bool) -> (r: Result<(), AchievementError>)
    ensures
        accepted ==> r is Ok,
        !accepted ==> r == Err::<(), AchievementError>(AchievementError::InvalidSignature),
{
    if accepted {
        Ok(())
    } else {
        Err(AchievementError::InvalidSignature)
    }
}

/// Checks `signature` over `message` against `expected_signer`.
pub fn verify_signature(message: &[u8], signature: &[u8; 64], expected_signer: &Pubkey) -> (r: Result<(), AchievementError>)
    ensures
        ed25519_accepts(expected_signer@, message@, signature@) ==> r is Ok,
        !ed25519_accepts(expected_signer@, message@, signature@) ==> r == Err::<(), AchievementError>(AchievementError::InvalidSignature),
{
    let accepted = ed25519_verify(&expected_signer.bytes, message, signature);
    signature_outcome(accepted)
}

} // verus!
