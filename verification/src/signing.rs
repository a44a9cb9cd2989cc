//! Detached signatures with Dilithium-5, on plain bytes.
//!
//! Every function here is a trusted call into
//! `pqcrypto_dilithium::dilithium5`.

use pqcrypto_dilithium::dilithium5;
use pqcrypto_traits::sign::{DetachedSignature, PublicKey, SecretKey};
use vstd::prelude::*;

verus! {

/// Length of a signing public key.
pub const SIGNING_PUBLIC_KEY_LEN: usize = 2592;

/// Length of a signing secret key.
pub const SIGNING_SECRET_KEY_LEN: usize = 4896;

/// Greatest length of a detached signature.
pub const SIGNATURE_MAX_LEN: usize = 4627;

/// The signature validates for the message under the public key.
pub uninterp spec fn signature_verifies(
    signature: Seq<u8>,
    message: Seq<u8>,
    public_key: Seq<u8>,
) -> bool;

/// The signature that signing computes for a message under a secret key.
pub uninterp spec fn detached_signature(message: Seq<u8>, secret_key: Seq<u8>) -> Seq<u8>;

/// Trusted: `dilithium5::keypair`. The keys are random; the contract gives
/// only their lengths, public key first.
#[verifier::external_body]
pub(crate) fn signing_keypair() -> (keys: (Vec<u8>, Vec<u8>))
    ensures
        keys.0@.len() == SIGNING_PUBLIC_KEY_LEN,
        keys.1@.len() == SIGNING_SECRET_KEY_LEN,
{
    let (public, secret) = dilithium5::keypair();
    (public.as_bytes().to_vec(), secret.as_bytes().to_vec())
}

/// Trusted: `dilithium5::detached_sign`. Signing draws no randomness: the
/// signature is a function of message and secret key alone, named
/// `detached_signature`, and never longer than `SIGNATURE_MAX_LEN`.
#[verifier::external_body]
pub(crate) fn detached_sign(message: &[u8], secret_key: &[u8]) -> (signature: Vec<u8>)
    requires
        secret_key@.len() == SIGNING_SECRET_KEY_LEN,
    ensures
        signature@ == detached_signature(message@, secret_key@),
        signature@.len() <= SIGNATURE_MAX_LEN,
{
    let secret_key = dilithium5::SecretKey::from_bytes(secret_key).unwrap();
    dilithium5::detached_sign(message, &secret_key).as_bytes().to_vec()
}

/// Trusted: `dilithium5::verify_detached_signature`. The answer is a
/// function of signature, message and public key alone, named
/// `signature_verifies`; any error of the outside call counts as a refusal.
#[verifier::external_body]
pub(crate) fn verify_detached(signature: &[u8], message: &[u8], public_key: &[u8]) -> (ok: bool)
    requires
        signature@.len() <= SIGNATURE_MAX_LEN,
        public_key@.len() == SIGNING_PUBLIC_KEY_LEN,
    ensures
        ok == signature_verifies(signature@, message@, public_key@),
{
    let signature = dilithium5::DetachedSignature::from_bytes(signature).unwrap();
    let public_key = dilithium5::PublicKey::from_bytes(public_key).unwrap();
    dilithium5::verify_detached_signature(&signature, message, &public_key).is_ok()
}

} // verus!
