//! Key encapsulation with Kyber-1024, on plain bytes.
//!
//! Every function here is a trusted call into `pqcrypto_kyber::kyber1024`.
//! Keys, ciphertexts and secrets cross this boundary as byte strings of the
//! scheme's fixed lengths.

use pqcrypto_kyber::kyber1024;
use pqcrypto_traits::kem::{Ciphertext, PublicKey, SecretKey, SharedSecret};
use vstd::prelude::*;

verus! {

/// Length of an encapsulation public key.
pub const KEM_PUBLIC_KEY_LEN: usize = 1568;

/// Length of an encapsulation secret key.
pub const KEM_SECRET_KEY_LEN: usize = 3168;

/// Length of an encapsulated secret.
pub const KEM_CIPHERTEXT_LEN: usize = 1568;

/// Length of the secret that both sides end up sharing.
pub const SHARED_SECRET_LEN: usize = 32;

/// The secret that decapsulation recovers from a ciphertext under a secret key.
pub uninterp spec fn kem_shared_secret(ciphertext: Seq<u8>, secret_key: Seq<u8>) -> Seq<u8>;

/// Trusted: `kyber1024::keypair`. The keys are random; the contract gives
/// only their lengths, public key first.
#[verifier::external_body]
pub(crate) fn kem_keypair() -> (keys: (Vec<u8>, Vec<u8>))
    ensures
        keys.0@.len() == KEM_PUBLIC_KEY_LEN,
        keys.1@.len() == KEM_SECRET_KEY_LEN,
{
    let (public, secret) = kyber1024::keypair();
    (public.as_bytes().to_vec(), secret.as_bytes().to_vec())
}

/// Trusted: `kyber1024::encapsulate`. The secret is fresh on every call; the
/// contract gives only the lengths of the shared secret and of its
/// encapsulation, in that order.
#[verifier::external_body]
pub(crate) fn kem_encapsulate(public_key: &[u8]) -> (out: (Vec<u8>, Vec<u8>))
    requires
        public_key@.len() == KEM_PUBLIC_KEY_LEN,
    ensures
        out.0@.len() == SHARED_SECRET_LEN,
        out.1@.len() == KEM_CIPHERTEXT_LEN,
{
    let public = kyber1024::PublicKey::from_bytes(public_key).unwrap();
    let (secret, ciphertext) = kyber1024::encapsulate(&public);
    (secret.as_bytes().to_vec(), ciphertext.as_bytes().to_vec())
}

/// Trusted: `kyber1024::decapsulate`. The result is a function of ciphertext
/// and secret key alone, named `kem_shared_secret`, and is 32 bytes long.
#[verifier::external_body]
pub(crate) fn kem_decapsulate(ciphertext: &[u8], secret_key: &[u8]) -> (secret: Vec<u8>)
    requires
        ciphertext@.len() == KEM_CIPHERTEXT_LEN,
        secret_key@.len() == KEM_SECRET_KEY_LEN,
    ensures
        secret@ == kem_shared_secret(ciphertext@, secret_key@),
        secret@.len() == SHARED_SECRET_LEN,
{
    let ciphertext = kyber1024::Ciphertext::from_bytes(ciphertext).unwrap();
    let secret_key = kyber1024::SecretKey::from_bytes(secret_key).unwrap();
    kyber1024::decapsulate(&ciphertext, &secret_key).as_bytes().to_vec()
}

} // verus!
