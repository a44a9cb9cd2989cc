//! The host's hash primitive.

use vstd::prelude::*;

verus! {

/// Length of a digest.
pub const DIGEST_LEN: usize = 32;

/// Greatest length of data that is hashed in one call: one mebibyte.
pub const HASH_INPUT_MAX: usize = 1_048_576;

/// The SHA-256 digest of the data.
pub uninterp spec fn sha256_of(data: Seq<u8>) -> Seq<u8>;

/// Trusted: `soroban_sdk::crypto::Crypto::sha256`, on a host environment of
/// its own. The digest is a function of the data alone, named `sha256_of`,
/// and is 32 bytes long. The host meters the call against the budget of a
/// fresh environment, 100 million instructions: hashing is charged at
/// about 55 instructions a byte and copying the data in at a quarter of
/// one, so a mebibyte takes under 60 million and stays within the budget.
#[verifier::external_body]
pub(crate) fn host_sha256(data: &[u8]) -> (digest: Vec<u8>)
    requires
        data@.len() <= HASH_INPUT_MAX,
    ensures
        digest@ == sha256_of(data@),
        digest@.len() == DIGEST_LEN,
{
    let env = soroban_sdk::Env::default();
    let bytes = soroban_sdk::Bytes::from_slice(&env, data);
    env.crypto().sha256(&bytes).to_array().to_vec()
}

} // verus!
