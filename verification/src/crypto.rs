//! The calls into the cryptographic crates.
//!
//! Nothing in this file is proved: each function's contract is taken from the
//! crate that it calls. Digests and signature checks are functions of their
//! arguments alone, as is the public key that belongs to a secret key, so
//! these results are given names that the rest of the library can speak of;
//! random values get no name.

use ed25519_dalek::Verifier;
use rand::RngCore;
use sha3::Digest;
use vstd::prelude::*;

verus! {

/// The SHA3-256 digest of `data`.
pub uninterp spec fn sha3_256(data: Seq<u8>) -> Seq<u8>;

/// Whether `signature` is accepted as an Ed25519 signature of `message` under
/// `public_key`: the key and the signature both parse and the check succeeds.
pub uninterp spec fn ed25519_verifies(
    public_key: Seq<u8>,
    message: Seq<u8>,
    signature: Seq<u8>,
) -> bool;

/// The Ed25519 public key that belongs to a secret key: the 32 bytes that
/// `ed25519_dalek::PublicKey::from` derives from the secret key's 32 bytes.
pub uninterp spec fn ed25519_public_key(secret_key: Seq<u8>) -> Seq<u8>;

/// `sha3::Sha3_256::digest`: hashes the whole of `data` in one call. The
/// contract only names the 32 bytes that come back.
#[verifier::external_body]
pub(crate) fn sha3_256_digest(data: &[u8]) -> (hash: [u8; 32])
    ensures
        hash@ == sha3_256(data@),
{
    let mut hash = [0_u8; 32];
    hash.copy_from_slice(&sha3::Sha3_256::digest(data));
    hash
}

/// `ed25519_dalek::PublicKey::verify`, on a key read by
/// `ed25519_dalek::PublicKey::from_bytes` and a signature read by
/// `ed25519_dalek::Signature::from_bytes`. Bytes that do not parse count as a
/// failed check. The contract names the answer and claims nothing else.
#[verifier::external_body]
pub(crate) fn ed25519_verify(public_key: &[u8; 32], message: &[u8], signature: &[u8; 64]) -> (valid:
    bool)
    ensures
        valid == ed25519_verifies(public_key@, message@, signature@),
{
    let key = match ed25519_dalek::PublicKey::from_bytes(public_key) {
        Ok(key) => key,
        Err(_) => return false,
    };
    let signature = match ed25519_dalek::Signature::from_bytes(signature) {
        Ok(signature) => signature,
        Err(_) => return false,
    };
    key.verify(message, &signature).is_ok()
}

/// `ed25519_dalek::Keypair::generate` on `rand::thread_rng`, handed back as
/// `ed25519_dalek::Keypair::to_bytes` lays it out: the secret key, then the
/// public key. The secret key is random, so the contract promises nothing of
/// it; the public key is the one that `generate` derives from it with
/// `ed25519_dalek::PublicKey::from`, and the contract says no more than that.
/// The generator stops the process if the operating system gives it no seed.
#[verifier::external_body]
pub(crate) fn ed25519_generate() -> (keypair: [u8; 64])
    ensures
        keypair@.subrange(32, 64) == ed25519_public_key(keypair@.subrange(0, 32)),
{
    ed25519_dalek::Keypair::generate(&mut rand::thread_rng()).to_bytes()
}

/// `rand::RngCore::fill_bytes` on `rand::thread_rng`: eight random bytes, of
/// which the contract promises nothing. The generator stops the process if the
/// operating system gives it no seed.
#[verifier::external_body]
pub(crate) fn random_payload() -> (payload: [u8; 8]) {
    let mut payload = [0_u8; 8];
    rand::thread_rng().fill_bytes(&mut payload);
    payload
}

} // verus!
