use vstd::prelude::*;
use crate::session::{PublicKey, SecretKey, PUBLIC_KEY_LENGTH, SECRET_KEY_LENGTH};

verus! {

/// The Ed25519 public key that belongs to a secret key.
pub uninterp spec fn public_key_of(sk: Seq<u8>) -> Seq<u8>;

/// The Ed25519 signature of a message under a secret key.
pub uninterp spec fn signature_of(message: Seq<u8>, sk: Seq<u8>) -> Seq<u8>;

/// The SHA-256 digest of some bytes.
pub uninterp spec fn sha256_of(data: Seq<u8>) -> Seq<u8>;

/// Bytes in a signature.
pub const SIGNATURE_LENGTH: usize = 64;

/// Bytes in a digest.
pub const HASH_LENGTH: usize = 32;

/// Relies on rand::random: thirty-two bytes from the thread's
/// cryptographically secure generator. Nothing is known of their values.
#[verifier::external_body]
fn random_secret() -> (r: Vec<u8>)
    ensures
        r@.len() == SECRET_KEY_LENGTH,
{
    rand::random::<[u8; 32]>().to_vec()
}

/// Relies on ed25519_dalek::SigningKey::from_bytes and verifying_key: the
/// public key derived from a secret key, thirty-two bytes.
#[verifier::external_body]
fn derive_public(sk: &SecretKey) -> (r: Vec<u8>)
    requires
        sk.wf(),
    ensures
        r@ == public_key_of(sk.bytes@),
        r@.len() == PUBLIC_KEY_LENGTH,
{
    let seed: [u8; 32] = sk.bytes.as_slice().try_into().unwrap();
    ed25519_dalek::SigningKey::from_bytes(&seed).verifying_key().to_bytes().to_vec()
}

/// Relies on ed25519_dalek's Signer::sign for SigningKey: the deterministic
/// Ed25519 signature of a message, sixty-four bytes.
#[verifier::external_body]
pub(crate) fn sign(message: &[u8], sk: &SecretKey) -> (r: Vec<u8>)
    requires
        sk.wf(),
    ensures
        r@ == signature_of(message@, sk.bytes@),
        r@.len() == SIGNATURE_LENGTH,
{
    let seed: [u8; 32] = sk.bytes.as_slice().try_into().unwrap();
    let key = ed25519_dalek::SigningKey::from_bytes(&seed);
    ed25519_dalek::Signer::sign(&key, message).to_bytes().to_vec()
}

/// Relies on sha2::Sha256::digest: the SHA-256 digest, thirty-two bytes.
#[verifier::external_body]
pub(crate) fn hash(data: &[u8]) -> (r: Vec<u8>)
    ensures
        r@ == sha256_of(data@),
        r@.len() == HASH_LENGTH,
{
    <sha2::Sha256 as sha2::Digest>::digest(data).to_vec()
}

/// The public key of a secret key.
pub fn public_key_for(sk: &SecretKey) -> (r: PublicKey)
    requires
        sk.wf(),
    ensures
        r.wf(),
        r.bytes@ == public_key_of(sk.bytes@),
{
    PublicKey { bytes: derive_public(sk) }
}

/// A fresh key pair from secure randomness: the public key is the one
/// that belongs to the secret key.
pub fn gen_keypair() -> (r: (PublicKey, SecretKey))
    ensures
        r.0.wf(),
        r.1.wf(),
        r.0.bytes@ == public_key_of(r.1.bytes@),
{
    let sk = SecretKey { bytes: random_secret() };
    let pk = public_key_for(&sk);
    (pk, sk)
}

} // verus!
