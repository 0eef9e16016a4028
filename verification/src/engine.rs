//! The signature engine: ECDSA over secp256k1.
//!
//! Key pairs are built from raw 32-byte scalars; signing and verification
//! hash the message with SHA-256 internally and work on 64-byte compact
//! signatures and 33-byte compressed public keys. The curve arithmetic is
//! ursa's, behind trusted wrappers whose results the names below pin down.

use vstd::prelude::*;

use ursa::keys::{KeyGenOption, PrivateKey, PublicKey};
use ursa::signatures::secp256k1::EcdsaSecp256k1Sha256;
use ursa::signatures::SignatureScheme;

use crate::errors::VkpError;

verus! {

/// The 33-byte compressed public point belonging to a private scalar, or
/// `None` when the scalar is not a valid secp256k1 private key (not 32
/// bytes, zero, or at or above the curve order). A function of the scalar
/// alone.
pub uninterp spec fn pubkey_of(secret: Seq<u8>) -> Option<Seq<u8>>;

/// The 64-byte compact ECDSA signature over SHA-256 of `message` under the
/// private scalar `secret`. Signing uses the deterministic RFC 6979 nonce,
/// so the signature is a function of the message and the scalar alone.
pub uninterp spec fn sig_of(message: Seq<u8>, secret: Seq<u8>) -> Seq<u8>;

/// What verification answers for a message, signature and public key:
/// `Some(true)` or `Some(false)` when both the signature and the key parse,
/// `None` when either is malformed. A function of the three inputs alone.
pub uninterp spec fn verify_of(message: Seq<u8>, signature: Seq<u8>, pubkey: Seq<u8>) -> Option<
    bool,
>;

/// Relies on ursa's `EcdsaSecp256k1Sha256::keypair` with `FromSecretKey`:
/// it validates the scalar, returns the public point in the 33-byte
/// compressed SEC1 encoding — a parity byte of 2 or 3, then the
/// x-coordinate — and hands the scalar itself back as the private key.
#[verifier::external_body]
fn ecdsa_keypair(secret: &[u8]) -> (r: Result<(Vec<u8>, Vec<u8>), ()>)
    ensures
        (r is Ok) == (pubkey_of(secret@) is Some),
        r is Ok ==> Some(r.unwrap().0@) == pubkey_of(secret@),
        r is Ok ==> r.unwrap().0@.len() == 33,
        r is Ok ==> (r.unwrap().0@[0] == 2u8 || r.unwrap().0@[0] == 3u8),
        r is Ok ==> r.unwrap().1@ == secret@,
{
    let scheme = EcdsaSecp256k1Sha256::new();
    match scheme.keypair(Some(KeyGenOption::FromSecretKey(PrivateKey(secret.to_vec())))) {
        Ok((pk, sk)) => Ok((pk.0.clone(), sk.0.clone())),
        Err(_) => Err(()),
    }
}

/// Relies on ursa's `EcdsaSecp256k1Sha256::sign`: RFC 6979 deterministic
/// ECDSA over SHA-256 of the message. It succeeds exactly when the scalar
/// is a valid private key, and what it returns then verifies under the
/// matching public key.
#[verifier::external_body]
fn ecdsa_sign(message: &[u8], secret: &[u8]) -> (r: Result<Vec<u8>, ()>)
    ensures
        (r is Ok) == (pubkey_of(secret@) is Some),
        r is Ok ==> r.unwrap()@ == sig_of(message@, secret@),
        r is Ok ==> r.unwrap()@.len() == 64,
        r is Ok ==> verify_of(message@, sig_of(message@, secret@), pubkey_of(secret@).unwrap())
            == Some(true),
{
    let scheme = EcdsaSecp256k1Sha256::new();
    scheme.sign(message, &PrivateKey(secret.to_vec())).map_err(|_| ())
}

/// Relies on ursa's `EcdsaSecp256k1Sha256::verify`: it parses the key and
/// the signature, then checks the signature over SHA-256 of the message;
/// a well-formed but wrong signature answers `false`, an unparsable input
/// is an error. Deterministic in its three inputs.
#[verifier::external_body]
fn ecdsa_verify(message: &[u8], signature: &[u8], pubkey: &[u8]) -> (r: Result<bool, ()>)
    ensures
        (r is Ok) == (verify_of(message@, signature@, pubkey@) is Some),
        r is Ok ==> Some(r.unwrap()) == verify_of(message@, signature@, pubkey@),
{
    let scheme = EcdsaSecp256k1Sha256::new();
    scheme.verify(message, signature, &PublicKey(pubkey.to_vec())).map_err(|_| ())
}

/// Computes the public key belonging to a raw private scalar.
///
/// Succeeds exactly when the scalar is a valid secp256k1 private key, with
/// the point in the 33-byte compressed SEC1 encoding (a parity byte of 2 or
/// 3, then the x-coordinate); fails with `InvalidKey` otherwise.
pub fn public_key_of_scalar(secret: &[u8]) -> (r: Result<Vec<u8>, VkpError>)
    ensures
        (r is Ok) == (pubkey_of(secret@) is Some),
        r is Ok ==> Some(r.unwrap()@) == pubkey_of(secret@),
        r is Ok ==> r.unwrap()@.len() == 33,
        r is Ok ==> (r.unwrap()@[0] == 2u8 || r.unwrap()@[0] == 3u8),
        r is Err ==> r == Err::<Vec<u8>, VkpError>(VkpError::InvalidKey),
{
    match ecdsa_keypair(secret) {
        Ok((pk, _)) => Ok(pk),
        Err(_) => Err(VkpError::InvalidKey),
    }
}

/// Signs a message digest with a raw private scalar.
///
/// Succeeds exactly when the scalar is a valid private key and returns the
/// 64-byte compact signature, which verifies under the scalar's public key;
/// fails with `InvalidKey` otherwise.
pub fn sign_digest(message: &[u8], secret: &[u8]) -> (r: Result<Vec<u8>, VkpError>)
    ensures
        (r is Ok) == (pubkey_of(secret@) is Some),
        r is Ok ==> r.unwrap()@ == sig_of(message@, secret@),
        r is Ok ==> r.unwrap()@.len() == 64,
        r is Ok ==> verify_of(message@, sig_of(message@, secret@), pubkey_of(secret@).unwrap())
            == Some(true),
        r is Err ==> r == Err::<Vec<u8>, VkpError>(VkpError::InvalidKey),
{
    match ecdsa_sign(message, secret) {
        Ok(sig) => Ok(sig),
        Err(_) => Err(VkpError::InvalidKey),
    }
}

/// Checks a signature over a message digest against a public key.
///
/// Answers exactly what `verify_of` says: `Ok(true)` for a valid signature,
/// `Ok(false)` for a well-formed but wrong one, and `MalformedInput` when
/// the signature or the key cannot be parsed.
pub fn verify_digest(message: &[u8], signature: &[u8], pubkey: &[u8]) -> (r: Result<
    bool,
    VkpError,
>)
    ensures
        (r is Ok) == (verify_of(message@, signature@, pubkey@) is Some),
        r is Ok ==> Some(r.unwrap()) == verify_of(message@, signature@, pubkey@),
        r is Err ==> r == Err::<bool, VkpError>(VkpError::MalformedInput),
{
    match ecdsa_verify(message, signature, pubkey) {
        Ok(b) => Ok(b),
        Err(_) => Err(VkpError::MalformedInput),
    }
}

} // verus!
