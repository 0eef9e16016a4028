//! A hierarchical-deterministic key-management core: it keeps a master seed
//! under password-based authenticated encryption, derives child private keys
//! along a BIP32-style derivation path, and signs and verifies digests with
//! ECDSA over secp256k1.
//!
//! The facade is [`VKP`]. It holds nothing but the encrypted seed: every
//! operation decrypts, derives and signs within one call and keeps no
//! decrypted material afterwards.

use vstd::prelude::*;

pub mod engine;
pub mod errors;
pub mod hd;
pub mod path;
pub mod vault;

use crate::engine::{pubkey_of, public_key_of_scalar, sig_of, sign_digest, verify_digest,
    verify_of};
use crate::errors::VkpError;
use crate::hd::derived_of;
use crate::path::{spec_parse_path, spec_raws};
use crate::vault::{decrypt_of, decrypt_seed, encrypt_seed, key_of, wipe};

verus! {

/// What fetching the public key for a path from a sealed seed answers,
/// as a function of the encrypted seed, the path and the password: the
/// first failing stage names the error, and success carries the 33-byte
/// compressed public key of the derived scalar.
pub open spec fn spec_public_key(
    encrypted: Seq<u8>,
    path: Seq<char>,
    password: Seq<char>,
) -> Result<Seq<u8>, VkpError> {
    match decrypt_of(encrypted, key_of(password)) {
        None => Err(VkpError::Decryption),
        Some(seed) => match spec_parse_path(path) {
            None => Err(VkpError::InvalidPath),
            Some(steps) => match derived_of(seed, spec_raws(steps)) {
                None => Err(VkpError::Derivation),
                Some(secret) => match pubkey_of(secret) {
                    None => Err(VkpError::InvalidKey),
                    Some(pk) => Ok(pk),
                },
            },
        },
    }
}

/// What signing a digest answers, as a function of the encrypted seed, the
/// path, the password and the digest. It fails exactly where
/// `spec_public_key` fails, and succeeds with the deterministic signature
/// of the derived scalar.
pub open spec fn spec_sign(
    encrypted: Seq<u8>,
    path: Seq<char>,
    password: Seq<char>,
    digest: Seq<u8>,
) -> Result<Seq<u8>, VkpError> {
    match decrypt_of(encrypted, key_of(password)) {
        None => Err(VkpError::Decryption),
        Some(seed) => match spec_parse_path(path) {
            None => Err(VkpError::InvalidPath),
            Some(steps) => match derived_of(seed, spec_raws(steps)) {
                None => Err(VkpError::Derivation),
                Some(secret) => match pubkey_of(secret) {
                    None => Err(VkpError::InvalidKey),
                    Some(_) => Ok(sig_of(digest, secret)),
                },
            },
        },
    }
}

/// Operations depend on the seed, never on the sealing: two managers that
/// decrypt to the same seed — whatever the blob and whatever the password —
/// answer every public-key and signing request alike, error for error. In
/// particular a manager sealed from a seed never fails with `Decryption`
/// under its own password.
pub proof fn lemma_same_seed_same_answers(
    e1: Seq<u8>,
    p1: Seq<char>,
    e2: Seq<u8>,
    p2: Seq<char>,
    seed: Seq<u8>,
    path: Seq<char>,
    digest: Seq<u8>,
)
    requires
        decrypt_of(e1, key_of(p1)) == Some(seed),
        decrypt_of(e2, key_of(p2)) == Some(seed),
    ensures
        spec_public_key(e1, path, p1) == spec_public_key(e2, path, p2),
        spec_sign(e1, path, p1, digest) == spec_sign(e2, path, p2, digest),
        spec_public_key(e1, path, p1) != Err::<Seq<u8>, VkpError>(VkpError::Decryption),
{
}

/// The key manager: one sealed seed, many operations. The seed is held
/// encrypted only; each call that needs it decrypts, derives, uses and
/// wipes, on the failing exit paths too, so no decrypted secret outlives
/// a call.
pub struct VKP {
    encrypted_seed: Vec<u8>,
}

impl VKP {
    /// The encrypted seed the manager holds.
    pub closed spec fn view(&self) -> Seq<u8> {
        self.encrypted_seed@
    }

    /// Wraps an already-encrypted seed. No password is needed until an
    /// operation has to open it.
    pub fn new(encrypted_seed: Vec<u8>) -> (r: Self)
        ensures
            r@ == encrypted_seed@,
    {
        VKP { encrypted_seed }
    }

    /// Seals `seed` under `password` and wraps the result; the raw seed is
    /// wiped, not retained. Sealing succeeds exactly when the seed reaches
    /// the vault's minimum length (a shorter sealing could never be opened
    /// again; that fails with `Crypto`). The blob is longer than the seed —
    /// never the seed in the clear — and decrypts, under the same password,
    /// back to `seed`.
    pub fn from_seed(seed: Vec<u8>, password: &str) -> (r: Result<Self, VkpError>)
        ensures
            (r is Ok) == (seed@.len() >= crate::vault::MIN_SEED_LEN),
            r is Ok ==> decrypt_of(r.unwrap()@, key_of(password@)) == Some(seed@),
            r is Ok ==> r.unwrap()@.len() == seed@.len() + 96 - (seed@.len() % 16),
            r is Err ==> r == Err::<VKP, VkpError>(VkpError::Crypto),
    {
        let mut seed = seed;
        let r = encrypt_seed(seed.as_slice(), password);
        wipe(&mut seed);
        match r {
            Ok(encrypted) => Ok(VKP::new(encrypted)),
            Err(e) => Err(e),
        }
    }

    /// Opens the sealed seed, walks `deriv_path` and returns the public key
    /// of the derived scalar — exactly what `spec_public_key` names, stage
    /// by stage, for these inputs, in the 33-byte compressed SEC1 encoding
    /// (a parity byte of 2 or 3, then the x-coordinate).
    pub fn get_public_key(&self, deriv_path: &str, password: &str) -> (r: Result<
        Vec<u8>,
        VkpError,
    >)
        ensures
            (r is Ok) == (spec_public_key(self@, deriv_path@, password@) is Ok),
            r is Ok ==> Ok::<Seq<u8>, VkpError>(r.unwrap()@) == spec_public_key(
                self@,
                deriv_path@,
                password@,
            ),
            r is Ok ==> r.unwrap()@.len() == 33,
            r is Ok ==> (r.unwrap()@[0] == 2u8 || r.unwrap()@[0] == 3u8),
            r is Err ==> Err::<Seq<u8>, VkpError>(r->Err_0) == spec_public_key(
                self@,
                deriv_path@,
                password@,
            ),
    {
        let mut seed = match decrypt_seed(self.encrypted_seed.as_slice(), password) {
            Ok(seed) => seed,
            Err(e) => {
                return Err(e);
            },
        };
        let derived = crate::hd::derive(seed.as_slice(), deriv_path);
        wipe(&mut seed);
        let mut secret = match derived {
            Ok(secret) => secret,
            Err(e) => {
                return Err(e);
            },
        };
        let r = public_key_of_scalar(secret.as_slice());
        wipe(&mut secret);
        r
    }

    /// Opens the sealed seed, derives the scalar that `deriv_path` names
    /// and signs `digest` with it. The answer is what `spec_sign` names;
    /// on success the signature verifies under the public key that
    /// `get_public_key` returns for the same path and password.
    pub fn sign(&self, deriv_path: &str, password: &str, digest: &[u8]) -> (r: Result<
        Vec<u8>,
        VkpError,
    >)
        ensures
            (r is Ok) == (spec_sign(self@, deriv_path@, password@, digest@) is Ok),
            r is Ok ==> Ok::<Seq<u8>, VkpError>(r.unwrap()@) == spec_sign(
                self@,
                deriv_path@,
                password@,
                digest@,
            ),
            r is Ok ==> r.unwrap()@.len() == 64,
            r is Ok ==> spec_public_key(self@, deriv_path@, password@) is Ok && verify_of(
                digest@,
                r.unwrap()@,
                spec_public_key(self@, deriv_path@, password@).unwrap(),
            ) == Some(true),
            r is Err ==> Err::<Seq<u8>, VkpError>(r->Err_0) == spec_sign(
                self@,
                deriv_path@,
                password@,
                digest@,
            ),
    {
        let mut seed = match decrypt_seed(self.encrypted_seed.as_slice(), password) {
            Ok(seed) => seed,
            Err(e) => {
                return Err(e);
            },
        };
        let derived = crate::hd::derive(seed.as_slice(), deriv_path);
        wipe(&mut seed);
        let mut secret = match derived {
            Ok(secret) => secret,
            Err(e) => {
                return Err(e);
            },
        };
        let r = sign_digest(digest, secret.as_slice());
        wipe(&mut secret);
        r
    }

    /// Checks a signature against a public key; no seed and no password is
    /// involved. `Ok(true)` for a valid signature, `Ok(false)` for a
    /// well-formed but wrong one, `MalformedInput` when the signature or
    /// the key cannot be parsed.
    pub fn verify(digest: &[u8], signature: &[u8], pub_key: &[u8]) -> (r: Result<bool, VkpError>)
        ensures
            (r is Ok) == (verify_of(digest@, signature@, pub_key@) is Some),
            r is Ok ==> Some(r.unwrap()) == verify_of(digest@, signature@, pub_key@),
            r is Err ==> r == Err::<bool, VkpError>(VkpError::MalformedInput),
    {
        verify_digest(digest, signature, pub_key)
    }
}

} // verus!
