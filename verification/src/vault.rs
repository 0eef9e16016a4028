//! The seed vault: password-based authenticated encryption of a raw seed.
//!
//! A 64-byte symmetric key is derived from the password with SHA-512; the
//! seed is then sealed with AES-256-CBC plus HMAC-SHA512 (an authenticated
//! scheme: decryption fails, rather than returning garbage, under a wrong
//! password or a tampered ciphertext).

use vstd::prelude::*;

use sha2::Digest;
use ursa::encryption::symm::aescbc::Aes256CbcHmac512;
use ursa::encryption::symm::SymmetricEncryptor;

use crate::errors::VkpError;

verus! {

/// The SHA-512 digest of a byte string: 64 bytes, a function of the input
/// alone.
pub uninterp spec fn sha512_of(data: Seq<u8>) -> Seq<u8>;

/// What authenticated decryption of `ciphertext` under the 64-byte key
/// `key` yields: the unique plaintext whose sealing the ciphertext is, or
/// `None` when the ciphertext did not come from a sealing under that key.
/// Decryption is deterministic in the ciphertext and the key.
pub uninterp spec fn decrypt_of(ciphertext: Seq<u8>, key: Seq<u8>) -> Option<Seq<u8>>;

/// The shortest seed the vault seals. The scheme's decryption refuses any
/// ciphertext under two cipher blocks plus the tag, so a shorter plaintext
/// would encrypt into a blob that can never be opened again; the vault
/// rejects it up front instead.
pub const MIN_SEED_LEN: usize = 16;

/// The key a password derives: the SHA-512 digest of its UTF-8 bytes.
pub open spec fn key_of(password: Seq<char>) -> Seq<u8> {
    sha512_of(vstd::utf8::encode_utf8(password))
}

/// Relies on `sha2::Sha512`: the 64-byte SHA-512 digest of the input,
/// a function of the input bytes alone.
#[verifier::external_body]
fn sha512(data: &[u8]) -> (r: Vec<u8>)
    ensures
        r@ == sha512_of(data@),
        r@.len() == 64,
{
    sha2::Sha512::digest(data).to_vec()
}

/// Relies on ursa's `SymmetricEncryptor::<Aes256CbcHmac512>::new_with_key`
/// and `encrypt_easy`: authenticated encryption under a 64-byte key, with
/// empty associated data and a fresh random nonce. It cannot fail for such
/// a key: the nonce draw, the cipher setup and the MAC all accept their
/// inputs. The output is the nonce, the block-padded ciphertext and the
/// 64-byte tag, and whatever nonce was drawn it decrypts under the same key
/// back to the plaintext — for plaintexts of at least one full cipher
/// block; `decrypt_easy` refuses the shorter ciphertexts that anything
/// smaller produces.
#[verifier::external_body]
fn aead_encrypt(plaintext: &[u8], key: &[u8]) -> (r: Result<Vec<u8>, ()>)
    requires
        key@.len() == 64,
        plaintext@.len() >= MIN_SEED_LEN,
    ensures
        r is Ok,
        decrypt_of(r.unwrap()@, key@) == Some(plaintext@),
        r.unwrap()@.len() == plaintext@.len() + 96 - (plaintext@.len() % 16),
{
    let encryptor = SymmetricEncryptor::<Aes256CbcHmac512>::new_with_key(key).map_err(|_| ())?;
    encryptor.encrypt_easy(&[][..], plaintext).map_err(|_| ())
}

/// Relies on ursa's `SymmetricEncryptor::<Aes256CbcHmac512>::new_with_key`
/// and `decrypt_easy`: authenticated decryption under a 64-byte key with
/// empty associated data; it fails on a wrong key or a tampered ciphertext
/// and never returns unauthenticated plaintext. Deterministic in the
/// ciphertext and the key.
#[verifier::external_body]
fn aead_decrypt(ciphertext: &[u8], key: &[u8]) -> (r: Result<Vec<u8>, ()>)
    requires
        key@.len() == 64,
    ensures
        (r is Ok) == (decrypt_of(ciphertext@, key@) is Some),
        r is Ok ==> Some(r.unwrap()@) == decrypt_of(ciphertext@, key@),
{
    let decryptor = SymmetricEncryptor::<Aes256CbcHmac512>::new_with_key(key).map_err(|_| ())?;
    decryptor.decrypt_easy(&[][..], ciphertext).map_err(|_| ())
}

/// Overwrites a secret buffer with zeros, so that decrypted material does
/// not linger in memory once a call is done with it.
pub fn wipe(buf: &mut Vec<u8>)
    ensures
        final(buf)@.len() == old(buf)@.len(),
        forall|i: int| 0 <= i < final(buf)@.len() ==> final(buf)@[i] == 0u8,
{
    let n = buf.len();
    let mut i: usize = 0;
    while i < n
        invariant
            n == buf@.len(),
            i <= n,
            forall|j: int| 0 <= j < i ==> buf@[j] == 0u8,
        decreases n - i,
    {
        buf.set(i, 0u8);
        i = i + 1;
    }
}

/// Seals `seed` under `password`.
///
/// It succeeds exactly when the seed is at least `MIN_SEED_LEN` bytes — a
/// shorter one the scheme could seal but never open again — and fails with
/// `Crypto` otherwise. The blob is self-contained and never the seed in the
/// clear: a nonce, the block-padded ciphertext and the tag, longer than the
/// seed by at least 81 bytes; decrypting it under the same password yields
/// `seed` again (and under no other key does it decrypt to anything at all
/// but by cryptographic accident).
pub fn encrypt_seed(seed: &[u8], password: &str) -> (r: Result<Vec<u8>, VkpError>)
    ensures
        (r is Ok) == (seed@.len() >= MIN_SEED_LEN),
        r is Ok ==> decrypt_of(r.unwrap()@, key_of(password@)) == Some(seed@),
        r is Ok ==> r.unwrap()@.len() == seed@.len() + 96 - (seed@.len() % 16),
        r is Err ==> r == Err::<Vec<u8>, VkpError>(VkpError::Crypto),
{
    if seed.len() < MIN_SEED_LEN {
        return Err(VkpError::Crypto);
    }
    let mut key = sha512(password.as_bytes());
    let r = aead_encrypt(seed, key.as_slice());
    wipe(&mut key);
    match r {
        Ok(ct) => Ok(ct),
        Err(_) => Err(VkpError::Crypto),
    }
}

/// Opens `encrypted` under `password`.
///
/// Returns the seed that was sealed exactly when `encrypted` is a sealing
/// under this password's key; fails with `Decryption` (wrong password,
/// tampered or truncated ciphertext) otherwise, never with a partial
/// plaintext.
pub fn decrypt_seed(encrypted: &[u8], password: &str) -> (r: Result<Vec<u8>, VkpError>)
    ensures
        (r is Ok) == (decrypt_of(encrypted@, key_of(password@)) is Some),
        r is Ok ==> Some(r.unwrap()@) == decrypt_of(encrypted@, key_of(password@)),
        r is Err ==> r == Err::<Vec<u8>, VkpError>(VkpError::Decryption),
{
    let mut key = sha512(password.as_bytes());
    let r = aead_decrypt(encrypted, key.as_slice());
    wipe(&mut key);
    match r {
        Ok(seed) => Ok(seed),
        Err(_) => Err(VkpError::Decryption),
    }
}

} // verus!
