//! Hierarchical-deterministic derivation of a child private key from a seed
//! and a derivation path.
//!
//! The path grammar is parsed and checked here (see [`crate::path`]); the
//! HMAC-SHA512 key-tree walk itself is done by `tiny_hderive`, behind one
//! trusted wrapper whose result is named by [`derived_of`].

use vstd::prelude::*;

use crate::errors::VkpError;
use crate::path::{parse_path, spec_parse_path, spec_raws};

verus! {

/// The secret scalar of the BIP32 extended key reached from `seed` by the
/// raw child numbers `path`, or `None` when a step of the walk yields an
/// out-of-range scalar. The walk is deterministic: it is HMAC-SHA512 keyed
/// with chain codes, so the result depends on `seed` and `path` alone.
pub uninterp spec fn derived_of(seed: Seq<u8>, path: Seq<u32>) -> Option<Seq<u8>>;

/// Relies on `tiny_hderive::bip32::ExtendedPrivKey::derive`: deterministic
/// BIP32 derivation of a 32-byte child secret key from a seed and a path.
/// `tiny_hderive` accepts every path of this crate's grammar and reads it as
/// the same child numbers, so the call is only made on parsed paths.
#[verifier::external_body]
fn hd_derive(seed: &[u8], path: &str) -> (r: Result<Vec<u8>, ()>)
    requires
        spec_parse_path(path@) is Some,
    ensures
        (r is Ok) == (derived_of(seed@, spec_raws(spec_parse_path(path@).unwrap())) is Some),
        r is Ok ==> Some(r.unwrap()@) == derived_of(
            seed@,
            spec_raws(spec_parse_path(path@).unwrap()),
        ),
        r is Ok ==> r.unwrap()@.len() == 32,
{
    match tiny_hderive::bip32::ExtendedPrivKey::derive(seed, path) {
        Ok(k) => Ok(k.secret().to_vec()),
        Err(_) => Err(()),
    }
}

/// Derives the child private key that `path` names under `seed`.
///
/// Returns the 32-byte secret scalar. Fails with `InvalidPath` exactly when
/// the path is outside the grammar, and with `Derivation` exactly when a
/// step of the walk yields an out-of-range scalar. Same seed and path, same
/// key: the result is pinned to a function of the two.
pub fn derive(seed: &[u8], path: &str) -> (r: Result<Vec<u8>, VkpError>)
    ensures
        (r is Ok) == (spec_parse_path(path@) is Some
            && derived_of(seed@, spec_raws(spec_parse_path(path@).unwrap())) is Some),
        r is Ok ==> Some(r.unwrap()@) == derived_of(
            seed@,
            spec_raws(spec_parse_path(path@).unwrap()),
        ),
        r is Ok ==> r.unwrap()@.len() == 32,
        (r == Err::<Vec<u8>, VkpError>(VkpError::InvalidPath)) == (spec_parse_path(
            path@,
        ) is None),
        r is Err ==> (r == Err::<Vec<u8>, VkpError>(VkpError::InvalidPath) || r == Err::<
            Vec<u8>,
            VkpError,
        >(VkpError::Derivation)),
{
    match parse_path(path) {
        Ok(_) => {
            match hd_derive(seed, path) {
                Ok(k) => Ok(k),
                Err(_) => Err(VkpError::Derivation),
            }
        },
        Err(_) => Err(VkpError::InvalidPath),
    }
}

/// Derivation is deterministic: one seed and one path name one key.
pub proof fn lemma_derive_deterministic(seed: Seq<u8>, path: Seq<u32>, k1: Seq<u8>, k2: Seq<u8>)
    requires
        derived_of(seed, path) == Some(k1),
        derived_of(seed, path) == Some(k2),
    ensures
        k1 == k2,
{
}

} // verus!
