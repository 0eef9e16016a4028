//! The error kinds that the key-management operations surface.

use vstd::prelude::*;

verus! {

/// One distinguishable kind for every way an operation can fail.
/// No operation ever returns a partial result: it either succeeds
/// completely or reports one of these.
#[derive(Clone, Copy, Debug, PartialEq, Eq, Structural)]
pub enum VkpError {
    /// Wrong password, or corrupted or truncated ciphertext, during
    /// seed decryption.
    Decryption,
    /// The derivation path does not parse.
    InvalidPath,
    /// An intermediate derivation step produced an out-of-range scalar.
    Derivation,
    /// A derived or supplied scalar is not a valid private key for the curve.
    InvalidKey,
    /// Internal signing failure.
    Signing,
    /// The signature or public key handed to verification cannot be parsed.
    MalformedInput,
    /// Key derivation or encryption itself failed while sealing a seed.
    Crypto,
}

impl VkpError {
    /// A short stable name for the error kind.
    pub fn name(&self) -> (r: &'static str)
        ensures
            r@ == self.spec_name(),
    {
        match self {
            VkpError::Decryption => "DecryptionError",
            VkpError::InvalidPath => "InvalidPathError",
            VkpError::Derivation => "DerivationError",
            VkpError::InvalidKey => "InvalidKeyError",
            VkpError::Signing => "SigningError",
            VkpError::MalformedInput => "MalformedInputError",
            VkpError::Crypto => "CryptoError",
        }
    }

    /// What `name` returns for each kind.
    pub open spec fn spec_name(self) -> Seq<char> {
        match self {
            VkpError::Decryption => "DecryptionError"@,
            VkpError::InvalidPath => "InvalidPathError"@,
            VkpError::Derivation => "DerivationError"@,
            VkpError::InvalidKey => "InvalidKeyError"@,
            VkpError::Signing => "SigningError"@,
            VkpError::MalformedInput => "MalformedInputError"@,
            VkpError::Crypto => "CryptoError"@,
        }
    }
}

} // verus!
