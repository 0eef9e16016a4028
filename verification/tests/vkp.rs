use vkp::engine::{public_key_of_scalar, sign_digest, verify_digest};
use vkp::errors::VkpError;
use vkp::path::{parse_path, PathStep};
use vkp::vault::{decrypt_seed, encrypt_seed};
use vkp::VKP;

fn sample_seed() -> Vec<u8> {
    (1u8..=32).collect()
}

#[test]
fn round_trip_recovers_seed() {
    let seed = sample_seed();
    let encrypted = encrypt_seed(&seed, "a modest password").unwrap();
    // nonce + block-padded ciphertext + tag; in particular not the raw seed
    assert_eq!(encrypted.len(), seed.len() + 96 - seed.len() % 16);
    let recovered = decrypt_seed(&encrypted, "a modest password").unwrap();
    assert_eq!(recovered, seed);
}

#[test]
fn sealed_blob_length_follows_the_format() {
    for len in [16usize, 17, 31, 32, 33, 64] {
        let seed = vec![3u8; len];
        let encrypted = encrypt_seed(&seed, "pw").unwrap();
        assert_eq!(encrypted.len(), len + 96 - len % 16, "seed length {}", len);
    }
}

#[test]
fn round_trip_with_empty_password() {
    let seed = vec![7u8; 16];
    let encrypted = encrypt_seed(&seed, "").unwrap();
    let recovered = decrypt_seed(&encrypted, "").unwrap();
    assert_eq!(recovered, seed);
}

#[test]
fn too_short_seed_is_rejected_up_front() {
    // Sealing would succeed, but the scheme refuses to open a ciphertext
    // this short ever again, so the vault refuses to produce it.
    assert_eq!(encrypt_seed(&[], "pw"), Err(VkpError::Crypto));
    assert_eq!(encrypt_seed(&[1, 2, 3, 4, 5, 6, 7], "pw"), Err(VkpError::Crypto));
    assert!(matches!(
        VKP::from_seed(vec![9u8; 15], "pw"),
        Err(VkpError::Crypto)
    ));
}

#[test]
fn wrong_password_fails_decryption() {
    let seed = sample_seed();
    let encrypted = encrypt_seed(&seed, "password-one").unwrap();
    let r = decrypt_seed(&encrypted, "password-two");
    assert_eq!(r, Err(VkpError::Decryption));
}

#[test]
fn tampered_ciphertext_fails_decryption() {
    let seed = sample_seed();
    let mut encrypted = encrypt_seed(&seed, "password-one").unwrap();
    let last = encrypted.len() - 1;
    encrypted[last] ^= 0x01;
    let r = decrypt_seed(&encrypted, "password-one");
    assert_eq!(r, Err(VkpError::Decryption));
}

#[test]
fn truncated_ciphertext_fails_decryption() {
    let seed = sample_seed();
    let encrypted = encrypt_seed(&seed, "password-one").unwrap();
    let r = decrypt_seed(&encrypted[..8], "password-one");
    assert_eq!(r, Err(VkpError::Decryption));
}

#[test]
fn derivation_is_deterministic() {
    let seed = sample_seed();
    let k1 = vkp::hd::derive(&seed, "m/44'/60'/0'/0/0").unwrap();
    let k2 = vkp::hd::derive(&seed, "m/44'/60'/0'/0/0").unwrap();
    assert_eq!(k1, k2);
    assert_eq!(k1.len(), 32);
}

#[test]
fn distinct_paths_give_distinct_keys() {
    let seed = sample_seed();
    let k0 = vkp::hd::derive(&seed, "m/0").unwrap();
    let k1 = vkp::hd::derive(&seed, "m/1").unwrap();
    let k0h = vkp::hd::derive(&seed, "m/0'").unwrap();
    assert_ne!(k0, k1);
    assert_ne!(k0, k0h);
    assert_ne!(k1, k0h);
}

#[test]
fn invalid_path_rejected() {
    let seed = sample_seed();
    let r = vkp::hd::derive(&seed, "not-a-path");
    assert_eq!(r, Err(VkpError::InvalidPath));
}

#[test]
fn path_grammar_rejects_malformed_paths() {
    for path in [
        "", "x", "M", "m/", "/0", "m//0", "m/x", "m/0x", "m/'", "m/0''",
        "m/ 0", "m 0", "m/0/", "m/+1", "m/-1", "m/2147483648", "m/4294967296",
        "m/99999999999999999999", "mm/0", "m/0h",
    ] {
        assert_eq!(
            parse_path(path).unwrap_err(),
            VkpError::InvalidPath,
            "path {:?} should be rejected",
            path
        );
    }
}

#[test]
fn path_grammar_accepts_and_reads_valid_paths() {
    assert_eq!(parse_path("m").unwrap(), Vec::<PathStep>::new());
    assert_eq!(
        parse_path("m/0").unwrap(),
        vec![PathStep { index: 0, hardened: false }]
    );
    assert_eq!(
        parse_path("m/44'/60'/0'/0/7").unwrap(),
        vec![
            PathStep { index: 44, hardened: true },
            PathStep { index: 60, hardened: true },
            PathStep { index: 0, hardened: true },
            PathStep { index: 0, hardened: false },
            PathStep { index: 7, hardened: false },
        ]
    );
    assert_eq!(
        parse_path("m/007").unwrap(),
        vec![PathStep { index: 7, hardened: false }]
    );
    assert_eq!(
        parse_path("m/2147483647'").unwrap(),
        vec![PathStep { index: 2147483647, hardened: true }]
    );
}

#[test]
fn derivation_agrees_with_known_vector() {
    // The doc-test vector of tiny-hderive: seed of 64 bytes of 42.
    let seed = vec![42u8; 64];
    let secret = vkp::hd::derive(&seed, "m/44'/60'/0'/0/0").unwrap();
    let expected = [
        0x98u8, 0x84, 0xbf, 0x56, 0x24, 0xfa, 0xdd, 0x7f, 0xb2, 0x80, 0x4c, 0xfb,
        0x0c, 0xb6, 0xf7, 0x1f, 0x28, 0x9e, 0x21, 0x1f, 0xcf, 0x0d, 0xe8, 0x36,
        0xa3, 0x84, 0x17, 0x57, 0xda, 0xd9, 0x70, 0xd0,
    ];
    assert_eq!(secret, expected.to_vec());
}

#[test]
fn sign_then_verify_succeeds() {
    let digest = b"a 32-byte-ish digest for signing".to_vec();
    let manager = VKP::from_seed(sample_seed(), "open sesame").unwrap();
    let signature = manager.sign("m/44'/0'/0'/0/0", "open sesame", &digest).unwrap();
    let public_key = manager.get_public_key("m/44'/0'/0'/0/0", "open sesame").unwrap();
    assert_eq!(signature.len(), 64);
    assert_eq!(public_key.len(), 33);
    assert!(public_key[0] == 2 || public_key[0] == 3);
    assert_eq!(VKP::verify(&digest, &signature, &public_key), Ok(true));
}

#[test]
fn signing_is_deterministic() {
    let digest = b"the same digest twice".to_vec();
    let manager = VKP::from_seed(sample_seed(), "open sesame").unwrap();
    let s1 = manager.sign("m/0'/1", "open sesame", &digest).unwrap();
    let s2 = manager.sign("m/0'/1", "open sesame", &digest).unwrap();
    assert_eq!(s1, s2);
}

#[test]
fn verify_rejects_other_message() {
    let digest = b"message one".to_vec();
    let manager = VKP::from_seed(sample_seed(), "open sesame").unwrap();
    let signature = manager.sign("m/0", "open sesame", &digest).unwrap();
    let public_key = manager.get_public_key("m/0", "open sesame").unwrap();
    assert_eq!(VKP::verify(b"message two", &signature, &public_key), Ok(false));
}

#[test]
fn verify_rejects_every_bit_flip_of_the_signature() {
    let digest = b"tamper with the signature".to_vec();
    let manager = VKP::from_seed(sample_seed(), "open sesame").unwrap();
    let signature = manager.sign("m/0", "open sesame", &digest).unwrap();
    let public_key = manager.get_public_key("m/0", "open sesame").unwrap();
    for byte in 0..signature.len() {
        for bit in 0..8 {
            let mut tampered = signature.clone();
            tampered[byte] ^= 1u8 << bit;
            let r = VKP::verify(&digest, &tampered, &public_key);
            assert!(
                r == Ok(false) || r == Err(VkpError::MalformedInput),
                "flipping bit {} of byte {} must not verify",
                bit,
                byte
            );
        }
    }
}

#[test]
fn verify_rejects_every_bit_flip_of_the_public_key() {
    let digest = b"tamper with the public key".to_vec();
    let manager = VKP::from_seed(sample_seed(), "open sesame").unwrap();
    let signature = manager.sign("m/0", "open sesame", &digest).unwrap();
    let public_key = manager.get_public_key("m/0", "open sesame").unwrap();
    for byte in 0..public_key.len() {
        for bit in 0..8 {
            let mut tampered = public_key.clone();
            tampered[byte] ^= 1u8 << bit;
            let r = VKP::verify(&digest, &signature, &tampered);
            assert!(
                r == Ok(false) || r == Err(VkpError::MalformedInput),
                "flipping bit {} of byte {} must not verify",
                bit,
                byte
            );
        }
    }
}

#[test]
fn verify_rejects_unparsable_inputs() {
    let digest = b"whatever digest".to_vec();
    let manager = VKP::from_seed(sample_seed(), "open sesame").unwrap();
    let signature = manager.sign("m/0", "open sesame", &digest).unwrap();
    let public_key = manager.get_public_key("m/0", "open sesame").unwrap();
    // A truncated signature or key cannot be parsed at all.
    assert_eq!(
        VKP::verify(&digest, &signature[..63], &public_key),
        Err(VkpError::MalformedInput)
    );
    assert_eq!(
        VKP::verify(&digest, &signature, &public_key[..10]),
        Err(VkpError::MalformedInput)
    );
}

#[test]
fn end_to_end_zero_seed_golden_vector() {
    let seed = vec![0u8; 32];
    let manager = VKP::from_seed(seed, "correct-password").unwrap();
    let public_key = manager.get_public_key("m/0'/0", "correct-password").unwrap();
    let expected = [
        0x02u8, 0x6e, 0x56, 0x51, 0x3c, 0x29, 0x6b, 0xa0, 0x0d, 0x50, 0x52, 0x73,
        0x8a, 0x67, 0x0d, 0x0a, 0x45, 0x21, 0x68, 0xfe, 0x06, 0x07, 0x58, 0x31,
        0xf6, 0x88, 0x73, 0x89, 0x6c, 0xec, 0x8c, 0x82, 0xee,
    ];
    assert_eq!(public_key, expected.to_vec());

    let r = manager.get_public_key("m/0'/0", "wrong-password");
    assert_eq!(r, Err(VkpError::Decryption));
}

#[test]
fn wrapped_encrypted_seed_behaves_like_the_original_manager() {
    let seed = sample_seed();
    let encrypted = encrypt_seed(&seed, "open sesame").unwrap();
    let wrapped = VKP::new(encrypted);
    let direct = VKP::from_seed(seed, "open sesame").unwrap();
    assert_eq!(
        wrapped.get_public_key("m/1'/2", "open sesame").unwrap(),
        direct.get_public_key("m/1'/2", "open sesame").unwrap()
    );
}

#[test]
fn error_precedence_decryption_before_path() {
    // A wrong password is reported even when the path is bad too.
    let manager = VKP::from_seed(sample_seed(), "right").unwrap();
    assert_eq!(
        manager.get_public_key("not-a-path", "wrong").unwrap_err(),
        VkpError::Decryption
    );
    assert_eq!(
        manager.get_public_key("not-a-path", "right").unwrap_err(),
        VkpError::InvalidPath
    );
    assert_eq!(
        manager.sign("not-a-path", "wrong", b"digest").unwrap_err(),
        VkpError::Decryption
    );
    assert_eq!(
        manager.sign("not-a-path", "right", b"digest").unwrap_err(),
        VkpError::InvalidPath
    );
}

#[test]
fn error_names_are_stable() {
    assert_eq!(VkpError::Decryption.name(), "DecryptionError");
    assert_eq!(VkpError::InvalidPath.name(), "InvalidPathError");
    assert_eq!(VkpError::Derivation.name(), "DerivationError");
    assert_eq!(VkpError::InvalidKey.name(), "InvalidKeyError");
    assert_eq!(VkpError::Signing.name(), "SigningError");
    assert_eq!(VkpError::MalformedInput.name(), "MalformedInputError");
    assert_eq!(VkpError::Crypto.name(), "CryptoError");
}

#[test]
fn invalid_scalars_are_rejected() {
    // Zero, a wrong length, and the curve order itself are not private keys.
    assert_eq!(public_key_of_scalar(&[0u8; 32]), Err(VkpError::InvalidKey));
    assert_eq!(public_key_of_scalar(&[1u8; 5]), Err(VkpError::InvalidKey));
    let order = [
        0xffu8, 0xff, 0xff, 0xff, 0xff, 0xff, 0xff, 0xff, 0xff, 0xff, 0xff,
        0xff, 0xff, 0xff, 0xff, 0xfe, 0xba, 0xae, 0xdc, 0xe6, 0xaf, 0x48,
        0xa0, 0x3b, 0xbf, 0xd2, 0x5e, 0x8c, 0xd0, 0x36, 0x41, 0x41,
    ];
    assert_eq!(public_key_of_scalar(&order), Err(VkpError::InvalidKey));
    assert_eq!(sign_digest(b"digest", &[0u8; 32]), Err(VkpError::InvalidKey));
}

#[test]
fn known_scalar_gives_known_public_key() {
    let sk = [
        0xe4u8, 0xf2, 0x1b, 0x38, 0xe0, 0x05, 0xd4, 0xf8, 0x95, 0xa2, 0x9e,
        0x84, 0x94, 0x8d, 0x7c, 0xc8, 0x3e, 0xac, 0x79, 0x04, 0x1a, 0xeb,
        0x64, 0x4e, 0xe4, 0xfa, 0xb8, 0xd9, 0xda, 0x42, 0xf7, 0x13,
    ];
    let pk = [
        0x02u8, 0x42, 0xc1, 0xe1, 0xf7, 0x75, 0x23, 0x7a, 0x26, 0xda, 0x4f,
        0xd5, 0x1b, 0x8d, 0x75, 0xee, 0x27, 0x09, 0x71, 0x1f, 0x6e, 0x90,
        0x30, 0x3e, 0x51, 0x11, 0x69, 0xa3, 0x24, 0xef, 0x07, 0x89, 0xc0,
    ];
    assert_eq!(public_key_of_scalar(&sk).unwrap(), pk.to_vec());
}

#[test]
fn sign_and_verify_through_engine_functions() {
    let sk = [
        0xe4u8, 0xf2, 0x1b, 0x38, 0xe0, 0x05, 0xd4, 0xf8, 0x95, 0xa2, 0x9e,
        0x84, 0x94, 0x8d, 0x7c, 0xc8, 0x3e, 0xac, 0x79, 0x04, 0x1a, 0xeb,
        0x64, 0x4e, 0xe4, 0xfa, 0xb8, 0xd9, 0xda, 0x42, 0xf7, 0x13,
    ];
    let pk = public_key_of_scalar(&sk).unwrap();
    let sig = sign_digest(b"an engine-level message", &sk).unwrap();
    assert_eq!(verify_digest(b"an engine-level message", &sig, &pk), Ok(true));
    assert_eq!(verify_digest(b"another message", &sig, &pk), Ok(false));
}
