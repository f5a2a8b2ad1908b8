use chacha20poly1305::aead::{Aead, KeyInit};
use rootlessnet_core::{
    decrypt_data, derive_key, derive_shared_secret, encrypt_data, encrypt_with_nonce,
    generate_keypair_hex, generate_signing_key, generate_x25519_secret, hash_blake3, keypair_hex,
    sign_message, verify_signature, CryptoError, PublicKey, SigningKey, StaticSecret,
    VerifyingKey,
};

fn unhex(text: &str) -> Vec<u8> {
    hex::decode(text).unwrap()
}

fn unhex32(text: &str) -> [u8; 32] {
    unhex(text).try_into().unwrap()
}

#[test]
fn test_keypair_generation() {
    let (private_hex, public_hex) = generate_keypair_hex().unwrap();
    assert_eq!(private_hex.len(), 64); // 32 bytes = 64 hex chars
    assert_eq!(public_hex.len(), 64);
}

#[test]
fn test_sign_verify() {
    let signing_key = generate_signing_key();
    let message = b"Hello, RootlessNet!";

    let signature = sign_message(&signing_key, message);
    let result = verify_signature(&signing_key.verifying_key(), message, &signature);

    assert!(result.is_ok());
}

#[test]
fn test_encrypt_decrypt() {
    let key = [42u8; 32];
    let plaintext = b"Secret message";

    let ciphertext = encrypt_data(&key, plaintext).unwrap();
    let decrypted = decrypt_data(&key, &ciphertext).unwrap();

    assert_eq!(decrypted, plaintext);
}

#[test]
fn test_blake3_hash() {
    let data = b"Hello, World!";
    let hash = hash_blake3(data);
    assert_eq!(hash.len(), 32);
}

#[test]
fn keypair_matches_known_vector() {
    let secret = unhex32("9d61b19deffd5a60ba844af492ec2cc44449c5697b326919703bac031cae7f60");
    let key = SigningKey::from_bytes(&secret);
    assert_eq!(key.to_bytes(), secret);
    let (private_hex, public_hex) = keypair_hex(&key);
    assert_eq!(private_hex, "9d61b19deffd5a60ba844af492ec2cc44449c5697b326919703bac031cae7f60");
    assert_eq!(public_hex, "d75a980182b10ab7d54bfed3c964073a0ee172f3daa62325af021a68f707511a");
    assert_eq!(hex::encode(key.verifying_key().to_bytes()), public_hex);
}

#[test]
fn generated_keypair_is_consistent() {
    let (private_hex, public_hex) = generate_keypair_hex().unwrap();
    let key = SigningKey::from_bytes(&unhex32(&private_hex));
    assert_eq!(hex::encode(key.verifying_key().to_bytes()), public_hex);
    assert_eq!(private_hex, private_hex.to_lowercase());
}

#[test]
fn generated_keys_differ() {
    let a = generate_signing_key();
    let b = generate_signing_key();
    assert_ne!(a.to_bytes(), b.to_bytes());
    let x = generate_x25519_secret();
    let y = generate_x25519_secret();
    assert_ne!(x.to_bytes(), y.to_bytes());
}

#[test]
fn signature_matches_known_vector() {
    let secret = unhex32("9d61b19deffd5a60ba844af492ec2cc44449c5697b326919703bac031cae7f60");
    let key = SigningKey::from_bytes(&secret);
    let signature = sign_message(&key, b"");
    assert_eq!(signature.len(), 64);
    assert_eq!(
        hex::encode(&signature),
        "e5564300c360ac729086e2cc806e828a84877f1eb8e5d974d873e065224901555fb8821590a33bacc61e39701cf9b46bd25bf5f0595bbe24655141438e7a100b"
    );
    assert!(verify_signature(&key.verifying_key(), b"", &signature).is_ok());
}

#[test]
fn signing_is_deterministic() {
    let key = generate_signing_key();
    assert_eq!(sign_message(&key, b"same"), sign_message(&key, b"same"));
    assert_ne!(sign_message(&key, b"same"), sign_message(&key, b"other"));
}

#[test]
fn verify_rejects_other_message() {
    let key = generate_signing_key();
    let signature = sign_message(&key, b"original");
    let result = verify_signature(&key.verifying_key(), b"changed", &signature);
    assert!(matches!(result, Err(CryptoError::SignatureVerificationFailed)));
}

#[test]
fn verify_rejects_other_key() {
    let key = generate_signing_key();
    let other = generate_signing_key();
    let signature = sign_message(&key, b"original");
    let result = verify_signature(&other.verifying_key(), b"original", &signature);
    assert!(matches!(result, Err(CryptoError::SignatureVerificationFailed)));
}

#[test]
fn verify_rejects_flipped_signature_bit() {
    let key = generate_signing_key();
    let mut signature = sign_message(&key, b"original");
    signature[10] ^= 1;
    let result = verify_signature(&key.verifying_key(), b"original", &signature);
    assert!(matches!(result, Err(CryptoError::SignatureVerificationFailed)));
}

#[test]
fn verify_rejects_wrong_signature_length() {
    let key = generate_signing_key();
    let signature = sign_message(&key, b"original");
    let short = verify_signature(&key.verifying_key(), b"original", &signature[..63]);
    assert!(matches!(short, Err(CryptoError::InvalidKey(_))));
    let empty = verify_signature(&key.verifying_key(), b"original", &[]);
    assert!(matches!(empty, Err(CryptoError::InvalidKey(_))));
    let mut long = signature.clone();
    long.push(0);
    let long = verify_signature(&key.verifying_key(), b"original", &long);
    assert!(matches!(long, Err(CryptoError::InvalidKey(_))));
}

#[test]
fn verifying_key_checks_the_point() {
    let good = unhex32("d75a980182b10ab7d54bfed3c964073a0ee172f3daa62325af021a68f707511a");
    let key = VerifyingKey::from_bytes(&good).unwrap();
    assert_eq!(key.to_bytes(), good);
    let mut accepted = 0;
    let mut refused = 0;
    for first in 0u8..=255 {
        let mut bytes = [0u8; 32];
        bytes[0] = first;
        let expected = ed25519_dalek::VerifyingKey::from_bytes(&bytes).is_ok();
        match VerifyingKey::from_bytes(&bytes) {
            Ok(key) => {
                assert!(expected);
                assert_eq!(key.to_bytes(), bytes);
                accepted += 1;
            }
            Err(e) => {
                assert!(!expected);
                assert!(matches!(e, CryptoError::InvalidKey(_)));
                refused += 1;
            }
        }
    }
    assert!(accepted > 0);
    assert!(refused > 0);
}

#[test]
fn x25519_matches_known_vector() {
    let alice = StaticSecret::from_bytes(unhex32(
        "77076d0a7318a57d3c16c17251b26645df4c2f87ebc0992ab177fba51db92c2a",
    ));
    let bob = StaticSecret::from_bytes(unhex32(
        "5dab087e624a8a4b79e17f8b83800ee66f3bb1292618b6fd1c2f8b27ff88e0eb",
    ));
    let alice_public = PublicKey::from_secret(&alice);
    let bob_public = PublicKey::from_secret(&bob);
    assert_eq!(
        hex::encode(alice_public.to_bytes()),
        "8520f0098930a754748b7ddcb43ef75a0dbf3a0d26381af4eba4a98eaa9b4e6a"
    );
    assert_eq!(
        hex::encode(bob_public.to_bytes()),
        "de9edb7d7b7dc1b4d35b61c2ece435373f8343c85b78674dadfc7e146f882b4f"
    );
    let shared = "4a5d9d5ba4ce2de1728e3bf480350f25e07e21c947d19e3376f09b3c1e161742";
    assert_eq!(hex::encode(derive_shared_secret(&alice, &bob_public)), shared);
    assert_eq!(hex::encode(derive_shared_secret(&bob, &alice_public)), shared);
    assert_eq!(
        PublicKey::from_bytes(bob_public.to_bytes()).to_bytes(),
        bob_public.to_bytes()
    );
}

#[test]
fn encrypt_data_prepends_a_fresh_nonce() {
    let key = [7u8; 32];
    let first = encrypt_data(&key, b"same plaintext").unwrap();
    let second = encrypt_data(&key, b"same plaintext").unwrap();
    // nonce (24) + plaintext (14) + tag (16)
    assert_eq!(first.len(), 24 + 14 + 16);
    assert_eq!(second.len(), 24 + 14 + 16);
    assert_ne!(first[..24], second[..24]);
    assert_ne!(first, second);
    assert_eq!(decrypt_data(&key, &first).unwrap(), b"same plaintext");
    assert_eq!(decrypt_data(&key, &second).unwrap(), b"same plaintext");
}

#[test]
fn encrypt_with_nonce_is_nonce_then_ciphertext() {
    let key = [9u8; 32];
    let nonce = [3u8; 24];
    let out = encrypt_with_nonce(&key, &nonce, b"hello").unwrap();
    assert_eq!(out[..24], nonce);
    let cipher = chacha20poly1305::XChaCha20Poly1305::new((&key).into());
    let expected = cipher
        .encrypt(chacha20poly1305::XNonce::from_slice(&nonce), &b"hello"[..])
        .unwrap();
    assert_eq!(out[24..], expected[..]);
    assert_ne!(&out[24..29], b"hello");
    assert_eq!(decrypt_data(&key, &out).unwrap(), b"hello");
}

#[test]
fn encrypt_empty_plaintext() {
    let key = [1u8; 32];
    let out = encrypt_data(&key, b"").unwrap();
    assert_eq!(out.len(), 24 + 16);
    assert_eq!(decrypt_data(&key, &out).unwrap(), b"");
}

#[test]
fn decrypt_too_short_whatever_the_key() {
    for key in [[0u8; 32], [42u8; 32], [255u8; 32]] {
        for len in [0usize, 1, 23] {
            let input = vec![5u8; len];
            match decrypt_data(&key, &input) {
                Err(CryptoError::DecryptionFailed(detail)) => {
                    assert_eq!(detail, "Ciphertext too short")
                }
                _ => panic!("expected a failure"),
            }
        }
    }
}

#[test]
fn decrypt_rejects_nonce_without_tag() {
    let key = [42u8; 32];
    let result = decrypt_data(&key, &[0u8; 24]);
    match result {
        Err(CryptoError::DecryptionFailed(detail)) => assert_ne!(detail, "Ciphertext too short"),
        _ => panic!("expected a failure"),
    }
}

#[test]
fn decrypt_rejects_tampering_and_wrong_key() {
    let key = [42u8; 32];
    let sealed = encrypt_data(&key, b"Secret message").unwrap();
    for index in [0usize, 23, 24, sealed.len() - 1] {
        let mut changed = sealed.clone();
        changed[index] ^= 0x80;
        assert!(matches!(
            decrypt_data(&key, &changed),
            Err(CryptoError::DecryptionFailed(_))
        ));
    }
    let other = [43u8; 32];
    assert!(matches!(
        decrypt_data(&other, &sealed),
        Err(CryptoError::DecryptionFailed(_))
    ));
}

#[test]
fn hash_is_deterministic_and_separates() {
    assert_eq!(hash_blake3(b"Hello"), hash_blake3(b"Hello"));
    assert_ne!(hash_blake3(b"Hello"), hash_blake3(b"World"));
}

#[test]
fn hash_matches_known_vector() {
    assert_eq!(
        hex::encode(hash_blake3(b"")),
        "af1349b9f5f9a1a6a0404dea36dcc9499bcb25c9adc112b7cc9a93cae41f3262"
    );
    assert_eq!(hash_blake3(b"abc"), *blake3::hash(b"abc").as_bytes());
}

#[test]
fn derive_key_matches_known_vector() {
    let ikm = [0x0bu8; 22];
    let salt = unhex("000102030405060708090a0b0c");
    let info = unhex("f0f1f2f3f4f5f6f7f8f9");
    let okm = derive_key(&ikm, &salt, &info, 42).unwrap();
    assert_eq!(
        hex::encode(okm),
        "3cb25f25faacd57a90434f64d0362f2a2d2d0a90cf1a5a4c5db02d56ecc4c5bf34007208d5b887185865"
    );
}

#[test]
fn derive_key_is_deterministic_and_separates_contexts() {
    let a = derive_key(b"ikm", b"salt", b"context-a", 32).unwrap();
    let again = derive_key(b"ikm", b"salt", b"context-a", 32).unwrap();
    let b = derive_key(b"ikm", b"salt", b"context-b", 32).unwrap();
    let other_salt = derive_key(b"ikm", b"pepper", b"context-a", 32).unwrap();
    assert_eq!(a.len(), 32);
    assert_eq!(a, again);
    assert_ne!(a, b);
    assert_ne!(a, other_salt);
}

#[test]
fn derive_key_length_limits() {
    assert_eq!(derive_key(b"ikm", b"salt", b"info", 0).unwrap().len(), 0);
    assert_eq!(derive_key(b"ikm", b"salt", b"info", 8160).unwrap().len(), 8160);
    assert!(matches!(
        derive_key(b"ikm", b"salt", b"info", 8161),
        Err(CryptoError::KeyDerivationFailed(_))
    ));
    assert!(matches!(
        derive_key(b"ikm", b"salt", b"info", usize::MAX),
        Err(CryptoError::KeyDerivationFailed(_))
    ));
}

#[test]
fn error_messages() {
    assert_eq!(
        CryptoError::InvalidKey("bad".to_string()).message(),
        "Invalid key format: bad"
    );
    assert_eq!(
        CryptoError::SignatureVerificationFailed.message(),
        "Signature verification failed"
    );
    assert_eq!(
        CryptoError::EncryptionFailed("x".to_string()).message(),
        "Encryption failed: x"
    );
    assert_eq!(
        CryptoError::DecryptionFailed("Ciphertext too short".to_string()).message(),
        "Decryption failed: Ciphertext too short"
    );
    assert_eq!(
        CryptoError::KeyDerivationFailed("y".to_string()).message(),
        "Key derivation failed: y"
    );
}
