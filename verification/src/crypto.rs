//! Cryptographic primitives: Ed25519 signatures, X25519 key agreement,
//! XChaCha20-Poly1305 authenticated encryption, BLAKE3 hashing and
//! HKDF-SHA256 key derivation.
//!
//! The algorithms themselves are those of the `ed25519-dalek`,
//! `x25519-dalek`, `chacha20poly1305`, `blake3` and `hkdf` crates. Each call
//! into them is a small function whose contract is taken on trust and gives
//! the call's result a name; everything around the calls is proved.

use vstd::prelude::*;
use chacha20poly1305::aead::{Aead, KeyInit};
use chacha20poly1305::{XChaCha20Poly1305, XNonce};
use ed25519_dalek::{Signer, Verifier};
use hkdf::Hkdf;
use sha2::Sha256;
use vstd::slice::slice_subrange;
use vstd::utf8::encode_utf8;
use crate::encoding::{
    append_bytes, hex_bytes, hex_encode, hex_text, is_lowercase_hex, join, lemma_hex_round_trip,
    to_array,
};

verus! {

/// Length in bytes of an Ed25519 or X25519 key, a digest and an AEAD key.
pub const KEY_LEN: usize = 32;

/// Length in bytes of an Ed25519 signature.
pub const SIGNATURE_LEN: usize = 64;

/// Length in bytes of the nonce that precedes every ciphertext.
pub const NONCE_LEN: usize = 24;

/// Length in bytes of the authentication tag that ends every ciphertext.
pub const TAG_LEN: usize = 16;

/// The longest output that HKDF-SHA256 can produce: 255 blocks of 32 bytes.
pub const MAX_DERIVED_LEN: usize = 8160;

/// What can go wrong in this crate. Every failure is returned, never raised.
#[derive(Debug)]
pub enum CryptoError {
    /// Key or signature material is malformed or has the wrong length.
    InvalidKey(String),
    /// The signature does not match the message under the given key.
    SignatureVerificationFailed,
    /// The cipher refused to encrypt.
    EncryptionFailed(String),
    /// The input is too short, fails authentication or is malformed.
    DecryptionFailed(String),
    /// The key derivation rejected its parameters.
    KeyDerivationFailed(String),
}

/// The kind of an error, without its detail.
pub enum ErrorKind {
    InvalidKey,
    SignatureVerificationFailed,
    EncryptionFailed,
    DecryptionFailed,
    KeyDerivationFailed,
}

impl CryptoError {
    /// The kind of this error.
    pub open spec fn kind(&self) -> ErrorKind {
        match self {
            CryptoError::InvalidKey(_) => ErrorKind::InvalidKey,
            CryptoError::SignatureVerificationFailed => ErrorKind::SignatureVerificationFailed,
            CryptoError::EncryptionFailed(_) => ErrorKind::EncryptionFailed,
            CryptoError::DecryptionFailed(_) => ErrorKind::DecryptionFailed,
            CryptoError::KeyDerivationFailed(_) => ErrorKind::KeyDerivationFailed,
        }
    }

    /// The text that a message of this error is made of: a fixed head and,
    /// where the variant carries one, the detail that follows it.
    pub open spec fn message_spec(&self) -> Seq<char> {
        match self {
            CryptoError::InvalidKey(d) => "Invalid key format: "@ + d@,
            CryptoError::SignatureVerificationFailed => "Signature verification failed"@,
            CryptoError::EncryptionFailed(d) => "Encryption failed: "@ + d@,
            CryptoError::DecryptionFailed(d) => "Decryption failed: "@ + d@,
            CryptoError::KeyDerivationFailed(d) => "Key derivation failed: "@ + d@,
        }
    }

    /// A human-readable message for this error.
    pub fn message(&self) -> (r: String)
        ensures
            r@ == self.message_spec(),
    {
        match self {
            CryptoError::InvalidKey(d) => join("Invalid key format: ", d.as_str()),
            CryptoError::SignatureVerificationFailed => "Signature verification failed".to_owned(),
            CryptoError::EncryptionFailed(d) => join("Encryption failed: ", d.as_str()),
            CryptoError::DecryptionFailed(d) => join("Decryption failed: ", d.as_str()),
            CryptoError::KeyDerivationFailed(d) => join("Key derivation failed: ", d.as_str()),
        }
    }
}

// ---------------------------------------------------------------------------
// Ed25519
// ---------------------------------------------------------------------------

/// The Ed25519 public key that belongs to a 32-byte secret key.
pub uninterp spec fn ed25519_public_key(secret: Seq<u8>) -> Seq<u8>;

/// Whether 32 bytes are the encoding of a point of the Edwards curve.
pub uninterp spec fn ed25519_point_ok(public: Seq<u8>) -> bool;

/// The Ed25519 signature of `message` under a 32-byte secret key.
pub uninterp spec fn ed25519_signature(secret: Seq<u8>, message: Seq<u8>) -> Seq<u8>;

/// Whether `public` is a curve point under which the 64-byte `signature`
/// verifies for `message`.
pub uninterp spec fn ed25519_accepts(public: Seq<u8>, message: Seq<u8>, signature: Seq<u8>) -> bool;

/// Draws a secret key with `SigningKey::generate` from the operating
/// system's generator. Nothing is claimed of the bytes.
#[verifier::external_body]
fn ed25519_random_secret() -> (r: [u8; 32]) {
    ed25519_dalek::SigningKey::generate(&mut rand::rngs::OsRng).to_bytes()
}

/// Calls `SigningKey::from_bytes(..).verifying_key()`: the public key of a
/// secret key is a function of it, and always a valid curve point.
#[verifier::external_body]
fn ed25519_derive_public(secret: &[u8; 32]) -> (r: [u8; 32])
    ensures
        r@ == ed25519_public_key(secret@),
        ed25519_point_ok(r@),
{
    ed25519_dalek::SigningKey::from_bytes(secret).verifying_key().to_bytes()
}

/// Calls `VerifyingKey::from_bytes`, which succeeds exactly when the bytes
/// decompress to a curve point.
#[verifier::external_body]
fn ed25519_is_point(public: &[u8; 32]) -> (r: bool)
    ensures
        r == ed25519_point_ok(public@),
{
    ed25519_dalek::VerifyingKey::from_bytes(public).is_ok()
}

/// Calls `Signer::sign` of a `SigningKey`: the signature is 64 bytes, a
/// function of key and message, and verifies under the key's public key.
#[verifier::external_body]
fn ed25519_sign(secret: &[u8; 32], message: &[u8]) -> (r: Vec<u8>)
    ensures
        r@ == ed25519_signature(secret@, message@),
        r@.len() == 64,
        ed25519_accepts(ed25519_public_key(secret@), message@, r@),
{
    ed25519_dalek::SigningKey::from_bytes(secret).sign(message).to_bytes().to_vec()
}

/// Calls `VerifyingKey::from_bytes` and then `Verifier::verify`: true exactly
/// when the key is a curve point and the signature verifies.
#[verifier::external_body]
fn ed25519_verify(public: &[u8; 32], message: &[u8], signature: &[u8; 64]) -> (r: bool)
    ensures
        r == ed25519_accepts(public@, message@, signature@),
{
    let signature = ed25519_dalek::Signature::from_bytes(signature);
    ed25519_dalek::VerifyingKey::from_bytes(public)
        .and_then(|key| key.verify(message, &signature))
        .is_ok()
}

/// An Ed25519 secret key: 32 bytes.
pub struct SigningKey {
    bytes: [u8; 32],
}

impl View for SigningKey {
    type V = Seq<u8>;

    closed spec fn view(&self) -> Seq<u8> {
        self.bytes@
    }
}

impl SigningKey {
    /// The key made of the given bytes. Every 32 bytes are a secret key.
    pub fn from_bytes(bytes: &[u8; 32]) -> (r: SigningKey)
        ensures
            r@ == bytes@,
    {
        SigningKey { bytes: *bytes }
    }

    /// The key's bytes.
    pub fn to_bytes(&self) -> (r: [u8; 32])
        ensures
            r@ == self@,
    {
        self.bytes
    }

    /// The public key that verifies this key's signatures.
    pub fn verifying_key(&self) -> (r: VerifyingKey)
        ensures
            r@ == ed25519_public_key(self@),
    {
        let bytes = ed25519_derive_public(&self.bytes);
        VerifyingKey { bytes }
    }
}

/// An Ed25519 public key: 32 bytes that encode a curve point.
pub struct VerifyingKey {
    bytes: [u8; 32],
}

impl View for VerifyingKey {
    type V = Seq<u8>;

    closed spec fn view(&self) -> Seq<u8> {
        self.bytes@
    }
}

impl VerifyingKey {
    #[verifier::type_invariant]
    spec fn is_point(self) -> bool {
        ed25519_point_ok(self.bytes@)
    }

    /// Accepts the bytes exactly when they encode a curve point; any other
    /// 32 bytes are an `InvalidKey`.
    pub fn from_bytes(bytes: &[u8; 32]) -> (r: Result<VerifyingKey, CryptoError>)
        ensures
            r is Ok <==> ed25519_point_ok(bytes@),
            r is Ok ==> r->Ok_0@ == bytes@,
            r is Err ==> r->Err_0 is InvalidKey,
    {
        if ed25519_is_point(bytes) {
            Ok(VerifyingKey { bytes: *bytes })
        } else {
            Err(CryptoError::InvalidKey("Cannot decompress Edwards point".to_owned()))
        }
    }

    /// The key's bytes.
    pub fn to_bytes(&self) -> (r: [u8; 32])
        ensures
            r@ == self@,
            ed25519_point_ok(r@),
    {
        proof {
            use_type_invariant(self);
        }
        self.bytes
    }
}

/// A fresh signing key from the operating system's generator.
pub fn generate_signing_key() -> (r: SigningKey)
    ensures
        r@.len() == 32,
{
    let bytes = ed25519_random_secret();
    SigningKey::from_bytes(&bytes)
}

/// Whether `private` spells out a 32-byte secret key and `public` the public
/// key that belongs to it, both in lowercase hex.
pub open spec fn is_keypair_hex(private: Seq<char>, public: Seq<char>) -> bool {
    &&& is_lowercase_hex(encode_utf8(private))
    &&& hex_bytes(encode_utf8(private)).len() == KEY_LEN
    &&& encode_utf8(public) == hex_text(ed25519_public_key(hex_bytes(encode_utf8(private))))
}

/// The private and the public key of `key`, each as 64 lowercase hex digits.
pub fn keypair_hex(key: &SigningKey) -> (r: (String, String))
    ensures
        encode_utf8(r.0@) == hex_text(key@),
        encode_utf8(r.1@) == hex_text(ed25519_public_key(key@)),
        is_keypair_hex(r.0@, r.1@),
{
    let public = key.verifying_key();
    let secret_bytes = key.to_bytes();
    let public_bytes = public.to_bytes();
    proof {
        lemma_hex_round_trip(key@);
    }
    (hex_encode(secret_bytes.as_slice()), hex_encode(public_bytes.as_slice()))
}

/// Generates a fresh Ed25519 key pair and returns it as hex text, private key
/// first. It always succeeds.
pub fn generate_keypair_hex() -> (r: Result<(String, String), CryptoError>)
    ensures
        r is Ok,
        is_keypair_hex(r->Ok_0.0@, r->Ok_0.1@),
{
    let key = generate_signing_key();
    Ok(keypair_hex(&key))
}

/// Signs `message`. The signature is 64 bytes, depends on key and message
/// alone, and verifies under the key's public key.
pub fn sign_message(signing_key: &SigningKey, message: &[u8]) -> (r: Vec<u8>)
    ensures
        r@ == ed25519_signature(signing_key@, message@),
        r@.len() == SIGNATURE_LEN,
        ed25519_accepts(ed25519_public_key(signing_key@), message@, r@),
{
    ed25519_sign(&signing_key.bytes, message)
}

/// What `verify_signature` answers: `None` for a signature of the wrong
/// length, else whether the signature verifies.
pub open spec fn signature_check(public: Seq<u8>, message: Seq<u8>, signature: Seq<u8>) -> Option<bool> {
    if signature.len() != SIGNATURE_LEN {
        None
    } else {
        Some(ed25519_accepts(public, message, signature))
    }
}

/// Verifies `signature` over `message`. A signature that is not 64 bytes long
/// is an `InvalidKey`; one that does not match is a
/// `SignatureVerificationFailed`.
pub fn verify_signature(public_key: &VerifyingKey, message: &[u8], signature: &[u8]) -> (r: Result<
    (),
    CryptoError,
>)
    ensures
        match signature_check(public_key@, message@, signature@) {
            None => r is Err && r->Err_0 is InvalidKey,
            Some(true) => r is Ok,
            Some(false) => r is Err && r->Err_0 is SignatureVerificationFailed,
        },
{
    match to_array::<64>(signature) {
        None => Err(CryptoError::InvalidKey("Invalid signature length".to_owned())),
        Some(fixed) => {
            if ed25519_verify(&public_key.bytes, message, &fixed) {
                Ok(())
            } else {
                Err(CryptoError::SignatureVerificationFailed)
            }
        },
    }
}

// ---------------------------------------------------------------------------
// X25519
// ---------------------------------------------------------------------------

/// The X25519 public value of a 32-byte secret: the clamped secret times the
/// base point.
pub uninterp spec fn x25519_public_key(secret: Seq<u8>) -> Seq<u8>;

/// The X25519 function: the clamped 32-byte secret times the point `public`.
pub uninterp spec fn x25519_shared_secret(secret: Seq<u8>, public: Seq<u8>) -> Seq<u8>;

/// Draws a secret with `StaticSecret::random_from_rng` from the operating
/// system's generator. Nothing is claimed of the bytes.
#[verifier::external_body]
fn x25519_random_secret() -> (r: [u8; 32]) {
    x25519_dalek::StaticSecret::random_from_rng(rand::rngs::OsRng).to_bytes()
}

/// Converts a `StaticSecret` into its `PublicKey`.
#[verifier::external_body]
fn x25519_derive_public(secret: &[u8; 32]) -> (r: [u8; 32])
    ensures
        r@ == x25519_public_key(secret@),
{
    x25519_dalek::PublicKey::from(&x25519_dalek::StaticSecret::from(*secret)).to_bytes()
}

/// Calls `StaticSecret::diffie_hellman`.
#[verifier::external_body]
fn x25519_agree(secret: &[u8; 32], public: &[u8; 32]) -> (r: [u8; 32])
    ensures
        r@ == x25519_shared_secret(secret@, public@),
{
    let secret = x25519_dalek::StaticSecret::from(*secret);
    secret.diffie_hellman(&x25519_dalek::PublicKey::from(*public)).to_bytes()
}

/// An X25519 secret: any 32 bytes; clamping happens when it is used.
pub struct StaticSecret {
    bytes: [u8; 32],
}

impl View for StaticSecret {
    type V = Seq<u8>;

    closed spec fn view(&self) -> Seq<u8> {
        self.bytes@
    }
}

impl StaticSecret {
    /// The secret made of the given bytes.
    pub fn from_bytes(bytes: [u8; 32]) -> (r: StaticSecret)
        ensures
            r@ == bytes@,
    {
        StaticSecret { bytes }
    }

    /// The secret's bytes.
    pub fn to_bytes(&self) -> (r: [u8; 32])
        ensures
            r@ == self@,
    {
        self.bytes
    }
}

/// An X25519 public value: any 32 bytes, read as a Montgomery u-coordinate.
pub struct PublicKey {
    bytes: [u8; 32],
}

impl View for PublicKey {
    type V = Seq<u8>;

    closed spec fn view(&self) -> Seq<u8> {
        self.bytes@
    }
}

impl PublicKey {
    /// The public value made of the given bytes.
    pub fn from_bytes(bytes: [u8; 32]) -> (r: PublicKey)
        ensures
            r@ == bytes@,
    {
        PublicKey { bytes }
    }

    /// The public value that belongs to `secret`.
    pub fn from_secret(secret: &StaticSecret) -> (r: PublicKey)
        ensures
            r@ == x25519_public_key(secret@),
    {
        PublicKey { bytes: x25519_derive_public(&secret.bytes) }
    }

    /// The value's bytes.
    pub fn to_bytes(&self) -> (r: [u8; 32])
        ensures
            r@ == self@,
    {
        self.bytes
    }
}

/// A fresh X25519 secret from the operating system's generator.
pub fn generate_x25519_secret() -> (r: StaticSecret)
    ensures
        r@.len() == KEY_LEN,
{
    StaticSecret::from_bytes(x25519_random_secret())
}

/// The shared secret of one side's secret and the other side's public value.
pub fn derive_shared_secret(private_key: &StaticSecret, public_key: &PublicKey) -> (r: [u8; 32])
    ensures
        r@ == x25519_shared_secret(private_key@, public_key@),
{
    x25519_agree(&private_key.bytes, &public_key.bytes)
}

// ---------------------------------------------------------------------------
// XChaCha20-Poly1305
// ---------------------------------------------------------------------------

/// The number of 64-byte blocks that the cipher does not reach: a plaintext
/// of that many full blocks is refused.
pub const MAX_BLOCKS: usize = 4294967295;

/// A plaintext that the cipher takes.
pub open spec fn sealable(plaintext: Seq<u8>) -> bool {
    plaintext.len() / 64 < MAX_BLOCKS
}

/// The XChaCha20-Poly1305 ciphertext of a plaintext, with its tag.
pub uninterp spec fn xchacha20poly1305_seal(key: Seq<u8>, nonce: Seq<u8>, plaintext: Seq<u8>) -> Seq<u8>;

/// The plaintext that XChaCha20-Poly1305 recovers, or `None` where the tag
/// does not authenticate the ciphertext.
pub uninterp spec fn xchacha20poly1305_open(key: Seq<u8>, nonce: Seq<u8>, ciphertext: Seq<u8>) -> Option<Seq<u8>>;

/// Fills 24 bytes with `RngCore::fill_bytes` from the operating system's
/// generator. Nothing is claimed of the bytes.
#[verifier::external_body]
pub(crate) fn random_nonce() -> (r: [u8; 24]) {
    let mut nonce = [0u8; 24];
    rand::RngCore::fill_bytes(&mut rand::rngs::OsRng, &mut nonce);
    nonce
}

/// Calls `Aead::encrypt` of `XChaCha20Poly1305`, which refuses a plaintext
/// exactly when it has `MAX_BLOCKS` full blocks or more. Where it succeeds,
/// the result is as long as the plaintext and a tag, and opening it under the
/// same key and nonce gives the plaintext back. The error carries the
/// outside error's message.
#[verifier::external_body]
fn xchacha_seal(key: &[u8; 32], nonce: &[u8; 24], plaintext: &[u8]) -> (r: Result<Vec<u8>, String>)
    ensures
        r is Ok <==> sealable(plaintext@),
        r is Ok ==> r->Ok_0@ == xchacha20poly1305_seal(key@, nonce@, plaintext@)
            && r->Ok_0@.len() == plaintext@.len() + TAG_LEN
            && xchacha20poly1305_open(key@, nonce@, r->Ok_0@) == Some(plaintext@),
{
    let cipher = XChaCha20Poly1305::new(key.into());
    cipher.encrypt(XNonce::from_slice(nonce), plaintext).map_err(|e| e.to_string())
}

/// Calls `Aead::decrypt` of `XChaCha20Poly1305`, which fails where the tag
/// does not verify. The error carries the outside error's message.
#[verifier::external_body]
fn xchacha_open(key: &[u8; 32], nonce: &[u8; 24], sealed: &[u8]) -> (r: Result<Vec<u8>, String>)
    ensures
        match r {
            Ok(plaintext) => xchacha20poly1305_open(key@, nonce@, sealed@) == Some(plaintext@),
            Err(_) => xchacha20poly1305_open(key@, nonce@, sealed@) is None,
        },
{
    let cipher = XChaCha20Poly1305::new(key.into());
    cipher.decrypt(XNonce::from_slice(nonce), sealed).map_err(|e| e.to_string())
}

/// What encryption under a given nonce yields: the nonce followed by the
/// sealed plaintext, or `None` for a plaintext that the cipher refuses.
pub open spec fn sealed_with_nonce(key: Seq<u8>, nonce: Seq<u8>, plaintext: Seq<u8>) -> Option<Seq<u8>> {
    if sealable(plaintext) {
        Some(nonce + xchacha20poly1305_seal(key, nonce, plaintext))
    } else {
        None
    }
}

/// What decryption yields: `None` for an input shorter than a nonce, else
/// what opening the rest under the leading nonce gives.
pub open spec fn opened(key: Seq<u8>, input: Seq<u8>) -> Option<Option<Seq<u8>>> {
    if input.len() < NONCE_LEN {
        None
    } else {
        Some(
            xchacha20poly1305_open(
                key,
                input.subrange(0, NONCE_LEN as int),
                input.subrange(NONCE_LEN as int, input.len() as int),
            ),
        )
    }
}

/// Encrypts `plaintext` under `key` with the given nonce and returns the
/// nonce followed by the authenticated ciphertext. The nonce must be fresh
/// for the key: `encrypt_data` draws one.
pub fn encrypt_with_nonce(key: &[u8; 32], nonce: &[u8; 24], plaintext: &[u8]) -> (r: Result<
    Vec<u8>,
    CryptoError,
>)
    ensures
        match sealed_with_nonce(key@, nonce@, plaintext@) {
            Some(out) => r is Ok && r->Ok_0@ == out && out.len() == NONCE_LEN + plaintext@.len()
                + TAG_LEN && opened(key@, out) == Some(Some(plaintext@)),
            None => r is Err && r->Err_0 is EncryptionFailed,
        },
{
    match xchacha_seal(key, nonce, plaintext) {
        Ok(sealed) => {
            let mut out: Vec<u8> = Vec::new();
            append_bytes(&mut out, nonce.as_slice());
            append_bytes(&mut out, sealed.as_slice());
            proof {
                assert(out@ =~= nonce@ + sealed@);
                assert(out@.subrange(0, NONCE_LEN as int) =~= nonce@);
                assert(out@.subrange(NONCE_LEN as int, out@.len() as int) =~= sealed@);
            }
            Ok(out)
        },
        Err(detail) => Err(CryptoError::EncryptionFailed(detail)),
    }
}

/// Encrypts `plaintext` under `key` with a nonce drawn afresh from the
/// operating system's generator. It succeeds for every plaintext that the
/// cipher takes. Whatever nonce was drawn, the result is the nonce followed
/// by the ciphertext, and decrypts to `plaintext`.
pub fn encrypt_data(key: &[u8; 32], plaintext: &[u8]) -> (r: Result<Vec<u8>, CryptoError>)
    ensures
        r is Ok <==> sealable(plaintext@),
        match r {
            Ok(out) => out@.len() == NONCE_LEN + plaintext@.len() + TAG_LEN && sealed_with_nonce(
                key@,
                out@.subrange(0, NONCE_LEN as int),
                plaintext@,
            ) == Some(out@) && opened(key@, out@) == Some(Some(plaintext@)),
            Err(e) => e is EncryptionFailed,
        },
{
    let nonce = random_nonce();
    let r = encrypt_with_nonce(key, &nonce, plaintext);
    proof {
        if let Some(out) = sealed_with_nonce(key@, nonce@, plaintext@) {
            assert(out.subrange(0, NONCE_LEN as int) =~= nonce@);
        }
    }
    r
}

/// Decrypts what `encrypt_data` produced. An input shorter than the nonce is
/// refused as "Ciphertext too short" whatever the key; otherwise the result
/// is the plaintext exactly when the tag authenticates.
pub fn decrypt_data(key: &[u8; 32], ciphertext: &[u8]) -> (r: Result<Vec<u8>, CryptoError>)
    ensures
        match opened(key@, ciphertext@) {
            None => r is Err && r->Err_0 is DecryptionFailed
                && r->Err_0->DecryptionFailed_0@ == "Ciphertext too short"@,
            Some(None) => r is Err && r->Err_0 is DecryptionFailed,
            Some(Some(plaintext)) => r is Ok && r->Ok_0@ == plaintext,
        },
{
    if ciphertext.len() < NONCE_LEN {
        return Err(CryptoError::DecryptionFailed("Ciphertext too short".to_owned()));
    }
    let nonce = to_array::<24>(slice_subrange(ciphertext, 0, NONCE_LEN));
    let sealed = slice_subrange(ciphertext, NONCE_LEN, ciphertext.len());
    match nonce {
        Some(nonce) => match xchacha_open(key, &nonce, sealed) {
            Ok(plaintext) => Ok(plaintext),
            Err(detail) => Err(CryptoError::DecryptionFailed(detail)),
        },
        None => Err(CryptoError::DecryptionFailed("Ciphertext too short".to_owned())),
    }
}

// ---------------------------------------------------------------------------
// BLAKE3 and HKDF
// ---------------------------------------------------------------------------

/// The 32-byte BLAKE3 digest of a byte string.
pub uninterp spec fn blake3_digest(data: Seq<u8>) -> Seq<u8>;

/// The first `length` bytes of HKDF-SHA256 output for the given input key
/// material, salt and context.
pub uninterp spec fn hkdf_sha256(ikm: Seq<u8>, salt: Seq<u8>, info: Seq<u8>, length: nat) -> Seq<u8>;

/// Hashes `data` with `blake3::hash`: the digest is a function of the input.
#[verifier::external_body]
pub fn hash_blake3(data: &[u8]) -> (r: [u8; 32])
    ensures
        r@ == blake3_digest(data@),
{
    blake3::hash(data).into()
}

/// Calls `Hkdf::<Sha256>::new(Some(salt), ikm)` and `expand`, which succeeds
/// for every length of at most 255 blocks and fills exactly that many bytes.
#[verifier::external_body]
fn hkdf_expand(ikm: &[u8], salt: &[u8], info: &[u8], length: usize) -> (r: Result<Vec<u8>, String>)
    requires
        length <= MAX_DERIVED_LEN,
    ensures
        r is Ok,
        r->Ok_0@ == hkdf_sha256(ikm@, salt@, info@, length as nat),
        r->Ok_0@.len() == length,
{
    let mut okm = vec![0u8; length];
    match Hkdf::<Sha256>::new(Some(salt), ikm).expand(info, &mut okm) {
        Ok(()) => Ok(okm),
        Err(e) => Err(e.to_string()),
    }
}

/// Derives `length` bytes from input key material, salt and context with
/// HKDF-SHA256. The same arguments always give the same bytes. A length
/// above `MAX_DERIVED_LEN` is refused.
pub fn derive_key(ikm: &[u8], salt: &[u8], info: &[u8], length: usize) -> (r: Result<
    Vec<u8>,
    CryptoError,
>)
    ensures
        r is Ok <==> length <= MAX_DERIVED_LEN,
        r is Ok ==> r->Ok_0@ == hkdf_sha256(ikm@, salt@, info@, length as nat) && r->Ok_0@.len()
            == length,
        r is Err ==> r->Err_0 is KeyDerivationFailed,
{
    if length > MAX_DERIVED_LEN {
        return Err(CryptoError::KeyDerivationFailed("invalid number of blocks".to_owned()));
    }
    match hkdf_expand(ikm, salt, info, length) {
        Ok(okm) => Ok(okm),
        Err(detail) => Err(CryptoError::KeyDerivationFailed(detail)),
    }
}

} // verus!
