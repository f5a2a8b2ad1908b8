//! Cryptographic core of a decentralized identity and content protocol:
//! self-sovereign identities, signed content-addressed records and sealed
//! direct messages, with every function carrying a machine-checked contract.
//!
//! * [`crypto`]: signatures, key agreement, authenticated encryption,
//!   hashing and key derivation.
//! * [`identity`]: key pairs with their derived identifiers.
//! * [`content`]: signed, content-addressed records.
//! * [`messaging`]: sealed envelopes between identities.
//! * [`encoding`] and [`json`]: the text forms in which all of it travels.

pub mod content;
pub mod crypto;
pub mod encoding;
pub mod identity;
pub mod json;
pub mod messaging;

pub use content::{
    addressing_payload_bytes, content_id, signing_payload_bytes, Content, ContentType,
};
pub use crypto::{
    decrypt_data, derive_key, derive_shared_secret, encrypt_data, encrypt_with_nonce,
    generate_keypair_hex, generate_signing_key, generate_x25519_secret,
    hash_blake3, keypair_hex, sign_message, verify_signature, CryptoError, ErrorKind, PublicKey,
    SigningKey, StaticSecret, VerifyingKey, KEY_LEN, MAX_DERIVED_LEN, NONCE_LEN, SIGNATURE_LEN,
    TAG_LEN,
};
pub use encoding::push_decimal;
pub use identity::{decode_key, Identity, IdentityView};
pub use json::{JsonMember, JsonModel, JsonValue};
pub use messaging::{
    decrypt_message_from_sender, derive_message_key, derive_x25519_from_ed25519,
    encrypt_message_for_recipient, message_id, open_message, seal_message, EncryptedMessage,
    EnvelopeView,
};
