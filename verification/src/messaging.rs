//! End-to-end encrypted messages between identities.
//!
//! Each message is sealed under a key derived from an X25519 agreement
//! between a single-use secret and a value derived from the recipient's
//! public signing key.
//!
//! The key-exchange value of an identity is derived with HKDF from its
//! *public* signing key. The sender reads that value as a public point; the
//! recipient reads the same bytes as a secret scalar. The two sides also bind
//! the message key to different sender texts: the sender's identifier when
//! sealing, the envelope's sender public key when opening. The contracts
//! below state both computations exactly; nothing here claims that the two
//! sides agree on a key, and nothing derived from public bytes is secret.

use vstd::prelude::*;
use vstd::slice::slice_subrange;
use vstd::utf8::{decode_utf8, encode_utf8, valid_utf8};
use crate::content::SEPARATOR;
use crate::crypto::{
    blake3_digest, decrypt_data, derive_key, derive_shared_secret, encrypt_with_nonce,
    generate_x25519_secret, hash_blake3, hkdf_sha256, opened, random_nonce, sealable,
    sealed_with_nonce, x25519_public_key, x25519_shared_secret, CryptoError, ErrorKind, PublicKey,
    StaticSecret, KEY_LEN, NONCE_LEN, TAG_LEN,
};
use crate::encoding::{
    append_bytes, base58_encode, base58_text, decimal_text, hex_bytes, hex_decode, hex_encode,
    hex_text, is_hex_text, is_lowercase_hex, join, lemma_hex_round_trip, push_decimal,
    string_from_utf8, to_array,
};
use crate::identity::{
    decode_key, key_bytes, unix_time_now, Identity, IdentityView, FINGERPRINT_LEN,
};
use crate::json::{
    document_model, is_plain_record, json_compact_text, json_members, lemma_member_at, number_entry,
    number_member, number_of, read_object, text_entry, text_member, text_of, write_compact,
    JsonMember, JsonModel,
};

verus! {

/// An encrypted message as it travels.
#[derive(Clone)]
pub struct EncryptedMessage {
    /// The sender's public key, hex encoded.
    pub sender_public_key: String,
    /// The single-use public value of the key agreement, hex encoded.
    pub ephemeral_public_key: String,
    /// The nonce followed by the authenticated ciphertext, hex encoded.
    pub ciphertext: String,
    /// Time of sealing in seconds since the epoch.
    pub timestamp: u64,
    /// An identifier for deduplication and logs. It protects nothing.
    pub message_id: String,
}

/// What an envelope holds, as text and numbers.
pub struct EnvelopeView {
    pub sender_public_key: Seq<char>,
    pub ephemeral_public_key: Seq<char>,
    pub ciphertext: Seq<char>,
    pub timestamp: u64,
    pub message_id: Seq<char>,
}

impl View for EncryptedMessage {
    type V = EnvelopeView;

    open spec fn view(&self) -> EnvelopeView {
        EnvelopeView {
            sender_public_key: self.sender_public_key@,
            ephemeral_public_key: self.ephemeral_public_key@,
            ciphertext: self.ciphertext@,
            timestamp: self.timestamp,
            message_id: self.message_id@,
        }
    }
}

/// The key-exchange value derived from an Ed25519 public key: 32 bytes of
/// HKDF-SHA256 under a fixed salt and context.
pub open spec fn converted_key(ed25519_key: Seq<u8>) -> Seq<u8> {
    hkdf_sha256(
        ed25519_key,
        encode_utf8("rootlessnet-key-conversion"@),
        encode_utf8("ed25519-to-x25519"@),
        KEY_LEN as nat,
    )
}

/// The symmetric key of a message: 32 bytes of HKDF-SHA256 of the shared
/// secret, bound to a sender text by the context.
pub open spec fn message_key(shared_secret: Seq<u8>, sender: Seq<char>) -> Seq<u8> {
    hkdf_sha256(
        shared_secret,
        encode_utf8("rootlessnet-messaging-v2"@),
        encode_utf8("rootlessnet:messaging:"@ + sender),
        KEY_LEN as nat,
    )
}

/// The key under which a message is sealed: the single-use secret combined
/// with the recipient's converted key read as a public point, bound to the
/// sender's identifier.
pub open spec fn sealing_key(recipient_key: Seq<u8>, ephemeral_secret: Seq<u8>, sender_did: Seq<char>) -> Seq<u8> {
    message_key(x25519_shared_secret(ephemeral_secret, converted_key(recipient_key)), sender_did)
}

/// The key under which a message is opened: the recipient's converted key
/// read as a secret, combined with the envelope's single-use public value,
/// bound to the sender text that the envelope declares.
pub open spec fn opening_key(recipient_key: Seq<u8>, ephemeral_public: Seq<u8>, declared_sender: Seq<char>) -> Seq<u8> {
    message_key(x25519_shared_secret(converted_key(recipient_key), ephemeral_public), declared_sender)
}

/// The identifier of a message: the base58 text of the first 16 bytes of the
/// digest of `message:timestamp`.
pub open spec fn message_id_text(message: Seq<char>, timestamp: u64) -> Seq<char> {
    base58_text(
        blake3_digest(encode_utf8(message) + seq![SEPARATOR] + decimal_text(timestamp as nat)).subrange(
            0,
            FINGERPRINT_LEN as int,
        ),
    )
}

/// Derives the key-exchange value of an Ed25519 key. It always succeeds.
pub fn derive_x25519_from_ed25519(ed25519_key: &[u8]) -> (r: Result<[u8; 32], CryptoError>)
    ensures
        r is Ok,
        r->Ok_0@ == converted_key(ed25519_key@),
{
    let derived = derive_key(
        ed25519_key,
        "rootlessnet-key-conversion".as_bytes(),
        "ed25519-to-x25519".as_bytes(),
        KEY_LEN,
    );
    match derived {
        Err(e) => Err(e),
        Ok(bytes) => match to_array::<32>(bytes.as_slice()) {
            Some(fixed) => Ok(fixed),
            None => Err(CryptoError::KeyDerivationFailed("Invalid derived key length".to_owned())),
        },
    }
}

/// Derives the symmetric key of a message from a shared secret and a sender
/// text. It always succeeds.
pub fn derive_message_key(shared_secret: &[u8; 32], sender: &str) -> (r: Result<[u8; 32], CryptoError>)
    ensures
        r is Ok,
        r->Ok_0@ == message_key(shared_secret@, sender@),
{
    let info = join("rootlessnet:messaging:", sender);
    let derived = derive_key(
        shared_secret.as_slice(),
        "rootlessnet-messaging-v2".as_bytes(),
        info.as_str().as_bytes(),
        KEY_LEN,
    );
    match derived {
        Err(e) => Err(e),
        Ok(bytes) => match to_array::<32>(bytes.as_slice()) {
            Some(fixed) => Ok(fixed),
            None => Err(CryptoError::KeyDerivationFailed("Invalid derived key length".to_owned())),
        },
    }
}

/// Computes the identifier of a message.
pub fn message_id(message: &str, timestamp: u64) -> (r: String)
    ensures
        r@ == message_id_text(message@, timestamp),
{
    let mut data: Vec<u8> = Vec::new();
    append_bytes(&mut data, message.as_bytes());
    data.push(SEPARATOR);
    push_decimal(&mut data, timestamp);
    assert(data@ =~= encode_utf8(message@) + seq![SEPARATOR] + decimal_text(timestamp as nat));
    let digest = hash_blake3(data.as_slice());
    base58_encode(slice_subrange(digest.as_slice(), 0, FINGERPRINT_LEN))
}

impl EnvelopeView {
    /// The shape of every envelope that seals `message`: the single-use
    /// public value is 64 lowercase hex digits, and the ciphertext is the
    /// lowercase hex of a nonce, as many bytes as the message has, and a tag.
    pub open spec fn has_sealed_shape(&self, message: Seq<char>) -> bool {
        &&& is_lowercase_hex(encode_utf8(self.ephemeral_public_key))
        &&& encode_utf8(self.ephemeral_public_key).len() == 2 * KEY_LEN
        &&& is_lowercase_hex(encode_utf8(self.ciphertext))
        &&& encode_utf8(self.ciphertext).len() == 2 * (NONCE_LEN + encode_utf8(message).len()
            + TAG_LEN)
    }

    /// Whether this is the envelope that sealing `message` yields for the
    /// given sender, recipient key bytes, single-use secret, nonce and time,
    /// with `sealed` the nonce and ciphertext.
    pub open spec fn is_sealing_of(
        &self,
        message: Seq<char>,
        sender: IdentityView,
        recipient_key: Seq<u8>,
        ephemeral_secret: Seq<u8>,
        nonce: Seq<u8>,
        timestamp: u64,
    ) -> bool {
        &&& self.sender_public_key == sender.public_key
        &&& encode_utf8(self.ephemeral_public_key) == hex_text(x25519_public_key(ephemeral_secret))
        &&& self.has_sealed_shape(message)
        &&& sealed_with_nonce(
            sealing_key(recipient_key, ephemeral_secret, sender.did),
            nonce,
            encode_utf8(message),
        ) is Some
        &&& encode_utf8(self.ciphertext) == hex_text(
            sealed_with_nonce(
                sealing_key(recipient_key, ephemeral_secret, sender.did),
                nonce,
                encode_utf8(message),
            )->Some_0,
        )
        &&& self.timestamp == timestamp
        &&& self.message_id == message_id_text(message, timestamp)
    }

    /// What opening this envelope yields for a recipient whose public key
    /// text is `recipient_public_key`: the message, or the kind of the
    /// failure. Key text of either side that is no hex of 32 bytes is an
    /// `InvalidKey`; malformed ciphertext text, an input too short, a failed
    /// authentication and a plaintext that is no UTF-8 are each a
    /// `DecryptionFailed`.
    pub open spec fn opening(&self, recipient_public_key: Seq<char>) -> Result<Seq<char>, ErrorKind> {
        let ephemeral = key_bytes(self.ephemeral_public_key);
        let recipient = key_bytes(recipient_public_key);
        let sealed = encode_utf8(self.ciphertext);
        if ephemeral is None || recipient is None {
            Err(ErrorKind::InvalidKey)
        } else if !is_hex_text(sealed) {
            Err(ErrorKind::DecryptionFailed)
        } else {
            match opened(
                opening_key(recipient->Some_0, ephemeral->Some_0, self.sender_public_key),
                hex_bytes(sealed),
            ) {
                Some(Some(plaintext)) => if valid_utf8(plaintext) {
                    Ok(decode_utf8(plaintext))
                } else {
                    Err(ErrorKind::DecryptionFailed)
                },
                _ => Err(ErrorKind::DecryptionFailed),
            }
        }
    }

    /// Whether the key that the recipient derives for this envelope is the
    /// key under which it was sealed.
    pub open spec fn keys_agree(
        &self,
        sender: IdentityView,
        recipient_key: Seq<u8>,
        ephemeral_secret: Seq<u8>,
    ) -> bool {
        sealing_key(recipient_key, ephemeral_secret, sender.did) == opening_key(
            recipient_key,
            x25519_public_key(ephemeral_secret),
            self.sender_public_key,
        )
    }

    /// Whether this envelope seals `message` for the 32-byte key that the
    /// recipient key text stands for, with some single-use secret and nonce,
    /// and opens to `message` again if the two sides' keys agree.
    pub open spec fn seals(&self, message: Seq<char>, sender: IdentityView, recipient_public_key: Seq<char>) -> bool {
        &&& key_bytes(recipient_public_key) is Some
        &&& exists|ephemeral_secret: Seq<u8>, nonce: Seq<u8>| #[trigger]
            self.is_sealing_of(
                message,
                sender,
                key_bytes(recipient_public_key)->Some_0,
                ephemeral_secret,
                nonce,
                self.timestamp,
            ) && (self.keys_agree(
                sender,
                key_bytes(recipient_public_key)->Some_0,
                ephemeral_secret,
            ) ==> self.opening(recipient_public_key) == Ok::<Seq<char>, ErrorKind>(message))
    }
}

/// Seals `message` from `sender` for the holder of `recipient_public_key`
/// with the given single-use secret, nonce and time. Both the secret and the
/// nonce must be fresh: `encrypt_message_for_recipient` draws them.
///
/// Recipient key text that is no hex of 32 bytes is an `InvalidKey`; a
/// refusal of the cipher is an `EncryptionFailed`; otherwise the envelope is
/// returned. If the recipient's opening key equals the sealing key, opening
/// the envelope gives the message back.
pub fn seal_message(
    message: &str,
    sender: &Identity,
    recipient_public_key: &str,
    ephemeral_secret: &StaticSecret,
    nonce: &[u8; 24],
    timestamp: u64,
) -> (r: Result<EncryptedMessage, CryptoError>)
    ensures
        key_bytes(recipient_public_key@) is None ==> r is Err && r->Err_0 is InvalidKey,
        r is Ok <==> key_bytes(recipient_public_key@) is Some && sealable(encode_utf8(message@)),
        key_bytes(recipient_public_key@) is Some ==> {
            let recipient_key = key_bytes(recipient_public_key@)->Some_0;
            let key = sealing_key(recipient_key, ephemeral_secret@, sender@.did);
            match sealed_with_nonce(key, nonce@, encode_utf8(message@)) {
                None => r is Err && r->Err_0 is EncryptionFailed,
                Some(_) => r is Ok && r->Ok_0@.is_sealing_of(
                    message@,
                    sender@,
                    recipient_key,
                    ephemeral_secret@,
                    nonce@,
                    timestamp,
                ) && (r->Ok_0@.keys_agree(sender@, recipient_key, ephemeral_secret@)
                    ==> r->Ok_0@.opening(recipient_public_key@) == Ok::<Seq<char>, ErrorKind>(
                    message@,
                )) && r->Ok_0@.seals(message@, sender@, recipient_public_key@),
            }
        },
{
    let recipient_bytes = match decode_key(recipient_public_key) {
        Ok(bytes) => bytes,
        Err(e) => { return Err(e); },
    };
    let ephemeral_public = PublicKey::from_secret(ephemeral_secret);
    let recipient_value = match derive_x25519_from_ed25519(recipient_bytes.as_slice()) {
        Ok(value) => PublicKey::from_bytes(value),
        Err(e) => { return Err(e); },
    };
    let shared_secret = derive_shared_secret(ephemeral_secret, &recipient_value);
    let sender_did = sender.did();
    let key = match derive_message_key(&shared_secret, sender_did.as_str()) {
        Ok(key) => key,
        Err(e) => { return Err(e); },
    };
    let sealed = match encrypt_with_nonce(&key, nonce, message.as_bytes()) {
        Ok(sealed) => sealed,
        Err(e) => { return Err(e); },
    };
    let ephemeral_bytes = ephemeral_public.to_bytes();
    let envelope = EncryptedMessage {
        sender_public_key: sender.public_key(),
        ephemeral_public_key: hex_encode(ephemeral_bytes.as_slice()),
        ciphertext: hex_encode(sealed.as_slice()),
        timestamp,
        message_id: message_id(message, timestamp),
    };
    proof {
        lemma_hex_round_trip(ephemeral_bytes@);
        lemma_hex_round_trip(sealed@);
        vstd::utf8::encode_utf8_valid_utf8(message@);
        vstd::utf8::encode_utf8_decode_utf8(message@);
        let sealed_view = envelope@;
        let recipient_key = recipient_bytes@;
        assert(sealed_view.is_sealing_of(
            message@,
            sender@,
            recipient_key,
            ephemeral_secret@,
            nonce@,
            timestamp,
        ));
        if sealed_view.keys_agree(sender@, recipient_key, ephemeral_secret@) {
            assert(key@ == opening_key(
                recipient_key,
                ephemeral_bytes@,
                sealed_view.sender_public_key,
            ));
            assert(sealed_view.opening(recipient_public_key@) == Ok::<Seq<char>, ErrorKind>(
                message@,
            ));
        }
        assert(sealed_view.seals(message@, sender@, recipient_public_key@));
    }
    Ok(envelope)
}

/// Opens an envelope as `recipient`. The result is exactly what
/// `EnvelopeView::opening` states for the recipient's public key text.
pub fn open_message(envelope: &EncryptedMessage, recipient: &Identity) -> (r: Result<String, CryptoError>)
    ensures
        match envelope@.opening(recipient@.public_key) {
            Ok(message) => r is Ok && r->Ok_0@ == message,
            Err(kind) => r is Err && r->Err_0.kind() == kind,
        },
{
    let ephemeral_public = match decode_key(envelope.ephemeral_public_key.as_str()) {
        Ok(bytes) => PublicKey::from_bytes(bytes),
        Err(e) => { return Err(e); },
    };
    let recipient_public_key = recipient.public_key();
    let recipient_bytes = match decode_key(recipient_public_key.as_str()) {
        Ok(bytes) => bytes,
        Err(e) => { return Err(e); },
    };
    let recipient_secret = match derive_x25519_from_ed25519(recipient_bytes.as_slice()) {
        Ok(value) => StaticSecret::from_bytes(value),
        Err(e) => { return Err(e); },
    };
    let shared_secret = derive_shared_secret(&recipient_secret, &ephemeral_public);
    let key = match derive_message_key(&shared_secret, envelope.sender_public_key.as_str()) {
        Ok(key) => key,
        Err(e) => { return Err(e); },
    };
    let sealed = match hex_decode(envelope.ciphertext.as_str()) {
        Ok(bytes) => bytes,
        Err(detail) => { return Err(CryptoError::DecryptionFailed(detail)); },
    };
    let plaintext = match decrypt_data(&key, sealed.as_slice()) {
        Ok(plaintext) => plaintext,
        Err(e) => { return Err(e); },
    };
    match string_from_utf8(plaintext) {
        Some(message) => Ok(message),
        None => Err(CryptoError::DecryptionFailed("invalid utf-8 sequence".to_owned())),
    }
}

/// The members of an envelope's record, in the order in which they are
/// written.
pub open spec fn envelope_members(envelope: EnvelopeView) -> Seq<(Seq<char>, JsonModel)> {
    seq![
        ("sender_public_key"@, JsonModel::Text(envelope.sender_public_key)),
        ("ephemeral_public_key"@, JsonModel::Text(envelope.ephemeral_public_key)),
        ("ciphertext"@, JsonModel::Text(envelope.ciphertext)),
        ("timestamp"@, JsonModel::Number(envelope.timestamp)),
        ("message_id"@, JsonModel::Text(envelope.message_id)),
    ]
}

/// The envelope that a record's members stand for: the time has to be an
/// unsigned number and the four other fields strings. Other members are
/// ignored.
pub open spec fn envelope_of_members(members: Seq<(Seq<char>, JsonModel)>) -> Option<EnvelopeView> {
    match (
        text_member(members, "sender_public_key"@),
        text_member(members, "ephemeral_public_key"@),
        text_member(members, "ciphertext"@),
        number_member(members, "timestamp"@),
        text_member(members, "message_id"@),
    ) {
        (
            Some(sender_public_key),
            Some(ephemeral_public_key),
            Some(ciphertext),
            Some(timestamp),
            Some(message_id),
        ) => Some(
            EnvelopeView { sender_public_key, ephemeral_public_key, ciphertext, timestamp, message_id },
        ),
        _ => None,
    }
}

/// The envelope that JSON text stands for, if any.
pub open spec fn parsed_envelope(text: Seq<char>) -> Option<EnvelopeView> {
    match json_members(text) {
        Some(members) => envelope_of_members(members),
        None => None,
    }
}

/// The names of an envelope's members differ from one another.
proof fn lemma_member_names_differ()
    ensures
        "sender_public_key"@ != "ephemeral_public_key"@,
        "sender_public_key"@ != "ciphertext"@,
        "sender_public_key"@ != "timestamp"@,
        "sender_public_key"@ != "message_id"@,
        "ephemeral_public_key"@ != "ciphertext"@,
        "ephemeral_public_key"@ != "timestamp"@,
        "ephemeral_public_key"@ != "message_id"@,
        "ciphertext"@ != "timestamp"@,
        "ciphertext"@ != "message_id"@,
        "timestamp"@ != "message_id"@,
{
    reveal_strlit("sender_public_key");
    reveal_strlit("ephemeral_public_key");
    reveal_strlit("ciphertext");
    reveal_strlit("timestamp");
    reveal_strlit("message_id");
    assert("sender_public_key"@.len() == 17);
    assert("ephemeral_public_key"@.len() == 20);
    assert("ciphertext"@.len() == 10);
    assert("timestamp"@.len() == 9);
    assert("message_id"@.len() == 10);
    assert("ciphertext"@[0] == 'c');
    assert("message_id"@[0] == 'm');
}

/// Reading the members that are written for an envelope gives every field
/// back: the record is plain, and it stands for the envelope it was made of.
pub proof fn lemma_envelope_round_trip(envelope: EnvelopeView)
    ensures
        is_plain_record(envelope_members(envelope)),
        envelope_of_members(envelope_members(envelope)) == Some(envelope),
{
    let members = envelope_members(envelope);
    lemma_member_names_differ();
    lemma_member_at(members, "sender_public_key"@, 0);
    lemma_member_at(members, "ephemeral_public_key"@, 1);
    lemma_member_at(members, "ciphertext"@, 2);
    lemma_member_at(members, "timestamp"@, 3);
    lemma_member_at(members, "message_id"@, 4);
}

impl EncryptedMessage {
    /// The members of this envelope's record.
    pub fn to_members(&self) -> (r: Vec<JsonMember>)
        ensures
            document_model(r@) == envelope_members(self@),
    {
        let mut members: Vec<JsonMember> = Vec::new();
        members.push(text_entry("sender_public_key", self.sender_public_key.as_str()));
        members.push(text_entry("ephemeral_public_key", self.ephemeral_public_key.as_str()));
        members.push(text_entry("ciphertext", self.ciphertext.as_str()));
        members.push(number_entry("timestamp", self.timestamp));
        members.push(text_entry("message_id", self.message_id.as_str()));
        assert(document_model(members@) =~= envelope_members(self@));
        members
    }

    /// The envelope that a record's members stand for.
    pub fn from_members(members: &Vec<JsonMember>) -> (r: Option<EncryptedMessage>)
        ensures
            match envelope_of_members(document_model(members@)) {
                Some(envelope) => r is Some && r->Some_0@ == envelope,
                None => r is None,
            },
    {
        let sender_public_key = text_of(members, "sender_public_key");
        let ephemeral_public_key = text_of(members, "ephemeral_public_key");
        let ciphertext = text_of(members, "ciphertext");
        let timestamp = number_of(members, "timestamp");
        let message_id = text_of(members, "message_id");
        match (sender_public_key, ephemeral_public_key, ciphertext, timestamp, message_id) {
            (
                Some(sender_public_key),
                Some(ephemeral_public_key),
                Some(ciphertext),
                Some(timestamp),
                Some(message_id),
            ) => Some(
                EncryptedMessage {
                    sender_public_key,
                    ephemeral_public_key,
                    ciphertext,
                    timestamp,
                    message_id,
                },
            ),
            _ => None,
        }
    }

    /// Writes the envelope as compact JSON text. It always succeeds, and
    /// parsing the text gives the envelope back.
    pub fn to_json(&self) -> (r: Result<String, CryptoError>)
        ensures
            r is Ok,
            r->Ok_0@ == json_compact_text(envelope_members(self@)),
            parsed_envelope(r->Ok_0@) == Some(self@),
    {
        let members = self.to_members();
        proof {
            lemma_envelope_round_trip(self@);
        }
        match write_compact(&members) {
            Ok(text) => Ok(text),
            Err(detail) => Err(CryptoError::EncryptionFailed(detail)),
        }
    }

    /// Reads an envelope from JSON text. Text that is no JSON object, or
    /// whose members do not stand for an envelope, is a `DecryptionFailed`.
    pub fn from_json(text: &str) -> (r: Result<EncryptedMessage, CryptoError>)
        ensures
            match parsed_envelope(text@) {
                Some(envelope) => r is Ok && r->Ok_0@ == envelope,
                None => r is Err && r->Err_0 is DecryptionFailed,
            },
    {
        match read_object(text) {
            Err(detail) => Err(CryptoError::DecryptionFailed(detail)),
            Ok(members) => match EncryptedMessage::from_members(&members) {
                Some(envelope) => Ok(envelope),
                None => Err(CryptoError::DecryptionFailed("Invalid message record".to_owned())),
            },
        }
    }
}

/// Encrypts `message` from `sender` for the holder of `recipient_public_key`
/// and returns the envelope as JSON text. A fresh single-use secret and a
/// fresh nonce are drawn for every call, and the envelope is stamped with the
/// current time.
///
/// Recipient key text that is no hex of 32 bytes is an `InvalidKey`; a
/// message that the cipher refuses is an `EncryptionFailed`; every other call
/// succeeds. Whatever was drawn, the text is the compact record of an
/// envelope that seals the message for the recipient, with exactly the five
/// members of an envelope.
pub fn encrypt_message_for_recipient(message: &str, sender: &Identity, recipient_public_key: &str) -> (r:
    Result<String, CryptoError>)
    ensures
        key_bytes(recipient_public_key@) is None ==> r is Err && r->Err_0 is InvalidKey,
        key_bytes(recipient_public_key@) is Some && !sealable(encode_utf8(message@)) ==> r is Err
            && r->Err_0 is EncryptionFailed,
        r is Ok <==> key_bytes(recipient_public_key@) is Some && sealable(encode_utf8(message@)),
        r is Ok ==> parsed_envelope(r->Ok_0@) is Some && {
            let envelope = parsed_envelope(r->Ok_0@)->Some_0;
            &&& r->Ok_0@ == json_compact_text(envelope_members(envelope))
            &&& envelope.sender_public_key == sender@.public_key
            &&& envelope.has_sealed_shape(message@)
            &&& envelope.message_id == message_id_text(message@, envelope.timestamp)
            &&& envelope.seals(message@, sender@, recipient_public_key@)
        },
{
    let ephemeral_secret = generate_x25519_secret();
    let nonce = random_nonce();
    let timestamp = unix_time_now();
    match seal_message(message, sender, recipient_public_key, &ephemeral_secret, &nonce, timestamp) {
        Err(e) => Err(e),
        Ok(envelope) => envelope.to_json(),
    }
}

/// Decrypts the JSON envelope `encrypted_message` as `recipient`. The sender
/// context is the one that the envelope declares; `_sender_public_key` is not
/// consulted.
///
/// Text that is no envelope is a `DecryptionFailed`; otherwise the result is
/// exactly what `EnvelopeView::opening` states.
pub fn decrypt_message_from_sender(
    encrypted_message: &str,
    recipient: &Identity,
    _sender_public_key: &str,
) -> (r: Result<String, CryptoError>)
    ensures
        match parsed_envelope(encrypted_message@) {
            None => r is Err && r->Err_0 is DecryptionFailed,
            Some(envelope) => match envelope.opening(recipient@.public_key) {
                Ok(message) => r is Ok && r->Ok_0@ == message,
                Err(kind) => r is Err && r->Err_0.kind() == kind,
            },
        },
{
    match EncryptedMessage::from_json(encrypted_message) {
        Err(e) => Err(e),
        Ok(envelope) => open_message(&envelope, recipient),
    }
}

} // verus!
