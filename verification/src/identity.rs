//! Self-sovereign identities: an Ed25519 key pair stored as hex text and the
//! decentralized identifier derived from the public key.

use vstd::prelude::*;
use vstd::slice::slice_subrange;
use vstd::utf8::encode_utf8;
use crate::crypto::{
    blake3_digest, ed25519_accepts, ed25519_point_ok, ed25519_public_key, ed25519_signature,
    generate_signing_key, hash_blake3, keypair_hex, sign_message, CryptoError, SigningKey,
    VerifyingKey, KEY_LEN, SIGNATURE_LEN,
};
use crate::encoding::{
    base58_encode, base58_text, hex_bytes, hex_decode, hex_text, is_hex_text, join,
    lemma_hex_round_trip, to_array,
};
use crate::json::{
    document_model, is_plain_record, json_members, json_pretty_text, lemma_member_at, null_entry,
    number_entry, number_member, number_of, optional_text_member, optional_text_of, read_object,
    text_entry, text_member, text_of, write_pretty, JsonMember, JsonModel,
};

verus! {

/// How many leading bytes of a digest go into an identifier.
pub const FINGERPRINT_LEN: usize = 16;

/// The identifier of a public key: a fixed prefix and the base58 text of the
/// first 16 bytes of the key's BLAKE3 digest.
pub open spec fn did_text(public_key: Seq<u8>) -> Seq<char> {
    "did:rootless:key:"@ + base58_text(blake3_digest(public_key).subrange(0, FINGERPRINT_LEN as int))
}

/// The 32 bytes that a key's hex text stands for; `None` where the text is no
/// hex or has another length.
pub open spec fn key_bytes(text: Seq<char>) -> Option<Seq<u8>> {
    if is_hex_text(encode_utf8(text)) && hex_bytes(encode_utf8(text)).len() == KEY_LEN {
        Some(hex_bytes(encode_utf8(text)))
    } else {
        None
    }
}

/// Seconds since the Unix epoch by the system clock; 0 for a clock set before
/// the epoch. Nothing is claimed of the value.
#[verifier::external_body]
pub(crate) fn unix_time_now() -> (r: u64) {
    std::time::SystemTime::now().duration_since(std::time::UNIX_EPOCH).map_or(0, |d| d.as_secs())
}

/// Decodes the hex text of a 32-byte key.
pub fn decode_key(text: &str) -> (r: Result<[u8; 32], CryptoError>)
    ensures
        match key_bytes(text@) {
            Some(bytes) => r is Ok && r->Ok_0@ == bytes,
            None => r is Err && r->Err_0 is InvalidKey,
        },
{
    match hex_decode(text) {
        Err(detail) => Err(CryptoError::InvalidKey(detail)),
        Ok(bytes) => match to_array::<32>(bytes.as_slice()) {
            Some(fixed) => Ok(fixed),
            None => Err(CryptoError::InvalidKey("Invalid key length".to_owned())),
        },
    }
}

/// An identity: a key pair, the identifier derived from its public key, an
/// optional display name and the time of creation.
#[derive(Clone)]
pub struct Identity {
    /// Decentralized identifier.
    pub did: String,
    /// Display name.
    pub name: Option<String>,
    /// Public key, hex encoded.
    pub public_key: String,
    /// Private key, hex encoded.
    private_key: String,
    /// Creation time in seconds since the epoch.
    pub created_at: u64,
}

/// What an identity holds, as text and numbers.
pub struct IdentityView {
    pub did: Seq<char>,
    pub name: Option<Seq<char>>,
    pub public_key: Seq<char>,
    pub private_key: Seq<char>,
    pub created_at: u64,
}

impl IdentityView {
    /// The secret key that the private key text stands for, if it is well
    /// formed.
    pub open spec fn secret_key(&self) -> Option<Seq<u8>> {
        key_bytes(self.private_key)
    }

    /// An identity as generation makes it: the private key text is the hex of
    /// a 32-byte secret, the public key text is the lowercase hex of the
    /// public key that belongs to it, and the identifier is derived from that
    /// public key.
    pub open spec fn wf(&self) -> bool {
        &&& self.secret_key() is Some
        &&& encode_utf8(self.public_key) == hex_text(ed25519_public_key(self.secret_key()->Some_0))
        &&& ed25519_public_key(self.secret_key()->Some_0).len() == KEY_LEN
        &&& ed25519_point_ok(ed25519_public_key(self.secret_key()->Some_0))
        &&& self.did == did_text(ed25519_public_key(self.secret_key()->Some_0))
    }
}

/// The text of an optional string.
pub open spec fn optional_text(name: Option<String>) -> Option<Seq<char>> {
    match name {
        Some(n) => Some(n@),
        None => None,
    }
}

impl View for Identity {
    type V = IdentityView;

    closed spec fn view(&self) -> IdentityView {
        IdentityView {
            did: self.did@,
            name: optional_text(self.name),
            public_key: self.public_key@,
            private_key: self.private_key@,
            created_at: self.created_at,
        }
    }
}

impl Identity {
    /// The identity of a given signing key, created at a given time.
    pub fn from_signing_key(name: Option<String>, signing_key: &SigningKey, created_at: u64) -> (r:
        Identity)
        ensures
            r@.wf(),
            r@.secret_key() == Some(signing_key@),
            r@.name == optional_text(name),
            r@.created_at == created_at,
    {
        let public = signing_key.verifying_key().to_bytes();
        let pair = keypair_hex(signing_key);
        let key_hash = hash_blake3(public.as_slice());
        let fingerprint = base58_encode(slice_subrange(key_hash.as_slice(), 0, FINGERPRINT_LEN));
        let did = join("did:rootless:key:", fingerprint.as_str());
        proof {
            lemma_hex_round_trip(signing_key@);
        }
        Identity { did, name, public_key: pair.1, private_key: pair.0, created_at }
    }

    /// Creates a new identity with a fresh key pair, stamped with the current
    /// time.
    pub fn new(name: Option<String>) -> (r: Identity)
        ensures
            r@.wf(),
            r@.name == optional_text(name),
    {
        let signing_key = generate_signing_key();
        let created_at = unix_time_now();
        Identity::from_signing_key(name, &signing_key, created_at)
    }

    /// Assembles an identity from stored fields. Nothing is checked: signing
    /// with malformed key text fails later.
    pub fn from_parts(
        did: String,
        name: Option<String>,
        public_key: String,
        private_key: String,
        created_at: u64,
    ) -> (r: Identity)
        ensures
            r@ == (IdentityView {
                did: did@,
                name: optional_text(name),
                public_key: public_key@,
                private_key: private_key@,
                created_at,
            }),
    {
        Identity { did, name, public_key, private_key, created_at }
    }

    /// The decentralized identifier.
    pub fn did(&self) -> (r: String)
        ensures
            r@ == self@.did,
    {
        self.did.clone()
    }

    /// The display name.
    pub fn name(&self) -> (r: Option<String>)
        ensures
            optional_text(r) == self@.name,
    {
        match &self.name {
            Some(n) => Some(n.clone()),
            None => None,
        }
    }

    /// The public key as hex text.
    pub fn public_key(&self) -> (r: String)
        ensures
            r@ == self@.public_key,
    {
        self.public_key.clone()
    }

    /// The private key as hex text. Whoever calls this handles a secret.
    pub fn private_key(&self) -> (r: String)
        ensures
            r@ == self@.private_key,
    {
        self.private_key.clone()
    }

    /// The creation time in seconds since the epoch.
    pub fn created_at(&self) -> (r: u64)
        ensures
            r == self@.created_at,
    {
        self.created_at
    }

    /// Signs `data` with the stored private key. Key text that is no hex of 32
    /// bytes is an `InvalidKey`.
    pub fn sign(&self, data: &[u8]) -> (r: Result<Vec<u8>, CryptoError>)
        ensures
            match self@.secret_key() {
                Some(secret) => r is Ok && r->Ok_0@ == ed25519_signature(secret, data@)
                    && r->Ok_0@.len() == SIGNATURE_LEN && ed25519_accepts(
                    ed25519_public_key(secret),
                    data@,
                    r->Ok_0@,
                ),
                None => r is Err && r->Err_0 is InvalidKey,
            },
    {
        match decode_key(self.private_key.as_str()) {
            Err(e) => Err(e),
            Ok(secret) => {
                let signing_key = SigningKey::from_bytes(&secret);
                Ok(sign_message(&signing_key, data))
            },
        }
    }

    /// The public key, decoded and checked to be a curve point.
    pub fn verifying_key(&self) -> (r: Result<VerifyingKey, CryptoError>)
        ensures
            match key_bytes(self@.public_key) {
                Some(public) => if ed25519_point_ok(public) {
                    r is Ok && r->Ok_0@ == public
                } else {
                    r is Err && r->Err_0 is InvalidKey
                },
                None => r is Err && r->Err_0 is InvalidKey,
            },
    {
        match decode_key(self.public_key.as_str()) {
            Err(e) => Err(e),
            Ok(public) => VerifyingKey::from_bytes(&public),
        }
    }
}

/// The members of an identity's record, in the order in which they are
/// written.
pub open spec fn identity_members(identity: IdentityView) -> Seq<(Seq<char>, JsonModel)> {
    seq![
        ("identifier"@, JsonModel::Text(identity.did)),
        (
            "display_name"@,
            match identity.name {
                Some(name) => JsonModel::Text(name),
                None => JsonModel::Null,
            },
        ),
        ("public_key"@, JsonModel::Text(identity.public_key)),
        ("private_key"@, JsonModel::Text(identity.private_key)),
        ("created_at"@, JsonModel::Number(identity.created_at)),
    ]
}

/// The identity that a record's members stand for: the identifier and both
/// keys have to be strings and the creation time an unsigned number; the
/// name may be a string, null or missing. Other members are ignored.
pub open spec fn identity_of_members(members: Seq<(Seq<char>, JsonModel)>) -> Option<IdentityView> {
    match (
        text_member(members, "identifier"@),
        optional_text_member(members, "display_name"@),
        text_member(members, "public_key"@),
        text_member(members, "private_key"@),
        number_member(members, "created_at"@),
    ) {
        (Some(did), Some(name), Some(public_key), Some(private_key), Some(created_at)) => Some(
            IdentityView { did, name, public_key, private_key, created_at },
        ),
        _ => None,
    }
}

/// The identity that JSON text stands for, if any.
pub open spec fn imported(text: Seq<char>) -> Option<IdentityView> {
    match json_members(text) {
        Some(members) => identity_of_members(members),
        None => None,
    }
}

/// The names of an identity's members differ from one another.
proof fn lemma_member_names_differ()
    ensures
        "identifier"@ != "display_name"@,
        "identifier"@ != "public_key"@,
        "identifier"@ != "private_key"@,
        "identifier"@ != "created_at"@,
        "display_name"@ != "public_key"@,
        "display_name"@ != "private_key"@,
        "display_name"@ != "created_at"@,
        "public_key"@ != "private_key"@,
        "public_key"@ != "created_at"@,
        "private_key"@ != "created_at"@,
{
    reveal_strlit("identifier");
    reveal_strlit("display_name");
    reveal_strlit("public_key");
    reveal_strlit("private_key");
    reveal_strlit("created_at");
    assert("identifier"@.len() == 10);
    assert("display_name"@.len() == 12);
    assert("public_key"@.len() == 10);
    assert("private_key"@.len() == 11);
    assert("created_at"@.len() == 10);
    assert("identifier"@[0] == 'i');
    assert("public_key"@[0] == 'p');
    assert("created_at"@[0] == 'c');
}

/// Reading the members that are written for an identity gives every field
/// back: the record is plain, and it stands for the identity it was made of.
pub proof fn lemma_members_round_trip(identity: IdentityView)
    ensures
        is_plain_record(identity_members(identity)),
        identity_of_members(identity_members(identity)) == Some(identity),
{
    let members = identity_members(identity);
    lemma_member_names_differ();
    lemma_member_at(members, "identifier"@, 0);
    lemma_member_at(members, "display_name"@, 1);
    lemma_member_at(members, "public_key"@, 2);
    lemma_member_at(members, "private_key"@, 3);
    lemma_member_at(members, "created_at"@, 4);
}

impl Identity {
    /// The members of this identity's record.
    pub fn to_members(&self) -> (r: Vec<JsonMember>)
        ensures
            document_model(r@) == identity_members(self@),
    {
        let mut members: Vec<JsonMember> = Vec::new();
        members.push(text_entry("identifier", self.did.as_str()));
        match &self.name {
            Some(name) => members.push(text_entry("display_name", name.as_str())),
            None => members.push(null_entry("display_name")),
        }
        members.push(text_entry("public_key", self.public_key.as_str()));
        members.push(text_entry("private_key", self.private_key.as_str()));
        members.push(number_entry("created_at", self.created_at));
        assert(document_model(members@) =~= identity_members(self@));
        members
    }

    /// The identity that a record's members stand for.
    pub fn from_members(members: &Vec<JsonMember>) -> (r: Option<Identity>)
        ensures
            match identity_of_members(document_model(members@)) {
                Some(identity) => r is Some && r->Some_0@ == identity,
                None => r is None,
            },
    {
        let did = text_of(members, "identifier");
        let name = optional_text_of(members, "display_name");
        let public_key = text_of(members, "public_key");
        let private_key = text_of(members, "private_key");
        let created_at = number_of(members, "created_at");
        match (did, name, public_key, private_key, created_at) {
            (Some(did), Some(name), Some(public_key), Some(private_key), Some(created_at)) => Some(
                Identity { did, name, public_key, private_key, created_at },
            ),
            _ => None,
        }
    }

    /// Writes the identity as indented JSON text with every field, the
    /// private key included: whoever calls this handles a secret. It always
    /// succeeds. The text is that of the identity's members; importing it
    /// gives an identity with the same fields.
    pub fn export(&self) -> (r: Result<String, CryptoError>)
        ensures
            r is Ok,
            r->Ok_0@ == json_pretty_text(identity_members(self@)),
            imported(r->Ok_0@) == Some(self@),
    {
        let members = self.to_members();
        proof {
            lemma_members_round_trip(self@);
        }
        match write_pretty(&members) {
            Ok(text) => Ok(text),
            Err(detail) => Err(CryptoError::EncryptionFailed(detail)),
        }
    }

    /// Reads an identity from JSON text. Text that is no JSON object, or
    /// whose members do not stand for an identity, is an `InvalidKey`. The
    /// keys themselves are not checked here.
    pub fn import(json: &str) -> (r: Result<Identity, CryptoError>)
        ensures
            match imported(json@) {
                Some(identity) => r is Ok && r->Ok_0@ == identity,
                None => r is Err && r->Err_0 is InvalidKey,
            },
    {
        match read_object(json) {
            Err(detail) => Err(CryptoError::InvalidKey(detail)),
            Ok(members) => match Identity::from_members(&members) {
                Some(identity) => Ok(identity),
                None => Err(CryptoError::InvalidKey("Invalid identity record".to_owned())),
            },
        }
    }
}

} // verus!
