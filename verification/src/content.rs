//! Signed, content-addressed records.
//!
//! A record's identifier is derived from the digest of
//! `author:body:created_at`; its signature covers
//! `cid:author:body:created_at`. Both payloads are exact byte strings: the
//! fields' UTF-8 bytes joined by colons, the time in decimal, nothing escaped.

use vstd::prelude::*;
use vstd::slice::slice_subrange;
use vstd::utf8::encode_utf8;
use crate::crypto::{
    blake3_digest, ed25519_accepts, ed25519_point_ok, ed25519_public_key, ed25519_signature,
    hash_blake3, verify_signature, CryptoError, VerifyingKey, SIGNATURE_LEN,
};
use crate::encoding::{
    append_bytes, base58_encode, base58_text, decimal_text, hex_bytes, hex_decode, hex_encode,
    hex_text, is_hex_text, join, lemma_decimal_value, lemma_hex_round_trip, push_decimal,
};
use crate::identity::{
    decode_key, key_bytes, unix_time_now, Identity, IdentityView, FINGERPRINT_LEN,
};
use crate::json::{
    document_model, json_pretty_text, number_entry, text_entry, write_pretty, JsonMember, JsonModel,
};

verus! {

/// The ASCII colon that separates the fields of a payload.
pub const SEPARATOR: u8 = 58;

/// Content types of the protocol. The type is carried along; it changes
/// nothing in how a record is addressed or signed.
#[derive(Clone, Copy, PartialEq, Eq, Debug, Structural)]
pub enum ContentType {
    Text,
    Media,
    Document,
    Thread,
}

impl Default for ContentType {
    fn default() -> (r: ContentType)
        ensures
            r == ContentType::Text,
    {
        ContentType::Text
    }
}

impl ContentType {
    /// The name under which the type is written in a record.
    pub open spec fn name_text(&self) -> Seq<char> {
        match self {
            ContentType::Text => "Text"@,
            ContentType::Media => "Media"@,
            ContentType::Document => "Document"@,
            ContentType::Thread => "Thread"@,
        }
    }

    /// The name under which the type is written in a record.
    pub fn name(&self) -> (r: &'static str)
        ensures
            r@ == self.name_text(),
    {
        match self {
            ContentType::Text => "Text",
            ContentType::Media => "Media",
            ContentType::Document => "Document",
            ContentType::Thread => "Thread",
        }
    }
}

/// The bytes that are hashed into a content identifier:
/// `author:body:created_at`.
pub open spec fn addressing_payload(author: Seq<char>, body: Seq<char>, created_at: u64) -> Seq<u8> {
    encode_utf8(author) + seq![SEPARATOR] + encode_utf8(body) + seq![SEPARATOR] + decimal_text(
        created_at as nat,
    )
}

/// The content identifier of an author, a body and a time: `bafk` and the
/// base58 text of the first 16 bytes of the addressing payload's digest.
pub open spec fn cid_text(author: Seq<char>, body: Seq<char>, created_at: u64) -> Seq<char> {
    "bafk"@ + base58_text(
        blake3_digest(addressing_payload(author, body, created_at)).subrange(0, FINGERPRINT_LEN as int),
    )
}

/// The bytes that are signed: `cid:author:body:created_at`.
pub open spec fn signing_payload(
    cid: Seq<char>,
    author: Seq<char>,
    body: Seq<char>,
    created_at: u64,
) -> Seq<u8> {
    encode_utf8(cid) + seq![SEPARATOR] + encode_utf8(author) + seq![SEPARATOR] + encode_utf8(body)
        + seq![SEPARATOR] + decimal_text(created_at as nat)
}

/// Builds the addressing payload.
pub fn addressing_payload_bytes(author: &str, body: &str, created_at: u64) -> (r: Vec<u8>)
    ensures
        r@ == addressing_payload(author@, body@, created_at),
{
    let mut out: Vec<u8> = Vec::new();
    append_bytes(&mut out, author.as_bytes());
    out.push(SEPARATOR);
    append_bytes(&mut out, body.as_bytes());
    out.push(SEPARATOR);
    push_decimal(&mut out, created_at);
    assert(out@ =~= addressing_payload(author@, body@, created_at));
    out
}

/// Builds the signing payload.
pub fn signing_payload_bytes(cid: &str, author: &str, body: &str, created_at: u64) -> (r: Vec<u8>)
    ensures
        r@ == signing_payload(cid@, author@, body@, created_at),
{
    let mut out: Vec<u8> = Vec::new();
    append_bytes(&mut out, cid.as_bytes());
    out.push(SEPARATOR);
    append_bytes(&mut out, author.as_bytes());
    out.push(SEPARATOR);
    append_bytes(&mut out, body.as_bytes());
    out.push(SEPARATOR);
    push_decimal(&mut out, created_at);
    assert(out@ =~= signing_payload(cid@, author@, body@, created_at));
    out
}

/// Computes the content identifier of an author, a body and a time.
pub fn content_id(author: &str, body: &str, created_at: u64) -> (r: String)
    ensures
        r@ == cid_text(author@, body@, created_at),
{
    let payload = addressing_payload_bytes(author, body, created_at);
    let content_hash = hash_blake3(payload.as_slice());
    let fingerprint = base58_encode(slice_subrange(content_hash.as_slice(), 0, FINGERPRINT_LEN));
    join("bafk", fingerprint.as_str())
}

/// A signed content record.
#[derive(Clone)]
pub struct Content {
    /// Content identifier.
    pub cid: String,
    /// The author's decentralized identifier.
    pub author: String,
    /// The author's public key, hex encoded.
    pub author_public_key: String,
    /// Content type.
    pub content_type: ContentType,
    /// The content itself.
    pub body: String,
    /// Creation time in seconds since the epoch.
    pub created_at: u64,
    /// Signature over the signing payload, hex encoded.
    pub signature: String,
}

impl Content {
    /// The bytes that this record's signature has to cover, rebuilt from the
    /// fields as they stand.
    pub open spec fn payload(&self) -> Seq<u8> {
        signing_payload(self.cid@, self.author@, self.body@, self.created_at)
    }

    /// The signature bytes that the stored text stands for: `None` where the
    /// text is no hex or not 64 bytes long.
    pub open spec fn signature_bytes(&self) -> Option<Seq<u8>> {
        if is_hex_text(encode_utf8(self.signature@)) && hex_bytes(encode_utf8(self.signature@)).len()
            == SIGNATURE_LEN {
            Some(hex_bytes(encode_utf8(self.signature@)))
        } else {
            None
        }
    }

    /// The author's key that the stored text stands for: `None` where the
    /// text is no hex of 32 bytes that encode a curve point.
    pub open spec fn author_key(&self) -> Option<Seq<u8>> {
        match key_bytes(self.author_public_key@) {
            Some(public) => if ed25519_point_ok(public) {
                Some(public)
            } else {
                None
            },
            None => None,
        }
    }

    /// What verification finds: `None` for malformed key or signature text,
    /// else whether the signature verifies over the rebuilt payload under the
    /// author's key.
    pub open spec fn verdict(&self) -> Option<bool> {
        match (self.author_key(), self.signature_bytes()) {
            (Some(public), Some(signature)) => Some(ed25519_accepts(public, self.payload(), signature)),
            _ => None,
        }
    }

    /// Whether this is the record that `identity` makes of `body` at
    /// `created_at`: addressed by author, body and time, typed as text, and
    /// signed with the identity's secret key over the signing payload.
    pub open spec fn is_record_of(&self, body: Seq<char>, identity: IdentityView, created_at: u64) -> bool {
        &&& self.cid@ == cid_text(identity.did, body, created_at)
        &&& self.author@ == identity.did
        &&& self.author_public_key@ == identity.public_key
        &&& self.content_type == ContentType::Text
        &&& self.body@ == body
        &&& self.created_at == created_at
        &&& identity.secret_key() is Some
        &&& encode_utf8(self.signature@) == hex_text(
            ed25519_signature(identity.secret_key()->Some_0, self.payload()),
        )
    }

    /// Creates the record of `body` by `identity` at the given time. It fails
    /// only where the identity's private key text is malformed. A record made
    /// by a well-formed identity verifies.
    pub fn new_at(body: String, identity: &Identity, created_at: u64) -> (r: Result<Content, CryptoError>)
        ensures
            match identity@.secret_key() {
                Some(_) => r is Ok && r->Ok_0.is_record_of(body@, identity@, created_at),
                None => r is Err && r->Err_0 is InvalidKey,
            },
            identity@.wf() ==> r is Ok && r->Ok_0.verdict() == Some(true),
    {
        let did = identity.did();
        let cid = content_id(did.as_str(), body.as_str(), created_at);
        let payload = signing_payload_bytes(cid.as_str(), did.as_str(), body.as_str(), created_at);
        match identity.sign(payload.as_slice()) {
            Err(e) => Err(e),
            Ok(signature) => {
                let content = Content {
                    cid,
                    author: did,
                    author_public_key: identity.public_key(),
                    content_type: ContentType::Text,
                    body,
                    created_at,
                    signature: hex_encode(signature.as_slice()),
                };
                proof {
                    lemma_hex_round_trip(signature@);
                    if identity@.wf() {
                        lemma_hex_round_trip(ed25519_public_key(identity@.secret_key()->Some_0));
                    }
                }
                Ok(content)
            },
        }
    }

    /// Creates a signed record of `body` by `identity`, stamped with the
    /// current time.
    pub fn new(body: String, identity: &Identity) -> (r: Result<Content, CryptoError>)
        ensures
            match identity@.secret_key() {
                Some(_) => r is Ok && r->Ok_0.is_record_of(body@, identity@, r->Ok_0.created_at),
                None => r is Err && r->Err_0 is InvalidKey,
            },
            identity@.wf() ==> r is Ok && r->Ok_0.verdict() == Some(true),
    {
        let created_at = unix_time_now();
        Content::new_at(body, identity, created_at)
    }

    /// Verifies the signature over the payload rebuilt from the stored
    /// fields. The answer is `Ok(true)` or an error, never `Ok(false)`:
    /// malformed key or signature text is an `InvalidKey`, a signature that
    /// does not cover the fields as they stand a
    /// `SignatureVerificationFailed`.
    pub fn verify(&self) -> (r: Result<bool, CryptoError>)
        ensures
            match self.verdict() {
                Some(true) => r == Ok::<bool, CryptoError>(true),
                Some(false) => r is Err && r->Err_0 is SignatureVerificationFailed,
                None => r is Err && r->Err_0 is InvalidKey,
            },
    {
        let payload = signing_payload_bytes(
            self.cid.as_str(),
            self.author.as_str(),
            self.body.as_str(),
            self.created_at,
        );
        let public = match decode_key(self.author_public_key.as_str()) {
            Ok(public) => public,
            Err(e) => { return Err(e); },
        };
        let signature = match hex_decode(self.signature.as_str()) {
            Ok(signature) => signature,
            Err(detail) => { return Err(CryptoError::InvalidKey(detail)); },
        };
        let verifying_key = match VerifyingKey::from_bytes(&public) {
            Ok(key) => key,
            Err(e) => { return Err(e); },
        };
        match verify_signature(&verifying_key, payload.as_slice(), signature.as_slice()) {
            Ok(()) => Ok(true),
            Err(e) => Err(e),
        }
    }
}

/// The members of a content record, in the order in which they are written.
pub open spec fn content_members(content: Content) -> Seq<(Seq<char>, JsonModel)> {
    seq![
        ("cid"@, JsonModel::Text(content.cid@)),
        ("author"@, JsonModel::Text(content.author@)),
        ("author_public_key"@, JsonModel::Text(content.author_public_key@)),
        ("content_type"@, JsonModel::Text(content.content_type.name_text())),
        ("body"@, JsonModel::Text(content.body@)),
        ("created_at"@, JsonModel::Number(content.created_at)),
        ("signature"@, JsonModel::Text(content.signature@)),
    ]
}

impl Content {
    /// The members of this record.
    pub fn to_members(&self) -> (r: Vec<JsonMember>)
        ensures
            document_model(r@) == content_members(*self),
    {
        let mut members: Vec<JsonMember> = Vec::new();
        members.push(text_entry("cid", self.cid.as_str()));
        members.push(text_entry("author", self.author.as_str()));
        members.push(text_entry("author_public_key", self.author_public_key.as_str()));
        members.push(text_entry("content_type", self.content_type.name()));
        members.push(text_entry("body", self.body.as_str()));
        members.push(number_entry("created_at", self.created_at));
        members.push(text_entry("signature", self.signature.as_str()));
        assert(document_model(members@) =~= content_members(*self));
        members
    }

    /// Writes the record as indented JSON text, its members in a fixed order
    /// under fixed names. It always succeeds.
    pub fn export(&self) -> (r: Result<String, CryptoError>)
        ensures
            r is Ok,
            r->Ok_0@ == json_pretty_text(content_members(*self)),
    {
        let members = self.to_members();
        match write_pretty(&members) {
            Ok(text) => Ok(text),
            Err(detail) => Err(CryptoError::EncryptionFailed(detail)),
        }
    }
}

/// Whether two records agree in three of the four signed fields (identifier,
/// author, body, creation time) and differ in the fourth.
pub open spec fn differ_in_one_signed_field(a: Content, b: Content) -> bool {
    ||| a.cid@ != b.cid@ && a.author@ == b.author@ && a.body@ == b.body@ && a.created_at
        == b.created_at
    ||| a.cid@ == b.cid@ && a.author@ != b.author@ && a.body@ == b.body@ && a.created_at
        == b.created_at
    ||| a.cid@ == b.cid@ && a.author@ == b.author@ && a.body@ != b.body@ && a.created_at
        == b.created_at
    ||| a.cid@ == b.cid@ && a.author@ == b.author@ && a.body@ == b.body@ && a.created_at
        != b.created_at
}

/// A middle part between equal ends is determined by the whole.
proof fn lemma_middle_determined(head: Seq<u8>, x: Seq<u8>, y: Seq<u8>, tail: Seq<u8>)
    requires
        head + x + tail == head + y + tail,
    ensures
        x == y,
{
    assert((head + x + tail).len() == head.len() + x.len() + tail.len());
    assert((head + y + tail).len() == head.len() + y.len() + tail.len());
    assert forall|i: int| 0 <= i < x.len() implies x[i] == y[i] by {
        assert((head + x + tail)[head.len() + i] == x[i]);
        assert((head + y + tail)[head.len() + i] == y[i]);
    }
    assert(x =~= y);
}

/// Text is determined by its UTF-8 bytes.
proof fn lemma_text_determined(a: Seq<char>, b: Seq<char>)
    requires
        encode_utf8(a) == encode_utf8(b),
    ensures
        a == b,
{
    vstd::utf8::encode_utf8_decode_utf8(a);
    vstd::utf8::encode_utf8_decode_utf8(b);
}

/// Changing exactly one of identifier, author, body and creation time of a
/// record changes the bytes that its signature has to cover. A record
/// tampered with in this way therefore passes `verify` only if the stored
/// signature also verifies over a payload other than the one that was signed.
pub proof fn lemma_tampering_changes_payload(signed: Content, tampered: Content)
    requires
        differ_in_one_signed_field(signed, tampered),
    ensures
        signed.payload() != tampered.payload(),
{
    let sep = seq![SEPARATOR];
    let (c1, a1, b1) = (encode_utf8(signed.cid@), encode_utf8(signed.author@), encode_utf8(signed.body@));
    let (c2, a2, b2) = (encode_utf8(tampered.cid@), encode_utf8(tampered.author@), encode_utf8(tampered.body@));
    let t1 = decimal_text(signed.created_at as nat);
    let t2 = decimal_text(tampered.created_at as nat);
    let p1 = signed.payload();
    let p2 = tampered.payload();
    let empty = Seq::<u8>::empty();
    if p1 == p2 {
        if signed.cid@ != tampered.cid@ {
            let tail = sep + a1 + sep + b1 + sep + t1;
            assert(p1 =~= empty + c1 + tail);
            assert(p2 =~= empty + c2 + tail);
            lemma_middle_determined(empty, c1, c2, tail);
            lemma_text_determined(signed.cid@, tampered.cid@);
        } else if signed.author@ != tampered.author@ {
            let head = c1 + sep;
            let tail = sep + b1 + sep + t1;
            assert(p1 =~= head + a1 + tail);
            assert(p2 =~= head + a2 + tail);
            lemma_middle_determined(head, a1, a2, tail);
            lemma_text_determined(signed.author@, tampered.author@);
        } else if signed.body@ != tampered.body@ {
            let head = c1 + sep + a1 + sep;
            let tail = sep + t1;
            assert(p1 =~= head + b1 + tail);
            assert(p2 =~= head + b2 + tail);
            lemma_middle_determined(head, b1, b2, tail);
            lemma_text_determined(signed.body@, tampered.body@);
        } else {
            let head = c1 + sep + a1 + sep + b1 + sep;
            assert(p1 =~= head + t1 + empty);
            assert(p2 =~= head + t2 + empty);
            lemma_middle_determined(head, t1, t2, empty);
            lemma_decimal_value(signed.created_at as nat);
            lemma_decimal_value(tampered.created_at as nat);
        }
    }
}

/// Where a record verifies, and a record made from it by changing exactly
/// one signed field under the same key and signature text verifies too, the
/// one signature is accepted over two different payloads. Whether that can
/// happen is a matter of the signature scheme; nothing here says it cannot.
pub proof fn lemma_tampered_acceptance_needs_second_payload(signed: Content, tampered: Content)
    requires
        differ_in_one_signed_field(signed, tampered),
        signed.author_public_key@ == tampered.author_public_key@,
        signed.signature@ == tampered.signature@,
        signed.verdict() == Some(true),
        tampered.verdict() == Some(true),
    ensures
        signed.payload() != tampered.payload(),
        signed.author_key() is Some,
        signed.signature_bytes() is Some,
        ed25519_accepts(
            signed.author_key()->Some_0,
            signed.payload(),
            signed.signature_bytes()->Some_0,
        ),
        ed25519_accepts(
            signed.author_key()->Some_0,
            tampered.payload(),
            signed.signature_bytes()->Some_0,
        ),
{
    lemma_tampering_changes_payload(signed, tampered);
}

} // verus!
