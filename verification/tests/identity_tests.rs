use rootlessnet_core::{
    decode_key, hash_blake3, push_decimal, verify_signature, CryptoError, Identity, JsonModel,
    SigningKey,
};

const SECRET_HEX: &str = "9d61b19deffd5a60ba844af492ec2cc44449c5697b326919703bac031cae7f60";
const PUBLIC_HEX: &str = "d75a980182b10ab7d54bfed3c964073a0ee172f3daa62325af021a68f707511a";

fn known_identity(name: Option<&str>) -> Identity {
    let secret: [u8; 32] = hex::decode(SECRET_HEX).unwrap().try_into().unwrap();
    Identity::from_signing_key(name.map(str::to_string), &SigningKey::from_bytes(&secret), 1700000000)
}

#[test]
fn identity_test_identity_creation() {
    let identity = Identity::new(Some("Alice".to_string()));
    assert!(identity.did.starts_with("did:rootless:key:"));
    assert_eq!(identity.name, Some("Alice".to_string()));
    assert!(!identity.public_key.is_empty());
}

#[test]
fn test_identity_sign() {
    let identity = Identity::new(None);
    let data = b"Hello, World!";
    let signature = identity.sign(data).unwrap();
    assert_eq!(signature.len(), 64); // Ed25519 signature is 64 bytes
}

#[test]
fn test_identity_export_import() {
    let identity = Identity::new(Some("Bob".to_string()));
    let json = identity.export().unwrap();
    let imported = Identity::import(&json).unwrap();

    assert_eq!(identity.did, imported.did);
    assert_eq!(identity.name, imported.name);
    assert_eq!(identity.public_key, imported.public_key);
}

#[test]
fn identifier_is_derived_from_the_public_key() {
    let identity = Identity::new(None);
    let public = hex::decode(&identity.public_key).unwrap();
    assert_eq!(public.len(), 32);
    let digest = blake3::hash(&public);
    let expected = format!(
        "did:rootless:key:{}",
        bs58::encode(&digest.as_bytes()[..16]).into_string()
    );
    assert_eq!(identity.did, expected);
    assert_eq!(identity.did(), expected);
    assert_eq!(hash_blake3(&public), *digest.as_bytes());
    assert_eq!(identity.name, None);
}

#[test]
fn identity_of_a_known_key() {
    let identity = known_identity(Some("Alice"));
    assert_eq!(identity.public_key, PUBLIC_HEX);
    assert_eq!(identity.public_key(), PUBLIC_HEX);
    assert_eq!(identity.private_key(), SECRET_HEX);
    assert_eq!(identity.created_at, 1700000000);
    assert_eq!(identity.created_at(), 1700000000);
    assert_eq!(identity.name(), Some("Alice".to_string()));
    let digest = blake3::hash(&hex::decode(PUBLIC_HEX).unwrap());
    assert_eq!(
        identity.did,
        format!("did:rootless:key:{}", bs58::encode(&digest.as_bytes()[..16]).into_string())
    );
    assert_ne!(&identity.did["did:rootless:key:".len()..], PUBLIC_HEX);
}

#[test]
fn two_identities_have_different_keys() {
    let a = Identity::new(None);
    let b = Identity::new(None);
    assert_ne!(a.public_key, b.public_key);
    assert_ne!(a.private_key(), b.private_key());
    assert_ne!(a.did, b.did);
}

#[test]
fn created_at_is_the_current_time() {
    let before = std::time::SystemTime::now()
        .duration_since(std::time::UNIX_EPOCH)
        .unwrap()
        .as_secs();
    let identity = Identity::new(None);
    let after = std::time::SystemTime::now()
        .duration_since(std::time::UNIX_EPOCH)
        .unwrap()
        .as_secs();
    assert!(before <= identity.created_at && identity.created_at <= after);
}

#[test]
fn identity_signature_verifies_under_its_key() {
    let identity = known_identity(None);
    let signature = identity.sign(b"").unwrap();
    assert_eq!(
        hex::encode(&signature),
        "e5564300c360ac729086e2cc806e828a84877f1eb8e5d974d873e065224901555fb8821590a33bacc61e39701cf9b46bd25bf5f0595bbe24655141438e7a100b"
    );
    let key = identity.verifying_key().unwrap();
    assert_eq!(hex::encode(key.to_bytes()), PUBLIC_HEX);
    assert!(verify_signature(&key, b"", &signature).is_ok());
}

#[test]
fn sign_with_malformed_key_is_invalid_key() {
    for private in ["", "zz", "abc", "abcd", &SECRET_HEX[..62], &format!("{}00", SECRET_HEX)] {
        let identity = Identity::from_parts(
            "did:rootless:key:x".to_string(),
            None,
            PUBLIC_HEX.to_string(),
            private.to_string(),
            1,
        );
        assert!(matches!(identity.sign(b"data"), Err(CryptoError::InvalidKey(_))));
    }
}

#[test]
fn sign_accepts_upper_case_key_text() {
    let identity = Identity::from_parts(
        "did".to_string(),
        None,
        PUBLIC_HEX.to_string(),
        SECRET_HEX.to_uppercase(),
        1,
    );
    assert_eq!(identity.sign(b"m").unwrap(), known_identity(None).sign(b"m").unwrap());
}

#[test]
fn verifying_key_of_malformed_text_is_invalid_key() {
    // 32 bytes that are no curve point, found by trying first bytes
    let mut no_point = None;
    for first in 0u8..=255 {
        let mut bytes = [0u8; 32];
        bytes[0] = first;
        if ed25519_dalek::VerifyingKey::from_bytes(&bytes).is_err() {
            no_point = Some(hex::encode(bytes));
            break;
        }
    }
    let no_point = no_point.unwrap();
    for public in ["", "xyz", "abcd", no_point.as_str()] {
        let identity = Identity::from_parts(
            "did".to_string(),
            None,
            public.to_string(),
            SECRET_HEX.to_string(),
            1,
        );
        assert!(matches!(identity.verifying_key(), Err(CryptoError::InvalidKey(_))));
    }
}

#[test]
fn decode_key_reads_both_cases() {
    let lower = decode_key("00ff0a0b0c0d0e0f101112131415161718191a1b1c1d1e1f2021222324252627").unwrap();
    let upper = decode_key("00FF0A0B0C0D0E0F101112131415161718191A1B1C1D1E1F2021222324252627").unwrap();
    assert_eq!(lower, upper);
    assert_eq!(lower[0], 0);
    assert_eq!(lower[1], 255);
    assert_eq!(lower[2], 10);
    assert_eq!(lower[31], 0x27);
    assert!(matches!(decode_key("00ff"), Err(CryptoError::InvalidKey(_))));
    assert!(matches!(decode_key("0"), Err(CryptoError::InvalidKey(_))));
    assert!(matches!(decode_key("\u{e9}\u{e9}"), Err(CryptoError::InvalidKey(_))));
}

#[test]
fn identity_export_writes_every_field_in_order() {
    let identity = Identity::from_parts(
        "did:rootless:key:abc".to_string(),
        Some("Alice".to_string()),
        "aa".to_string(),
        "bb".to_string(),
        5,
    );
    assert_eq!(
        identity.export().unwrap(),
        "{\n  \"identifier\": \"did:rootless:key:abc\",\n  \"display_name\": \"Alice\",\n  \"public_key\": \"aa\",\n  \"private_key\": \"bb\",\n  \"created_at\": 5\n}"
    );
    let nameless = Identity::from_parts("d".to_string(), None, "aa".to_string(), "bb".to_string(), 0);
    assert_eq!(
        nameless.export().unwrap(),
        "{\n  \"identifier\": \"d\",\n  \"display_name\": null,\n  \"public_key\": \"aa\",\n  \"private_key\": \"bb\",\n  \"created_at\": 0\n}"
    );
}

#[test]
fn export_import_keeps_every_field() {
    for name in [
        None,
        Some(""),
        Some("Alice"),
        Some("quote \" backslash \\ newline \n tab \t"),
        Some("\u{e9}\u{4e16}\u{754c}\u{1f600}"),
    ] {
        let identity = known_identity(name);
        let imported = Identity::import(&identity.export().unwrap()).unwrap();
        assert_eq!(imported.did, identity.did);
        assert_eq!(imported.name, identity.name);
        assert_eq!(imported.public_key, identity.public_key);
        assert_eq!(imported.private_key(), identity.private_key());
        assert_eq!(imported.created_at, identity.created_at);
        assert_eq!(imported.sign(b"x").unwrap(), identity.sign(b"x").unwrap());
    }
}

#[test]
fn import_reads_members_in_any_order() {
    let json = "{\"created_at\": 18446744073709551615, \"extra\": [1, 2], \"private_key\": \"bb\", \"public_key\": \"aa\", \"identifier\": \"d\"}";
    let identity = Identity::import(json).unwrap();
    assert_eq!(identity.did, "d");
    assert_eq!(identity.name, None);
    assert_eq!(identity.public_key, "aa");
    assert_eq!(identity.private_key(), "bb");
    assert_eq!(identity.created_at, u64::MAX);
}

#[test]
fn import_rejects_malformed_records() {
    for json in [
        "",
        "not json",
        "[]",
        "\"text\"",
        "{}",
        "{\"identifier\": \"d\", \"public_key\": \"aa\", \"private_key\": \"bb\"}",
        "{\"identifier\": \"d\", \"public_key\": \"aa\", \"private_key\": \"bb\", \"created_at\": -1}",
        "{\"identifier\": \"d\", \"public_key\": \"aa\", \"private_key\": \"bb\", \"created_at\": \"5\"}",
        "{\"identifier\": 7, \"public_key\": \"aa\", \"private_key\": \"bb\", \"created_at\": 5}",
        "{\"identifier\": \"d\", \"display_name\": 3, \"public_key\": \"aa\", \"private_key\": \"bb\", \"created_at\": 5}",
        "{\"identifier\": \"d\", \"public_key\": \"aa\", \"private_key\": null, \"created_at\": 5}",
        "{\"identifier\": \"d\", \"public_key\": \"aa\", \"private_key\": \"bb\", \"created_at\": 5",
    ] {
        assert!(matches!(Identity::import(json), Err(CryptoError::InvalidKey(_))));
    }
}

#[test]
fn import_does_not_read_other_member_names() {
    let json = "{\"did\": \"d\", \"name\": \"n\", \"public_key\": \"aa\", \"private_key\": \"bb\", \"created_at\": 5}";
    assert!(matches!(Identity::import(json), Err(CryptoError::InvalidKey(_))));
    let exported = Identity::new(Some("Alice".to_string())).export().unwrap();
    let value: serde_json::Value = serde_json::from_str(&exported).unwrap();
    let object = value.as_object().unwrap();
    let keys: Vec<&str> = object.keys().map(|k| k.as_str()).collect();
    assert_eq!(
        keys,
        vec!["identifier", "display_name", "public_key", "private_key", "created_at"]
    );
    let private = object["private_key"].as_str().unwrap();
    assert_eq!(private.len(), 64);
    assert!(private.bytes().all(|b| b.is_ascii_digit() || (b'a'..=b'f').contains(&b)));
    assert!(object["created_at"].is_u64());
    assert_eq!(object["display_name"].as_str(), Some("Alice"));
}

#[test]
fn corrupted_import_fails_when_signing() {
    let json = "{\"identifier\": \"d\", \"display_name\": null, \"public_key\": \"aa\", \"private_key\": \"not hex\", \"created_at\": 5}";
    let identity = Identity::import(json).unwrap();
    assert!(matches!(identity.sign(b"data"), Err(CryptoError::InvalidKey(_))));
}

#[test]
fn members_of_an_identity() {
    let identity = Identity::from_parts("d".to_string(), None, "aa".to_string(), "bb".to_string(), 9);
    let members = identity.to_members();
    let names: Vec<&str> = members.iter().map(|m| m.name.as_str()).collect();
    assert_eq!(
        names,
        vec!["identifier", "display_name", "public_key", "private_key", "created_at"]
    );
    let back = Identity::from_members(&members).unwrap();
    assert_eq!(back.did, "d");
    assert_eq!(back.created_at, 9);
    assert!(Identity::from_members(&members[..4].to_vec()).is_none());
    assert!(!matches!(JsonModel::Null, JsonModel::Other));
}

#[test]
fn decimal_digits() {
    for (number, text) in [
        (0u64, "0"),
        (7, "7"),
        (10, "10"),
        (1234567890, "1234567890"),
        (u64::MAX, "18446744073709551615"),
    ] {
        let mut out = b"t=".to_vec();
        push_decimal(&mut out, number);
        assert_eq!(out, format!("t={}", text).into_bytes());
    }
}
