use blake2::Digest;
use kilt_submit::Error;
use kilt_submit::authorization_for;
use kilt_submit::compute_jws;
use kilt_submit::create_did_auth_key;
use kilt_submit::create_key_id;
use kilt_submit::digest_for;

#[test]
fn derivation_is_deterministic() {
    let first = create_did_auth_key("//Alice").unwrap();
    let second = create_did_auth_key("//Alice").unwrap();
    assert_eq!(first.public_bytes(), second.public_bytes());
    assert_eq!(first.public_bytes().len(), 32);
}

#[test]
fn different_seeds_give_different_keys() {
    let alice = create_did_auth_key("//Alice").unwrap();
    let bob = create_did_auth_key("//Bob").unwrap();
    assert_ne!(alice.public_bytes(), bob.public_bytes());
}

#[test]
fn derivation_rejects_unparseable_seed() {
    let result = create_did_auth_key("certainly not a valid secret phrase");
    assert!(matches!(result, Err(Error::Crypto(_))));
}

#[test]
fn digest_of_empty_inputs_matches_known_vector() {
    // BLAKE2b with a 32-byte output over the empty input.
    let expected =
        hex::decode("0e5751c026e543b2e8ab2eb06099daa1d1e5df47778f7787faab45cdf12fe3a8").unwrap();
    assert_eq!(digest_for("", ""), expected);
}

#[test]
fn digest_is_over_path_and_body_bytes() {
    let mut data = Vec::new();
    data.extend_from_slice("/api/v1/submission".as_bytes());
    data.extend_from_slice("0xdeadbeef".as_bytes());
    let expected = {
        let mut hasher = blake2::Blake2b256::new();
        hasher.update(&data);
        hasher.finalize().to_vec()
    };
    assert_eq!(digest_for("/api/v1/submission", "0xdeadbeef"), expected);
}

#[test]
fn token_payload_decodes_to_request_digest() {
    let keypair = create_did_auth_key("//Alice").unwrap();
    let kid = create_key_id(&keypair);
    let token = compute_jws("/api/v1/submission", "0xdeadbeef", &kid, &keypair).unwrap();
    let decoded = base64_url::decode(&token.payload).unwrap();
    assert_eq!(decoded, digest_for("/api/v1/submission", "0xdeadbeef"));
    assert_eq!(decoded.len(), 32);
}

#[test]
fn token_header_names_the_kid() {
    let keypair = create_did_auth_key("//Alice").unwrap();
    let kid = create_key_id(&keypair);
    let token = compute_jws("/api/v1/submission", "0xdeadbeef", &kid, &keypair).unwrap();
    let decoded = base64_url::decode(&token.header).unwrap();
    let expected = format!("{{\"kid\":{}}}", serde_json::to_string(kid.as_str()).unwrap());
    assert_eq!(String::from_utf8(decoded).unwrap(), expected);
}

#[test]
fn token_signature_verifies_against_the_public_key() {
    let keypair = create_did_auth_key("//Alice").unwrap();
    let kid = create_key_id(&keypair);
    let token = compute_jws("/api/v1/submission", "0xdeadbeef", &kid, &keypair).unwrap();
    let sig_bytes = base64_url::decode(&token.signature).unwrap();
    assert_eq!(sig_bytes.len(), 64);
    let mut sig_raw = [0u8; 64];
    sig_raw.copy_from_slice(&sig_bytes);
    let signature = sp_core::sr25519::Signature::from_raw(sig_raw);
    let mut pub_raw = [0u8; 32];
    pub_raw.copy_from_slice(keypair.public_bytes());
    let public = sp_core::sr25519::Public::from_raw(pub_raw);
    let digest = digest_for("/api/v1/submission", "0xdeadbeef");
    assert!(<sp_core::sr25519::Pair as sp_core::Pair>::verify(&signature, &digest, &public));
}

#[test]
fn payload_changes_when_one_byte_changes() {
    let keypair = create_did_auth_key("//Alice").unwrap();
    let kid = create_key_id(&keypair);
    let base = compute_jws("/a", "bc", &kid, &keypair).unwrap();
    let other_body = compute_jws("/a", "bd", &kid, &keypair).unwrap();
    let other_path = compute_jws("/b", "bc", &kid, &keypair).unwrap();
    assert_ne!(base.payload, other_body.payload);
    assert_ne!(base.payload, other_path.payload);
}

#[test]
fn concatenation_ambiguity_is_left_as_designed() {
    // The scheme hashes path bytes directly followed by body bytes, with no
    // separator, so these two requests carry the same digest. The relay-side
    // verifier recomputes the same concatenation, so this stays as it is.
    assert_eq!(digest_for("/a", "bc"), digest_for("/ab", "c"));
}

#[test]
fn kid_has_the_documented_shape() {
    let keypair = create_did_auth_key("//Alice").unwrap();
    let kid = create_key_id(&keypair);
    assert!(kid.starts_with("did:kilt:"));
    let hash_part = kid.split("#0x").nth(1).unwrap();
    assert_eq!(hash_part.len(), 64);
    assert!(hash_part.chars().all(|c| c.is_ascii_hexdigit() && !c.is_ascii_uppercase()));
    let address = &kid["did:kilt:".len()..kid.find('#').unwrap()];
    assert!(!address.is_empty());
    assert!(!address.contains("#"));
    assert_eq!(create_key_id(&keypair), kid);
}

#[test]
fn kids_differ_between_keys() {
    let alice = create_did_auth_key("//Alice").unwrap();
    let bob = create_did_auth_key("//Bob").unwrap();
    assert_ne!(create_key_id(&alice), create_key_id(&bob));
}

#[test]
fn authorization_is_a_bearer_token() {
    let keypair = create_did_auth_key("//Alice").unwrap();
    let header = authorization_for("/api/v1/submission", "0xdeadbeef", &keypair).unwrap();
    let token = header.strip_prefix("Bearer ").unwrap();
    let segments: Vec<&str> = token.split('.').collect();
    assert_eq!(segments.len(), 3);
    let payload = base64_url::decode(segments[1]).unwrap();
    assert_eq!(payload, digest_for("/api/v1/submission", "0xdeadbeef"));
    assert!(!token.contains('='));
}
