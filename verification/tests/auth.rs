use ed25519_dalek::Verifier;
use dfc_node::auth::token::{TokenStore, DEFAULT_TOKEN_TTL_SECS};
use dfc_node::auth::wallet::{
    keypair_from_bytes, load_keypair, sign_message, wallet_address, wrong_length_message,
    KeypairError, SigningKey,
};

const SEC: u64 = 1_000_000_000;

/// A secret key with known public key and signatures.
fn known_secret() -> [u8; 32] {
    [
        157, 97, 177, 157, 239, 253, 90, 96, 186, 132, 74, 244, 146, 236, 44, 196, 68, 73, 197,
        105, 123, 50, 105, 25, 112, 59, 172, 3, 28, 174, 127, 96,
    ]
}

fn generated() -> (ed25519_dalek::SigningKey, SigningKey) {
    let key = ed25519_dalek::SigningKey::generate(&mut rand::rngs::OsRng);
    let own = SigningKey::from_bytes(key.as_bytes());
    (key, own)
}

#[test]
fn token_lifecycle() {
    let mut store = TokenStore::new();

    assert!(!store.is_authenticated());
    assert!(store.get().is_none());

    store.set("jwt-token-123".to_string(), 42, 0);

    assert!(store.is_authenticated());
    assert_eq!(store.get().unwrap(), "jwt-token-123");
    assert_eq!(store.node_id().unwrap(), 42);

    store.clear();
    assert!(!store.is_authenticated());
    assert!(store.node_id().is_none());
    assert!(store.get().is_none());
}

#[test]
fn needs_refresh_false_when_fresh() {
    let mut store = TokenStore::new();
    store.set_with_ttl("token".to_string(), 1, DEFAULT_TOKEN_TTL_SECS, 0);
    assert!(!store.needs_refresh(0));
}

#[test]
fn needs_refresh_true_when_expiry_near() {
    let mut store = TokenStore::new();
    store.set_with_ttl("token".to_string(), 1, 60, 0);
    assert!(store.needs_refresh(0));
}

#[test]
fn needs_refresh_true_after_ttl_elapsed() {
    let mut store = TokenStore::new();
    store.set_with_ttl("token".to_string(), 1, 1, 0);
    assert!(store.needs_refresh(1_100_000_000));
    assert_eq!(store.seconds_until_expiry(1_100_000_000), 0);
}

#[test]
fn needs_refresh_false_when_no_token() {
    let store = TokenStore::new();
    assert!(!store.needs_refresh(0));
    assert_eq!(store.seconds_until_expiry(0), 0);
}

#[test]
fn seconds_until_expiry_decreases() {
    let mut store = TokenStore::new();
    store.set_with_ttl("token".to_string(), 1, DEFAULT_TOKEN_TTL_SECS, 0);
    let secs = store.seconds_until_expiry(0);
    assert!(secs > 0);
    assert!(secs <= DEFAULT_TOKEN_TTL_SECS);
    assert!(store.seconds_until_expiry(1) < secs);
    assert_eq!(store.seconds_until_expiry(0), 3600);
    assert_eq!(store.seconds_until_expiry(1), 3599);
    assert_eq!(store.seconds_until_expiry(3_000 * SEC), 600);
}

#[test]
fn refresh_threshold_is_exact() {
    let mut store = TokenStore::new();
    store.set("token".to_string(), 1, 5 * SEC);
    assert!(!store.needs_refresh(3_485 * SEC - 1));
    assert!(store.needs_refresh(3_485 * SEC));
    assert_eq!(store.seconds_until_expiry(3_485 * SEC), 120);
    // A clock reading before the token was issued counts as no time elapsed.
    assert_eq!(store.seconds_until_expiry(0), 3600);
}

#[test]
fn refresh_comes_in_time() {
    let mut store = TokenStore::new();
    store.set("token".to_string(), 1, 0);
    let check = 3_480 * SEC - 1;
    assert!(!store.needs_refresh(check));
    assert!(store.seconds_until_expiry(check + 60 * SEC) >= 60);
}

#[test]
fn longest_lifetime_does_not_overflow() {
    let mut store = TokenStore::new();
    store.set_with_ttl("token".to_string(), 1, u64::MAX, 0);
    assert!(!store.needs_refresh(u64::MAX));
    assert_eq!(store.seconds_until_expiry(0), u64::MAX);
}

#[test]
fn sign_and_address_roundtrip() {
    let (_, keypair) = generated();
    let address = wallet_address(&keypair);
    let sig = sign_message(&keypair, "test message");

    assert!(!address.is_empty());
    assert!(!sig.is_empty());
    assert!(address.len() >= 32 && address.len() <= 44);
    assert!(sig.len() >= 64 && sig.len() <= 88);
}

#[test]
fn load_keypair_from_json() {
    let (key, keypair) = generated();
    let mut bytes = Vec::with_capacity(64);
    bytes.extend_from_slice(key.as_bytes());
    bytes.extend_from_slice(key.verifying_key().as_bytes());
    let contents = serde_json::to_string(&bytes).unwrap();

    let loaded = load_keypair(&contents).unwrap();
    assert_eq!(wallet_address(&loaded), wallet_address(&keypair));
    assert_eq!(loaded.to_bytes(), key.to_bytes());
}

#[test]
fn known_key_has_its_address_and_signature() {
    let keypair = SigningKey::from_bytes(&known_secret());
    assert_eq!(
        wallet_address(&keypair),
        "FVen3X669xLzsi6N2V91DoiyzHzg1uAgqiT8jZ9nS96Z"
    );
    assert_eq!(
        sign_message(&keypair, ""),
        "5awYiUvGiDFA33EJjj4TXJG44a5afJc8QjWRpGgQiu6b23jCr7yndW2fmp9ujwqJVe32J456wV3VF78Asb1obnTc"
    );
}

#[test]
fn addresses_are_the_encoded_public_key() {
    let (key, keypair) = generated();
    assert_eq!(
        bs58::decode(wallet_address(&keypair)).into_vec().unwrap(),
        key.verifying_key().as_bytes().to_vec()
    );
}

#[test]
fn signatures_cover_the_text_and_verify() {
    let (key, keypair) = generated();
    let message = "Sign this: \u{e9}\u{2014}42";
    let raw = bs58::decode(sign_message(&keypair, message)).into_vec().unwrap();
    let signature = ed25519_dalek::Signature::from_slice(&raw).unwrap();
    assert!(key.verifying_key().verify(message.as_bytes(), &signature).is_ok());
    assert!(key.verifying_key().verify(b"Sign that", &signature).is_err());
    assert_eq!(sign_message(&keypair, message), sign_message(&keypair.clone(), message));
}

#[test]
fn only_the_first_half_of_a_keypair_counts() {
    let mut bytes = vec![7u8; 64];
    let a = keypair_from_bytes(&bytes).unwrap();
    bytes[63] = 0;
    let b = keypair_from_bytes(&bytes).unwrap();
    bytes[31] = 0;
    let c = keypair_from_bytes(&bytes).unwrap();
    assert_eq!(wallet_address(&a), wallet_address(&b));
    assert_ne!(wallet_address(&a), wallet_address(&c));
}

#[test]
fn keypairs_of_another_length_are_refused() {
    assert!(matches!(
        load_keypair("[1,2,3]"),
        Err(KeypairError::Length(3))
    ));
    assert!(matches!(
        keypair_from_bytes(&vec![0u8; 65]),
        Err(KeypairError::Length(65))
    ));
    assert_eq!(
        wrong_length_message(3),
        "Expected 64-byte keypair, got 3 bytes"
    );
}

#[test]
fn keypairs_that_are_not_bytes_are_refused() {
    assert!(matches!(load_keypair(""), Err(KeypairError::Json(_))));
    assert!(matches!(load_keypair("[1,256]"), Err(KeypairError::Json(_))));
    assert!(matches!(load_keypair("{}"), Err(KeypairError::Json(_))));
}

#[test]
fn signatures_are_accepted_by_their_key_alone() {
    let key = SigningKey::from_bytes(&known_secret());
    let other = SigningKey::from_bytes(&[1; 32]);
    let raw = bs58::decode(sign_message(&key, "challenge")).into_vec().unwrap();
    let mut signature = [0u8; 64];
    signature.copy_from_slice(&raw);
    assert!(key.verify("challenge", &signature));
    assert!(!key.verify("another", &signature));
    assert!(!other.verify("challenge", &signature));
    signature[0] ^= 1;
    assert!(!key.verify("challenge", &signature));
}

#[test]
fn a_new_token_replaces_everything_of_the_old_one() {
    let mut store = TokenStore::new();
    store.set_with_ttl("old".to_string(), 1, 9_000, 0);
    store.set_with_ttl("new".to_string(), 2, 300, 50 * SEC);
    assert_eq!(store.get().unwrap(), "new");
    assert_eq!(store.node_id().unwrap(), 2);
    assert!(store.is_authenticated());
    assert_eq!(store.seconds_until_expiry(50 * SEC), 300);
    assert_eq!(store.seconds_until_expiry(60 * SEC), 290);
}
