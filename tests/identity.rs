use smart_passport::identity::{load_or_create_keypair, KeyStoreError, SigningIdentity};
use solana_sdk::signature::{Keypair, Signer};

#[test]
fn generated_identity_matches_its_keypair() {
    let id = SigningIdentity::generate();
    let kp = Keypair::try_from(&id.to_bytes()[..]).unwrap();
    assert_eq!(id.pubkey().0, kp.pubkey().to_bytes());
    let other = SigningIdentity::generate();
    assert_ne!(id.pubkey(), other.pubkey());
}

#[test]
fn identity_from_bytes_checks_the_pair() {
    let kp = Keypair::new();
    let id = SigningIdentity::from_bytes(&kp.to_bytes()).unwrap();
    assert_eq!(id.pubkey().0, kp.pubkey().to_bytes());
    let mut bad = kp.to_bytes();
    bad[40] ^= 1;
    assert!(SigningIdentity::from_bytes(&bad).is_none());
    assert!(SigningIdentity::from_bytes(&kp.to_bytes()[..63]).is_none());
}

#[test]
fn missing_key_file_creates_identity_to_persist() {
    let (id, text) = load_or_create_keypair(None).unwrap();
    let text = text.unwrap();
    let bytes: Vec<u8> = serde_json::from_str(&text).unwrap();
    assert_eq!(bytes, id.to_bytes().to_vec());
    let (again, write) = load_or_create_keypair(Some(&text)).unwrap();
    assert!(write.is_none());
    assert_eq!(again.pubkey(), id.pubkey());
}

#[test]
fn malformed_key_file_is_refused() {
    assert_eq!(load_or_create_keypair(Some("not json")).err(), Some(KeyStoreError::Malformed));
    assert_eq!(load_or_create_keypair(Some("[1,2,3]")).err(), Some(KeyStoreError::Malformed));
    let zeros = serde_json::to_string(&vec![0u8; 64]).unwrap();
    assert_eq!(load_or_create_keypair(Some(&zeros)).err(), Some(KeyStoreError::Malformed));
}
