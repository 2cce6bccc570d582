use solana_sdk::signature::Keypair;
use solana_sdk::signer::Signer;
use spl_airdropper::keys::{load_keypair_from_json, KeypairError};

#[test]
fn valid_keypair_round_trips_to_its_public_address() {
    let kp = Keypair::new();
    let bytes: Vec<u8> = kp.to_bytes().to_vec();
    let text = serde_json::to_string(&bytes).unwrap();
    let id = load_keypair_from_json(&text).unwrap();
    assert_eq!(id.secret, bytes);
    assert_eq!(id.public_address().to_bytes(), kp.pubkey().to_bytes());
}

#[test]
fn loading_the_same_bytes_twice_gives_the_same_public_address() {
    let kp = Keypair::new();
    let text = serde_json::to_string(&kp.to_bytes().to_vec()).unwrap();
    let id1 = load_keypair_from_json(&text).unwrap();
    let id2 = load_keypair_from_json(&text).unwrap();
    assert_eq!(id1.public_address(), id2.public_address());
}

#[test]
fn short_array_is_rejected_with_its_length() {
    let bytes: Vec<u8> = vec![0u8; 63];
    let text = serde_json::to_string(&bytes).unwrap();
    assert_eq!(
        load_keypair_from_json(&text).unwrap_err(),
        KeypairError::WrongLength { got: 63 }
    );
}

#[test]
fn long_array_is_rejected_with_its_length() {
    let bytes: Vec<u8> = vec![0u8; 65];
    let text = serde_json::to_string(&bytes).unwrap();
    assert_eq!(
        load_keypair_from_json(&text).unwrap_err(),
        KeypairError::WrongLength { got: 65 }
    );
}

#[test]
fn non_json_text_is_rejected() {
    assert_eq!(
        load_keypair_from_json("not a keypair").unwrap_err(),
        KeypairError::MalformedJson
    );
}

#[test]
fn json_of_the_wrong_shape_is_rejected() {
    assert_eq!(
        load_keypair_from_json("{\"key\": 1}").unwrap_err(),
        KeypairError::MalformedJson
    );
}

#[test]
fn mismatched_halves_are_rejected() {
    // 32 secret bytes of ones do not derive a public key of ones.
    let bytes: Vec<u8> = vec![1u8; 64];
    let text = serde_json::to_string(&bytes).unwrap();
    assert_eq!(
        load_keypair_from_json(&text).unwrap_err(),
        KeypairError::KeyConstruction
    );
}
