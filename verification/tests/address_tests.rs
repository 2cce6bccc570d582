use solana_sdk::pubkey::Pubkey;
use spl_airdropper::address::{address_from_text, get_associated_token_address, Address};

#[test]
fn system_program_text_decodes_to_zero_bytes() {
    let a = address_from_text("11111111111111111111111111111111").unwrap();
    assert_eq!(a.to_bytes(), [0u8; 32]);
}

#[test]
fn malformed_text_is_rejected() {
    assert!(address_from_text("").is_none());
    assert!(address_from_text("not@valid").is_none());
    assert!(address_from_text("abc").is_none());
}

#[test]
fn decoding_matches_the_sdk() {
    let pk = Pubkey::new_unique();
    let a = address_from_text(&pk.to_string()).unwrap();
    assert_eq!(a.to_bytes(), pk.to_bytes());
}

#[test]
fn derivation_is_deterministic() {
    let owner = Address::new(Pubkey::new_unique().to_bytes());
    let mint = Address::new(Pubkey::new_unique().to_bytes());
    let a1 = get_associated_token_address(&owner, &mint).unwrap();
    let a2 = get_associated_token_address(&owner, &mint).unwrap();
    assert_eq!(a1, a2);
}

#[test]
fn different_mints_derive_different_accounts() {
    let owner = Address::new(Pubkey::new_unique().to_bytes());
    let mint1 = Address::new(Pubkey::new_unique().to_bytes());
    let mint2 = Address::new(Pubkey::new_unique().to_bytes());
    let a1 = get_associated_token_address(&owner, &mint1).unwrap();
    let a2 = get_associated_token_address(&owner, &mint2).unwrap();
    assert_ne!(a1, a2);
}

#[test]
fn derivation_matches_direct_program_address_search() {
    let owner = Pubkey::new_unique();
    let mint = Pubkey::new_unique();
    let got = get_associated_token_address(
        &Address::new(owner.to_bytes()),
        &Address::new(mint.to_bytes()),
    )
    .unwrap();
    let owner_bytes = owner.to_bytes();
    let program_bytes = spl_token::id().to_bytes();
    let mint_bytes = mint.to_bytes();
    let seeds: [&[u8]; 3] = [&owner_bytes, &program_bytes, &mint_bytes];
    let (expected, _bump) = Pubkey::find_program_address(&seeds, &spl_token::id());
    assert_eq!(got.to_bytes(), expected.to_bytes());
}
