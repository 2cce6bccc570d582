//! Account addresses: fixed 32-byte identifiers, their textual (base-58)
//! form, and the deterministic derivation of associated token accounts.

use vstd::prelude::*;

verus! {

/// A 32-byte identifier for an account, a mint, or a program.
/// Equality is byte equality; the textual form is base-58.
#[derive(Clone, Copy, Debug, PartialEq, Eq, Hash)]
pub struct Address {
    bytes: [u8; 32],
}

impl View for Address {
    type V = Seq<u8>;

    closed spec fn view(&self) -> Seq<u8> {
        self.bytes@
    }
}

impl Address {
    pub fn new(bytes: [u8; 32]) -> (r: Address)
        ensures
            r@ == bytes@,
    {
        Address { bytes }
    }

    pub fn to_bytes(&self) -> (r: [u8; 32])
        ensures
            r@ == self@,
    {
        self.bytes
    }
}

/// What the base-58 decoder makes of a piece of text: the 32 bytes it
/// denotes, or nothing when the text is not a well-formed address.
pub uninterp spec fn address_of_text(s: Seq<char>) -> Option<Seq<u8>>;

/// Relies on `solana_sdk::pubkey::Pubkey`'s `FromStr`: whether text decodes,
/// and to which 32 bytes, depends on the text alone.
#[verifier::external_body]
fn parse_address_raw(s: &str) -> (r: Option<Address>)
    ensures
        match r {
            Some(a) => address_of_text(s@) == Some(a@),
            None => address_of_text(s@) is None,
        },
{
    match s.parse::<solana_sdk::pubkey::Pubkey>() {
        Ok(pk) => Some(Address { bytes: pk.to_bytes() }),
        Err(_) => None,
    }
}

/// Decode the textual form of an address, `None` on malformed text.
pub fn address_from_text(s: &str) -> (r: Option<Address>)
    ensures
        match r {
            Some(a) => address_of_text(s@) == Some(a@),
            None => address_of_text(s@) is None,
        },
{
    parse_address_raw(s)
}

/// The associated token account derived for an (owner, mint) pair, a pure
/// function of the two addresses; `None` in the statistically improbable
/// case that no bump seed yields a valid derived address.
pub uninterp spec fn derived_ata_of(owner: Seq<u8>, mint: Seq<u8>) -> Option<Seq<u8>>;

/// Relies on `solana_sdk::pubkey::Pubkey::try_find_program_address` over the
/// seeds [owner bytes, token-program bytes, mint bytes] against the token
/// program's address space: the result depends on owner and mint alone.
#[verifier::external_body]
pub fn get_associated_token_address(owner: &Address, mint: &Address) -> (r: Option<Address>)
    ensures
        match r {
            Some(a) => derived_ata_of(owner@, mint@) == Some(a@),
            None => derived_ata_of(owner@, mint@) is None,
        },
{
    let token_program = spl_token::id();
    let owner_bytes = owner.bytes;
    let token_program_bytes = token_program.to_bytes();
    let mint_bytes = mint.bytes;
    let seeds: [&[u8]; 3] = [&owner_bytes, &token_program_bytes, &mint_bytes];
    match solana_sdk::pubkey::Pubkey::try_find_program_address(&seeds, &token_program) {
        Some((pk, _bump)) => Some(Address { bytes: pk.to_bytes() }),
        None => None,
    }
}

/// Law: associated-account derivation is a pure function, so equal
/// (owner, mint) pairs always derive equal addresses.
pub proof fn lemma_derivation_deterministic(o1: Seq<u8>, m1: Seq<u8>, o2: Seq<u8>, m2: Seq<u8>)
    requires
        o1 == o2,
        m1 == m2,
    ensures
        derived_ata_of(o1, m1) == derived_ata_of(o2, m2),
{
}

} // verus!
