//! Signing identities: validation of 64-byte keypair material read from a
//! JSON array, and the public address derived from it.

use vstd::prelude::*;
use crate::address::Address;

verus! {

/// What the JSON parser makes of a piece of text: the byte array it holds,
/// or nothing when the text is not a JSON array of integers in 0..=255.
pub uninterp spec fn json_byte_array_of(s: Seq<char>) -> Option<Seq<u8>>;

/// Relies on `serde_json::from_str::<Vec<u8>>`: whether text parses, and to
/// which bytes, depends on the text alone.
#[verifier::external_body]
fn parse_json_byte_array(s: &str) -> (r: Option<Vec<u8>>)
    ensures
        match r {
            Some(b) => json_byte_array_of(s@) == Some(b@),
            None => json_byte_array_of(s@) is None,
        },
{
    serde_json::from_str::<Vec<u8>>(s).ok()
}

/// The public address a 64-byte secret decodes to, a function of the bytes
/// alone; `None` when the bytes do not form a valid key pair.
pub uninterp spec fn keypair_public_of(secret: Seq<u8>) -> Option<Seq<u8>>;

/// Relies on `solana_sdk::signature::Keypair::try_from` and
/// `Signer::pubkey`: whether 64 bytes form a valid key pair, and which
/// public key they carry, depend on the bytes alone.
#[verifier::external_body]
fn derive_public_address(secret: &Vec<u8>) -> (r: Option<Address>)
    ensures
        match r {
            Some(a) => keypair_public_of(secret@) == Some(a@),
            None => keypair_public_of(secret@) is None,
        },
{
    match solana_sdk::signature::Keypair::try_from(secret.as_slice()) {
        Ok(kp) => Some(Address::new(solana_sdk::signer::Signer::pubkey(&kp).to_bytes())),
        Err(_) => None,
    }
}

/// A secret/public key pair loaded from local storage. The secret material
/// is exactly 64 bytes; the public address is derived, never user-supplied.
#[derive(Debug)]
pub struct SigningIdentity {
    pub secret: Vec<u8>,
    pub public: Address,
}

impl SigningIdentity {
    /// The invariant every constructed identity satisfies.
    pub open spec fn wf(&self) -> bool {
        &&& self.secret@.len() == 64
        &&& keypair_public_of(self.secret@) == Some(self.public@)
    }

    /// The derived public address of this identity.
    pub fn public_address(&self) -> (r: Address)
        ensures
            r@ == self.public@,
    {
        self.public
    }
}

/// Why keypair material was rejected.
#[derive(Clone, Copy, Debug, PartialEq, Eq)]
pub enum KeypairError {
    /// The text is not a JSON array of bytes.
    MalformedJson,
    /// The array holds `got` bytes instead of the required 64.
    WrongLength { got: usize },
    /// The 64 bytes do not decode to a valid key pair.
    KeyConstruction,
}

/// Build a signing identity from the text of a keypair file: a JSON array of
/// exactly 64 bytes that decodes to a valid key pair.
pub fn load_keypair_from_json(text: &str) -> (r: Result<SigningIdentity, KeypairError>)
    ensures
        match r {
            Ok(id) => {
                &&& id.wf()
                &&& json_byte_array_of(text@) == Some(id.secret@)
            },
            Err(KeypairError::MalformedJson) => json_byte_array_of(text@) is None,
            Err(KeypairError::WrongLength { got }) => {
                &&& json_byte_array_of(text@) is Some
                &&& json_byte_array_of(text@)->Some_0.len() == got
                &&& got != 64
            },
            Err(KeypairError::KeyConstruction) => {
                &&& json_byte_array_of(text@) is Some
                &&& json_byte_array_of(text@)->Some_0.len() == 64
                &&& keypair_public_of(json_byte_array_of(text@)->Some_0) is None
            },
        },
{
    let bytes = match parse_json_byte_array(text) {
        Some(b) => b,
        None => {
            return Err(KeypairError::MalformedJson);
        },
    };
    if bytes.len() != 64 {
        return Err(KeypairError::WrongLength { got: bytes.len() });
    }
    match derive_public_address(&bytes) {
        Some(public) => Ok(SigningIdentity { secret: bytes, public }),
        None => Err(KeypairError::KeyConstruction),
    }
}

/// Law: the public address derived from keypair material is deterministic;
/// identities built from the same 64 bytes carry the same public address.
pub proof fn lemma_public_address_deterministic(a: &SigningIdentity, b: &SigningIdentity)
    requires
        a.wf(),
        b.wf(),
        a.secret@ == b.secret@,
    ensures
        a.public@ == b.public@,
{
}

} // verus!
