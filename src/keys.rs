use solana_sdk::signer::keypair::Keypair;
use solana_sdk::pubkey::Pubkey;
use vstd::prelude::*;

verus! {

#[verifier::external_type_specification]
#[verifier::external_body]
pub struct ExKeypair(Keypair);

/// The base-58 text of a byte string.
pub uninterp spec fn base58_of(bytes: Seq<u8>) -> Seq<char>;

/// Relies on solana's `Keypair::new`: a fresh ed25519 keypair drawn from the
/// operating system's random source. Nothing is known of which one.
#[verifier::external_body]
pub(crate) fn new_keypair() -> (r: Keypair) {
    Keypair::new()
}

/// The address text of a 32-byte public key.
pub uninterp spec fn address_text_of(public: Seq<u8>) -> Seq<char>;

/// Relies on `Pubkey::from([u8; 32])` and `Pubkey`'s `Display`: the address
/// of the public key with these bytes, which depends on the bytes alone.
#[verifier::external_body]
pub(crate) fn public_address(public: &Vec<u8>) -> (r: String)
    requires
        public@.len() == 32,
    ensures
        r@ == address_text_of(public@),
{
    let bytes: [u8; 32] = public.as_slice().try_into().unwrap();
    Pubkey::from(bytes).to_string()
}

/// Relies on `Keypair::to_bytes`: the 64 bytes of the keypair, the secret key
/// first and the public key (the one `Signer::pubkey` gives) last.
#[verifier::external_body]
pub(crate) fn keypair_bytes(kp: &Keypair) -> (r: Vec<u8>)
    ensures
        r@.len() == 64,
{
    kp.to_bytes().to_vec()
}

/// Relies on `bs58::encode(..).into_string()`: the bytes in base-58, with the
/// Bitcoin alphabet that the crate uses by default.
#[verifier::external_body]
pub(crate) fn encode_base58(bytes: &Vec<u8>) -> (r: String)
    ensures
        r@ == base58_of(bytes@),
{
    bs58::encode(bytes).into_string()
}

} // verus!
