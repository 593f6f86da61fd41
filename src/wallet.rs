//! Deterministic test accounts: the secret key of account `seed` is the
//! seed's four big-endian bytes followed by 28 bytes of `0x01`, so a load
//! pattern can be replayed across runs.
use vstd::prelude::*;
use crate::request::Address;

verus! {

/// The Ethereum address of a secp256k1 secret key.
pub uninterp spec fn address_of_secret_key(key: Seq<u8>) -> Seq<u8>;

/// The order of the secp256k1 group, big-endian.
pub open spec fn secp256k1_order() -> Seq<u8> {
    seq![
        0xFFu8, 0xFF, 0xFF, 0xFF, 0xFF, 0xFF, 0xFF, 0xFF, 0xFF, 0xFF, 0xFF, 0xFF, 0xFF, 0xFF, 0xFF, 0xFE,
        0xBA, 0xAE, 0xDC, 0xE6, 0xAF, 0x48, 0xA0, 0x3B, 0xBF, 0xD2, 0x5E, 0x8C, 0xD0, 0x36, 0x41, 0x41,
    ]
}

/// `a` comes before `b` in lexicographic order (for big-endian numbers of
/// one length: `a < b`).
pub open spec fn lex_less(a: Seq<u8>, b: Seq<u8>) -> bool {
    exists|i: int|
        0 <= i < a.len() && a.len() == b.len() && a.subrange(0, i) == b.subrange(0, i) && #[trigger] a[i] < b[i]
}

/// A valid secret key: 32 bytes, not zero, below the group order.
pub open spec fn is_valid_secret_key(key: Seq<u8>) -> bool {
    &&& key.len() == 32
    &&& exists|i: int| 0 <= i < 32 && #[trigger] key[i] != 0
    &&& lex_less(key, secp256k1_order())
}

/// The secret key of the test account numbered `seed`.
pub open spec fn wallet_key_spec(seed: u32) -> Seq<u8> {
    seq![
        (seed / 0x100_0000) as u8,
        ((seed / 0x1_0000) % 0x100) as u8,
        ((seed / 0x100) % 0x100) as u8,
        (seed % 0x100) as u8,
    ] + Seq::new(28, |i: int| 1u8)
}

/// Relies on `ethers::signers::LocalWallet::from_bytes`, which accepts
/// exactly the nonzero 32-byte big-endian scalars below the group order, and
/// on the wallet's `address`.
#[verifier::external_body]
fn address_from_secret_key(key: &[u8; 32]) -> (r: Option<Address>)
    ensures
        r is Some <==> is_valid_secret_key(key@),
        r matches Some(a) ==> a@ == address_of_secret_key(key@),
{
    ethers::signers::LocalWallet::from_bytes(key).ok().map(|w| ethers::signers::Signer::address(&w).0)
}

/// A derived test account.
#[derive(Clone, Copy, Debug, PartialEq, Eq)]
pub struct DerivedWallet {
    pub key: [u8; 32],
    pub address: Address,
}

/// The secret key of the test account numbered `seed`.
pub fn wallet_key(seed: u32) -> (r: [u8; 32])
    ensures
        r@ == wallet_key_spec(seed),
{
    let mut key: [u8; 32] = [1u8; 32];
    key[0] = (seed / 0x100_0000) as u8;
    key[1] = ((seed / 0x1_0000) % 0x100) as u8;
    key[2] = ((seed / 0x100) % 0x100) as u8;
    key[3] = (seed % 0x100) as u8;
    assert(key@ =~= wallet_key_spec(seed));
    key
}

proof fn lemma_wallet_key_valid(seed: u32)
    ensures
        is_valid_secret_key(wallet_key_spec(seed)),
{
    let k = wallet_key_spec(seed);
    let o = secp256k1_order();
    assert(k[4] == 1u8);
    assert(o[0] == 0xFFu8 && o[1] == 0xFFu8 && o[2] == 0xFFu8 && o[3] == 0xFFu8 && o[4] == 0xFFu8);
    let i: int = if k[0] != 0xFF { 0 } else if k[1] != 0xFF { 1 } else if k[2] != 0xFF { 2 } else if k[3] != 0xFF { 3 } else { 4 };
    assert(k.subrange(0, i) =~= o.subrange(0, i));
    assert(k[i] < o[i]);
    assert(lex_less(k, o));
}

/// The test account numbered `seed`: its key and address.
pub fn derive_wallet(seed: u32) -> (r: DerivedWallet)
    ensures
        r.key@ == wallet_key_spec(seed),
        r.address@ == address_of_secret_key(wallet_key_spec(seed)),
{
    let key = wallet_key(seed);
    proof { lemma_wallet_key_valid(seed); }
    match address_from_secret_key(&key) {
        Some(address) => DerivedWallet { key, address },
        None => DerivedWallet { key, address: [0u8; 20] },
    }
}

} // verus!
