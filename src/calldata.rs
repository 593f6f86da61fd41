//! Calldata of the two contract calls the load generator makes:
//! `transferTsscToMany(address[])` on the funding contract and
//! `setArray(uint256)` on the load contract.
use vstd::prelude::*;
use vstd::arithmetic::power::pow;
use crate::gas::Amount;
use crate::request::{Address, TransactionRequest};

verus! {

/// Bound on the number of addresses one call may carry, below which the ABI
/// encoder's 32-bit offsets cannot overflow.
pub const MAX_ABI_ITEMS: usize = 0x0400_0000;

/// The function selector of a signature: the first four bytes of its
/// Keccak-256 hash.
pub uninterp spec fn selector_of(signature: Seq<char>) -> Seq<u8>;

/// `v` as a 32-byte big-endian word.
pub open spec fn be_word(v: nat) -> Seq<u8> {
    Seq::new(32, |i: int| ((v as int / pow(256, (31 - i) as nat)) % 256) as u8)
}

/// An address as an ABI word: twelve zero bytes, then the address.
pub open spec fn address_word(a: Address) -> Seq<u8> {
    Seq::new(12, |i: int| 0u8) + a@
}

/// The ABI words of a sequence of addresses, one after another.
pub open spec fn address_words(addrs: Seq<Address>) -> Seq<u8>
    decreases addrs.len(),
{
    if addrs.len() == 0 {
        Seq::empty()
    } else {
        address_words(addrs.drop_last()) + address_word(addrs.last())
    }
}

/// The ABI encoding of a single dynamic `address[]` argument: the offset of
/// its tail (32), its length, then its elements.
pub open spec fn abi_address_array(addrs: Seq<Address>) -> Seq<u8> {
    be_word(32) + be_word(addrs.len()) + address_words(addrs)
}

/// Relies on `ethers::utils::id`: the 4-byte selector of a function
/// signature.
#[verifier::external_body]
fn function_selector(signature: &str) -> (r: [u8; 4])
    ensures
        r@ == selector_of(signature@),
{
    ethers::utils::id(signature)
}

/// Relies on `ethers::abi::encode` of one `Token::Array` of
/// `Token::Address`: offset word, length word, then each address padded on
/// the left to 32 bytes. Its 32-bit offsets bound the length.
#[verifier::external_body]
fn encode_address_array(addrs: &Vec<Address>) -> (r: Vec<u8>)
    requires
        addrs@.len() < MAX_ABI_ITEMS,
    ensures
        r@ == abi_address_array(addrs@),
{
    let tokens: Vec<ethers::abi::Token> =
        addrs.iter().map(|a| ethers::abi::Token::Address(ethers::types::H160(*a))).collect();
    ethers::abi::encode(&[ethers::abi::Token::Array(tokens)])
}

proof fn lemma_pow256_values()
    ensures
        pow(256, 15) == 0x1000000000000000000000000000000,
        pow(256, 16) == 0x100000000000000000000000000000000,
{
    reveal_with_fuel(pow, 17);
}

/// `v` as a 32-byte big-endian ABI word.
pub fn uint_word(v: u128) -> (r: Vec<u8>)
    ensures
        r@ == be_word(v as nat),
{
    let mut out: Vec<u8> = Vec::new();
    let mut p: usize = 0;
    proof { lemma_pow256_values(); }
    while p < 16
        invariant
            p <= 16,
            out@.len() == p,
            forall|j: int| 0 <= j < p ==> out@[j] == #[trigger] be_word(v as nat)[j],
        decreases 16 - p,
    {
        proof {
            vstd::arithmetic::power::lemma_pow_increases(256, 16, (31 - p) as nat);
            lemma_pow256_values();
            assert(v < pow(256, 16));
            vstd::arithmetic::div_mod::lemma_basic_div(v as int, pow(256, (31 - p) as nat));
        }
        out.push(0u8);
        p = p + 1;
    }
    let mut d: u128 = 0x1000000000000000000000000000000;
    while p < 32
        invariant
            16 <= p <= 32,
            out@.len() == p,
            p < 32 ==> d as int == pow(256, (31 - p) as nat),
            d > 0,
            forall|j: int| 0 <= j < p ==> out@[j] == #[trigger] be_word(v as nat)[j],
        decreases 32 - p,
    {
        out.push(((v / d) % 256) as u8);
        if p < 31 {
            proof {
                vstd::arithmetic::power::lemma_pow_adds(256, (30 - p) as nat, 1);
                vstd::arithmetic::power::lemma_pow1(256);
                vstd::arithmetic::power::lemma_pow_positive(256, (30 - p) as nat);
                let q = pow(256, (30 - p) as nat);
                assert((q * 256) / 256 == q) by (nonlinear_arith);
            }
            d = d / 256;
        }
        p = p + 1;
    }
    assert(out@ =~= be_word(v as nat));
    out
}

fn concat_selector(selector: [u8; 4], args: Vec<u8>) -> (r: Vec<u8>)
    ensures
        r@ == selector@ + args@,
{
    let mut out: Vec<u8> = Vec::new();
    let mut i: usize = 0;
    while i < 4
        invariant
            i <= 4,
            out@ == selector@.subrange(0, i as int),
        decreases 4 - i,
    {
        out.push(selector[i]);
        i = i + 1;
        assert(out@ =~= selector@.subrange(0, i as int));
    }
    let mut args = args;
    out.append(&mut args);
    assert(selector@.subrange(0, 4) =~= selector@);
    out
}

/// Calldata of `transferTsscToMany(address[])` with `addrs`.
pub fn transfer_to_many_calldata(addrs: &Vec<Address>) -> (r: Vec<u8>)
    requires
        addrs@.len() < MAX_ABI_ITEMS,
    ensures
        r@ == selector_of("transferTsscToMany(address[])"@) + abi_address_array(addrs@),
{
    let selector = function_selector("transferTsscToMany(address[])");
    concat_selector(selector, encode_address_array(addrs))
}

/// Calldata of `setArray(uint256)` with `count`.
pub fn set_array_calldata(count: u128) -> (r: Vec<u8>)
    ensures
        r@ == selector_of("setArray(uint256)"@) + be_word(count as nat),
{
    let selector = function_selector("setArray(uint256)");
    concat_selector(selector, uint_word(count))
}

/// A call of the funding contract that pays `funding_amount` to each of
/// `to_addresses`. Its value is the total, or unset when the total does not
/// fit in an amount.
pub fn bulk_transfer_transaction(
    to_addresses: &Vec<Address>,
    funding_amount: Amount,
    fund_contract_address: Address,
) -> (r: TransactionRequest)
    requires
        to_addresses@.len() < MAX_ABI_ITEMS,
    ensures
        r.to == Some(fund_contract_address),
        r.value == (if funding_amount * to_addresses@.len() <= u128::MAX {
            Some((funding_amount * to_addresses@.len()) as u128)
        } else {
            None::<u128>
        }),
        r.data matches Some(d) && d@ == selector_of("transferTsscToMany(address[])"@)
            + abi_address_array(to_addresses@),
        r.from is None,
        r.gas_price is None,
        r.nonce is None,
        r.chain_id is None,
{
    let value = funding_amount.checked_mul(to_addresses.len() as u128);
    let data = transfer_to_many_calldata(to_addresses);
    let r = TransactionRequest::new().to(fund_contract_address).data(data);
    match value {
        Some(v) => r.value(v),
        None => r,
    }
}

/// A call of the load contract's `setArray(count)`.
pub fn set_array_transaction(load_contract_address: Address, count: u128) -> (r: TransactionRequest)
    ensures
        r.to == Some(load_contract_address),
        r.data matches Some(d) && d@ == selector_of("setArray(uint256)"@) + be_word(count as nat),
        r.value is None,
        r.from is None,
        r.gas_price is None,
        r.nonce is None,
        r.chain_id is None,
{
    TransactionRequest::new().to(load_contract_address).data(set_array_calldata(count))
}

} // verus!
