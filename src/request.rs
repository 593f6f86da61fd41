//! Transaction requests as handed to the transaction manager.
use vstd::prelude::*;
use crate::gas::Amount;

verus! {

/// A 20-byte account address.
pub type Address = [u8; 20];

/// A transaction to submit. Builders consume the request and return an
/// amended copy; the manager never edits a request that a caller still holds.
#[derive(Clone, Debug, PartialEq, Eq)]
pub struct TransactionRequest {
    pub from: Option<Address>,
    pub to: Option<Address>,
    pub value: Option<Amount>,
    pub data: Option<Vec<u8>>,
    pub gas_price: Option<Amount>,
    pub nonce: Option<u64>,
    pub chain_id: Option<u64>,
}

impl TransactionRequest {
    /// An empty request: every field unset.
    pub fn new() -> (r: TransactionRequest)
        ensures
            r.from.is_none(),
            r.to.is_none(),
            r.value.is_none(),
            r.data.is_none(),
            r.gas_price.is_none(),
            r.nonce.is_none(),
            r.chain_id.is_none(),
    {
        TransactionRequest {
            from: None,
            to: None,
            value: None,
            data: None,
            gas_price: None,
            nonce: None,
            chain_id: None,
        }
    }

    /// Sets the sender.
    pub fn from(self, a: Address) -> (r: TransactionRequest)
        ensures
            r == (TransactionRequest { from: Some(a), ..self }),
    {
        TransactionRequest { from: Some(a), ..self }
    }

    /// Sets the recipient.
    pub fn to(self, a: Address) -> (r: TransactionRequest)
        ensures
            r == (TransactionRequest { to: Some(a), ..self }),
    {
        TransactionRequest { to: Some(a), ..self }
    }

    /// Sets the value transferred.
    pub fn value(self, v: Amount) -> (r: TransactionRequest)
        ensures
            r == (TransactionRequest { value: Some(v), ..self }),
    {
        TransactionRequest { value: Some(v), ..self }
    }

    /// Sets the calldata.
    pub fn data(self, d: Vec<u8>) -> (r: TransactionRequest)
        ensures
            r == (TransactionRequest { data: Some(d), ..self }),
    {
        TransactionRequest { data: Some(d), ..self }
    }

    /// Sets the gas price.
    pub fn gas_price(self, p: Amount) -> (r: TransactionRequest)
        ensures
            r == (TransactionRequest { gas_price: Some(p), ..self }),
    {
        TransactionRequest { gas_price: Some(p), ..self }
    }

    /// Sets the nonce.
    pub fn nonce(self, n: u64) -> (r: TransactionRequest)
        ensures
            r == (TransactionRequest { nonce: Some(n), ..self }),
    {
        TransactionRequest { nonce: Some(n), ..self }
    }

    /// Sets the chain id.
    pub fn chain_id(self, c: u64) -> (r: TransactionRequest)
        ensures
            r == (TransactionRequest { chain_id: Some(c), ..self }),
    {
        TransactionRequest { chain_id: Some(c), ..self }
    }
}

} // verus!
