//! Amount planning for the simple load patterns.
use vstd::prelude::*;
use crate::gas::Amount;

verus! {

/// What each hop of a chain of transfers keeps back for gas (1.2e13 wei).
pub const CHAIN_GAS_RESERVE: u128 = 12_000_000_000_000;

/// The amounts of a chain of transfers `A -> B -> C -> ...` that starts with
/// `initial` and takes `gas` off at every hop: at most `num_transactions`
/// hops, stopping before the first hop whose amount would not cover `gas`.
/// Hop `k` (from 0) sends `initial - (k + 1) * gas`.
pub fn chain_transfer_amounts(initial: Amount, gas: Amount, num_transactions: usize) -> (r: Vec<Amount>)
    ensures
        r@.len() <= num_transactions,
        forall|k: int| 0 <= k < r@.len() ==> (#[trigger] r@[k]) > 0
            && r@[k] == initial - (k + 1) * gas,
        r@.len() < num_transactions ==> initial <= (r@.len() + 1) * gas,
{
    let mut out: Vec<Amount> = Vec::new();
    let mut amount: Amount = initial;
    let mut i: usize = 0;
    while i < num_transactions
        invariant
            i <= num_transactions,
            out@.len() == i,
            amount == initial - i * gas,
            forall|k: int| 0 <= k < i ==> (#[trigger] out@[k]) > 0
                && out@[k] == initial - (k + 1) * gas,
        decreases num_transactions - i,
    {
        if amount <= gas {
            assert(initial - i * gas <= gas);
            assert((i + 1) * gas == i * gas + gas) by (nonlinear_arith);
            return out;
        }
        assert((i + 1) * gas == i * gas + gas) by (nonlinear_arith);
        amount = amount - gas;
        let ghost prev = out@;
        out.push(amount);
        assert forall|k: int| 0 <= k < i + 1 implies (#[trigger] out@[k]) > 0
            && out@[k] == initial - (k + 1) * gas by {
            if k < i {
                assert(out@[k] == prev[k]);
            }
        }
        i = i + 1;
    }
    out
}

/// The array size of a set-array load: the configured count raised by a
/// random offset, or the count itself when the sum does not fit.
pub fn set_array_count(count: u128, offset: u128) -> (r: u128)
    ensures
        r == (if count + offset <= u128::MAX { (count + offset) as u128 } else { count }),
{
    match count.checked_add(offset) {
        Some(c) => c,
        None => count,
    }
}

} // verus!
