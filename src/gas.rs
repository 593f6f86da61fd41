//! Gas-price policy: the minimum acceptable price and the retry bump.
use vstd::prelude::*;

verus! {

/// Amounts of the native currency and gas prices, in wei.
pub type Amount = u128;

/// Base fee assumed when the chain does not report one (1 gwei).
pub const FALLBACK_BASE_FEE: u128 = 1_000_000_000;

/// Default minimum priority fee added on top of the base fee (2 gwei).
pub const DEFAULT_MIN_PRIORITY_FEE: u128 = 2_000_000_000;

/// Default percentage by which the gas price grows on each retry.
pub const DEFAULT_BUMP_PERCENT: u128 = 10;

/// `a + b`, capped at the largest representable amount.
pub open spec fn capped_add(a: nat, b: nat) -> nat {
    if a + b > u128::MAX {
        u128::MAX as nat
    } else {
        a + b
    }
}

/// The lowest price a transaction may carry: base fee plus minimum tip.
pub open spec fn min_gas_price_spec(base_fee: nat, min_priority_fee: nat) -> nat {
    capped_add(base_fee, min_priority_fee)
}

/// The price of a retry: `price` grown by `percent` percent, and by at least
/// one wei so that a retry is always strictly more attractive.
pub open spec fn bumped_price_spec(price: nat, percent: nat) -> nat {
    let bump = price * percent / 100;
    capped_add(price, if bump == 0 { 1 } else { bump })
}

/// The price an attempt carries before any retry bump: the caller's price,
/// raised to the minimum when it is lower or absent.
pub open spec fn floored_price_spec(current: Option<u128>, min_price: nat) -> nat {
    match current {
        Some(p) => if (p as nat) < min_price { min_price } else { p as nat },
        None => min_price,
    }
}

/// Base fee plus minimum priority fee, saturating at the largest amount.
pub fn min_gas_price(base_fee: Amount, min_priority_fee: Amount) -> (r: Amount)
    ensures
        r as nat == min_gas_price_spec(base_fee as nat, min_priority_fee as nat),
{
    base_fee.saturating_add(min_priority_fee)
}

/// Raises `current` to `min_price` when it is lower or absent.
pub fn floor_gas_price(current: Option<Amount>, min_price: Amount) -> (r: Amount)
    ensures
        r as nat == floored_price_spec(current, min_price as nat),
        r >= min_price,
{
    match current {
        Some(p) => if p < min_price { min_price } else { p },
        None => min_price,
    }
}

proof fn lemma_split_percent(price: nat, percent: nat)
    requires
        percent <= 100,
    ensures
        price * percent / 100 == (price / 100) * percent + (price % 100) * percent / 100,
        price * percent / 100 <= price,
{
    let q = price / 100;
    let r = price % 100;
    vstd::arithmetic::div_mod::lemma_fundamental_div_mod(price as int, 100);
    assert(price * percent == 100 * (q * percent) + r * percent) by (nonlinear_arith)
        requires price == 100 * q + r;
    assert((100 * (q * percent) + r * percent) / 100 == q * percent + (r * percent) / 100)
        by (nonlinear_arith)
        requires r * percent >= 0;
    assert(price * percent <= price * 100) by (nonlinear_arith)
        requires percent <= 100;
    assert(price * percent / 100 <= price * 100 / 100) by (nonlinear_arith)
        requires price * percent <= price * 100;
    assert(price * 100 / 100 == price) by (nonlinear_arith);
}

proof fn lemma_whole_percent(price: nat, percent: nat)
    ensures
        price * percent / 100 == price * (percent / 100) + price * (percent % 100) / 100,
{
    let a = percent / 100;
    let b = percent % 100;
    vstd::arithmetic::div_mod::lemma_fundamental_div_mod(percent as int, 100);
    assert(price * percent == 100 * (price * a) + price * b) by (nonlinear_arith)
        requires percent == 100 * a + b;
    assert((100 * (price * a) + price * b) / 100 == price * a + (price * b) / 100) by (nonlinear_arith)
        requires price * b >= 0;
}

/// Grows `price` by `percent` percent (at least by one wei), saturating at
/// the largest amount.
pub fn bump_gas_price(price: Amount, percent: Amount) -> (r: Amount)
    ensures
        r as nat == bumped_price_spec(price as nat, percent as nat),
        r >= price,
        price < u128::MAX ==> r > price,
{
    let whole: u128 = percent / 100;
    let part: u128 = percent % 100;
    proof {
        lemma_whole_percent(price as nat, percent as nat);
        lemma_split_percent(price as nat, part as nat);
        assert((price % 100) * part <= 99 * 100) by (nonlinear_arith)
            requires price % 100 < 100, part < 100;
    }
    // price * part / 100, which is at most price
    let small: u128 = (price / 100) * part + ((price % 100) * part) / 100;
    let step: u128 = match price.checked_mul(whole) {
        None => u128::MAX,
        Some(big) => match big.checked_add(small) {
            None => u128::MAX,
            Some(t) => if t == 0 { 1 } else { t },
        },
    };
    price.saturating_add(step)
}

} // verus!
