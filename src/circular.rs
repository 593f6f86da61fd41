//! The circular fund tracker: a marked fund passes around a fixed cycle of
//! accounts `A0 -> A1 -> ... -> An -> A0`, and its position is learned from
//! balances read back from the chain, never from local bookkeeping.
use vstd::prelude::*;
use crate::gas::{capped_add, Amount};

verus! {

/// Where the fund is believed to be, and how many full cycles it has made.
#[derive(Clone, Copy, Debug, PartialEq, Eq, Structural)]
pub struct HolderState {
    /// The account believed to hold the fund.
    pub holder_index: usize,
    /// Full cycles completed.
    pub round: u64,
    /// The iteration at which the current round began.
    pub round_started_at: u64,
    /// The iterations the last completed round took.
    pub last_round_took: u64,
    /// Whether the fund was last seen at the last account of the cycle.
    pub round_ended: bool,
}

/// Why a tracker could not be set up.
#[derive(Clone, Copy, Debug, PartialEq, Eq, Structural)]
pub enum CircularError {
    /// A cycle needs at least two accounts.
    TooFewAccounts,
    /// Twice the initial fund does not fit in an amount.
    FundOverflow,
}

/// One transfer of an iteration: account `sender` pays `amount` to account
/// `receiver` at `gas_price` (or the client's default price when `None`).
#[derive(Clone, Copy, Debug, PartialEq, Eq, Structural)]
pub struct PlannedTransfer {
    pub sender: usize,
    pub receiver: usize,
    pub amount: Amount,
    pub gas_price: Option<Amount>,
}

#[derive(Clone, Copy, Debug)]
pub struct CircularTracker {
    /// Accounts in the cycle.
    pub num_accounts: usize,
    /// The marked fund: twice the initial fund.
    pub holder_fund: Amount,
    pub state: HolderState,
}

/// The account examined at step `k` of a scan that starts at `start`.
pub open spec fn scan_candidate_spec(start: int, k: int, n: int) -> int {
    (start + k) % n
}

/// The state after the fund was found at account `idx` in iteration
/// `iteration`: a new round begins when the fund comes back to the first
/// account right after being seen at the last one.
pub open spec fn advance(st: HolderState, idx: int, iteration: u64, n: int) -> HolderState {
    let wrapped = st.round_ended && idx == 0;
    HolderState {
        holder_index: idx as usize,
        round: if wrapped { (st.round + 1) as u64 } else { st.round },
        round_started_at: if wrapped { iteration } else { st.round_started_at },
        last_round_took: if wrapped {
            if iteration >= st.round_started_at { (iteration - st.round_started_at) as u64 } else { 0 }
        } else {
            st.last_round_took
        },
        round_ended: idx == n - 1,
    }
}

/// What account `i` sends in iteration `iteration` while the fund is at
/// `holder`: the fund plus the iteration number from the holder, a decoy of
/// the iteration number from everyone else.
pub open spec fn planned_amount(i: int, holder: int, holder_fund: u128, iteration: u64) -> nat {
    if i == holder {
        capped_add(holder_fund as nat, iteration as nat)
    } else {
        iteration as nat
    }
}

impl CircularTracker {
    pub open spec fn wf(&self) -> bool {
        &&& self.num_accounts >= 2
        &&& self.state.holder_index < self.num_accounts
    }

    /// Sets up a cycle of `num_accounts` accounts around a fund of twice
    /// `initial_fund`, held first by account 0.
    pub fn new(num_accounts: usize, initial_fund: Amount) -> (r: Result<CircularTracker, CircularError>)
        ensures
            num_accounts < 2 ==> r == Err::<CircularTracker, CircularError>(CircularError::TooFewAccounts),
            num_accounts >= 2 && 2 * initial_fund > u128::MAX ==> r == Err::<CircularTracker, CircularError>(CircularError::FundOverflow),
            r is Ok <==> num_accounts >= 2 && 2 * initial_fund <= u128::MAX,
            r matches Ok(t) ==> {
                &&& t.wf()
                &&& t.num_accounts == num_accounts
                &&& t.holder_fund == 2 * initial_fund
                &&& t.state == (HolderState {
                    holder_index: 0,
                    round: 0,
                    round_started_at: 0,
                    last_round_took: 0,
                    round_ended: false,
                })
            },
    {
        if num_accounts < 2 {
            return Err(CircularError::TooFewAccounts);
        }
        match initial_fund.checked_mul(2) {
            None => Err(CircularError::FundOverflow),
            Some(holder_fund) => Ok(CircularTracker {
                num_accounts,
                holder_fund,
                state: HolderState {
                    holder_index: 0,
                    round: 0,
                    round_started_at: 0,
                    last_round_took: 0,
                    round_ended: false,
                },
            }),
        }
    }

    /// The receiver paid by account `i`: the next account of the cycle.
    pub fn receiver_of(&self, i: usize) -> (r: usize)
        requires
            self.wf(),
            i < self.num_accounts,
        ensures
            r == (i + 1) % (self.num_accounts as int),
    {
        if i + 1 == self.num_accounts {
            proof { vstd::arithmetic::div_mod::lemma_mod_self_0(self.num_accounts as int); }
            0
        } else {
            proof { vstd::arithmetic::div_mod::lemma_small_mod((i + 1) as nat, self.num_accounts as nat); }
            i + 1
        }
    }

    /// The transfers of iteration `iteration`, one per account in cycle
    /// order. Every price is the iteration's base price raised by the
    /// iteration number, so that a transfer that reuses a nonce replaces the
    /// earlier one.
    pub fn planned_transfers(&self, iteration: u64, gas_price: Option<Amount>) -> (r: Vec<PlannedTransfer>)
        requires
            self.wf(),
        ensures
            r@.len() == self.num_accounts,
            forall|i: int| 0 <= i < r@.len() ==> {
                let t = #[trigger] r@[i];
                &&& t.sender == i
                &&& t.receiver == (i + 1) % (self.num_accounts as int)
                &&& t.amount as nat == planned_amount(i, self.state.holder_index as int, self.holder_fund, iteration)
                &&& t.gas_price == match gas_price {
                    Some(p) => Some(capped_add(p as nat, iteration as nat) as u128),
                    None => None,
                }
            },
    {
        let price: Option<Amount> = match gas_price {
            Some(p) => Some(p.saturating_add(iteration as u128)),
            None => None,
        };
        let mut out: Vec<PlannedTransfer> = Vec::new();
        let mut i: usize = 0;
        while i < self.num_accounts
            invariant
                self.wf(),
                i <= self.num_accounts,
                out@.len() == i,
                price == match gas_price {
                    Some(p) => Some(capped_add(p as nat, iteration as nat) as u128),
                    None => None::<u128>,
                },
                forall|j: int| 0 <= j < i ==> {
                    let t = #[trigger] out@[j];
                    &&& t.sender == j
                    &&& t.receiver == (j + 1) % (self.num_accounts as int)
                    &&& t.amount as nat == planned_amount(j, self.state.holder_index as int, self.holder_fund, iteration)
                    &&& t.gas_price == price
                },
            decreases self.num_accounts - i,
        {
            let amount: Amount = if i == self.state.holder_index {
                self.holder_fund.saturating_add(iteration as u128)
            } else {
                iteration as u128
            };
            let receiver = self.receiver_of(i);
            out.push(PlannedTransfer { sender: i, receiver, amount, gas_price: price });
            i = i + 1;
        }
        out
    }

    /// The account to read at step `k` of the holder scan: the scan starts at
    /// the current holder and goes once round the cycle.
    pub fn scan_candidate(&self, k: usize) -> (r: usize)
        requires
            self.wf(),
            k < self.num_accounts,
        ensures
            r as int == scan_candidate_spec(self.state.holder_index as int, k as int, self.num_accounts as int),
            r < self.num_accounts,
    {
        let h = self.state.holder_index;
        let n = self.num_accounts;
        if k < n - h {
            proof { vstd::arithmetic::div_mod::lemma_small_mod((h + k) as nat, n as nat); }
            h + k
        } else {
            proof {
                vstd::arithmetic::div_mod::lemma_small_mod((h + k - n) as nat, n as nat);
                vstd::arithmetic::div_mod::lemma_mod_sub_multiples_vanish((h + k) as int, n as int);
            }
            k - (n - h)
        }
    }

    /// Whether a balance shows the fund.
    pub fn holds_fund(&self, balance: Amount) -> (r: bool)
        ensures
            r == (balance >= self.holder_fund),
    {
        balance >= self.holder_fund
    }

    /// Takes the balances read in scan order (`scanned[k]` is the balance of
    /// `scan_candidate(k)`; the scan may stop at the first balance that shows
    /// the fund). The first account whose balance shows the fund becomes the
    /// holder, and the round count moves on when the fund has come back to
    /// the first account. When no balance shows the fund, nothing changes.
    pub fn detect_holder(&mut self, iteration: u64, scanned: &Vec<Amount>) -> (r: Option<usize>)
        requires
            old(self).wf(),
            scanned@.len() <= old(self).num_accounts,
            old(self).state.round < u64::MAX,
        ensures
            final(self).wf(),
            final(self).num_accounts == old(self).num_accounts,
            final(self).holder_fund == old(self).holder_fund,
            r matches Some(k) ==> {
                let idx = scan_candidate_spec(old(self).state.holder_index as int, k as int,
                    old(self).num_accounts as int);
                &&& k < scanned@.len()
                &&& scanned@[k as int] >= old(self).holder_fund
                &&& forall|j: int| 0 <= j < k ==> scanned@[j] < old(self).holder_fund
                &&& final(self).state.holder_index == idx
                &&& final(self).state == advance(old(self).state, idx, iteration, old(self).num_accounts as int)
            },
            r is None ==> {
                &&& forall|j: int| 0 <= j < scanned@.len() ==> scanned@[j] < old(self).holder_fund
                &&& final(self).state == old(self).state
            },
            final(self).state.round >= old(self).state.round,
            final(self).state.round == old(self).state.round + (if r is Some && final(self).state.holder_index == 0
                && old(self).state.round_ended { 1int } else { 0int }),
    {
        let mut k: usize = 0;
        while k < scanned.len()
            invariant
                self.wf(),
                *self == *old(self),
                self.state.round < u64::MAX,
                scanned@.len() <= self.num_accounts,
                k <= scanned@.len(),
                forall|j: int| 0 <= j < k ==> scanned@[j] < self.holder_fund,
            decreases scanned@.len() - k,
        {
            if scanned[k] >= self.holder_fund {
                let idx = self.scan_candidate(k);
                let st = self.state;
                let wrapped = st.round_ended && idx == 0;
                let new_state = HolderState {
                    holder_index: idx,
                    round: if wrapped { st.round + 1 } else { st.round },
                    round_started_at: if wrapped { iteration } else { st.round_started_at },
                    last_round_took: if wrapped {
                        if iteration >= st.round_started_at { iteration - st.round_started_at } else { 0 }
                    } else {
                        st.last_round_took
                    },
                    round_ended: idx == self.num_accounts - 1,
                };
                self.state = new_state;
                return Some(k);
            }
            k = k + 1;
        }
        None
    }
}

/// The round count never goes down, and goes up by exactly one when, and
/// only when, the fund reappears at the first account right after being
/// seen at the last one.
pub proof fn lemma_round_steps(st: HolderState, idx: int, iteration: u64, n: int)
    requires
        st.round < u64::MAX,
    ensures
        advance(st, idx, iteration, n).round >= st.round,
        advance(st, idx, iteration, n).round == st.round + 1 <==> (st.round_ended && idx == 0),
        advance(st, idx, iteration, n).round == st.round <==> !(st.round_ended && idx == 0),
        advance(st, idx, iteration, n).holder_index == idx as usize,
        advance(st, idx, iteration, n).round_ended == (idx == n - 1),
{
}

} // verus!
