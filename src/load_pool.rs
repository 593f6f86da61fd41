//! The concurrent load pool: `concurrency` workers, each with its own
//! disjoint range of derived test accounts, each submitting transfers from
//! those accounts and counting the ones accepted.
use vstd::prelude::*;
use crate::gas::Amount;

verus! {

/// Default number of addresses funded by one pre-funding transaction.
pub const TX_PER_BATCH: usize = 50;

/// A worker pauses briefly after every this many submissions.
pub const PAUSE_EVERY: u32 = 100;

/// Bound on the derived accounts a run may use: senders count up from seed
/// 0 and receivers down from the largest seed, and the two must not meet.
pub const MAX_POOL_ACCOUNTS: u64 = 0x8000_0000;

/// Why a load run cannot be planned.
#[derive(Clone, Copy, Debug, PartialEq, Eq, Structural)]
pub enum LoadError {
    /// No workers.
    NoWorkers,
    /// Fewer transfers than workers: a worker would have nothing to do.
    TooFewTransfers,
    /// More transfers than derived accounts available.
    TooManyTransfers,
}

/// The shape of a load run.
#[derive(Clone, Copy, Debug, PartialEq, Eq, Structural)]
pub struct LoadPlan {
    pub concurrency: u32,
    /// Transfers (and sender accounts) per worker.
    pub per_account: u32,
    /// What each sender account is pre-funded with.
    pub fund_per_account: Amount,
}

/// The sender accounts of one worker: seeds `start .. start + count`.
#[derive(Clone, Copy, Debug, PartialEq, Eq, Structural)]
pub struct IndexRange {
    pub start: u32,
    pub count: u32,
}

/// One transfer of a worker: from derived account `sender_seed` to derived
/// account `receiver_seed`.
#[derive(Clone, Copy, Debug, PartialEq, Eq, Structural)]
pub struct LoadTransfer {
    pub sender_seed: u32,
    pub receiver_seed: u32,
    pub amount: Amount,
}

impl LoadPlan {
    pub open spec fn wf(&self) -> bool {
        &&& self.concurrency > 0
        &&& self.per_account > 0
        &&& self.concurrency * self.per_account <= MAX_POOL_ACCOUNTS
    }

    /// Spreads `tx_count` transfers over `concurrency` workers (the remainder
    /// of the division is dropped) and `funding_amount` over their accounts:
    /// each account gets half of its even share.
    pub fn new(tx_count: u64, concurrency: u32, funding_amount: Amount) -> (r: Result<LoadPlan, LoadError>)
        ensures
            concurrency == 0 ==> r == Err::<LoadPlan, LoadError>(LoadError::NoWorkers),
            concurrency > 0 && tx_count < concurrency ==> r == Err::<LoadPlan, LoadError>(LoadError::TooFewTransfers),
            concurrency > 0 && tx_count >= concurrency && (tx_count / concurrency as u64) * concurrency > MAX_POOL_ACCOUNTS
                ==> r == Err::<LoadPlan, LoadError>(LoadError::TooManyTransfers),
            r is Ok <==> concurrency > 0 && tx_count >= concurrency
                && (tx_count / concurrency as u64) * concurrency <= MAX_POOL_ACCOUNTS,
            r matches Ok(p) ==> {
                &&& p.wf()
                &&& p.concurrency == concurrency
                &&& p.per_account == tx_count / concurrency as u64
                &&& p.fund_per_account == funding_amount / (p.per_account as u128) / 2
            },
    {
        if concurrency == 0 {
            return Err(LoadError::NoWorkers);
        }
        if tx_count < concurrency as u64 {
            return Err(LoadError::TooFewTransfers);
        }
        let per: u64 = tx_count / (concurrency as u64);
        assert(per >= 1) by (nonlinear_arith)
            requires per == tx_count / concurrency as u64, tx_count >= concurrency, concurrency > 0;
        if per > MAX_POOL_ACCOUNTS / (concurrency as u64) {
            assert(per * concurrency > MAX_POOL_ACCOUNTS) by (nonlinear_arith)
                requires per > MAX_POOL_ACCOUNTS / (concurrency as u64), concurrency > 0;
            return Err(LoadError::TooManyTransfers);
        }
        assert(per * concurrency <= MAX_POOL_ACCOUNTS) by (nonlinear_arith)
            requires per <= MAX_POOL_ACCOUNTS / (concurrency as u64), concurrency > 0;
        let per_account: u32 = per as u32;
        Ok(LoadPlan {
            concurrency,
            per_account,
            fund_per_account: funding_amount / (per_account as u128) / 2,
        })
    }

    /// All transfers of the run.
    pub fn total_transfers(&self) -> (r: u64)
        requires
            self.wf(),
        ensures
            r == self.concurrency * self.per_account,
    {
        self.concurrency as u64 * self.per_account as u64
    }

    /// The sender accounts of worker `i`: `per_account` seeds from
    /// `i * per_account`.
    pub fn worker_range(&self, i: u32) -> (r: IndexRange)
        requires
            self.wf(),
            i < self.concurrency,
        ensures
            r.start == i * self.per_account,
            r.count == self.per_account,
            r.start + r.count <= self.concurrency * self.per_account,
    {
        assert((i + 1) * self.per_account <= self.concurrency * self.per_account) by (nonlinear_arith)
            requires i < self.concurrency;
        assert(i * self.per_account + self.per_account == (i + 1) * self.per_account) by (nonlinear_arith);
        IndexRange { start: i * self.per_account, count: self.per_account }
    }

    /// The ranges of all workers, in order: they are disjoint, each holds
    /// `per_account` seeds, and together they cover seeds
    /// `0 .. concurrency * per_account`.
    pub fn partition(&self) -> (r: Vec<IndexRange>)
        requires
            self.wf(),
        ensures
            r@.len() == self.concurrency,
            forall|i: int| 0 <= i < r@.len() ==> (#[trigger] r@[i]).start == i * self.per_account
                && r@[i].count == self.per_account,
            forall|i: int, j: int| 0 <= i < j < r@.len() ==>
                (#[trigger] r@[i]).start + r@[i].count <= (#[trigger] r@[j]).start,
    {
        let mut out: Vec<IndexRange> = Vec::new();
        let mut i: u32 = 0;
        while i < self.concurrency
            invariant
                self.wf(),
                i <= self.concurrency,
                out@.len() == i,
                forall|k: int| 0 <= k < i ==> (#[trigger] out@[k]).start == k * self.per_account
                    && out@[k].count == self.per_account,
            decreases self.concurrency - i,
        {
            out.push(self.worker_range(i));
            i = i + 1;
        }
        assert forall|a: int, b: int| 0 <= a < b < out@.len() implies
            (#[trigger] out@[a]).start + out@[a].count <= (#[trigger] out@[b]).start by {
            let p = self.per_account as int;
            assert(a * p + p <= b * p) by (nonlinear_arith)
                requires a < b, p >= 0;
        }
        out
    }
}

/// The receiver of the transfer from seed `seed`: counted down from the
/// largest seed.
pub open spec fn receiver_seed_spec(seed: u32) -> u32 {
    (u32::MAX - seed) as u32
}

/// One worker of the pool, walking through its range.
#[derive(Clone, Copy, Debug, PartialEq, Eq, Structural)]
pub struct LoadWorker {
    pub range: IndexRange,
    pub amount: Amount,
    /// Transfers attempted so far.
    pub next: u32,
    /// Transfers the chain accepted so far.
    pub submitted: u32,
}

impl LoadWorker {
    pub open spec fn wf(&self) -> bool {
        &&& self.range.start + self.range.count <= MAX_POOL_ACCOUNTS
        &&& self.next <= self.range.count
        &&& self.submitted <= self.next
    }

    /// Worker `i` of `plan`; each transfer sends a fifth of the account's
    /// funding.
    pub fn new(plan: &LoadPlan, i: u32) -> (r: LoadWorker)
        requires
            plan.wf(),
            i < plan.concurrency,
        ensures
            r.wf(),
            r.range.start == i * plan.per_account,
            r.range.count == plan.per_account,
            r.amount == plan.fund_per_account / 5,
            r.next == 0,
            r.submitted == 0,
    {
        let range = plan.worker_range(i);
        LoadWorker { range, amount: plan.fund_per_account / 5, next: 0, submitted: 0 }
    }

    pub open spec fn is_done(&self) -> bool {
        self.next >= self.range.count
    }

    /// The next transfer: from the next seed of the range to its mirror seed
    /// counted down from the top; `None` once the range is exhausted.
    pub fn next_transfer(&self) -> (r: Option<LoadTransfer>)
        requires
            self.wf(),
        ensures
            self.is_done() <==> r is None,
            r matches Some(t) ==> {
                &&& t.sender_seed == self.range.start + self.next
                &&& t.receiver_seed == receiver_seed_spec(t.sender_seed)
                &&& t.sender_seed < t.receiver_seed
                &&& t.amount == self.amount
            },
    {
        if self.next >= self.range.count {
            return None;
        }
        let sender_seed: u32 = self.range.start + self.next;
        Some(LoadTransfer { sender_seed, receiver_seed: u32::MAX - sender_seed, amount: self.amount })
    }

    /// Takes whether the chain accepted the last transfer; a rejection does
    /// not stop the worker.
    pub fn record(&mut self, accepted: bool)
        requires
            old(self).wf(),
            !old(self).is_done(),
        ensures
            final(self).wf(),
            final(self).range == old(self).range,
            final(self).amount == old(self).amount,
            final(self).next == old(self).next + 1,
            final(self).submitted == old(self).submitted + (if accepted { 1int } else { 0int }),
    {
        self.next = self.next + 1;
        if accepted {
            self.submitted = self.submitted + 1;
        }
    }

    /// Whether to pause after the transfer just recorded, so that bursts stay
    /// within the pool limits of the chain.
    pub fn should_pause(&self) -> (r: bool)
        ensures
            r == (self.next > 0 && (self.next - 1) % (PAUSE_EVERY as int) == 0),
    {
        self.next > 0 && (self.next - 1) % PAUSE_EVERY == 0
    }
}

/// The sum of a sequence of counts.
pub open spec fn sum_counts(s: Seq<u32>) -> nat
    decreases s.len(),
{
    if s.len() == 0 { 0 } else { (sum_counts(s.drop_last()) + s.last()) as nat }
}

/// The run's result: the sum of the workers' accepted counts.
pub fn total_submitted(counts: &Vec<u32>) -> (r: u64)
    requires
        counts@.len() <= u32::MAX,
    ensures
        r == sum_counts(counts@),
{
    let mut total: u64 = 0;
    let mut i: usize = 0;
    while i < counts.len()
        invariant
            i <= counts@.len() <= u32::MAX,
            total == sum_counts(counts@.subrange(0, i as int)),
            total <= i * (u32::MAX as int),
        decreases counts@.len() - i,
    {
        assert(counts@.subrange(0, i as int + 1).drop_last() =~= counts@.subrange(0, i as int));
        assert((i + 1) * (u32::MAX as int) == i * (u32::MAX as int) + u32::MAX) by (nonlinear_arith);
        assert((i + 1) * (u32::MAX as int) <= u32::MAX as int * u32::MAX as int) by (nonlinear_arith)
            requires i + 1 <= u32::MAX;
        total = total + counts[i] as u64;
        i = i + 1;
    }
    assert(counts@.subrange(0, counts@.len() as int) =~= counts@);
    total
}

} // verus!
