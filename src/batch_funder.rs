//! The batch pre-funder: pays one amount to many addresses from one funding
//! account, in chunks no larger than a batch size, one chunk per
//! transaction, strictly one after another.
use vstd::prelude::*;
use crate::calldata::{abi_address_array, selector_of, transfer_to_many_calldata, MAX_ABI_ITEMS};
use crate::gas::Amount;
use crate::request::{Address, TransactionRequest};
use crate::transaction_manager::{Phase, Submission, SubmissionError};

verus! {

/// Chunk `k` of `addrs` cut in pieces of `size`.
pub open spec fn chunk_spec(addrs: Seq<Address>, size: nat, k: nat) -> Seq<Address> {
    let start = k * size;
    let end = if (k + 1) * size <= addrs.len() { (k + 1) * size } else { addrs.len() as nat };
    addrs.subrange(start as int, end as int)
}

/// The number of chunks of `size` that `len` items make.
pub open spec fn chunk_count(len: nat, size: nat) -> nat {
    if size == 0 { 0 } else { ((len + size - 1) as nat / size) as nat }
}

proof fn lemma_chunk_step(k: nat, size: nat, len: nat)
    requires
        size > 0,
        k * size < len,
    ensures
        (k + 1) * size == k * size + size,
        chunk_count(len, size) > k,
        (k + 1) * size >= len ==> chunk_count(len, size) == k + 1,
{
    assert((k + 1) * size == k * size + size) by (nonlinear_arith);
    let c = (len + size - 1) as nat;
    assert(c >= k * size + size) by (nonlinear_arith)
        requires k * size < len, c == len + size - 1;
    assert(c / size >= (k * size + size) / size) by (nonlinear_arith)
        requires c >= k * size + size, size > 0;
    assert((k * size + size) / size == k + 1) by (nonlinear_arith)
        requires size > 0;
    if (k + 1) * size >= len {
        assert(c < (k + 2) * size) by (nonlinear_arith)
            requires (k + 1) * size >= len, c == len + size - 1, size > 0;
        assert(c / size < k + 2) by (nonlinear_arith)
            requires c < (k + 2) * size, size > 0;
    }
}

/// Cuts `addrs` into chunks of `batch_size`, in order; only the last chunk
/// may be shorter.
pub fn split_into_batches(addrs: &Vec<Address>, batch_size: usize) -> (r: Vec<Vec<Address>>)
    requires
        batch_size > 0,
    ensures
        r@.len() == chunk_count(addrs@.len(), batch_size as nat),
        forall|k: int| 0 <= k < r@.len() ==> (#[trigger] r@[k])@ == chunk_spec(addrs@, batch_size as nat, k as nat),
        forall|k: int| 0 <= k < r@.len() ==> 0 < (#[trigger] r@[k])@.len() <= batch_size,
        forall|k: int| 0 <= k < r@.len() ==> (#[trigger] r@[k])@.len() <= addrs@.len(),
        r@.len() <= usize::MAX,
{
    let mut out: Vec<Vec<Address>> = Vec::new();
    let mut start: usize = 0;
    let n = addrs.len();
    if n == 0 {
        assert(chunk_count(0, batch_size as nat) == 0) by (nonlinear_arith)
            requires batch_size > 0;
        return out;
    }
    proof {
        assert(0 * batch_size == 0);
        lemma_chunk_step(0, batch_size as nat, n as nat);
    }
    while start < n
        invariant
            n == addrs@.len(),
            batch_size > 0,
            start <= n,
            out@.len() <= start,
            start < n ==> start == out@.len() * batch_size,
            start < n ==> chunk_count(n as nat, batch_size as nat) > out@.len(),
            start >= n ==> chunk_count(n as nat, batch_size as nat) == out@.len(),
            forall|k: int| 0 <= k < out@.len() ==> (#[trigger] out@[k])@ == chunk_spec(addrs@, batch_size as nat, k as nat),
            forall|k: int| 0 <= k < out@.len() ==> 0 < (#[trigger] out@[k])@.len() <= batch_size,
            forall|k: int| 0 <= k < out@.len() ==> (#[trigger] out@[k])@.len() <= n,
        decreases n - start,
    {
        let ghost k = out@.len();
        proof { lemma_chunk_step(k, batch_size as nat, n as nat); }
        let end: usize = if n - start > batch_size { start + batch_size } else { n };
        let mut chunk: Vec<Address> = Vec::new();
        let mut i: usize = start;
        while i < end
            invariant
                start <= i <= end <= n,
                n == addrs@.len(),
                chunk@ == addrs@.subrange(start as int, i as int),
            decreases end - i,
        {
            chunk.push(addrs[i]);
            i = i + 1;
            assert(chunk@ =~= addrs@.subrange(start as int, i as int));
        }
        assert(chunk@ == chunk_spec(addrs@, batch_size as nat, k));
        out.push(chunk);
        start = end;
        proof {
            if start < n {
                lemma_chunk_step(k + 1, batch_size as nat, n as nat);
            }
        }
    }
    out
}

/// Why funding could not start.
#[derive(Clone, Copy, Debug, PartialEq, Eq, Structural)]
pub enum FundingError {
    /// The batch size is zero.
    EmptyBatch,
    /// A batch is too large for one contract call.
    BatchTooLarge,
    /// The total of one batch does not fit in an amount.
    ValueOverflow,
}

/// A funding operation in progress: the chunks, the next one to submit, the
/// nonce it will carry, and how the run ended.
pub struct FundingRun {
    pub from: Address,
    pub chain_id: u64,
    pub fund_contract: Address,
    pub per_address: Amount,
    pub batches: Vec<Vec<Address>>,
    pub batch_size: usize,
    /// Index of the next chunk to submit.
    pub next: usize,
    /// The nonce of the next chunk; `None` lets the manager fetch it.
    pub next_nonce: Option<u64>,
    /// Set when a chunk failed: the run stops there.
    pub failure: Option<SubmissionError>,
    /// The nonces with which the chunks so far were confirmed, in order.
    pub confirmed: Vec<u64>,
}

/// The nonces are strictly increasing.
pub open spec fn strictly_increasing(s: Seq<u64>) -> bool {
    forall|i: int, j: int| 0 <= i < j < s.len() ==> (#[trigger] s[i]) < (#[trigger] s[j])
}

impl FundingRun {
    pub open spec fn wf(&self) -> bool {
        &&& self.batch_size > 0
        &&& self.batch_size < MAX_ABI_ITEMS
        &&& self.next <= self.batches@.len() <= usize::MAX
        &&& self.confirmed@.len() == self.next
        &&& strictly_increasing(self.confirmed@)
        &&& self.next > 0 && self.failure is None && self.next < self.batches@.len()
            ==> self.next_nonce is Some
        &&& self.next > 0 ==> (self.next_nonce matches Some(n) && n > self.confirmed@[self.next - 1])
            || self.next_nonce is None
        &&& forall|k: int| 0 <= k < self.batches@.len() ==> 0 < (#[trigger] self.batches@[k])@.len() <= self.batch_size
        &&& forall|k: int| 0 <= k < self.batches@.len() ==>
            self.per_address * (#[trigger] self.batches@[k])@.len() <= u128::MAX
    }

    /// Whether the run is over: every chunk went through, or one failed.
    pub open spec fn is_done(&self) -> bool {
        self.failure is Some || self.next >= self.batches@.len()
    }

    /// Plans the funding of `to_addresses` with `per_address` each, from
    /// `from` through `fund_contract`, in chunks of `batch_size`. The first
    /// chunk carries `start_nonce`, or a nonce fetched by the manager when
    /// it is `None`.
    pub fn new(
        from: Address,
        chain_id: u64,
        fund_contract: Address,
        to_addresses: &Vec<Address>,
        per_address: Amount,
        batch_size: usize,
        start_nonce: Option<u64>,
    ) -> (r: Result<FundingRun, FundingError>)
        ensures
            batch_size == 0 ==> r == Err::<FundingRun, FundingError>(FundingError::EmptyBatch),
            batch_size > 0 && batch_size >= MAX_ABI_ITEMS
                ==> r == Err::<FundingRun, FundingError>(FundingError::BatchTooLarge),
            batch_size > 0 && batch_size < MAX_ABI_ITEMS && per_address * (if to_addresses@.len() < batch_size {
                to_addresses@.len() as int } else { batch_size as int }) > u128::MAX
                ==> r == Err::<FundingRun, FundingError>(FundingError::ValueOverflow),
            r is Ok <==> batch_size > 0 && batch_size < MAX_ABI_ITEMS && per_address * (if to_addresses@.len()
                < batch_size { to_addresses@.len() as int } else { batch_size as int }) <= u128::MAX,
            r matches Ok(run) ==> {
                &&& run.wf()
                &&& run.from == from
                &&& run.chain_id == chain_id
                &&& run.fund_contract == fund_contract
                &&& run.per_address == per_address
                &&& run.batch_size == batch_size
                &&& run.next == 0
                &&& run.next_nonce == start_nonce
                &&& run.failure is None
                &&& run.batches@.len() == chunk_count(to_addresses@.len(), batch_size as nat)
                &&& forall|k: int| 0 <= k < run.batches@.len() ==>
                    (#[trigger] run.batches@[k])@ == chunk_spec(to_addresses@, batch_size as nat, k as nat)
            },
    {
        if batch_size == 0 {
            return Err(FundingError::EmptyBatch);
        }
        if batch_size >= MAX_ABI_ITEMS {
            return Err(FundingError::BatchTooLarge);
        }
        let largest: usize = if to_addresses.len() < batch_size { to_addresses.len() } else { batch_size };
        if per_address.checked_mul(largest as u128).is_none() {
            return Err(FundingError::ValueOverflow);
        }
        let batches = split_into_batches(to_addresses, batch_size);
        assert forall|k: int| 0 <= k < batches@.len() implies
            per_address * (#[trigger] batches@[k])@.len() <= u128::MAX by {
            let len = batches@[k]@.len();
            assert(len <= largest);
            assert(per_address * len <= per_address * largest) by (nonlinear_arith)
                requires len <= largest;
        }
        Ok(FundingRun {
            from,
            chain_id,
            fund_contract,
            per_address,
            batches,
            batch_size,
            next: 0,
            next_nonce: start_nonce,
            failure: None,
            confirmed: Vec::new(),
        })
    }

    /// The transaction for the next chunk: a call of the funding contract
    /// paying `per_address` to each address of the chunk, with the total as
    /// its value and the run's next nonce.
    pub fn next_request(&self) -> (r: TransactionRequest)
        requires
            self.wf(),
            !self.is_done(),
        ensures
            r.from == Some(self.from),
            r.to == Some(self.fund_contract),
            r.chain_id == Some(self.chain_id),
            r.value == Some((self.per_address * self.batches@[self.next as int]@.len()) as u128),
            r.data matches Some(d) && d@ == selector_of("transferTsscToMany(address[])"@)
                + abi_address_array(self.batches@[self.next as int]@),
            self.batches@[self.next as int]@.len() <= self.batch_size,
            r.nonce == self.next_nonce,
            r.gas_price is None,
    {
        let chunk = &self.batches[self.next];
        assert(0 < chunk@.len() <= self.batch_size);
        let value = self.per_address * (chunk.len() as u128);
        let data = transfer_to_many_calldata(chunk);
        let r = TransactionRequest::new()
            .from(self.from)
            .to(self.fund_contract)
            .value(value)
            .data(data)
            .chain_id(self.chain_id);
        match self.next_nonce {
            Some(n) => r.nonce(n),
            None => r,
        }
    }

    /// Takes the finished submission of the next chunk, which was started
    /// from `next_request`. A confirmation moves on to the following chunk,
    /// whose nonce is one past the confirmed one; a failure stops the run, as
    /// does a confirmed nonce that leaves no next nonce for a remaining chunk.
    pub fn record(&mut self, sub: &Submission)
        requires
            old(self).wf(),
            !old(self).is_done(),
            sub.wf(),
            sub.phase == Phase::Finished,
            old(self).next_nonce matches Some(n) ==> sub.history@.len() > 0 ==> sub.history@[0].nonce == n,
        ensures
            final(self).wf(),
            final(self).batches@ == old(self).batches@,
            sub.result matches Some(Ok(rec)) ==> {
                &&& final(self).next == old(self).next + 1
                &&& final(self).confirmed@ == old(self).confirmed@.push(rec.nonce)
                &&& final(self).next_nonce == (if rec.nonce < u64::MAX {
                    Some((rec.nonce + 1) as u64) } else { None::<u64> })
                &&& final(self).failure == (if rec.nonce == u64::MAX && final(self).next < final(self).batches@.len() {
                    Some(SubmissionError::NonceExhausted) } else { None::<SubmissionError> })
            },
            sub.result matches Some(Err(e)) ==> {
                &&& final(self).next == old(self).next
                &&& final(self).confirmed@ == old(self).confirmed@
                &&& final(self).failure == Some(e)
            },
    {
        match sub.result {
            Some(Ok(rec)) => {
                proof {
                    let h = sub.history@;
                    assert(h[0].nonce <= h[h.len() - 1].nonce);
                }
                let ghost c0 = self.confirmed@;
                self.confirmed.push(rec.nonce);
                assert(self.confirmed@[self.confirmed@.len() - 1] == rec.nonce);
                assert forall|i: int, j: int| 0 <= i < j < self.confirmed@.len() implies
                    (#[trigger] self.confirmed@[i]) < (#[trigger] self.confirmed@[j]) by {
                    if j == self.confirmed@.len() - 1 {
                        assert(self.confirmed@[i] == c0[i]);
                        if i < c0.len() - 1 {
                            assert(c0[i] < c0[c0.len() - 1]);
                        }
                    } else {
                        assert(self.confirmed@[i] == c0[i] && self.confirmed@[j] == c0[j]);
                    }
                }
                self.next = self.next + 1;
                if rec.nonce < u64::MAX {
                    self.next_nonce = Some(rec.nonce + 1);
                } else {
                    self.next_nonce = None;
                    if self.next < self.batches.len() {
                        self.failure = Some(SubmissionError::NonceExhausted);
                    }
                }
            },
            Some(Err(e)) => {
                self.failure = Some(e);
            },
            None => {},
        }
    }

    /// How the run ended: `Ok` once every chunk went through, the first
    /// failure otherwise.
    pub fn outcome(&self) -> (r: Result<(), SubmissionError>)
        requires
            self.is_done(),
        ensures
            r == (match self.failure {
                Some(e) => Err::<(), SubmissionError>(e),
                None => Ok(()),
            }),
    {
        match self.failure {
            Some(e) => Err(e),
            None => Ok(()),
        }
    }
}

/// No two chunks of a funding run are confirmed with one nonce: each
/// chunk's nonce is above the nonces of all chunks before it.
pub proof fn lemma_funding_nonces_unique(run: FundingRun)
    requires
        run.wf(),
    ensures
        forall|i: int, j: int| 0 <= i < j < run.confirmed@.len() ==>
            (#[trigger] run.confirmed@[i]) < (#[trigger] run.confirmed@[j]),
{
}

} // verus!
