//! The transaction manager: submits one transaction for one account with
//! bounded retries, gas-price flooring and bumping, and nonce or price
//! correction when the chain reports the transaction as already known.
//!
//! Submitting is a conversation with the chain, so the manager is a state
//! machine. `Submission::next_action` says what to do next (fetch the nonce,
//! fetch the base fee, submit, sleep, or stop), and `Submission::on_event`
//! takes what came back.
use vstd::prelude::*;
use crate::gas::{
    bump_gas_price, bumped_price_spec, floor_gas_price, floored_price_spec, min_gas_price,
    min_gas_price_spec, Amount, DEFAULT_BUMP_PERCENT, DEFAULT_MIN_PRIORITY_FEE, FALLBACK_BASE_FEE,
};
use crate::request::{Address, TransactionRequest};

verus! {

/// What to do when the chain reports a submission as already known.
#[derive(Clone, Copy, Debug, PartialEq, Eq, Structural)]
pub enum CorrectionStrategy {
    /// Move the nonce one slot forward.
    NonceIncrement,
    /// Keep the nonce and count on the retry's gas-price bump.
    GasPriceBump,
}

/// Retry and pricing policy of a transaction manager.
#[derive(Clone, Copy, Debug, PartialEq, Eq, Structural)]
pub struct TxConfig {
    /// Retries after the first attempt.
    pub max_retries: u32,
    /// The delay before retry `k` (counting from 0) is `(k + 1)` times this.
    pub retry_delay_base_ms: u64,
    /// Blocks to wait for after inclusion.
    pub num_confirmations: usize,
    /// How long to wait for the confirmations before the attempt counts as
    /// a network failure.
    pub confirmation_timeout_ms: u64,
    /// Tip added to the base fee to form the minimum gas price.
    pub min_priority_fee: Amount,
    /// Percentage by which each retry raises the gas price.
    pub gas_price_bump_percent: Amount,
    /// Base fee assumed when the chain reports none.
    pub fallback_base_fee: Amount,
    pub correction: CorrectionStrategy,
}

impl TxConfig {
    /// The standard policy: three retries, 5 s delay base, 2 gwei tip, 10%
    /// bump, nonce correction, one-minute confirmation timeout.
    pub fn standard(num_confirmations: usize) -> (r: TxConfig)
        ensures
            r.max_retries == 3,
            r.retry_delay_base_ms == 5000,
            r.num_confirmations == num_confirmations,
            r.confirmation_timeout_ms == 60000,
            r.min_priority_fee == DEFAULT_MIN_PRIORITY_FEE,
            r.gas_price_bump_percent == DEFAULT_BUMP_PERCENT,
            r.fallback_base_fee == FALLBACK_BASE_FEE,
            r.correction == CorrectionStrategy::NonceIncrement,
    {
        TxConfig {
            max_retries: 3,
            retry_delay_base_ms: 5000,
            num_confirmations,
            confirmation_timeout_ms: 60000,
            min_priority_fee: DEFAULT_MIN_PRIORITY_FEE,
            gas_price_bump_percent: DEFAULT_BUMP_PERCENT,
            fallback_base_fee: FALLBACK_BASE_FEE,
            correction: CorrectionStrategy::NonceIncrement,
        }
    }

    /// A policy with every value given and the standard fallback base fee.
    pub fn new(
        max_retries: u32,
        retry_delay_base_ms: u64,
        num_confirmations: usize,
        confirmation_timeout_ms: u64,
        min_priority_fee: Amount,
        gas_price_bump_percent: Amount,
        correction: CorrectionStrategy,
    ) -> (r: TxConfig)
        ensures
            r == (TxConfig {
                max_retries,
                retry_delay_base_ms,
                num_confirmations,
                confirmation_timeout_ms,
                min_priority_fee,
                gas_price_bump_percent,
                fallback_base_fee: FALLBACK_BASE_FEE,
                correction,
            }),
    {
        TxConfig {
            max_retries,
            retry_delay_base_ms,
            num_confirmations,
            confirmation_timeout_ms,
            min_priority_fee,
            gas_price_bump_percent,
            fallback_base_fee: FALLBACK_BASE_FEE,
            correction,
        }
    }
}

/// How one attempt ended.
#[derive(Clone, Copy, Debug, PartialEq, Eq, Structural)]
pub enum AttemptOutcome {
    Confirmed,
    AlreadyKnown,
    TransientNetwork,
    Fatal,
}

/// The record of one attempt: its number, the nonce and gas price it
/// carried, the minimum price (base fee plus tip) when it was priced, and
/// how it ended. Records are never changed once written.
#[derive(Clone, Copy, Debug, PartialEq, Eq, Structural)]
pub struct AttemptRecord {
    pub attempt_number: u32,
    pub nonce: u64,
    pub gas_price: Amount,
    pub min_gas_price: Amount,
    pub outcome: AttemptOutcome,
}

/// Why a submission ended without confirmation.
#[derive(Clone, Copy, Debug, PartialEq, Eq, Structural)]
pub enum SubmissionError {
    /// The chain rejected the request in a way no retry can mend.
    Fatal,
    /// Every attempt failed.
    RetriesExhausted,
    /// The account's nonce could not be read.
    NonceUnavailable,
    /// The account's nonce has reached its largest value.
    NonceExhausted,
}

/// Where a submission stands.
#[derive(Clone, Copy, Debug, PartialEq, Eq, Structural)]
pub enum Phase {
    FetchNonce,
    FetchBaseFee,
    Submit,
    Backoff,
    Finished,
}

/// What the caller must do next.
#[derive(Clone, Copy, Debug)]
pub enum Action {
    /// Read the account's nonce and report `Event::Nonce`, or
    /// `Event::NonceUnavailable`.
    FetchNonce,
    /// Read the latest base fee and report `Event::BaseFee`.
    FetchBaseFee,
    /// Submit `Submission::request`, wait for the confirmations, and report
    /// `Event::Outcome`.
    Submit,
    /// Sleep this long, then report `Event::Slept`.
    Sleep { millis: u64 },
    /// Stop: the submission is over.
    Finished(Result<AttemptRecord, SubmissionError>),
}

/// What the caller observed.
#[derive(Clone, Copy, Debug, PartialEq, Eq, Structural)]
pub enum Event {
    Nonce(u64),
    NonceUnavailable,
    /// The latest base fee, or `None` when the chain gave none.
    BaseFee(Option<Amount>),
    Outcome(AttemptOutcome),
    Slept,
}

/// One logical submission in progress.
pub struct Submission {
    pub config: TxConfig,
    /// The request as the next attempt will carry it.
    pub request: TransactionRequest,
    pub phase: Phase,
    /// The number of the current attempt, counting from 0.
    pub attempt: u32,
    /// The delay of the pending backoff.
    pub backoff_ms: u64,
    /// The minimum price (base fee plus tip) of the current attempt, once
    /// priced.
    pub min_price: Amount,
    /// Every attempt made so far, in order.
    pub history: Vec<AttemptRecord>,
    pub result: Option<Result<AttemptRecord, SubmissionError>>,
}

/// The delay before retry `attempt` (counting from 0), capped at the largest
/// duration.
pub open spec fn backoff_spec(base: nat, attempt: nat) -> nat {
    if base * (attempt + 1) > u64::MAX {
        u64::MAX as nat
    } else {
        base * (attempt + 1)
    }
}

/// The gas price of attempt `attempt`, given the price the request carries
/// and the minimum price now: floored to the minimum, then bumped on a retry.
pub open spec fn attempt_price_spec(
    current: Option<u128>,
    min_price: nat,
    attempt: nat,
    percent: nat,
) -> nat {
    let floored = floored_price_spec(current, min_price);
    if attempt > 0 {
        bumped_price_spec(floored, percent)
    } else {
        floored
    }
}

/// Gas prices never go down from one attempt to the next.
pub open spec fn prices_non_decreasing(h: Seq<AttemptRecord>) -> bool {
    forall|i: int, j: int| 0 <= i <= j < h.len() ==> (#[trigger] h[i]).gas_price <= (#[trigger] h[j]).gas_price
}

/// Nonces never go down from one attempt to the next.
pub open spec fn nonces_non_decreasing(h: Seq<AttemptRecord>) -> bool {
    forall|i: int, j: int| 0 <= i <= j < h.len() ==> (#[trigger] h[i]).nonce <= (#[trigger] h[j]).nonce
}

/// The correction after an `AlreadyKnown` outcome strictly raises what it
/// corrects, unless that is already at its largest value.
pub open spec fn corrected(
    strategy: CorrectionStrategy,
    prev: AttemptRecord,
    next_nonce: u64,
    next_price: u128,
) -> bool {
    prev.outcome == AttemptOutcome::AlreadyKnown ==> match strategy {
        CorrectionStrategy::NonceIncrement => prev.nonce < u64::MAX ==> next_nonce > prev.nonce,
        CorrectionStrategy::GasPriceBump => prev.gas_price < u128::MAX ==> next_price > prev.gas_price,
    }
}

/// Every `AlreadyKnown` attempt that was followed by another was corrected.
/// Under `GasPriceBump` the correction is the retry's own price bump.
pub open spec fn corrections_applied(strategy: CorrectionStrategy, h: Seq<AttemptRecord>) -> bool {
    forall|k: int|
        0 <= k < h.len() - 1 ==> #[trigger] corrected(strategy, h[k], h[k + 1].nonce, h[k + 1].gas_price)
}

/// Only the last attempt can have been confirmed.
pub open spec fn confirmed_only_last(h: Seq<AttemptRecord>) -> bool {
    forall|k: int| 0 <= k < h.len() - 1 ==> (#[trigger] h[k]).outcome != AttemptOutcome::Confirmed
}

/// Each retry is priced one bump over the previous attempt's price, raised
/// first to the retry's minimum price.
pub open spec fn retries_priced(percent: u128, h: Seq<AttemptRecord>) -> bool {
    forall|k: int| 0 <= k < h.len() - 1 ==> (#[trigger] h[k + 1]).gas_price as nat == bumped_price_spec(
        floored_price_spec(Some(h[k].gas_price), h[k + 1].min_gas_price as nat), percent as nat)
}

/// Attempt records are numbered in order from 0.
pub open spec fn numbered(h: Seq<AttemptRecord>) -> bool {
    forall|k: int| 0 <= k < h.len() ==> (#[trigger] h[k]).attempt_number == k
}

impl Submission {
    /// The invariant of a submission: the phase agrees with the request and
    /// the history, and the history is ordered, corrected and confirmed at
    /// most once, at its end.
    pub open spec fn wf(&self) -> bool {
        let h = self.history@;
        &&& self.attempt <= self.config.max_retries
        &&& (self.phase == Phase::FetchBaseFee || self.phase == Phase::Submit
            || self.phase == Phase::Backoff) ==> self.request.nonce is Some
        &&& self.phase == Phase::Submit ==> self.request.gas_price is Some
        &&& (self.phase == Phase::FetchNonce || self.phase == Phase::FetchBaseFee
            || self.phase == Phase::Submit) ==> h.len() == self.attempt
        &&& self.phase == Phase::Backoff ==> h.len() == self.attempt + 1
            && self.attempt < self.config.max_retries
        &&& (self.phase == Phase::Finished <==> self.result is Some)
        &&& self.phase == Phase::FetchNonce ==> self.attempt == 0
        &&& numbered(h)
        &&& prices_non_decreasing(h)
        &&& nonces_non_decreasing(h)
        &&& corrections_applied(self.config.correction, h)
        &&& retries_priced(self.config.gas_price_bump_percent, h)
        &&& confirmed_only_last(h)
        // Between attempts the request keeps the last attempt's price and a
        // nonce at least the last one, corrected when the strategy moves it.
        &&& (self.phase == Phase::FetchBaseFee || self.phase == Phase::Backoff) && h.len() > 0 ==> {
                let last = h[h.len() - 1];
                &&& self.request.gas_price == Some(last.gas_price)
                &&& last.nonce <= self.request.nonce->0
                &&& self.config.correction == CorrectionStrategy::NonceIncrement ==> corrected(
                    self.config.correction, last, self.request.nonce->0, last.gas_price)
                &&& (last.outcome == AttemptOutcome::AlreadyKnown
                    || last.outcome == AttemptOutcome::TransientNetwork)
            }
        // A priced retry relates to the last record as its own record will.
        &&& self.phase == Phase::Submit && h.len() > 0 ==> {
                let last = h[h.len() - 1];
                &&& self.request.gas_price->0 as nat == bumped_price_spec(
                    floored_price_spec(Some(last.gas_price), self.min_price as nat),
                    self.config.gas_price_bump_percent as nat)
                &&& last.nonce <= self.request.nonce->0
                &&& last.gas_price <= self.request.gas_price->0
                &&& corrected(self.config.correction, last, self.request.nonce->0,
                    self.request.gas_price->0)
                &&& (last.outcome == AttemptOutcome::AlreadyKnown
                    || last.outcome == AttemptOutcome::TransientNetwork)
            }
        &&& self.result matches Some(Ok(r)) ==> h.len() > 0 && r == h[h.len() - 1]
            && r.outcome == AttemptOutcome::Confirmed
        &&& self.result matches Some(Err(SubmissionError::Fatal)) ==> h.len() > 0
            && h[h.len() - 1].outcome == AttemptOutcome::Fatal
        &&& self.result matches Some(Err(SubmissionError::NonceUnavailable)) ==> h.len() == 0
    }

    /// Starts a submission of `request`: the nonce is fetched first when the
    /// request carries none.
    pub fn new(config: TxConfig, request: TransactionRequest) -> (r: Submission)
        ensures
            r.wf(),
            r.config == config,
            r.request == request,
            r.attempt == 0,
            r.history@.len() == 0,
            r.phase == (if request.nonce is None { Phase::FetchNonce } else { Phase::FetchBaseFee }),
    {
        let phase = if request.nonce.is_none() { Phase::FetchNonce } else { Phase::FetchBaseFee };
        Submission {
            config,
            request,
            phase,
            attempt: 0,
            backoff_ms: 0,
            min_price: 0,
            history: Vec::new(),
            result: None,
        }
    }

    /// What the caller must do next.
    pub fn next_action(&self) -> (r: Action)
        requires
            self.wf(),
        ensures
            r == (match self.phase {
                Phase::FetchNonce => Action::FetchNonce,
                Phase::FetchBaseFee => Action::FetchBaseFee,
                Phase::Submit => Action::Submit,
                Phase::Backoff => Action::Sleep { millis: self.backoff_ms },
                Phase::Finished => Action::Finished(self.result->0),
            }),
    {
        match self.phase {
            Phase::FetchNonce => Action::FetchNonce,
            Phase::FetchBaseFee => Action::FetchBaseFee,
            Phase::Submit => Action::Submit,
            Phase::Backoff => Action::Sleep { millis: self.backoff_ms },
            Phase::Finished => {
                match self.result {
                    Some(r) => Action::Finished(r),
                    None => Action::Finished(Err(SubmissionError::RetriesExhausted)),
                }
            },
        }
    }

    /// Takes what the caller observed. An event that does not answer the
    /// pending action leaves the submission unchanged.
    pub fn on_event(&mut self, event: Event)
        requires
            old(self).wf(),
        ensures
            final(self).wf(),
            final(self).config == old(self).config,
            old(self).history@.is_prefix_of(final(self).history@),
            !accepts(old(self).phase, event) ==> unchanged(*old(self), *final(self)),
            old(self).phase == Phase::FetchNonce ==> (event matches Event::Nonce(n) ==> {
                &&& final(self).phase == Phase::FetchBaseFee
                &&& final(self).request == (TransactionRequest { nonce: Some(n), ..old(self).request })
                &&& final(self).attempt == old(self).attempt
                &&& final(self).history@ == old(self).history@
            }),
            old(self).phase == Phase::FetchNonce ==> (event is NonceUnavailable ==> {
                &&& final(self).phase == Phase::Finished
                &&& final(self).result == Some(Err::<AttemptRecord, SubmissionError>(SubmissionError::NonceUnavailable))
                &&& final(self).history@ == old(self).history@
            }),
            old(self).phase == Phase::FetchBaseFee ==> (event matches Event::BaseFee(f) ==> {
                let base = match f { Some(b) => b, None => old(self).config.fallback_base_fee };
                let min_price = min_gas_price_spec(base as nat, old(self).config.min_priority_fee as nat);
                let price = attempt_price_spec(old(self).request.gas_price, min_price,
                    old(self).attempt as nat, old(self).config.gas_price_bump_percent as nat);
                &&& final(self).phase == Phase::Submit
                &&& final(self).min_price == min_price
                &&& final(self).request == (TransactionRequest { gas_price: Some(price as u128), ..old(self).request })
                &&& final(self).attempt == old(self).attempt
                &&& final(self).history@ == old(self).history@
            }),
            old(self).phase == Phase::Submit ==> (event matches Event::Outcome(o) ==> {
                let record = AttemptRecord {
                    attempt_number: old(self).attempt,
                    nonce: old(self).request.nonce->0,
                    gas_price: old(self).request.gas_price->0,
                    min_gas_price: old(self).min_price,
                    outcome: o,
                };
                &&& final(self).history@ == old(self).history@.push(record)
                &&& final(self).attempt == old(self).attempt
                &&& after_outcome(*old(self), *final(self), record)
            }),
            old(self).phase == Phase::Backoff ==> (event is Slept ==> {
                &&& final(self).phase == Phase::FetchBaseFee
                &&& final(self).request == old(self).request
                &&& final(self).attempt == old(self).attempt + 1
                &&& final(self).history@ == old(self).history@
            }),
    {
        match (self.phase, event) {
            (Phase::FetchNonce, Event::Nonce(n)) => {
                self.request.nonce = Some(n);
                self.phase = Phase::FetchBaseFee;
            },
            (Phase::FetchNonce, Event::NonceUnavailable) => {
                self.result = Some(Err(SubmissionError::NonceUnavailable));
                self.phase = Phase::Finished;
            },
            (Phase::FetchBaseFee, Event::BaseFee(f)) => {
                let base = match f {
                    Some(b) => b,
                    None => self.config.fallback_base_fee,
                };
                let min_price = min_gas_price(base, self.config.min_priority_fee);
                let floored = floor_gas_price(self.request.gas_price, min_price);
                let price = if self.attempt > 0 {
                    bump_gas_price(floored, self.config.gas_price_bump_percent)
                } else {
                    floored
                };
                self.request.gas_price = Some(price);
                self.min_price = min_price;
                self.phase = Phase::Submit;
            },
            (Phase::Submit, Event::Outcome(o)) => {
                self.record_outcome(o);
            },
            (Phase::Backoff, Event::Slept) => {
                self.attempt = self.attempt + 1;
                self.phase = Phase::FetchBaseFee;
            },
            _ => {},
        }
    }

    fn record_outcome(&mut self, o: AttemptOutcome)
        requires
            old(self).wf(),
            old(self).phase == Phase::Submit,
        ensures
            final(self).wf(),
            final(self).config == old(self).config,
            final(self).attempt == old(self).attempt,
            final(self).history@ == old(self).history@.push(AttemptRecord {
                attempt_number: old(self).attempt,
                nonce: old(self).request.nonce->0,
                gas_price: old(self).request.gas_price->0,
                min_gas_price: old(self).min_price,
                outcome: o,
            }),
            after_outcome(*old(self), *final(self), AttemptRecord {
                attempt_number: old(self).attempt,
                nonce: old(self).request.nonce->0,
                gas_price: old(self).request.gas_price->0,
                min_gas_price: old(self).min_price,
                outcome: o,
            }),
    {
        let nonce = match self.request.nonce {
            Some(n) => n,
            None => 0,
        };
        let price = match self.request.gas_price {
            Some(p) => p,
            None => 0,
        };
        let record = AttemptRecord {
            attempt_number: self.attempt,
            nonce,
            gas_price: price,
            min_gas_price: self.min_price,
            outcome: o,
        };
        let ghost h0 = self.history@;
        self.history.push(record);
        proof {
            let h = self.history@;
            assert(h[h.len() - 1] == record);
            assert forall|i: int, j: int| 0 <= i <= j < h.len() implies
                (#[trigger] h[i]).gas_price <= (#[trigger] h[j]).gas_price
                && h[i].nonce <= h[j].nonce by {
                if j == h.len() - 1 && i < j {
                    assert(h0[i].gas_price <= h0[h0.len() - 1].gas_price);
                    assert(h0[i].nonce <= h0[h0.len() - 1].nonce);
                } else if j < h.len() - 1 {
                    assert(h[i] == h0[i] && h[j] == h0[j]);
                }
            }
            assert forall|k: int| 0 <= k < h.len() - 1 implies
                #[trigger] corrected(self.config.correction, h[k], h[k + 1].nonce, h[k + 1].gas_price) by {
                if k < h0.len() - 1 {
                    assert(h[k] == h0[k] && h[k + 1] == h0[k + 1]);
                }
            }
            assert forall|k: int| 0 <= k < h.len() - 1 implies (#[trigger] h[k]).outcome != AttemptOutcome::Confirmed by {
                assert(h[k] == h0[k]);
            }
            assert forall|k: int| 0 <= k < h.len() implies (#[trigger] h[k]).attempt_number == k by {
                if k < h0.len() {
                    assert(h[k] == h0[k]);
                }
            }
        }
        match o {
            AttemptOutcome::Confirmed => {
                self.result = Some(Ok(record));
                self.phase = Phase::Finished;
            },
            AttemptOutcome::Fatal => {
                self.result = Some(Err(SubmissionError::Fatal));
                self.phase = Phase::Finished;
            },
            _ => {
                if self.attempt >= self.config.max_retries {
                    self.result = Some(Err(SubmissionError::RetriesExhausted));
                    self.phase = Phase::Finished;
                } else {
                    if o == AttemptOutcome::AlreadyKnown
                        && self.config.correction == CorrectionStrategy::NonceIncrement && nonce < u64::MAX {
                        self.request.nonce = Some(nonce + 1);
                    }
                    self.backoff_ms = retry_delay(self.config.retry_delay_base_ms, self.attempt);
                    self.phase = Phase::Backoff;
                }
            },
        }
    }
}

/// A submission's history never shows a lower gas price on a later attempt
/// than on an earlier one.
pub proof fn lemma_gas_price_never_decreases(s: Submission, k: int)
    requires
        s.wf(),
        0 <= k < s.history@.len() - 1,
    ensures
        s.history@[k].gas_price <= s.history@[k + 1].gas_price,
{
    assert(s.history@[k].gas_price <= s.history@[k + 1].gas_price);
}

/// Each retry carries one bump over the previous attempt's price, after
/// raising that price to the retry's minimum (base fee plus tip).
pub proof fn lemma_retry_price(s: Submission, k: int)
    requires
        s.wf(),
        0 <= k < s.history@.len() - 1,
    ensures
        s.history@[k + 1].gas_price as nat == bumped_price_spec(
            floored_price_spec(Some(s.history@[k].gas_price), s.history@[k + 1].min_gas_price as nat),
            s.config.gas_price_bump_percent as nat),
{
    assert(s.history@[k + 1].gas_price as nat == bumped_price_spec(
        floored_price_spec(Some(s.history@[k].gas_price), s.history@[k + 1].min_gas_price as nat),
        s.config.gas_price_bump_percent as nat));
}

/// After an attempt that the chain reported as already known, the next
/// attempt carries a strictly larger nonce (nonce correction) or a strictly
/// larger gas price (price correction), unless the corrected value was
/// already at its largest.
pub proof fn lemma_correction_strictly_increases(s: Submission, k: int)
    requires
        s.wf(),
        0 <= k < s.history@.len() - 1,
        s.history@[k].outcome == AttemptOutcome::AlreadyKnown,
    ensures
        s.config.correction == CorrectionStrategy::NonceIncrement && s.history@[k].nonce < u64::MAX
            ==> s.history@[k + 1].nonce > s.history@[k].nonce,
        s.config.correction == CorrectionStrategy::GasPriceBump && s.history@[k].gas_price < u128::MAX
            ==> s.history@[k + 1].gas_price > s.history@[k].gas_price,
{
    let h = s.history@;
    assert(corrected(s.config.correction, h[k], h[k + 1].nonce, h[k + 1].gas_price));
}

/// The nonce with which a finished submission was confirmed.
pub open spec fn confirmed_nonce(s: Submission) -> u64 {
    s.result->0->Ok_0.nonce
}

/// The nonce that the first attempt of a submission carried.
pub open spec fn first_nonce(s: Submission) -> u64 {
    s.history@[0].nonce
}

/// No two confirmed submissions of one account share a nonce, when each
/// submission starts from a nonce above every nonce confirmed before it, as
/// the chain's account nonce is once those confirmations are in.
pub proof fn lemma_confirmed_nonces_unique(runs: Seq<Submission>)
    requires
        forall|i: int| 0 <= i < runs.len() ==> (#[trigger] runs[i]).wf(),
        forall|i: int| 0 <= i < runs.len() ==> (#[trigger] runs[i]).result matches Some(Ok(_)),
        forall|i: int, j: int|
            0 <= i < j < runs.len() ==> first_nonce(#[trigger] runs[j]) > confirmed_nonce(#[trigger] runs[i]),
    ensures
        forall|i: int, j: int|
            0 <= i < j < runs.len() ==> confirmed_nonce(#[trigger] runs[i]) != confirmed_nonce(#[trigger] runs[j]),
{
    assert forall|i: int, j: int| 0 <= i < j < runs.len() implies
        confirmed_nonce(#[trigger] runs[i]) != confirmed_nonce(#[trigger] runs[j]) by {
        let s = runs[j];
        let h = s.history@;
        assert(s.wf());
        assert(h[0].nonce <= h[h.len() - 1].nonce);
        assert(confirmed_nonce(s) >= first_nonce(s));
        assert(first_nonce(runs[j]) > confirmed_nonce(runs[i]));
    }
}

/// Submits transactions for one account. The chain client itself stays with
/// the caller: `handle_transaction` hands back the state machine that drives
/// one submission.
#[derive(Clone, Copy, Debug)]
pub struct TransactionManager {
    pub address: Address,
    pub chain_id: u64,
    pub config: TxConfig,
}

impl TransactionManager {
    pub fn new(address: Address, chain_id: u64, config: TxConfig) -> (r: TransactionManager)
        ensures
            r.address == address,
            r.chain_id == chain_id,
            r.config == config,
    {
        TransactionManager { address, chain_id, config }
    }

    /// The account's address.
    pub fn get_address(&self) -> (r: Address)
        ensures
            r == self.address,
    {
        self.address
    }

    /// Starts the submission of `transaction` under this manager's policy.
    pub fn handle_transaction(&self, transaction: TransactionRequest) -> (r: Submission)
        ensures
            r.wf(),
            r.config == self.config,
            r.request == transaction,
            r.attempt == 0,
            r.history@.len() == 0,
            r.phase == (if transaction.nonce is None { Phase::FetchNonce } else { Phase::FetchBaseFee }),
    {
        Submission::new(self.config, transaction)
    }
}

/// Whether `event` answers the action that `phase` asks for.
pub open spec fn accepts(phase: Phase, event: Event) -> bool {
    match (phase, event) {
        (Phase::FetchNonce, Event::Nonce(_)) => true,
        (Phase::FetchNonce, Event::NonceUnavailable) => true,
        (Phase::FetchBaseFee, Event::BaseFee(_)) => true,
        (Phase::Submit, Event::Outcome(_)) => true,
        (Phase::Backoff, Event::Slept) => true,
        _ => false,
    }
}

pub open spec fn unchanged(a: Submission, b: Submission) -> bool {
    &&& a.config == b.config
    &&& a.request == b.request
    &&& a.phase == b.phase
    &&& a.attempt == b.attempt
    &&& a.backoff_ms == b.backoff_ms
    &&& a.history@ == b.history@
    &&& a.result == b.result
}

/// The request after an `AlreadyKnown` outcome has been corrected: under
/// `NonceIncrement` the nonce moves one slot forward; under `GasPriceBump`
/// the request stays as it is and the retry's price bump is the correction.
/// Any other outcome leaves the request as it was.
pub open spec fn correct_request(
    config: TxConfig,
    req: TransactionRequest,
    o: AttemptOutcome,
) -> TransactionRequest {
    if o == AttemptOutcome::AlreadyKnown && config.correction == CorrectionStrategy::NonceIncrement
        && req.nonce->0 < u64::MAX {
        TransactionRequest { nonce: Some((req.nonce->0 + 1) as u64), ..req }
    } else {
        req
    }
}

/// The state after attempt `record` ended: a confirmation or a fatal
/// rejection ends the submission; any other failure ends it once the retries
/// are spent, and otherwise schedules the next attempt after a backoff.
pub open spec fn after_outcome(old: Submission, new: Submission, record: AttemptRecord) -> bool {
    if record.outcome == AttemptOutcome::Confirmed {
        new.phase == Phase::Finished && new.result == Some(Ok::<AttemptRecord, SubmissionError>(record))
    } else if record.outcome == AttemptOutcome::Fatal {
        new.phase == Phase::Finished
            && new.result == Some(Err::<AttemptRecord, SubmissionError>(SubmissionError::Fatal))
    } else if old.attempt >= old.config.max_retries {
        new.phase == Phase::Finished
            && new.result == Some(Err::<AttemptRecord, SubmissionError>(SubmissionError::RetriesExhausted))
    } else {
        &&& new.phase == Phase::Backoff
        &&& new.backoff_ms == backoff_spec(old.config.retry_delay_base_ms as nat, old.attempt as nat)
        &&& new.request == correct_request(old.config, old.request, record.outcome)
    }
}

/// The delay before retry `attempt` (counting from 0).
pub fn retry_delay(base_ms: u64, attempt: u32) -> (r: u64)
    ensures
        r as nat == backoff_spec(base_ms as nat, attempt as nat),
{
    let factor: u64 = attempt as u64 + 1;
    match base_ms.checked_mul(factor) {
        Some(d) => d,
        None => u64::MAX,
    }
}

} // verus!
