use evm_load::classify::{classify_rejection, contains, ErrorClass};
use evm_load::gas::{bump_gas_price, floor_gas_price, min_gas_price};
use evm_load::request::TransactionRequest;
use evm_load::transaction_manager::{
    retry_delay, Action, AttemptOutcome, AttemptRecord, CorrectionStrategy, Event,
    Phase, Submission, SubmissionError, TransactionManager, TxConfig,
};

const GWEI: u128 = 1_000_000_000;

fn config(max_retries: u32, correction: CorrectionStrategy) -> TxConfig {
    TxConfig::new(max_retries, 5000, 1, 60000, 2 * GWEI, 10, correction)
}

/// Drives a submission, answering every action from the given outcomes and
/// nonce. Returns the final result and the number of sleeps taken.
fn drive(
    sub: &mut Submission,
    nonce: u64,
    base_fee: Option<u128>,
    outcomes: &[AttemptOutcome],
) -> (Result<AttemptRecord, SubmissionError>, Vec<u64>) {
    let mut next_outcome = 0;
    let mut sleeps = Vec::new();
    loop {
        match sub.next_action() {
            Action::FetchNonce => sub.on_event(Event::Nonce(nonce)),
            Action::FetchBaseFee => sub.on_event(Event::BaseFee(base_fee)),
            Action::Submit => {
                let o = outcomes[next_outcome];
                next_outcome += 1;
                sub.on_event(Event::Outcome(o));
            }
            Action::Sleep { millis } => {
                sleeps.push(millis);
                sub.on_event(Event::Slept);
            }
            Action::Finished(r) => return (r, sleeps),
        }
    }
}

fn transfer() -> TransactionRequest {
    TransactionRequest::new().to([0x22; 20]).value(1000).from([0x11; 20])
}

#[test]
fn three_transient_errors_then_success() {
    let cfg = config(3, CorrectionStrategy::NonceIncrement);
    let mut sub = Submission::new(cfg, transfer());
    let outcomes = [
        AttemptOutcome::TransientNetwork,
        AttemptOutcome::TransientNetwork,
        AttemptOutcome::TransientNetwork,
        AttemptOutcome::Confirmed,
    ];
    let (result, sleeps) = drive(&mut sub, 7, Some(10 * GWEI), &outcomes);
    let rec = result.unwrap();
    assert_eq!(rec.outcome, AttemptOutcome::Confirmed);
    assert_eq!(rec.attempt_number, 3);
    assert_eq!(sub.history.len(), 4);
    let confirmed = sub.history.iter().filter(|r| r.outcome == AttemptOutcome::Confirmed).count();
    assert_eq!(confirmed, 1);
    let retried = sub.history.iter().filter(|r| r.outcome == AttemptOutcome::TransientNetwork).count();
    assert_eq!(retried, 3);
    assert_eq!(sleeps, vec![5000, 10000, 15000]);
    // a transient failure changes neither the nonce nor skips the bump
    assert!(sub.history.iter().all(|r| r.nonce == 7));
}

#[test]
fn stale_nonce_needs_one_correction() {
    let cfg = config(3, CorrectionStrategy::NonceIncrement);
    let mut sub = Submission::new(cfg, transfer().nonce(5));
    assert_eq!(sub.phase, Phase::FetchBaseFee);
    let outcomes = [AttemptOutcome::AlreadyKnown, AttemptOutcome::Confirmed];
    let (result, sleeps) = drive(&mut sub, 0, Some(10 * GWEI), &outcomes);
    let rec = result.unwrap();
    assert_eq!(sub.history.len(), 2);
    assert_eq!(sub.history[0].nonce, 5);
    assert_eq!(rec.nonce, 6);
    assert_eq!(sleeps.len(), 1);
}

#[test]
fn price_correction_keeps_nonce_and_raises_price() {
    let cfg = config(3, CorrectionStrategy::GasPriceBump);
    let mut sub = Submission::new(cfg, transfer().nonce(5));
    let outcomes = [AttemptOutcome::AlreadyKnown, AttemptOutcome::Confirmed];
    let (result, _) = drive(&mut sub, 0, Some(10 * GWEI), &outcomes);
    let rec = result.unwrap();
    assert_eq!(rec.nonce, 5);
    // first attempt: 10 gwei base + 2 gwei tip
    assert_eq!(sub.history[0].gas_price, 12 * GWEI);
    // the correction is the retry's single 10% bump: 13.2 gwei
    assert_eq!(rec.gas_price, 13_200_000_000);
    assert_eq!(rec.min_gas_price, 12 * GWEI);
    assert!(rec.gas_price > sub.history[0].gas_price);
}

#[test]
fn price_correction_is_one_bump_over_previous_price() {
    let cfg = config(3, CorrectionStrategy::GasPriceBump);
    let mut sub = Submission::new(cfg, transfer().nonce(5).gas_price(100 * GWEI));
    let outcomes = [AttemptOutcome::AlreadyKnown, AttemptOutcome::Confirmed];
    let (result, _) = drive(&mut sub, 0, Some(GWEI), &outcomes);
    assert_eq!(sub.history[0].gas_price, 100 * GWEI);
    let rec = result.unwrap();
    assert_eq!(rec.gas_price, 110 * GWEI);
    assert_eq!(rec.nonce, 5);
}

#[test]
fn gas_price_never_decreases_across_attempts() {
    let cfg = config(4, CorrectionStrategy::NonceIncrement);
    let mut sub = Submission::new(cfg, transfer().gas_price(50 * GWEI));
    let fees = [Some(10 * GWEI), Some(100 * GWEI), Some(GWEI), None, Some(5 * GWEI)];
    let outcomes = [
        AttemptOutcome::TransientNetwork,
        AttemptOutcome::AlreadyKnown,
        AttemptOutcome::TransientNetwork,
        AttemptOutcome::TransientNetwork,
        AttemptOutcome::Confirmed,
    ];
    let mut fee_i = 0;
    let mut out_i = 0;
    let result = loop {
        match sub.next_action() {
            Action::FetchNonce => sub.on_event(Event::Nonce(3)),
            Action::FetchBaseFee => {
                sub.on_event(Event::BaseFee(fees[fee_i]));
                fee_i += 1;
            }
            Action::Submit => {
                sub.on_event(Event::Outcome(outcomes[out_i]));
                out_i += 1;
            }
            Action::Sleep { .. } => sub.on_event(Event::Slept),
            Action::Finished(r) => break r,
        }
    };
    assert!(result.is_ok());
    assert_eq!(sub.history.len(), 5);
    for k in 0..4 {
        assert!(sub.history[k].gas_price <= sub.history[k + 1].gas_price);
    }
    // the caller's 50 gwei is kept on the first attempt
    assert_eq!(sub.history[0].gas_price, 50 * GWEI);
    // the second attempt is floored to 102 gwei and bumped by 10%
    assert_eq!(sub.history[1].gas_price, 112_200_000_000);
    // the already-known attempt moved the nonce forward
    assert_eq!(sub.history[2].nonce, 4);
}

#[test]
fn retries_exhausted() {
    let cfg = config(2, CorrectionStrategy::NonceIncrement);
    let mut sub = Submission::new(cfg, transfer());
    let outcomes = [AttemptOutcome::TransientNetwork; 3];
    let (result, sleeps) = drive(&mut sub, 1, None, &outcomes);
    assert_eq!(result, Err(SubmissionError::RetriesExhausted));
    assert_eq!(sub.history.len(), 3);
    assert_eq!(sleeps, vec![5000, 10000]);
    // fallback base fee of 1 gwei plus the 2 gwei tip
    assert_eq!(sub.history[0].gas_price, 3 * GWEI);
}

#[test]
fn fatal_error_stops_at_once() {
    let cfg = config(3, CorrectionStrategy::NonceIncrement);
    let mut sub = Submission::new(cfg, transfer());
    let outcomes = [AttemptOutcome::Fatal];
    let (result, sleeps) = drive(&mut sub, 1, Some(GWEI), &outcomes);
    assert_eq!(result, Err(SubmissionError::Fatal));
    assert_eq!(sub.history.len(), 1);
    assert!(sleeps.is_empty());
}

#[test]
fn nonce_unavailable_ends_submission() {
    let cfg = config(3, CorrectionStrategy::NonceIncrement);
    let mut sub = Submission::new(cfg, transfer());
    assert!(matches!(sub.next_action(), Action::FetchNonce));
    sub.on_event(Event::NonceUnavailable);
    assert!(matches!(sub.next_action(), Action::Finished(Err(SubmissionError::NonceUnavailable))));
    assert!(sub.history.is_empty());
}

#[test]
fn unexpected_event_is_ignored() {
    let cfg = config(3, CorrectionStrategy::NonceIncrement);
    let mut sub = Submission::new(cfg, transfer());
    sub.on_event(Event::Slept);
    sub.on_event(Event::Outcome(AttemptOutcome::Confirmed));
    assert_eq!(sub.phase, Phase::FetchNonce);
    assert!(sub.history.is_empty());
}

#[test]
fn confirmed_nonces_of_successive_submissions_differ() {
    let cfg = config(3, CorrectionStrategy::NonceIncrement);
    let manager = TransactionManager::new([0x11; 20], 1002, cfg);
    assert_eq!(manager.get_address(), [0x11; 20]);
    let mut first = manager.handle_transaction(transfer());
    let (r1, _) = drive(&mut first, 9, Some(GWEI), &[AttemptOutcome::AlreadyKnown, AttemptOutcome::Confirmed]);
    let c1 = r1.unwrap().nonce;
    // the chain's nonce after that confirmation is one past it
    let mut second = manager.handle_transaction(transfer());
    let (r2, _) = drive(&mut second, c1 + 1, Some(GWEI), &[AttemptOutcome::Confirmed]);
    assert_eq!(c1, 10);
    assert_ne!(r2.unwrap().nonce, c1);
}

#[test]
fn config_accepts_any_bump_percentage() {
    let c = TxConfig::new(3, 5000, 1, 1000, GWEI, 150, CorrectionStrategy::GasPriceBump);
    assert_eq!(c.gas_price_bump_percent, 150);
    assert_eq!(bump_gas_price(100, 150), 250);
    assert_eq!(bump_gas_price(1000, 1234), 13340);
    assert_eq!(bump_gas_price(u128::MAX / 2, 300), u128::MAX);
    assert_eq!(bump_gas_price(200, u128::MAX), u128::MAX);
    assert_eq!(bump_gas_price(7, u128::MAX), 7 + 7 * (u128::MAX / 100) + (7 * (u128::MAX % 100)) / 100);
    let std = TxConfig::standard(3);
    assert_eq!(std.max_retries, 3);
    assert_eq!(std.gas_price_bump_percent, 10);
    assert_eq!(std.correction, CorrectionStrategy::NonceIncrement);
}

#[test]
fn gas_formulas() {
    assert_eq!(min_gas_price(10 * GWEI, 2 * GWEI), 12 * GWEI);
    assert_eq!(min_gas_price(u128::MAX, 1), u128::MAX);
    assert_eq!(floor_gas_price(Some(5), 12), 12);
    assert_eq!(floor_gas_price(Some(20), 12), 20);
    assert_eq!(floor_gas_price(None, 12), 12);
    assert_eq!(bump_gas_price(100, 10), 110);
    assert_eq!(bump_gas_price(12 * GWEI, 10), 13_200_000_000);
    assert_eq!(bump_gas_price(5, 10), 6);
    assert_eq!(bump_gas_price(0, 10), 1);
    assert_eq!(bump_gas_price(199, 100), 398);
    assert_eq!(bump_gas_price(u128::MAX, 10), u128::MAX);
    assert_eq!(retry_delay(5000, 0), 5000);
    assert_eq!(retry_delay(5000, 2), 15000);
    assert_eq!(retry_delay(u64::MAX, 1), u64::MAX);
}

#[test]
fn rejection_messages_are_classified() {
    let known = "(code: -32000, message: already known, data: None)";
    assert_eq!(classify_rejection(known.as_bytes()), ErrorClass::AlreadyKnown);
    let under = "replacement transaction underpriced";
    assert_eq!(classify_rejection(under.as_bytes()), ErrorClass::AlreadyKnown);
    let funds = "insufficient funds for gas * price + value";
    assert_eq!(classify_rejection(funds.as_bytes()), ErrorClass::Fatal);
    assert_eq!(classify_rejection(b"invalid signature"), ErrorClass::Fatal);
    assert_eq!(classify_rejection(b"connection reset by peer"), ErrorClass::TransientNetwork);
    assert_eq!(classify_rejection(b""), ErrorClass::TransientNetwork);
    assert!(contains(b"abcabd", b"abd"));
    assert!(!contains(b"abcab", b"abd"));
    assert!(contains(b"abc", b""));
    assert!(!contains(b"ab", b"abc"));
}

#[test]
fn request_builders_set_fields() {
    let r = TransactionRequest::new().to([1; 20]).value(5).nonce(3).gas_price(9).chain_id(1002);
    assert_eq!(r.to, Some([1; 20]));
    assert_eq!(r.value, Some(5));
    assert_eq!(r.nonce, Some(3));
    assert_eq!(r.gas_price, Some(9));
    assert_eq!(r.chain_id, Some(1002));
    assert_eq!(r.from, None);
    assert_eq!(r.data, None);
}
