use evm_load::batch_funder::{split_into_batches, FundingError, FundingRun};
use evm_load::calldata::transfer_to_many_calldata;
use evm_load::load_pool::{total_submitted, LoadError, LoadPlan, LoadWorker, MAX_POOL_ACCOUNTS};
use evm_load::request::TransactionRequest;
use evm_load::transaction_manager::{Action, AttemptOutcome, Event, Submission, SubmissionError, TxConfig};

fn addrs(n: usize) -> Vec<[u8; 20]> {
    (0..n).map(|i| [i as u8; 20]).collect()
}

#[test]
fn batches_never_exceed_batch_size() {
    let a = addrs(120);
    let b = split_into_batches(&a, 50);
    assert_eq!(b.iter().map(|c| c.len()).collect::<Vec<_>>(), vec![50, 50, 20]);
    assert_eq!(b.concat(), a);
    let exact = split_into_batches(&addrs(100), 50);
    assert_eq!(exact.len(), 2);
    assert!(split_into_batches(&Vec::new(), 50).is_empty());
    let ones = split_into_batches(&addrs(3), 1);
    assert_eq!(ones.len(), 3);
}

/// Runs a submission of `req` to its end against the given chain answers.
fn finish(req: TransactionRequest, fetched_nonce: u64, outcomes: &[AttemptOutcome]) -> Submission {
    let mut sub = Submission::new(TxConfig::standard(1), req);
    let mut next = 0;
    loop {
        match sub.next_action() {
            Action::FetchNonce => sub.on_event(Event::Nonce(fetched_nonce)),
            Action::FetchBaseFee => sub.on_event(Event::BaseFee(Some(1))),
            Action::Submit => {
                sub.on_event(Event::Outcome(outcomes[next]));
                next += 1;
            }
            Action::Sleep { .. } => sub.on_event(Event::Slept),
            Action::Finished(_) => return sub,
        }
    }
}

#[test]
fn funding_run_goes_chunk_by_chunk() {
    let to = addrs(7);
    let mut run = FundingRun::new([9; 20], 1002, [8; 20], &to, 100, 3, Some(40)).unwrap();
    assert_eq!(run.batches.len(), 3);
    let first = run.next_request();
    assert_eq!(first.value, Some(300));
    assert_eq!(first.nonce, Some(40));
    assert_eq!(first.to, Some([8; 20]));
    assert_eq!(first.from, Some([9; 20]));
    assert_eq!(first.chain_id, Some(1002));
    assert_eq!(first.data, Some(transfer_to_many_calldata(&to[0..3].to_vec())));
    // the first chunk's nonce was already known: it lands one slot later
    run.record(&finish(first, 0, &[AttemptOutcome::AlreadyKnown, AttemptOutcome::Confirmed]));
    let second = run.next_request();
    assert_eq!(second.nonce, Some(42));
    run.record(&finish(second, 0, &[AttemptOutcome::Confirmed]));
    let third = run.next_request();
    assert_eq!(third.value, Some(100));
    assert_eq!(third.data, Some(transfer_to_many_calldata(&to[6..7].to_vec())));
    run.record(&finish(third, 0, &[AttemptOutcome::Confirmed]));
    assert_eq!(run.next, 3);
    assert_eq!(run.confirmed, vec![41, 42, 43]);
    assert_eq!(run.outcome(), Ok(()));
}

#[test]
fn funding_run_stops_at_first_failure() {
    let to = addrs(5);
    let mut run = FundingRun::new([9; 20], 1, [8; 20], &to, 1, 2, None).unwrap();
    let first = run.next_request();
    assert_eq!(first.nonce, None);
    run.record(&finish(first, 3, &[AttemptOutcome::Confirmed]));
    assert_eq!(run.next_request().nonce, Some(4));
    let second = run.next_request();
    run.record(&finish(second, 0, &[AttemptOutcome::Fatal]));
    assert_eq!(run.next, 1);
    assert_eq!(run.confirmed, vec![3]);
    assert_eq!(run.outcome(), Err(SubmissionError::Fatal));
}

#[test]
fn funding_run_stops_when_nonce_is_exhausted() {
    let to = addrs(4);
    let mut run = FundingRun::new([9; 20], 1, [8; 20], &to, 1, 2, Some(u64::MAX)).unwrap();
    let first = run.next_request();
    run.record(&finish(first, 0, &[AttemptOutcome::Confirmed]));
    assert_eq!(run.confirmed, vec![u64::MAX]);
    assert_eq!(run.next_nonce, None);
    assert_eq!(run.outcome(), Err(SubmissionError::NonceExhausted));
}

#[test]
fn funding_setup_errors() {
    let to = addrs(5);
    assert_eq!(FundingRun::new([0; 20], 1, [0; 20], &to, 1, 0, None).err(), Some(FundingError::EmptyBatch));
    assert_eq!(
        FundingRun::new([0; 20], 1, [0; 20], &to, u128::MAX / 2, 3, None).err(),
        Some(FundingError::ValueOverflow)
    );
    assert_eq!(
        FundingRun::new([0; 20], 1, [0; 20], &to, 1, 0x0400_0000, None).err(),
        Some(FundingError::BatchTooLarge)
    );
}

#[test]
fn load_pool_four_workers_hundred_each() {
    let plan = LoadPlan::new(400, 4, 1_000_000).unwrap();
    assert_eq!(plan.per_account, 100);
    assert_eq!(plan.fund_per_account, 5000);
    assert_eq!(plan.total_transfers(), 400);
    let ranges = plan.partition();
    assert_eq!(ranges.len(), 4);
    for (i, r) in ranges.iter().enumerate() {
        assert_eq!(r.start, 100 * i as u32);
        assert_eq!(r.count, 100);
    }
    let mut total_requests = 0;
    let mut counts = Vec::new();
    for i in 0..4 {
        let mut w = LoadWorker::new(&plan, i);
        assert_eq!(w.amount, 1000);
        let mut pauses = 0;
        while let Some(t) = w.next_transfer() {
            assert_eq!(t.sender_seed, 100 * i + w.next);
            assert_eq!(t.receiver_seed, u32::MAX - t.sender_seed);
            total_requests += 1;
            // every seventh transfer is rejected
            w.record(t.sender_seed % 7 != 0);
            if w.should_pause() {
                pauses += 1;
            }
        }
        assert_eq!(pauses, 1);
        counts.push(w.submitted);
    }
    assert_eq!(total_requests, 400);
    let accepted = (0..400u32).filter(|s| s % 7 != 0).count() as u64;
    assert_eq!(total_submitted(&counts), accepted);
}

#[test]
fn load_plan_errors() {
    assert_eq!(LoadPlan::new(10, 0, 1).err(), Some(LoadError::NoWorkers));
    assert_eq!(LoadPlan::new(3, 4, 1).err(), Some(LoadError::TooFewTransfers));
    assert_eq!(LoadPlan::new(MAX_POOL_ACCOUNTS + 2, 2, 1).err(), Some(LoadError::TooManyTransfers));
    let p = LoadPlan::new(10, 3, 100).unwrap();
    assert_eq!(p.per_account, 3);
    assert_eq!(p.fund_per_account, 16);
}
