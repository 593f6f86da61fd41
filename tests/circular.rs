use evm_load::circular::{CircularError, CircularTracker, HolderState};

/// Balances after an iteration in which the fund moved from `from` to `to`
/// (every account keeps some dust).
fn balances_with_fund_at(n: usize, at: usize, fund: u128) -> Vec<u128> {
    (0..n).map(|i| if i == at { fund + 17 } else { 5 }).collect()
}

/// Reads balances in scan order, stopping at the first that shows the fund.
fn scan(tracker: &CircularTracker, balances: &[u128]) -> Vec<u128> {
    let mut scanned = Vec::new();
    for k in 0..tracker.num_accounts {
        let b = balances[tracker.scan_candidate(k)];
        scanned.push(b);
        if tracker.holds_fund(b) {
            break;
        }
    }
    scanned
}

#[test]
fn one_full_pass_of_five_accounts() {
    let mut t = CircularTracker::new(5, 1000).unwrap();
    assert_eq!(t.holder_fund, 2000);
    for iteration in 0..5u64 {
        let plan = t.planned_transfers(iteration, Some(100));
        let holder = t.state.holder_index;
        let receiver = plan[holder].receiver;
        let balances = balances_with_fund_at(5, receiver, t.holder_fund);
        let scanned = scan(&t, &balances);
        let found = t.detect_holder(iteration, &scanned);
        assert_eq!(found, Some(1));
        assert_eq!(t.state.holder_index, receiver);
    }
    assert_eq!(t.state.round, 1);
    assert_eq!(t.state.holder_index, 0);
    assert_eq!(t.state.round_started_at, 4);
    assert_eq!(t.state.last_round_took, 4);
    assert!(!t.state.round_ended);
}

#[test]
fn planned_transfers_pay_fund_from_holder_only() {
    let t = CircularTracker::new(3, 1000).unwrap();
    let plan = t.planned_transfers(7, Some(50));
    assert_eq!(plan.len(), 3);
    assert_eq!((plan[0].sender, plan[0].receiver, plan[0].amount), (0, 1, 2007));
    assert_eq!((plan[1].sender, plan[1].receiver, plan[1].amount), (1, 2, 7));
    assert_eq!((plan[2].sender, plan[2].receiver, plan[2].amount), (2, 0, 7));
    assert!(plan.iter().all(|p| p.gas_price == Some(57)));
    let no_price = t.planned_transfers(7, None);
    assert!(no_price.iter().all(|p| p.gas_price.is_none()));
}

#[test]
fn holder_is_an_account_whose_balance_shows_the_fund() {
    let mut t = CircularTracker::new(4, 10).unwrap();
    t.state.holder_index = 2;
    // scan order from 2: accounts 2, 3, 0, 1
    assert_eq!(t.scan_candidate(0), 2);
    assert_eq!(t.scan_candidate(1), 3);
    assert_eq!(t.scan_candidate(2), 0);
    assert_eq!(t.scan_candidate(3), 1);
    // dust at accounts 2 and 3 is not mistaken for the fund; the fund is at 0
    let found = t.detect_holder(3, &vec![1, 2, 20]);
    assert_eq!(found, Some(2));
    assert_eq!(t.state.holder_index, 0);
    // round_ended was false, so no new round
    assert_eq!(t.state.round, 0);
}

#[test]
fn fund_not_seen_leaves_state_alone() {
    let mut t = CircularTracker::new(3, 10).unwrap();
    t.state.holder_index = 1;
    let before: HolderState = t.state;
    let found = t.detect_holder(4, &vec![19, 0, 3]);
    assert_eq!(found, None);
    assert_eq!(t.state, before);
}

#[test]
fn round_increments_only_after_last_account() {
    let mut t = CircularTracker::new(3, 10).unwrap();
    // fund jumps straight to 0 without being seen at the last account
    t.state.holder_index = 1;
    assert_eq!(t.detect_holder(1, &vec![0, 0, 20]), Some(2));
    assert_eq!(t.state.holder_index, 0);
    assert_eq!(t.state.round, 0);
    // seen at the last account, then at the first
    assert_eq!(t.detect_holder(2, &vec![0, 0, 20]), Some(2));
    assert_eq!(t.state.holder_index, 2);
    assert!(t.state.round_ended);
    assert_eq!(t.detect_holder(3, &vec![0, 20]), Some(1));
    assert_eq!(t.state.holder_index, 0);
    assert_eq!(t.state.round, 1);
    assert_eq!(t.state.round_started_at, 3);
    assert_eq!(t.state.last_round_took, 3);
}

#[test]
fn tracker_setup_errors() {
    assert_eq!(CircularTracker::new(1, 10).err(), Some(CircularError::TooFewAccounts));
    assert_eq!(CircularTracker::new(0, 10).err(), Some(CircularError::TooFewAccounts));
    assert_eq!(CircularTracker::new(2, u128::MAX / 2 + 1).err(), Some(CircularError::FundOverflow));
    assert!(CircularTracker::new(2, u128::MAX / 2).is_ok());
}

#[test]
fn receiver_wraps_to_first_account() {
    let t = CircularTracker::new(4, 1).unwrap();
    assert_eq!(t.receiver_of(0), 1);
    assert_eq!(t.receiver_of(3), 0);
}

#[test]
fn holder_fund_amount_saturates() {
    let t = CircularTracker::new(2, u128::MAX / 2).unwrap();
    let plan = t.planned_transfers(u64::MAX, Some(u128::MAX));
    assert_eq!(plan[0].amount, u128::MAX);
    assert_eq!(plan[1].amount, u64::MAX as u128);
    assert_eq!(plan[0].gas_price, Some(u128::MAX));
}
