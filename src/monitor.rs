//! Passive monitors: they consume what the chain reports and never feed
//! decisions back into submission.
use vstd::prelude::*;

verus! {

/// Counts the transfers seen in blocks until a target is reached.
#[derive(Clone, Copy, Debug, PartialEq, Eq, Structural)]
pub struct TransferTally {
    pub seen: u64,
    pub target: u64,
}

impl TransferTally {
    pub fn new(target: u64) -> (r: TransferTally)
        ensures
            r.seen == 0,
            r.target == target,
    {
        TransferTally { seen: 0, target }
    }

    /// Adds the transfers of one block; true once the target is reached.
    pub fn record_block(&mut self, transfers_in_block: u64) -> (done: bool)
        ensures
            final(self).target == old(self).target,
            final(self).seen as nat == (if old(self).seen + transfers_in_block > u64::MAX {
                u64::MAX as nat } else { (old(self).seen + transfers_in_block) as nat }),
            done == (final(self).seen >= final(self).target),
    {
        self.seen = self.seen.saturating_add(transfers_in_block);
        self.seen >= self.target
    }
}

/// Whether a block is worth a report: it holds a bundle of the domain or a
/// transfer.
pub fn worth_reporting(domain_bundle_count: usize, transfer_count: usize) -> (r: bool)
    ensures
        r == (domain_bundle_count != 0 || transfer_count != 0),
{
    domain_bundle_count != 0 || transfer_count != 0
}

/// Smallest, largest and mean latency of the transfers of a block; the
/// mean is `None` when the sum of the latencies does not fit in a `u128`.
#[derive(Clone, Copy, Debug, PartialEq, Eq, Structural)]
pub struct LatencyStats {
    pub min: u128,
    pub max: u128,
    pub avg: Option<u128>,
}

/// The latency of a transfer stamped `sent_at` in a block created at
/// `created_at`: zero when the stamp is later than the block.
pub open spec fn latency(created_at: u128, sent_at: u128) -> u128 {
    if created_at >= sent_at { (created_at - sent_at) as u128 } else { 0 }
}

pub open spec fn latency_sum(created_at: u128, stamps: Seq<u128>) -> nat
    decreases stamps.len(),
{
    if stamps.len() == 0 {
        0
    } else {
        (latency_sum(created_at, stamps.drop_last()) + latency(created_at, stamps.last())) as nat
    }
}

/// The latencies of the transfers stamped `stamps` in a block created at
/// `created_at`; `None` for a block without transfers.
pub fn latency_stats(created_at: u128, stamps: &Vec<u128>) -> (r: Option<LatencyStats>)
    ensures
        stamps@.len() == 0 <==> r is None,
        r matches Some(s) ==> {
            &&& (exists|i: int| 0 <= i < stamps@.len() && s.min == latency(created_at, #[trigger] stamps@[i]))
            &&& (exists|i: int| 0 <= i < stamps@.len() && s.max == latency(created_at, #[trigger] stamps@[i]))
            &&& forall|i: int| 0 <= i < stamps@.len() ==> s.min <= latency(created_at, #[trigger] stamps@[i])
                && latency(created_at, stamps@[i]) <= s.max
            &&& s.avg == (if latency_sum(created_at, stamps@) <= u128::MAX {
                Some((latency_sum(created_at, stamps@) / stamps@.len()) as u128)
            } else {
                None::<u128>
            })
        },
{
    let n = stamps.len();
    if n == 0 {
        return None;
    }
    let mut min: u128 = created_at.saturating_sub(stamps[0]);
    let mut max: u128 = min;
    let mut sum: Option<u128> = Some(0);
    let mut i: usize = 0;
    while i < n
        invariant
            n == stamps@.len(),
            0 < n,
            i <= n,
            sum == (if latency_sum(created_at, stamps@.subrange(0, i as int)) <= u128::MAX {
                Some(latency_sum(created_at, stamps@.subrange(0, i as int)) as u128)
            } else {
                None::<u128>
            }),
            exists|j: int| 0 <= j < n && min == latency(created_at, #[trigger] stamps@[j]),
            exists|j: int| 0 <= j < n && max == latency(created_at, #[trigger] stamps@[j]),
            forall|j: int| 0 <= j < i ==> min <= latency(created_at, #[trigger] stamps@[j])
                && latency(created_at, stamps@[j]) <= max,
        decreases n - i,
    {
        let l = created_at.saturating_sub(stamps[i]);
        if l < min {
            min = l;
        }
        if l > max {
            max = l;
        }
        assert(stamps@.subrange(0, i as int + 1).drop_last() =~= stamps@.subrange(0, i as int));
        sum = match sum {
            Some(t) => t.checked_add(l),
            None => None,
        };
        i = i + 1;
    }
    assert(stamps@.subrange(0, n as int) =~= stamps@);
    let avg = match sum {
        Some(t) => Some(t / (n as u128)),
        None => None,
    };
    Some(LatencyStats { min, max, avg })
}

} // verus!
