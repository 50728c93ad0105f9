use vstd::prelude::*;
use crate::config::AccountKey;

verus! {

/// A linear vesting stream: everything is locked up to `start_ts`, nothing
/// from `end_ts` on, and the allocation unlocks linearly in between.
#[derive(Clone, Copy, Debug, PartialEq, Eq)]
pub struct StreamAccount {
    pub initial_allocation: u64,
    pub start_ts: i64,
    pub end_ts: i64,
    pub mint: AccountKey,
    pub recipient: AccountKey,
}

/// The amount of `initial` still locked at `timestamp`; the unlocked part is
/// rounded down.
pub open spec fn locked_at(initial: int, start: int, end: int, timestamp: int) -> int {
    if timestamp >= end {
        0
    } else if timestamp <= start {
        initial
    } else {
        initial - initial * (timestamp - start) / (end - start)
    }
}

impl StreamAccount {
    pub fn new(
        initial_allocation: u64,
        start_ts: i64,
        end_ts: i64,
        mint: AccountKey,
        recipient: AccountKey,
    ) -> (r: StreamAccount)
        ensures
            r == (StreamAccount { initial_allocation, start_ts, end_ts, mint, recipient }),
    {
        StreamAccount { initial_allocation, start_ts, end_ts, mint, recipient }
    }

    /// The amount still locked at `timestamp`.
    pub fn locked_amount(&self, timestamp: i64) -> (r: u64)
        ensures
            r == locked_at(
                self.initial_allocation as int,
                self.start_ts as int,
                self.end_ts as int,
                timestamp as int,
            ),
            r <= self.initial_allocation,
    {
        if timestamp >= self.end_ts {
            0
        } else if timestamp <= self.start_ts {
            self.initial_allocation
        } else {
            let duration: u128 = (self.end_ts as i128 - self.start_ts as i128) as u128;
            let elapsed: u128 = (timestamp as i128 - self.start_ts as i128) as u128;
            proof {
                lemma_unlocked_within(self.initial_allocation as int, elapsed as int, duration as int);
            }
            let unlocked: u128 = (self.initial_allocation as u128) * elapsed / duration;
            self.initial_allocation - unlocked as u64
        }
    }
}

/// The unlocked part of an allocation is within the allocation, and its
/// product fits in 128 bits.
proof fn lemma_unlocked_within(initial: int, elapsed: int, duration: int)
    requires
        0 <= initial <= u64::MAX,
        0 < elapsed < duration <= u64::MAX,
    ensures
        0 <= initial * elapsed <= u64::MAX * u64::MAX,
        0 <= initial * elapsed / duration <= initial,
{
    assert(0 <= initial * elapsed <= initial * duration) by (nonlinear_arith)
        requires
            0 <= initial,
            0 < elapsed < duration,
    ;
    assert(initial * duration <= u64::MAX * u64::MAX) by (nonlinear_arith)
        requires
            0 <= initial <= u64::MAX,
            0 < duration <= u64::MAX,
    ;
    assert(initial * elapsed / duration <= initial * duration / duration) by (nonlinear_arith)
        requires
            0 <= initial * elapsed <= initial * duration,
            0 < duration,
    ;
    assert(initial * duration / duration == initial) by (nonlinear_arith)
        requires
            0 < duration,
    ;
}

} // verus!
