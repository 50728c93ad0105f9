use vstd::prelude::*;

verus! {

/// Per-day distribution progress, kept between page calls.
#[derive(Clone, Copy, Debug, PartialEq, Eq, Structural)]
pub struct ProgressAccount {
    /// The window this record belongs to; moved one window on at day close.
    pub day_id: i64,
    /// Time of the day's first page call; zero while the day has not started.
    pub last_distribution_ts: i64,
    /// Quote revenue claimed for the day, fixed once claimed.
    pub claimed_quote_for_day: u64,
    /// Total transferred to investors this day.
    pub cumulative_distributed_today: u64,
    /// Total withheld as dust this day.
    pub carry_over: u64,
    /// Number of pages processed this day.
    pub pagination_cursor: u64,
}

impl ProgressAccount {
    /// What was paid and withheld never exceeds what was claimed.
    pub open spec fn wf(&self) -> bool {
        self.cumulative_distributed_today + self.carry_over <= self.claimed_quote_for_day
    }

    /// Whether the day's revenue has been claimed.
    pub open spec fn started(&self) -> bool {
        self.last_distribution_ts != 0
    }

    /// The claimed quote that was neither transferred nor withheld.
    pub open spec fn remainder_spec(&self) -> int {
        self.claimed_quote_for_day - self.cumulative_distributed_today - self.carry_over
    }

    /// A record for a day that has not started.
    pub open spec fn fresh_spec(day_id: i64) -> ProgressAccount {
        ProgressAccount {
            day_id,
            last_distribution_ts: 0,
            claimed_quote_for_day: 0,
            cumulative_distributed_today: 0,
            carry_over: 0,
            pagination_cursor: 0,
        }
    }

    /// A zeroed record for `day_id`, not yet started.
    pub fn fresh(day_id: i64) -> (r: ProgressAccount)
        ensures
            r == ProgressAccount::fresh_spec(day_id),
            r.wf(),
            !r.started(),
    {
        ProgressAccount {
            day_id,
            last_distribution_ts: 0,
            claimed_quote_for_day: 0,
            cumulative_distributed_today: 0,
            carry_over: 0,
            pagination_cursor: 0,
        }
    }

    /// The stored record for a day, or a fresh one where none is stored.
    pub fn load_or_create(stored: Option<ProgressAccount>, day_id: i64) -> (r: ProgressAccount)
        ensures
            r == match stored {
                Some(p) => p,
                None => ProgressAccount::fresh_spec(day_id),
            },
    {
        match stored {
            Some(p) => p,
            None => ProgressAccount::fresh(day_id),
        }
    }

    /// Whether the record satisfies its invariant.
    pub fn is_well_formed(&self) -> (r: bool)
        ensures
            r == self.wf(),
    {
        (self.cumulative_distributed_today as u128) + (self.carry_over as u128)
            <= self.claimed_quote_for_day as u128
    }

    /// Whether the next page call must claim the day's revenue first.
    pub fn needs_claim(&self) -> (r: bool)
        ensures
            r == !self.started(),
    {
        self.last_distribution_ts == 0
    }

    /// The claimed quote that was neither transferred nor withheld.
    pub fn remainder(&self) -> (r: u64)
        requires
            self.wf(),
        ensures
            r == self.remainder_spec(),
    {
        self.claimed_quote_for_day - self.cumulative_distributed_today - self.carry_over
    }
}

} // verus!
