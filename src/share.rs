use vstd::prelude::*;
use crate::error::ErrorCode;

verus! {

/// One whole share, in basis points.
pub const BPS_DENOMINATOR: u64 = 10000;

pub open spec fn min_int(a: int, b: int) -> int {
    if a <= b {
        a
    } else {
        b
    }
}

/// The share of the day's claim, in basis points, that a page is eligible
/// for: the configured maximum, or the fraction of `y0` still locked if that
/// is smaller.
pub open spec fn eligible_share_bps_spec(locked_total: int, y0: int, max_bps: int) -> int {
    min_int(max_bps, locked_total * 10000 / y0)
}

/// The part of `claimed` that `share_bps` basis points stand for, rounded down.
pub open spec fn investor_fee_quote_spec(claimed: int, share_bps: int) -> int {
    claimed * share_bps / 10000
}

/// What is left under the daily cap after `distributed` was paid.
pub open spec fn cap_headroom_spec(cap: int, distributed: int) -> int {
    if cap > distributed {
        cap - distributed
    } else {
        0
    }
}

/// The amount a page distributes among its investors.
pub open spec fn effective_quote_spec(
    locked_total: int,
    y0: int,
    max_bps: int,
    claimed: int,
    daily_cap: Option<u64>,
    distributed: int,
) -> int {
    let quote = investor_fee_quote_spec(claimed, eligible_share_bps_spec(locked_total, y0, max_bps));
    match daily_cap {
        Some(cap) => min_int(quote, cap_headroom_spec(cap as int, distributed)),
        None => quote,
    }
}

/// Whether `y0` and the maximum share make a usable policy.
pub open spec fn share_policy_valid(y0: int, max_bps: int) -> bool {
    y0 > 0 && max_bps <= 10000
}

/// The eligible share of one page, in basis points.
pub fn eligible_share_bps(locked_total: u64, y0: u64, max_bps: u16) -> (r: u16)
    requires
        share_policy_valid(y0 as int, max_bps as int),
    ensures
        r == eligible_share_bps_spec(locked_total as int, y0 as int, max_bps as int),
        r <= max_bps,
{
    let locked_bps: u128 = (locked_total as u128) * 10000u128 / (y0 as u128);
    if locked_bps < max_bps as u128 {
        locked_bps as u16
    } else {
        max_bps
    }
}

/// The part of `claimed` that `share_bps` basis points stand for, rounded down.
pub fn investor_fee_quote(claimed: u64, share_bps: u16) -> (r: u64)
    requires
        share_bps <= 10000,
    ensures
        r == investor_fee_quote_spec(claimed as int, share_bps as int),
        r <= claimed,
{
    proof {
        lemma_share_of_at_most(claimed as int, share_bps as int);
    }
    let product: u128 = (claimed as u128) * (share_bps as u128);
    (product / (BPS_DENOMINATOR as u128)) as u64
}

/// The amount one page distributes: the investors' fee quote, bounded by
/// the headroom under the daily cap where one is set.
pub fn effective_quote(
    locked_total: u64,
    y0: u64,
    investor_fee_share_bps: u16,
    claimed_quote_for_day: u64,
    daily_cap: Option<u64>,
    cumulative_distributed_today: u64,
) -> (r: Result<u64, ErrorCode>)
    ensures
        !share_policy_valid(y0 as int, investor_fee_share_bps as int) ==> r == Err::<u64, ErrorCode>(
            ErrorCode::InvalidPolicy,
        ),
        share_policy_valid(y0 as int, investor_fee_share_bps as int) ==> r is Ok && r->Ok_0
            == effective_quote_spec(
            locked_total as int,
            y0 as int,
            investor_fee_share_bps as int,
            claimed_quote_for_day as int,
            daily_cap,
            cumulative_distributed_today as int,
        ),
        r is Ok ==> r->Ok_0 <= claimed_quote_for_day,
{
    if y0 == 0 || investor_fee_share_bps as u64 > BPS_DENOMINATOR {
        return Err(ErrorCode::InvalidPolicy);
    }
    let share_bps = eligible_share_bps(locked_total, y0, investor_fee_share_bps);
    let quote = investor_fee_quote(claimed_quote_for_day, share_bps);
    match daily_cap {
        Some(cap) => {
            let headroom: u64 = if cap > cumulative_distributed_today {
                cap - cumulative_distributed_today
            } else {
                0
            };
            if quote <= headroom {
                Ok(quote)
            } else {
                Ok(headroom)
            }
        },
        None => Ok(quote),
    }
}

/// Basis points of an amount never exceed the amount, and their product
/// fits in 128 bits.
pub proof fn lemma_share_of_at_most(amount: int, bps: int)
    requires
        0 <= amount <= u64::MAX,
        0 <= bps <= 10000,
    ensures
        0 <= amount * bps <= u64::MAX * 10000,
        0 <= amount * bps / 10000 <= amount,
{
    assert(0 <= amount * bps <= amount * 10000) by (nonlinear_arith)
        requires
            0 <= amount,
            0 <= bps <= 10000,
    ;
    assert(amount * bps / 10000 <= amount * 10000 / 10000) by (nonlinear_arith)
        requires
            0 <= amount * bps <= amount * 10000,
    ;
}

/// Under a usable policy the effective quote is a part of the claim, and
/// never more than the cap headroom where a cap is set.
pub proof fn lemma_effective_quote_bounds(
    locked_total: int,
    y0: int,
    max_bps: int,
    claimed: int,
    daily_cap: Option<u64>,
    distributed: int,
)
    requires
        share_policy_valid(y0, max_bps),
        0 <= max_bps,
        0 <= locked_total,
        0 <= claimed <= u64::MAX,
    ensures
        0 <= effective_quote_spec(locked_total, y0, max_bps, claimed, daily_cap, distributed)
            <= claimed,
        daily_cap matches Some(cap) ==> effective_quote_spec(
            locked_total,
            y0,
            max_bps,
            claimed,
            daily_cap,
            distributed,
        ) <= cap_headroom_spec(cap as int, distributed),
{
    assert(locked_total * 10000 / y0 >= 0) by (nonlinear_arith)
        requires
            locked_total >= 0,
            y0 > 0,
    ;
    let bps = eligible_share_bps_spec(locked_total, y0, max_bps);
    lemma_share_of_at_most(claimed, bps);
}

/// The share calculator depends on its inputs alone: two evaluations on the
/// same inputs give the same effective quote.
pub proof fn lemma_effective_quote_deterministic(
    locked_total: u64,
    y0: u64,
    max_bps: u16,
    claimed: u64,
    daily_cap: Option<u64>,
    distributed: u64,
    locked_total2: u64,
    y02: u64,
    max_bps2: u16,
    claimed2: u64,
    daily_cap2: Option<u64>,
    distributed2: u64,
)
    requires
        locked_total == locked_total2,
        y0 == y02,
        max_bps == max_bps2,
        claimed == claimed2,
        daily_cap == daily_cap2,
        distributed == distributed2,
    ensures
        effective_quote_spec(
            locked_total as int,
            y0 as int,
            max_bps as int,
            claimed as int,
            daily_cap,
            distributed as int,
        ) == effective_quote_spec(
            locked_total2 as int,
            y02 as int,
            max_bps2 as int,
            claimed2 as int,
            daily_cap2,
            distributed2 as int,
        ),
{
}

} // verus!
