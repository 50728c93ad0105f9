use vstd::prelude::*;
use crate::day::{day_id_for, day_of};
use crate::error::ErrorCode;
use crate::page::{
    distribute_page, distributed_upto, lemma_split_within_quote, lines_upto, sum_locked,
    sum_prefix, withheld_upto, PayoutLine, lemma_prefix_monotone,
};
use crate::progress::ProgressAccount;
use crate::share::{
    cap_headroom_spec, effective_quote, effective_quote_spec, lemma_effective_quote_bounds,
    share_policy_valid, BPS_DENOMINATOR,
};

verus! {

/// Which locked total a page's eligible share and weights are taken over.
#[derive(Clone, Copy, Debug, PartialEq, Eq, Structural)]
pub enum LockedAccounting {
    /// The locked total of the page alone.
    PerPage,
    /// A locked total for the whole day, at least that of any page.
    WholeDay { day_locked_total: u64 },
}

/// Policy of a distribution day; the same on every page of one day.
#[derive(Clone, Copy, Debug, PartialEq, Eq, Structural)]
pub struct PolicyParameters {
    /// Total locked amount that a full share stands for.
    pub y0: u64,
    /// Largest share of the claim for investors, in basis points.
    pub investor_fee_share_bps: u16,
    /// Ceiling on what investors are transferred in one day.
    pub daily_cap: Option<u64>,
    /// Smallest amount that is transferred; smaller shares are withheld.
    pub min_payout: u64,
    /// Which locked total the share is taken over.
    pub accounting: LockedAccounting,
}

/// Event: the day's quote revenue was claimed.
#[derive(Clone, Copy, Debug, PartialEq, Eq, Structural)]
pub struct QuoteFeesClaimed {
    pub day_id: i64,
    pub claimed_quote: u64,
}

/// Event: a page of investors was paid.
#[derive(Clone, Copy, Debug, PartialEq, Eq, Structural)]
pub struct InvestorPayoutPage {
    pub day_id: i64,
    pub page_id: u64,
    pub page_total_distributed: u64,
}

/// Event: the day was closed and its remainder routed to the creator.
#[derive(Clone, Copy, Debug, PartialEq, Eq, Structural)]
pub struct CreatorPayoutDayClosed {
    pub day_id: i64,
    pub creator_amount: u64,
}

/// Everything one page call decides: the progress to save, the transfers to
/// make and the events to emit.
pub struct PageReceipt {
    /// The progress record to save once every transfer went through.
    pub progress: ProgressAccount,
    /// The quote this page split among its investors.
    pub effective_quote: u64,
    /// One line per investor with something locked, in page order.
    pub lines: Vec<PayoutLine>,
    /// Sum of the transferred amounts of `lines`.
    pub page_total_distributed: u64,
    /// Sum of the withheld amounts of `lines`.
    pub page_total_withheld: u64,
    /// Present when this call claimed the day's revenue.
    pub fees_claimed: Option<QuoteFeesClaimed>,
    pub payout_page: InvestorPayoutPage,
    /// Present on the final page; its amount goes to the creator.
    pub day_closed: Option<CreatorPayoutDayClosed>,
}

/// Whether the policy can be used at all.
pub open spec fn policy_valid(policy: PolicyParameters) -> bool {
    share_policy_valid(policy.y0 as int, policy.investor_fee_share_bps as int)
}

/// The day key of a call made at `now`.
pub open spec fn call_day(now: i64) -> i64 {
    day_of(now as int) as i64
}

/// What was claimed by the call, zero where nothing was.
pub open spec fn claim_amount(claimed: Option<u64>) -> u64 {
    match claimed {
        Some(a) => a,
        None => 0,
    }
}

/// The progress a page works on: the stored record once the day has
/// started, else a record opened with the new claim.
pub open spec fn opened_spec(p: ProgressAccount, now: i64, claimed: Option<u64>) -> ProgressAccount {
    if p.started() {
        p
    } else {
        ProgressAccount {
            day_id: call_day(now),
            last_distribution_ts: now,
            claimed_quote_for_day: claim_amount(claimed),
            cumulative_distributed_today: 0,
            carry_over: 0,
            pagination_cursor: 0,
        }
    }
}

/// The locked total that shares and weights are taken over.
pub open spec fn denominator_spec(policy: PolicyParameters, page_total: int) -> int {
    match policy.accounting {
        LockedAccounting::PerPage => page_total,
        LockedAccounting::WholeDay { day_locked_total } => day_locked_total as int,
    }
}

/// The quote a page splits among its investors.
pub open spec fn page_quote_spec(
    p: ProgressAccount,
    now: i64,
    claimed: Option<u64>,
    locked: Seq<u64>,
    policy: PolicyParameters,
) -> int {
    let o = opened_spec(p, now, claimed);
    effective_quote_spec(
        denominator_spec(policy, sum_locked(locked)),
        policy.y0 as int,
        policy.investor_fee_share_bps as int,
        o.claimed_quote_for_day as int,
        policy.daily_cap,
        o.cumulative_distributed_today as int,
    )
}

/// What the page transfers in all.
pub open spec fn page_distributed_spec(
    p: ProgressAccount,
    now: i64,
    claimed: Option<u64>,
    locked: Seq<u64>,
    policy: PolicyParameters,
) -> int {
    distributed_upto(
        locked,
        locked.len() as int,
        denominator_spec(policy, sum_locked(locked)),
        page_quote_spec(p, now, claimed, locked, policy),
        policy.min_payout as int,
    )
}

/// What the page withholds in all.
pub open spec fn page_withheld_spec(
    p: ProgressAccount,
    now: i64,
    claimed: Option<u64>,
    locked: Seq<u64>,
    policy: PolicyParameters,
) -> int {
    withheld_upto(
        locked,
        locked.len() as int,
        denominator_spec(policy, sum_locked(locked)),
        page_quote_spec(p, now, claimed, locked, policy),
        policy.min_payout as int,
    )
}

/// The error of a page call, checked in this order, or none.
pub open spec fn page_error(
    p: ProgressAccount,
    now: i64,
    claimed: Option<u64>,
    locked: Seq<u64>,
    policy: PolicyParameters,
) -> Option<ErrorCode> {
    let o = opened_spec(p, now, claimed);
    if !policy_valid(policy) {
        Some(ErrorCode::InvalidPolicy)
    } else if p.started() && p.day_id != call_day(now) {
        Some(ErrorCode::DayGateNotPassed)
    } else if !p.started() && claim_amount(claimed) == 0 {
        Some(ErrorCode::InsufficientClaimedQuote)
    } else if sum_locked(locked) > u64::MAX {
        Some(ErrorCode::MathOverflow)
    } else if denominator_spec(policy, sum_locked(locked)) < sum_locked(locked) {
        Some(ErrorCode::InvalidPolicy)
    } else if o.cumulative_distributed_today + o.carry_over + page_distributed_spec(
        p,
        now,
        claimed,
        locked,
        policy,
    ) + page_withheld_spec(p, now, claimed, locked, policy) > o.claimed_quote_for_day {
        Some(ErrorCode::InsufficientClaimedQuote)
    } else {
        None
    }
}

/// The progress after a successful page call.
pub open spec fn next_progress(
    p: ProgressAccount,
    now: i64,
    claimed: Option<u64>,
    locked: Seq<u64>,
    policy: PolicyParameters,
    is_final_page: bool,
) -> ProgressAccount {
    let o = opened_spec(p, now, claimed);
    let after = ProgressAccount {
        cumulative_distributed_today: (o.cumulative_distributed_today + page_distributed_spec(
            p,
            now,
            claimed,
            locked,
            policy,
        )) as u64,
        carry_over: (o.carry_over + page_withheld_spec(p, now, claimed, locked, policy)) as u64,
        pagination_cursor: if o.pagination_cursor < u64::MAX {
            (o.pagination_cursor + 1) as u64
        } else {
            o.pagination_cursor
        },
        ..o
    };
    if is_final_page {
        ProgressAccount { last_distribution_ts: now, day_id: (call_day(now) + 1) as i64, ..after }
    } else {
        after
    }
}

/// The locked total of a page, or `None` where it does not fit in a `u64`.
pub fn page_locked_total(locked: &Vec<u64>) -> (r: Option<u64>)
    ensures
        r is None <==> sum_locked(locked@) > u64::MAX,
        r matches Some(t) ==> t == sum_locked(locked@),
{
    let mut total: u64 = 0;
    let mut i: usize = 0;
    while i < locked.len()
        invariant
            0 <= i <= locked@.len(),
            total == sum_prefix(locked@, i as int),
        decreases locked@.len() - i,
    {
        proof {
            lemma_prefix_monotone(locked@, i as int + 1, locked@.len() as int);
        }
        match total.checked_add(locked[i]) {
            Some(t) => {
                total = t;
            },
            None => {
                return None;
            },
        }
        i = i + 1;
    }
    Some(total)
}

/// Processes one page of investors at time `now`.
///
/// `claimed` is what the revenue source returned where this call claimed the
/// day's revenue, which it must do exactly when the stored progress has not
/// started; `locked` holds each investor's locked amount at `now`, in page
/// order. On success the receipt holds the progress to save, the investor
/// transfers, and on the final page the remainder for the creator.
pub fn crank_distribute_page(
    progress: &ProgressAccount,
    now: i64,
    claimed: Option<u64>,
    locked: &Vec<u64>,
    policy: &PolicyParameters,
    is_final_page: bool,
) -> (r: Result<PageReceipt, ErrorCode>)
    requires
        progress.started() ==> progress.wf(),
    ensures
        match r {
            Err(e) => page_error(*progress, now, claimed, locked@, *policy) == Some(e),
            Ok(rc) => {
                let o = opened_spec(*progress, now, claimed);
                let q = page_quote_spec(*progress, now, claimed, locked@, *policy);
                let d = denominator_spec(*policy, sum_locked(locked@));
                &&& page_error(*progress, now, claimed, locked@, *policy) is None
                &&& rc.progress == next_progress(
                    *progress,
                    now,
                    claimed,
                    locked@,
                    *policy,
                    is_final_page,
                )
                &&& rc.progress.wf()
                &&& rc.effective_quote == q
                &&& rc.lines@ == lines_upto(
                    locked@,
                    locked@.len() as int,
                    d,
                    q,
                    policy.min_payout as int,
                )
                &&& rc.page_total_distributed == page_distributed_spec(
                    *progress,
                    now,
                    claimed,
                    locked@,
                    *policy,
                )
                &&& rc.page_total_withheld == page_withheld_spec(
                    *progress,
                    now,
                    claimed,
                    locked@,
                    *policy,
                )
                &&& rc.fees_claimed == if progress.started() {
                    None
                } else {
                    Some(
                        QuoteFeesClaimed {
                            day_id: call_day(now),
                            claimed_quote: claim_amount(claimed),
                        },
                    )
                }
                &&& rc.payout_page == (InvestorPayoutPage {
                    day_id: call_day(now),
                    page_id: rc.progress.pagination_cursor,
                    page_total_distributed: rc.page_total_distributed,
                })
                &&& rc.day_closed == if is_final_page {
                    Some(
                        CreatorPayoutDayClosed {
                            day_id: call_day(now),
                            creator_amount: rc.progress.remainder_spec() as u64,
                        },
                    )
                } else {
                    None
                }
            },
        },
{
    if policy.y0 == 0 || policy.investor_fee_share_bps as u64 > BPS_DENOMINATOR {
        return Err(ErrorCode::InvalidPolicy);
    }
    let day_id = day_id_for(now);
    let mut opened = *progress;
    let mut fees_claimed: Option<QuoteFeesClaimed> = None;
    if progress.last_distribution_ts == 0 {
        let amount: u64 = match claimed {
            Some(a) => a,
            None => 0,
        };
        if amount == 0 {
            return Err(ErrorCode::InsufficientClaimedQuote);
        }
        opened = ProgressAccount {
            day_id,
            last_distribution_ts: now,
            claimed_quote_for_day: amount,
            cumulative_distributed_today: 0,
            carry_over: 0,
            pagination_cursor: 0,
        };
        fees_claimed = Some(QuoteFeesClaimed { day_id, claimed_quote: amount });
    } else if progress.day_id != day_id {
        return Err(ErrorCode::DayGateNotPassed);
    }
    assert(opened == opened_spec(*progress, now, claimed));
    let page_total = match page_locked_total(locked) {
        Some(t) => t,
        None => {
            return Err(ErrorCode::MathOverflow);
        },
    };
    let denominator: u64 = match policy.accounting {
        LockedAccounting::PerPage => page_total,
        LockedAccounting::WholeDay { day_locked_total } => {
            if day_locked_total < page_total {
                return Err(ErrorCode::InvalidPolicy);
            }
            day_locked_total
        },
    };
    let quote = match effective_quote(
        denominator,
        policy.y0,
        policy.investor_fee_share_bps,
        opened.claimed_quote_for_day,
        policy.daily_cap,
        opened.cumulative_distributed_today,
    ) {
        Ok(q) => q,
        Err(e) => {
            return Err(e);
        },
    };
    let split = distribute_page(locked, denominator, quote, policy.min_payout);
    let used: u128 = opened.cumulative_distributed_today as u128 + opened.carry_over as u128
        + split.distributed as u128 + split.withheld as u128;
    if used > opened.claimed_quote_for_day as u128 {
        return Err(ErrorCode::InsufficientClaimedQuote);
    }
    let cursor: u64 = if opened.pagination_cursor < u64::MAX {
        opened.pagination_cursor + 1
    } else {
        opened.pagination_cursor
    };
    let mut next = ProgressAccount {
        cumulative_distributed_today: opened.cumulative_distributed_today + split.distributed,
        carry_over: opened.carry_over + split.withheld,
        pagination_cursor: cursor,
        ..opened
    };
    let payout_page = InvestorPayoutPage {
        day_id,
        page_id: next.pagination_cursor,
        page_total_distributed: split.distributed,
    };
    let mut day_closed: Option<CreatorPayoutDayClosed> = None;
    if is_final_page {
        let creator_amount = next.remainder();
        next.last_distribution_ts = now;
        next.day_id = day_id + 1;
        day_closed = Some(CreatorPayoutDayClosed { day_id, creator_amount });
    }
    Ok(
        PageReceipt {
            progress: next,
            effective_quote: quote,
            lines: split.lines,
            page_total_distributed: split.distributed,
            page_total_withheld: split.withheld,
            fees_claimed,
            payout_page,
            day_closed,
        },
    )
}

/// The facts about one successful page that the laws below rest on: the
/// quote is a part of the claim, and the page transfers and withholds no more
/// than that quote.
proof fn lemma_page_facts(
    p: ProgressAccount,
    now: i64,
    claimed: Option<u64>,
    locked: Seq<u64>,
    policy: PolicyParameters,
)
    requires
        p.started() ==> p.wf(),
        page_error(p, now, claimed, locked, policy) is None,
    ensures
        ({
            let o = opened_spec(p, now, claimed);
            let q = page_quote_spec(p, now, claimed, locked, policy);
            let dist = page_distributed_spec(p, now, claimed, locked, policy);
            let held = page_withheld_spec(p, now, claimed, locked, policy);
            &&& o.wf()
            &&& 0 <= q <= o.claimed_quote_for_day
            &&& 0 <= dist
            &&& 0 <= held
            &&& dist + held <= q
            &&& o.cumulative_distributed_today + o.carry_over + dist + held
                <= o.claimed_quote_for_day
            &&& (policy.daily_cap matches Some(cap) ==> q <= cap_headroom_spec(
                cap as int,
                o.cumulative_distributed_today as int,
            ))
        }),
{
    let o = opened_spec(p, now, claimed);
    let d = denominator_spec(policy, sum_locked(locked));
    lemma_prefix_monotone(locked, 0, locked.len() as int);
    lemma_effective_quote_bounds(
        d,
        policy.y0 as int,
        policy.investor_fee_share_bps as int,
        o.claimed_quote_for_day as int,
        policy.daily_cap,
        o.cumulative_distributed_today as int,
    );
    lemma_split_within_quote(
        locked,
        locked.len() as int,
        d,
        page_quote_spec(p, now, claimed, locked, policy),
        policy.min_payout as int,
    );
}

/// After every successful page call the record's invariant holds: what was
/// transferred and withheld during the day never exceeds what was claimed.
pub proof fn lemma_page_keeps_invariant(
    p: ProgressAccount,
    now: i64,
    claimed: Option<u64>,
    locked: Seq<u64>,
    policy: PolicyParameters,
    is_final_page: bool,
)
    requires
        p.started() ==> p.wf(),
        page_error(p, now, claimed, locked, policy) is None,
    ensures
        next_progress(p, now, claimed, locked, policy, is_final_page).wf(),
{
    lemma_page_facts(p, now, claimed, locked, policy);
}

/// Within a started day, a page call never lowers what was transferred,
/// what was withheld or the page count, and leaves the claim as it was.
pub proof fn lemma_page_monotone(
    p: ProgressAccount,
    now: i64,
    claimed: Option<u64>,
    locked: Seq<u64>,
    policy: PolicyParameters,
    is_final_page: bool,
)
    requires
        p.started(),
        p.wf(),
        page_error(p, now, claimed, locked, policy) is None,
    ensures
        ({
            let n = next_progress(p, now, claimed, locked, policy, is_final_page);
            &&& n.cumulative_distributed_today >= p.cumulative_distributed_today
            &&& n.carry_over >= p.carry_over
            &&& n.pagination_cursor >= p.pagination_cursor
            &&& n.claimed_quote_for_day == p.claimed_quote_for_day
        }),
{
    lemma_page_facts(p, now, claimed, locked, policy);
}

/// With a daily cap, a day whose transfers are within the cap stays within
/// it after one more page: the sum of a day's page transfers never exceeds
/// the cap.
pub proof fn lemma_daily_cap_respected(
    p: ProgressAccount,
    now: i64,
    claimed: Option<u64>,
    locked: Seq<u64>,
    policy: PolicyParameters,
    is_final_page: bool,
    cap: u64,
)
    requires
        policy.daily_cap == Some(cap),
        p.started() ==> p.wf() && p.cumulative_distributed_today <= cap,
        page_error(p, now, claimed, locked, policy) is None,
    ensures
        next_progress(p, now, claimed, locked, policy, is_final_page).cumulative_distributed_today
            <= cap,
        next_progress(p, now, claimed, locked, policy, is_final_page).cumulative_distributed_today
            == opened_spec(p, now, claimed).cumulative_distributed_today + page_distributed_spec(
            p,
            now,
            claimed,
            locked,
            policy,
        ),
{
    lemma_page_facts(p, now, claimed, locked, policy);
}

/// Closing a day routes exactly the claim that was neither transferred nor
/// withheld to the creator.
pub proof fn lemma_day_close_conserves(
    p: ProgressAccount,
    now: i64,
    claimed: Option<u64>,
    locked: Seq<u64>,
    policy: PolicyParameters,
)
    requires
        p.started() ==> p.wf(),
        page_error(p, now, claimed, locked, policy) is None,
    ensures
        ({
            let n = next_progress(p, now, claimed, locked, policy, true);
            &&& 0 <= n.remainder_spec()
            &&& n.claimed_quote_for_day - n.cumulative_distributed_today - n.carry_over == (
            n.remainder_spec() as u64)
        }),
{
    lemma_page_facts(p, now, claimed, locked, policy);
}

/// One page call as the engine sees it: the time, what was claimed, the
/// locked amounts of the page and whether it closes the day.
pub type PageCall = (i64, Option<u64>, Seq<u64>, bool);

/// The progress after a run of page calls, or `None` once one of them fails.
pub open spec fn run_pages(
    p: ProgressAccount,
    calls: Seq<PageCall>,
    policy: PolicyParameters,
) -> Option<ProgressAccount>
    decreases calls.len(),
{
    if calls.len() == 0 {
        Some(p)
    } else {
        match run_pages(p, calls.drop_last(), policy) {
            None => None,
            Some(q) => {
                let c = calls.last();
                if page_error(q, c.0, c.1, c.2, policy) is None {
                    Some(next_progress(q, c.0, c.1, c.2, policy, c.3))
                } else {
                    None
                }
            },
        }
    }
}

/// The sum of what the pages of a run transfer.
pub open spec fn run_distributed(p: ProgressAccount, calls: Seq<PageCall>, policy: PolicyParameters) -> int
    decreases calls.len(),
{
    if calls.len() == 0 {
        0
    } else {
        match run_pages(p, calls.drop_last(), policy) {
            None => 0,
            Some(q) => {
                let c = calls.last();
                run_distributed(p, calls.drop_last(), policy) + page_distributed_spec(
                    q,
                    c.0,
                    c.1,
                    c.2,
                    policy,
                )
            },
        }
    }
}

/// Over a day that starts from a record not yet started and whose page
/// calls all succeed, the day's transfer total is the sum of the page
/// totals, the invariant holds, and with a daily cap that sum never exceeds
/// the cap. Calls at time zero are left out: their time is the record's
/// mark of a day that has not started.
pub proof fn lemma_day_within_cap(p: ProgressAccount, calls: Seq<PageCall>, policy: PolicyParameters)
    requires
        !p.started(),
        0 < calls.len(),
        forall|i: int| 0 <= i < calls.len() ==> calls[i].0 != 0,
        run_pages(p, calls, policy) is Some,
    ensures
        ({
            let q = run_pages(p, calls, policy)->Some_0;
            &&& q.started()
            &&& q.wf()
            &&& q.cumulative_distributed_today == run_distributed(p, calls, policy)
            &&& (policy.daily_cap matches Some(cap) ==> run_distributed(p, calls, policy) <= cap)
        }),
    decreases calls.len(),
{
    let c = calls.last();
    let prev = calls.drop_last();
    assert(run_pages(p, prev, policy) is Some);
    if prev.len() > 0 {
        assert forall|i: int| 0 <= i < prev.len() implies prev[i].0 != 0 by {
            assert(prev[i] == calls[i]);
        }
        lemma_day_within_cap(p, prev, policy);
    }
    let q = run_pages(p, prev, policy)->Some_0;
    assert(c == calls[calls.len() - 1]);
    lemma_page_facts(q, c.0, c.1, c.2, policy);
    assert(next_progress(q, c.0, c.1, c.2, policy, c.3).cumulative_distributed_today
        == opened_spec(q, c.0, c.1).cumulative_distributed_today + page_distributed_spec(
        q,
        c.0,
        c.1,
        c.2,
        policy,
    ));
    assert(run_distributed(p, calls, policy) == run_distributed(p, prev, policy)
        + page_distributed_spec(q, c.0, c.1, c.2, policy));
    if prev.len() == 0 {
        assert(run_distributed(p, prev, policy) == 0);
    }
    if let Some(cap) = policy.daily_cap {
        lemma_daily_cap_respected(q, c.0, c.1, c.2, policy, c.3, cap);
    }
}

} // verus!
