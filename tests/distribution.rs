use fee_distributor::config::{initialize_honorary_position, AccountKey};
use fee_distributor::day::{day_id_for, DAY_IN_SECONDS};
use fee_distributor::engine::{
    crank_distribute_page, page_locked_total, LockedAccounting, PageReceipt, PolicyParameters,
};
use fee_distributor::error::ErrorCode;
use fee_distributor::page::{distribute_page, PayoutLine};
use fee_distributor::progress::ProgressAccount;
use fee_distributor::share::{effective_quote, eligible_share_bps, investor_fee_quote};
use fee_distributor::vesting::StreamAccount;

const DAY: i64 = 20_000;
const NOW: i64 = DAY * DAY_IN_SECONDS + 100;

fn policy(y0: u64, bps: u16, cap: Option<u64>, min_payout: u64) -> PolicyParameters {
    PolicyParameters {
        y0,
        investor_fee_share_bps: bps,
        daily_cap: cap,
        min_payout,
        accounting: LockedAccounting::PerPage,
    }
}

fn first_page(
    claimed: u64,
    locked: Vec<u64>,
    p: &PolicyParameters,
    is_final: bool,
) -> Result<PageReceipt, ErrorCode> {
    let fresh = ProgressAccount::load_or_create(None, DAY);
    crank_distribute_page(&fresh, NOW, Some(claimed), &locked, p, is_final)
}

#[test]
fn scenario_single_page_day() {
    let p = policy(2_000_000, 5000, None, 1);
    assert_eq!(eligible_share_bps(1_000_000, 2_000_000, 5000), 5000);
    assert_eq!(investor_fee_quote(1_000_000, 5000), 500_000);
    let rc = first_page(1_000_000, vec![1_000_000], &p, true).unwrap();
    assert_eq!(rc.effective_quote, 500_000);
    assert_eq!(
        rc.lines,
        vec![PayoutLine { index: 0, amount: 500_000, transferred: true }]
    );
    assert_eq!(rc.page_total_distributed, 500_000);
    assert_eq!(rc.page_total_withheld, 0);
    let closed = rc.day_closed.unwrap();
    assert_eq!(closed.creator_amount, 500_000);
    assert_eq!(closed.day_id, DAY);
    assert_eq!(rc.progress.day_id, DAY + 1);
    assert_eq!(rc.progress.last_distribution_ts, NOW);
    assert_eq!(rc.fees_claimed.unwrap().claimed_quote, 1_000_000);
}

#[test]
fn scenario_dust_withheld_over_two_pages() {
    let p = policy(1_000_000, 1000, None, 1000);
    let rc1 = first_page(1_000_000, vec![5_000, 995_000], &p, false).unwrap();
    assert_eq!(rc1.effective_quote, 100_000);
    assert_eq!(
        rc1.lines,
        vec![
            PayoutLine { index: 0, amount: 500, transferred: false },
            PayoutLine { index: 1, amount: 99_500, transferred: true },
        ]
    );
    assert_eq!(rc1.page_total_distributed, 99_500);
    assert_eq!(rc1.page_total_withheld, 500);
    assert_eq!(rc1.progress.carry_over, 500);
    assert_eq!(rc1.progress.cumulative_distributed_today, 99_500);
    assert!(rc1.day_closed.is_none());

    let rc2 = crank_distribute_page(&rc1.progress, NOW + 60, None, &vec![1_000_000], &p, true)
        .unwrap();
    assert_eq!(rc2.page_total_distributed, 100_000);
    assert_eq!(rc2.progress.carry_over, 500);
    assert_eq!(rc2.progress.cumulative_distributed_today, 199_500);
    assert_eq!(rc2.progress.pagination_cursor, 2);
    assert_eq!(rc2.day_closed.unwrap().creator_amount, 800_000);
}

#[test]
fn scenario_daily_cap_limits_quote() {
    let p = policy(2_000_000, 5000, Some(300_000), 1);
    assert_eq!(
        effective_quote(1_000_000, 2_000_000, 5000, 1_000_000, Some(300_000), 0),
        Ok(300_000)
    );
    let rc = first_page(1_000_000, vec![1_000_000], &p, false).unwrap();
    assert_eq!(rc.effective_quote, 300_000);
    assert_eq!(rc.page_total_distributed, 300_000);
}

#[test]
fn scenario_second_page_skips_claim() {
    let p = policy(4_000_000, 5000, None, 1);
    let rc1 = first_page(1_000_000, vec![1_000_000], &p, false).unwrap();
    assert!(rc1.fees_claimed.is_some());
    assert!(!rc1.progress.needs_claim());
    let rc2 = crank_distribute_page(&rc1.progress, NOW + 10, None, &vec![1_000_000], &p, false)
        .unwrap();
    assert!(rc2.fees_claimed.is_none());
    assert_eq!(rc2.progress.claimed_quote_for_day, 1_000_000);
    assert_eq!(rc2.progress.last_distribution_ts, NOW);
    assert_eq!(rc2.payout_page.page_id, 2);
}

#[test]
fn scenario_day_mismatch_rejected() {
    let stored = ProgressAccount {
        day_id: DAY - 1,
        last_distribution_ts: NOW - DAY_IN_SECONDS,
        claimed_quote_for_day: 1_000,
        cumulative_distributed_today: 0,
        carry_over: 0,
        pagination_cursor: 1,
    };
    let p = policy(1_000, 5000, None, 1);
    let r = crank_distribute_page(&stored, NOW, Some(5), &vec![10], &p, false);
    assert_eq!(r.err(), Some(ErrorCode::DayGateNotPassed));
}

#[test]
fn closed_day_rejects_further_pages() {
    let p = policy(2_000_000, 5000, None, 1);
    let rc = first_page(1_000_000, vec![1_000_000], &p, true).unwrap();
    let r = crank_distribute_page(&rc.progress, NOW + 5, None, &vec![1], &p, false);
    assert_eq!(r.err(), Some(ErrorCode::DayGateNotPassed));
}

#[test]
fn invariant_holds_after_each_page() {
    let p = policy(100, 10000, None, 1);
    let mut progress = ProgressAccount::fresh(DAY);
    let mut claim = Some(1_000u64);
    for _ in 0..2 {
        let rc = crank_distribute_page(&progress, NOW, claim, &vec![30, 10], &p, false).unwrap();
        progress = rc.progress;
        assert!(progress.is_well_formed());
        assert!(
            progress.cumulative_distributed_today + progress.carry_over
                <= progress.claimed_quote_for_day
        );
        claim = None;
    }
}

#[test]
fn overdistribution_rejected() {
    let p = policy(100, 10000, None, 1);
    let rc = first_page(1_000, vec![100], &p, false).unwrap();
    assert_eq!(rc.page_total_distributed, 1_000);
    let r = crank_distribute_page(&rc.progress, NOW, None, &vec![100], &p, false);
    assert_eq!(r.err(), Some(ErrorCode::InsufficientClaimedQuote));
}

#[test]
fn share_calculator_is_deterministic() {
    let a = effective_quote(700, 1_000, 2500, 123_456, Some(20_000), 5_000);
    let b = effective_quote(700, 1_000, 2500, 123_456, Some(20_000), 5_000);
    assert_eq!(a, b);
    assert_eq!(a, Ok(15_000));
}

#[test]
fn progress_grows_within_day() {
    let p = policy(1_000, 5000, None, 11);
    let rc1 = first_page(10_000, vec![100, 1], &p, false).unwrap();
    let rc2 = crank_distribute_page(&rc1.progress, NOW, None, &vec![300, 1], &p, false).unwrap();
    assert!(
        rc2.progress.cumulative_distributed_today >= rc1.progress.cumulative_distributed_today
    );
    assert!(rc2.progress.carry_over >= rc1.progress.carry_over);
    assert_eq!(rc1.progress.carry_over, 10);
    assert_eq!(rc2.progress.carry_over, 20);
    assert_eq!(rc2.progress.cumulative_distributed_today, 4_000);
}

#[test]
fn zero_locked_page_pays_nothing() {
    let p = policy(1_000, 5000, None, 1);
    let rc = first_page(10_000, vec![0, 0, 0], &p, false).unwrap();
    assert!(rc.lines.is_empty());
    assert_eq!(rc.page_total_distributed, 0);
    assert_eq!(rc.page_total_withheld, 0);
    let split = distribute_page(&vec![0, 0], 0, 5_000, 1);
    assert!(split.lines.is_empty());
    assert_eq!(split.distributed, 0);
    assert_eq!(split.withheld, 0);
}

#[test]
fn daily_cap_holds_across_pages() {
    let p = policy(1_000, 10000, Some(1_500), 1);
    let rc1 = first_page(10_000, vec![100], &p, false).unwrap();
    assert_eq!(rc1.page_total_distributed, 1_000);
    let rc2 = crank_distribute_page(&rc1.progress, NOW, None, &vec![100], &p, false).unwrap();
    assert_eq!(rc2.page_total_distributed, 500);
    let rc3 = crank_distribute_page(&rc2.progress, NOW, None, &vec![100], &p, true).unwrap();
    assert_eq!(rc3.page_total_distributed, 0);
    assert_eq!(rc3.progress.cumulative_distributed_today, 1_500);
    assert_eq!(rc3.day_closed.unwrap().creator_amount, 8_500);
}

#[test]
fn remainder_equals_undistributed_claim() {
    let p = policy(1_000, 3333, None, 50);
    let rc1 = first_page(99_999, vec![7, 700, 77], &p, false).unwrap();
    let rc2 = crank_distribute_page(&rc1.progress, NOW, None, &vec![3, 33], &p, true).unwrap();
    let n = rc2.progress;
    let paid = rc2.day_closed.unwrap().creator_amount;
    assert_eq!(n.claimed_quote_for_day - n.cumulative_distributed_today - n.carry_over, paid);
    assert_eq!(n.remainder(), paid);
}

#[test]
fn whole_day_accounting_uses_day_total() {
    let p = PolicyParameters {
        y0: 1_000,
        investor_fee_share_bps: 10000,
        daily_cap: None,
        min_payout: 1,
        accounting: LockedAccounting::WholeDay { day_locked_total: 1_000 },
    };
    let rc = first_page(10_000, vec![250], &p, false).unwrap();
    assert_eq!(rc.effective_quote, 10_000);
    assert_eq!(rc.page_total_distributed, 2_500);
    let bad = PolicyParameters {
        accounting: LockedAccounting::WholeDay { day_locked_total: 100 },
        ..p
    };
    assert_eq!(first_page(10_000, vec![250], &bad, false).err(), Some(ErrorCode::InvalidPolicy));
}

#[test]
fn invalid_policy_rejected() {
    assert_eq!(
        first_page(1_000, vec![1], &policy(0, 5000, None, 1), false).err(),
        Some(ErrorCode::InvalidPolicy)
    );
    assert_eq!(
        first_page(1_000, vec![1], &policy(10, 10001, None, 1), false).err(),
        Some(ErrorCode::InvalidPolicy)
    );
    assert_eq!(effective_quote(1, 0, 10, 10, None, 0), Err(ErrorCode::InvalidPolicy));
}

#[test]
fn empty_claim_rejected() {
    let p = policy(1_000, 5000, None, 1);
    assert_eq!(first_page(0, vec![1], &p, false).err(), Some(ErrorCode::InsufficientClaimedQuote));
    let fresh = ProgressAccount::fresh(DAY);
    let r = crank_distribute_page(&fresh, NOW, None, &vec![1], &p, false);
    assert_eq!(r.err(), Some(ErrorCode::InsufficientClaimedQuote));
}

#[test]
fn locked_total_overflow_rejected() {
    assert_eq!(page_locked_total(&vec![u64::MAX, 1]), None);
    assert_eq!(page_locked_total(&vec![u64::MAX - 1, 1]), Some(u64::MAX));
    assert_eq!(page_locked_total(&vec![]), Some(0));
    let p = policy(1_000, 5000, None, 1);
    assert_eq!(
        first_page(1_000, vec![u64::MAX, 1], &p, false).err(),
        Some(ErrorCode::MathOverflow)
    );
}

#[test]
fn payouts_round_down() {
    let split = distribute_page(&vec![1, 1, 1], 3, 100, 0);
    assert_eq!(split.distributed, 99);
    assert_eq!(split.withheld, 0);
    let split = distribute_page(&vec![1, 2], 3, u64::MAX, 0);
    assert_eq!(split.lines[0].amount, u64::MAX / 3);
    assert_eq!(split.lines[1].amount, (u64::MAX / 3) * 2);
}

#[test]
fn eligible_share_gated_by_locked_fraction() {
    assert_eq!(eligible_share_bps(250, 1_000, 5000), 2500);
    assert_eq!(eligible_share_bps(u64::MAX, 1, 7000), 7000);
    assert_eq!(investor_fee_quote(u64::MAX, 10000), u64::MAX);
    assert_eq!(investor_fee_quote(9_999, 1), 0);
}

#[test]
fn day_key_truncates() {
    assert_eq!(day_id_for(3 * DAY_IN_SECONDS + 5), 3);
    assert_eq!(day_id_for(DAY_IN_SECONDS - 1), 0);
    assert_eq!(day_id_for(-1), 0);
    assert_eq!(day_id_for(-DAY_IN_SECONDS - 1), -1);
}

#[test]
fn load_or_create_keeps_stored_record() {
    let stored = ProgressAccount {
        day_id: 7,
        last_distribution_ts: 9,
        claimed_quote_for_day: 10,
        cumulative_distributed_today: 3,
        carry_over: 2,
        pagination_cursor: 4,
    };
    assert_eq!(ProgressAccount::load_or_create(Some(stored), 8), stored);
    let fresh = ProgressAccount::load_or_create(None, 8);
    assert_eq!(fresh.day_id, 8);
    assert!(fresh.needs_claim());
    assert_eq!(stored.remainder(), 5);
}

#[test]
fn vesting_unlocks_linearly() {
    let k = AccountKey { bytes: [7; 32] };
    let s = StreamAccount::new(1_000, 100, 200, k, k);
    assert_eq!(s.locked_amount(50), 1_000);
    assert_eq!(s.locked_amount(100), 1_000);
    assert_eq!(s.locked_amount(125), 750);
    assert_eq!(s.locked_amount(133), 670);
    assert_eq!(s.locked_amount(200), 0);
    assert_eq!(s.locked_amount(i64::MAX), 0);
    let wide = StreamAccount::new(u64::MAX, i64::MIN, i64::MAX, k, k);
    assert_eq!(wide.locked_amount(0), u64::MAX - u64::MAX / 2 - 1);
}

#[test]
fn tick_range_checked() {
    let k = AccountKey { bytes: [1; 32] };
    let c = initialize_honorary_position(k, k, k, k, -10, 10, 55, 254).unwrap();
    assert_eq!(c.tick_lower, -10);
    assert_eq!(c.creation_ts, 55);
    assert_eq!(
        initialize_honorary_position(k, k, k, k, 10, 10, 55, 254).err(),
        Some(ErrorCode::InvalidTickRange)
    );
}
