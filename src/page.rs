use vstd::prelude::*;

verus! {

/// What one investor of a page receives: a transfer, or an amount withheld
/// as dust because it is below the minimum payout.
#[derive(Clone, Copy, Debug, PartialEq, Eq, Structural)]
pub struct PayoutLine {
    /// Position of the investor in the page.
    pub index: usize,
    /// The investor's weighted share of the page's quote.
    pub amount: u64,
    /// Whether `amount` is transferred; otherwise it is withheld.
    pub transferred: bool,
}

/// The outcome of splitting one page's quote among its investors.
pub struct PageSplit {
    /// One line per investor with a non-zero locked amount, in page order.
    pub lines: Vec<PayoutLine>,
    /// Sum of the transferred amounts.
    pub distributed: u64,
    /// Sum of the withheld amounts.
    pub withheld: u64,
}

/// Sum of the first `n` entries of `s`.
pub open spec fn sum_prefix(s: Seq<u64>, n: int) -> int
    decreases n,
{
    if n <= 0 {
        0
    } else {
        sum_prefix(s, n - 1) + s[n - 1]
    }
}

/// Sum of all entries of `s`.
pub open spec fn sum_locked(s: Seq<u64>) -> int {
    sum_prefix(s, s.len() as int)
}

/// An investor's weighted share: `locked * quote / denominator`, rounded down.
pub open spec fn payout_spec(locked: int, quote: int, denominator: int) -> int {
    locked * quote / denominator
}

/// The line for the investor at position `i`.
pub open spec fn line_for(locked: Seq<u64>, i: int, denominator: int, quote: int, min_payout: int) -> PayoutLine {
    let amount = payout_spec(locked[i] as int, quote, denominator);
    PayoutLine { index: i as usize, amount: amount as u64, transferred: amount >= min_payout }
}

/// The lines of the first `n` investors; those with nothing locked get none.
pub open spec fn lines_upto(
    locked: Seq<u64>,
    n: int,
    denominator: int,
    quote: int,
    min_payout: int,
) -> Seq<PayoutLine>
    decreases n,
{
    if n <= 0 {
        Seq::empty()
    } else {
        let prev = lines_upto(locked, n - 1, denominator, quote, min_payout);
        if locked[n - 1] > 0 {
            prev.push(line_for(locked, n - 1, denominator, quote, min_payout))
        } else {
            prev
        }
    }
}

/// What the first `n` investors are transferred in all.
pub open spec fn distributed_upto(
    locked: Seq<u64>,
    n: int,
    denominator: int,
    quote: int,
    min_payout: int,
) -> int
    decreases n,
{
    if n <= 0 {
        0
    } else {
        let amount = payout_spec(locked[n - 1] as int, quote, denominator);
        distributed_upto(locked, n - 1, denominator, quote, min_payout) + if locked[n - 1] > 0
            && amount >= min_payout {
            amount
        } else {
            0
        }
    }
}

/// What is withheld from the first `n` investors in all.
pub open spec fn withheld_upto(
    locked: Seq<u64>,
    n: int,
    denominator: int,
    quote: int,
    min_payout: int,
) -> int
    decreases n,
{
    if n <= 0 {
        0
    } else {
        let amount = payout_spec(locked[n - 1] as int, quote, denominator);
        withheld_upto(locked, n - 1, denominator, quote, min_payout) + if locked[n - 1] > 0
            && amount < min_payout {
            amount
        } else {
            0
        }
    }
}

/// Splits `quote` among the investors of a page, each weighted by its
/// locked amount over `denominator`. Investors with nothing locked are
/// skipped; a share below `min_payout` is withheld rather than transferred.
pub fn distribute_page(locked: &Vec<u64>, denominator: u64, quote: u64, min_payout: u64) -> (r:
    PageSplit)
    requires
        sum_locked(locked@) <= denominator,
    ensures
        r.lines@ == lines_upto(
            locked@,
            locked@.len() as int,
            denominator as int,
            quote as int,
            min_payout as int,
        ),
        r.distributed == distributed_upto(
            locked@,
            locked@.len() as int,
            denominator as int,
            quote as int,
            min_payout as int,
        ),
        r.withheld == withheld_upto(
            locked@,
            locked@.len() as int,
            denominator as int,
            quote as int,
            min_payout as int,
        ),
        r.distributed + r.withheld <= quote,
{
    let ghost s = locked@;
    let ghost d = denominator as int;
    let ghost q = quote as int;
    let ghost m = min_payout as int;
    let mut lines: Vec<PayoutLine> = Vec::new();
    let mut distributed: u64 = 0;
    let mut withheld: u64 = 0;
    let mut i: usize = 0;
    while i < locked.len()
        invariant
            s == locked@,
            d == denominator,
            q == quote,
            m == min_payout,
            sum_prefix(s, s.len() as int) <= d,
            0 <= i <= s.len(),
            lines@ == lines_upto(s, i as int, d, q, m),
            distributed == distributed_upto(s, i as int, d, q, m),
            withheld == withheld_upto(s, i as int, d, q, m),
            (distributed + withheld) * d <= q * sum_prefix(s, i as int),
            distributed + withheld <= q,
        decreases s.len() - i,
    {
        let amount_locked = locked[i];
        proof {
            lemma_prefix_monotone(s, i as int + 1, s.len() as int);
            lemma_prefix_nonnegative(s, i as int);
            assert(sum_prefix(s, i as int + 1) == sum_prefix(s, i as int) + s[i as int]);
        }
        if amount_locked > 0 {
            let ghost total = distributed + withheld;
            proof {
                lemma_payout_step(total, sum_prefix(s, i as int), amount_locked as int, q, d);
            }
            let product: u128 = (amount_locked as u128) * (quote as u128);
            let amount: u64 = (product / (denominator as u128)) as u64;
            let transferred = amount >= min_payout;
            if transferred {
                distributed = distributed + amount;
            } else {
                withheld = withheld + amount;
            }
            lines.push(PayoutLine { index: i, amount, transferred });
        } else {
            proof {
                assert(q * sum_prefix(s, i as int) <= q * sum_prefix(s, i as int + 1)) by (nonlinear_arith)
                    requires
                        sum_prefix(s, i as int) <= sum_prefix(s, i as int + 1),
                        q >= 0,
                ;
            }
        }
        i = i + 1;
    }
    PageSplit { lines, distributed, withheld }
}

/// Prefix sums of unsigned entries are never negative.
pub proof fn lemma_prefix_nonnegative(s: Seq<u64>, n: int)
    requires
        0 <= n <= s.len(),
    ensures
        0 <= sum_prefix(s, n),
    decreases n,
{
    if n > 0 {
        lemma_prefix_nonnegative(s, n - 1);
    }
}

/// Prefix sums of unsigned entries grow with the prefix.
pub proof fn lemma_prefix_monotone(s: Seq<u64>, i: int, j: int)
    requires
        0 <= i <= j <= s.len(),
    ensures
        0 <= sum_prefix(s, i) <= sum_prefix(s, j),
    decreases j - i,
{
    if i < j {
        lemma_prefix_monotone(s, i, j - 1);
    } else {
        lemma_prefix_nonnegative(s, i);
    }
}

/// Adding one investor's share keeps the running total within its weighted
/// part of the quote.
proof fn lemma_payout_step(total: int, prefix: int, locked: int, quote: int, denominator: int)
    requires
        0 <= total,
        0 <= prefix,
        0 < locked,
        0 <= quote <= u64::MAX,
        locked <= u64::MAX,
        prefix + locked <= denominator,
        total * denominator <= quote * prefix,
    ensures
        0 <= locked * quote <= u64::MAX * u64::MAX,
        0 <= locked * quote / denominator <= quote,
        (total + locked * quote / denominator) * denominator <= quote * (prefix + locked),
        total + locked * quote / denominator <= quote,
{
    let p = locked * quote / denominator;
    assert(0 <= locked * quote <= u64::MAX * u64::MAX) by (nonlinear_arith)
        requires
            0 < locked <= u64::MAX,
            0 <= quote <= u64::MAX,
    ;
    assert(locked * quote <= denominator * quote) by (nonlinear_arith)
        requires
            locked <= denominator,
            0 <= quote,
    ;
    assert(p * denominator <= locked * quote && 0 <= p <= quote) by (nonlinear_arith)
        requires
            p == locked * quote / denominator,
            0 < denominator,
            0 <= locked * quote <= denominator * quote,
    ;
    assert((total + p) * denominator <= quote * (prefix + locked)) by (nonlinear_arith)
        requires
            total * denominator <= quote * prefix,
            p * denominator <= locked * quote,
    ;
    assert(total + p <= quote) by (nonlinear_arith)
        requires
            (total + p) * denominator <= quote * (prefix + locked),
            prefix + locked <= denominator,
            0 < denominator,
            0 <= quote,
    ;
}

/// Over any prefix whose locked total is within the denominator, what is
/// transferred and withheld together stays within the quote.
pub proof fn lemma_split_within_quote(
    locked: Seq<u64>,
    n: int,
    denominator: int,
    quote: int,
    min_payout: int,
)
    requires
        0 <= n <= locked.len(),
        sum_prefix(locked, n) <= denominator,
        0 <= quote <= u64::MAX,
    ensures
        0 <= distributed_upto(locked, n, denominator, quote, min_payout),
        0 <= withheld_upto(locked, n, denominator, quote, min_payout),
        (distributed_upto(locked, n, denominator, quote, min_payout) + withheld_upto(
            locked,
            n,
            denominator,
            quote,
            min_payout,
        )) * denominator <= quote * sum_prefix(locked, n),
        distributed_upto(locked, n, denominator, quote, min_payout) + withheld_upto(
            locked,
            n,
            denominator,
            quote,
            min_payout,
        ) <= quote,
    decreases n,
{
    if n > 0 {
        lemma_prefix_monotone(locked, n - 1, n);
        lemma_split_within_quote(locked, n - 1, denominator, quote, min_payout);
        let total = distributed_upto(locked, n - 1, denominator, quote, min_payout) + withheld_upto(
            locked,
            n - 1,
            denominator,
            quote,
            min_payout,
        );
        let prefix = sum_prefix(locked, n - 1);
        if locked[n - 1] > 0 {
            lemma_payout_step(total, prefix, locked[n - 1] as int, quote, denominator);
        } else {
            assert(quote * prefix <= quote * sum_prefix(locked, n)) by (nonlinear_arith)
                requires
                    prefix <= sum_prefix(locked, n),
                    quote >= 0,
            ;
        }
    }
}

/// A page on which nobody has anything locked pays nothing and withholds
/// nothing.
pub proof fn lemma_zero_locked_page(
    locked: Seq<u64>,
    n: int,
    denominator: int,
    quote: int,
    min_payout: int,
)
    requires
        0 <= n <= locked.len(),
        forall|j: int| 0 <= j < n ==> locked[j] == 0,
    ensures
        lines_upto(locked, n, denominator, quote, min_payout) == Seq::<PayoutLine>::empty(),
        distributed_upto(locked, n, denominator, quote, min_payout) == 0,
        withheld_upto(locked, n, denominator, quote, min_payout) == 0,
        sum_prefix(locked, n) == 0,
    decreases n,
{
    if n > 0 {
        lemma_zero_locked_page(locked, n - 1, denominator, quote, min_payout);
    }
}

} // verus!
