//! Federal income tax: the progressive bracket calculation.
//!
//! `calculate_tax` walks the bracket table in ascending order, taxing the
//! slice of income that falls in each bracket at that bracket's rate. Its
//! result is pinned, field by field, to the spec functions in this module.

use vstd::prelude::*;

use vstd::math::min as spec_min;

use crate::brackets::{
    bracket_ok, exact_boundaries, get_brackets, lemma_brackets_well_formed, rates_at_least,
    spec_brackets, well_formed, TaxBracket,
};
use crate::filing::FilingStatus;
use crate::money::{
    lemma_div_below_exact, lemma_div_exact_minus_ceil, lemma_div_sum_le, lemma_rate_part_le,
    lemma_rate_part_monotone, rate_part, times_rate, RATE_DENOM,
};

verus! {

/// The slice of one bracket that received income, and the tax on it.
#[derive(Debug, Clone, Copy, PartialEq, Eq)]
pub struct BracketDetail {
    pub min: u64,
    pub max: Option<u64>,
    pub rate: u32,
    pub taxable_amount: u64,
    pub tax_amount: u64,
}

/// The result of a federal tax calculation. Amounts are cents; the two
/// rates are basis points.
#[derive(Debug, Clone, PartialEq, Eq)]
pub struct TaxCalculation {
    pub total_tax: u64,
    pub effective_rate: u32,
    pub marginal_rate: u32,
    pub bracket_details: Vec<BracketDetail>,
}

/// How many cents of an income of `x` cents fall inside bracket `b`.
pub open spec fn amount_in_bracket(x: int, b: TaxBracket) -> int {
    let lo = b.min as int;
    match b.max {
        Some(hi) => if x <= lo {
            0
        } else if x >= hi {
            hi - lo
        } else {
            x - lo
        },
        None => if x <= lo {
            0
        } else {
            x - lo
        },
    }
}

/// The tax that bracket `b` collects from an income of `x` cents,
/// rounded down to the cent.
pub open spec fn bracket_tax(x: int, b: TaxBracket) -> int {
    rate_part(amount_in_bracket(x, b), b.rate as int)
}

/// The total tax collected by the brackets of `brs` from an income of `x`.
pub open spec fn total_tax_on(brs: Seq<TaxBracket>, x: int) -> int
    decreases brs.len(),
{
    if brs.len() == 0 {
        0
    } else {
        total_tax_on(brs.drop_last(), x) + bracket_tax(x, brs.last())
    }
}

/// The marginal rate: the rate of the highest bracket that received any
/// income, or zero when none did.
pub open spec fn marginal_rate_on(brs: Seq<TaxBracket>, x: int) -> int
    decreases brs.len(),
{
    if brs.len() == 0 {
        0
    } else if x > brs.last().min as int {
        brs.last().rate as int
    } else {
        marginal_rate_on(brs.drop_last(), x)
    }
}

/// The detail record reported for bracket `b` at income `x`.
pub open spec fn detail_for(x: int, b: TaxBracket) -> BracketDetail {
    BracketDetail {
        min: b.min,
        max: b.max,
        rate: b.rate,
        taxable_amount: amount_in_bracket(x, b) as u64,
        tax_amount: bracket_tax(x, b) as u64,
    }
}

/// The detail records, in bracket order, for exactly the brackets that
/// received nonzero income.
pub open spec fn bracket_details_on(brs: Seq<TaxBracket>, x: int) -> Seq<BracketDetail>
    decreases brs.len(),
{
    if brs.len() == 0 {
        Seq::empty()
    } else {
        let rest = bracket_details_on(brs.drop_last(), x);
        if amount_in_bracket(x, brs.last()) > 0 {
            rest.push(detail_for(x, brs.last()))
        } else {
            rest
        }
    }
}

/// Total tax over taxable income, in basis points, rounded down; zero
/// when there is no income.
pub open spec fn effective_rate_of(total: int, income: int) -> int {
    if income > 0 {
        total * (RATE_DENOM as int) / income
    } else {
        0
    }
}

/// The full contract of [`calculate_tax`]: every field of the result is a
/// function of the taxable income and the filing status alone.
pub open spec fn calculation_matches(r: TaxCalculation, income: int, status: FilingStatus) -> bool {
    let brs = spec_brackets(status);
    &&& r.total_tax == total_tax_on(brs, income)
    &&& r.marginal_rate == marginal_rate_on(brs, income)
    &&& r.effective_rate == effective_rate_of(r.total_tax as int, income)
    &&& r.bracket_details@ == bracket_details_on(brs, income)
}

/// Brackets only, without the demands on the table's ends: every bracket
/// is sane and each bounded bracket touches the next. This holds of every
/// well-formed table and of each of its subranges.
pub open spec fn chain_ok(brs: Seq<TaxBracket>) -> bool {
    &&& forall|i: int| 0 <= i < brs.len() ==> bracket_ok(#[trigger] brs[i])
    &&& forall|i: int| 0 <= i < brs.len() - 1 ==> (#[trigger] brs[i].max) == Some(
        brs[i + 1].min,
    )
}

/// In a chained table the bracket floors ascend.
pub proof fn lemma_mins_ascend(brs: Seq<TaxBracket>, j: int, k: int)
    requires
        chain_ok(brs),
        0 <= j <= k < brs.len(),
    ensures
        brs[j].min <= brs[k].min,
    decreases k - j,
{
    if j < k {
        lemma_mins_ascend(brs, j, k - 1);
        assert(brs[k - 1].max == Some(brs[k].min));
        assert(bracket_ok(brs[k - 1]));
    }
}

/// A bracket's tax is between zero and the income slice it taxes.
pub proof fn lemma_bracket_tax_bounds(x: int, b: TaxBracket)
    requires
        bracket_ok(b),
    ensures
        0 <= bracket_tax(x, b) <= amount_in_bracket(x, b),
        0 <= amount_in_bracket(x, b),
{
    lemma_rate_part_le(amount_in_bracket(x, b), b.rate as int);
}

/// How far the first `i` brackets of a table can reach into an income of
/// `x`: up to the floor of bracket `i`, or all of it once every bracket
/// was walked.
pub open spec fn prefix_reach(brs: Seq<TaxBracket>, i: int, x: int) -> int {
    if i < brs.len() {
        spec_min(x, brs[i].min as int)
    } else {
        x
    }
}

/// The tax collected by the first `i` brackets is non-negative and never
/// exceeds what those brackets reach, hence never exceeds the income.
pub proof fn lemma_prefix_tax_le(brs: Seq<TaxBracket>, x: int, i: int)
    requires
        well_formed(brs),
        0 <= x,
        0 <= i <= brs.len(),
    ensures
        0 <= total_tax_on(brs.take(i), x) <= prefix_reach(brs, i, x) <= x,
    decreases i,
{
    if i == 0 {
        assert(brs.take(0) =~= Seq::empty());
    } else {
        lemma_prefix_tax_le(brs, x, i - 1);
        let pre = brs.take(i - 1);
        let post = brs.take(i);
        assert(post.drop_last() =~= pre);
        assert(post.last() == brs[i - 1]);
        let b = brs[i - 1];
        assert(bracket_ok(b));
        lemma_bracket_tax_bounds(x, b);
        if i - 1 < brs.len() - 1 {
            assert(b.max == Some(brs[i].min));
        }
    }
}

/// Once income no longer reaches bracket `i`, the brackets from `i` on
/// collect nothing, report no detail, and set no marginal rate.
pub proof fn lemma_suffix_contributes_nothing(brs: Seq<TaxBracket>, x: int, i: int)
    requires
        chain_ok(brs),
        0 <= i <= brs.len(),
        i < brs.len() ==> x <= brs[i].min as int,
    ensures
        total_tax_on(brs, x) == total_tax_on(brs.take(i), x),
        marginal_rate_on(brs, x) == marginal_rate_on(brs.take(i), x),
        bracket_details_on(brs, x) == bracket_details_on(brs.take(i), x),
    decreases brs.len() - i,
{
    let n = brs.len() as int;
    if i == n {
        assert(brs.take(i) =~= brs);
    } else {
        lemma_mins_ascend(brs, i, n - 1);
        let last = brs[n - 1];
        assert(x <= last.min as int);
        assert(amount_in_bracket(x, last) == 0);
        assert(bracket_tax(x, last) == 0);
        let shorter = brs.drop_last();
        assert(shorter =~= brs.take(n - 1));
        assert(chain_ok(shorter));
        lemma_suffix_contributes_nothing(shorter, x, i);
        assert(shorter.take(i) =~= brs.take(i));
        assert(brs.last() == last);
    }
}

/// Calculates 2024 federal income tax on `taxable_income` cents.
///
/// The caller supplies a non-negative taxable income (negative values are
/// clamped by the caller, not here). The tax year is accepted but every
/// year uses the 2024 tables, which the contract makes explicit.
pub fn calculate_tax(taxable_income: u64, status: FilingStatus, tax_year: i32) -> (r:
    TaxCalculation)
    ensures
        calculation_matches(r, taxable_income as int, status),
        r.total_tax <= taxable_income,
{
    let ghost x = taxable_income as int;
    let ghost brs = spec_brackets(status);
    proof {
        lemma_brackets_well_formed(status);
    }
    let brackets = get_brackets(status, tax_year);
    let n = brackets.len();
    let mut total_tax: u64 = 0;
    let mut marginal_rate: u32 = 0;
    let mut bracket_details: Vec<BracketDetail> = Vec::new();
    let mut i: usize = 0;
    proof {
        assert(brs.take(0) =~= Seq::empty());
    }
    while i < n && taxable_income > brackets[i].min
        invariant
            brackets@ == brs,
            brs == spec_brackets(status),
            well_formed(brs),
            n == brs.len(),
            x == taxable_income as int,
            0 <= i <= n,
            total_tax == total_tax_on(brs.take(i as int), x),
            marginal_rate == marginal_rate_on(brs.take(i as int), x),
            bracket_details@ == bracket_details_on(brs.take(i as int), x),
        decreases n - i,
    {
        let b = brackets[i];
        proof {
            assert(bracket_ok(b));
        }
        let capped = match b.max {
            Some(hi) => if taxable_income < hi {
                taxable_income
            } else {
                hi
            },
            None => taxable_income,
        };
        let taxable_in_bracket = capped - b.min;
        proof {
            assert(taxable_in_bracket as int == amount_in_bracket(x, b));
        }
        let tax_from_bracket = times_rate(taxable_in_bracket, b.rate);
        proof {
            lemma_prefix_tax_le(brs, x, i as int + 1);
            let pre = brs.take(i as int);
            let post = brs.take(i as int + 1);
            assert(post.drop_last() =~= pre);
            assert(post.last() == b);
        }
        total_tax = total_tax + tax_from_bracket;
        marginal_rate = b.rate;
        bracket_details.push(
            BracketDetail {
                min: b.min,
                max: b.max,
                rate: b.rate,
                taxable_amount: taxable_in_bracket,
                tax_amount: tax_from_bracket,
            },
        );
        i = i + 1;
    }
    proof {
        if i < n {
            lemma_suffix_contributes_nothing(brs, x, i as int);
        } else {
            assert(brs.take(i as int) =~= brs);
        }
        lemma_prefix_tax_le(brs, x, n as int);
        assert(brs.take(n as int) =~= brs);
    }
    let effective_rate: u32 = if taxable_income > 0 {
        proof {
            let d = RATE_DENOM as int;
            assert(total_tax as int * d <= x * d) by {
                vstd::arithmetic::mul::lemma_mul_inequality(total_tax as int, x, d);
            }
            vstd::arithmetic::div_mod::lemma_div_is_ordered(total_tax as int * d, x * d, x);
            assert(x * d == d * x) by (nonlinear_arith);
            vstd::arithmetic::div_mod::lemma_div_multiples_vanish(d, x);
            vstd::arithmetic::div_mod::lemma_div_pos_is_pos(total_tax as int * d, x);
            vstd::arithmetic::mul::lemma_mul_nonnegative(total_tax as int, d);
        }
        (((total_tax as u128) * (RATE_DENOM as u128)) / (taxable_income as u128)) as u32
    } else {
        0
    };
    TaxCalculation { total_tax, effective_rate, marginal_rate, bracket_details }
}

/// An income of zero (or less) owes no tax in any table: the total is
/// zero, no bracket is marginal, and no detail is reported.
pub proof fn lemma_nonpositive_income_no_tax(brs: Seq<TaxBracket>, x: int)
    requires
        x <= 0,
    ensures
        total_tax_on(brs, x) == 0,
        marginal_rate_on(brs, x) == 0,
        bracket_details_on(brs, x) == Seq::<BracketDetail>::empty(),
    decreases brs.len(),
{
    if brs.len() > 0 {
        lemma_nonpositive_income_no_tax(brs.drop_last(), x);
        assert(amount_in_bracket(x, brs.last()) == 0);
    }
}

/// At zero taxable income every filing status owes zero total tax and has
/// a zero marginal rate.
pub proof fn lemma_zero_income_zero_tax(status: FilingStatus)
    ensures
        total_tax_on(spec_brackets(status), 0) == 0,
        marginal_rate_on(spec_brackets(status), 0) == 0,
        bracket_details_on(spec_brackets(status), 0) == Seq::<BracketDetail>::empty(),
{
    lemma_nonpositive_income_no_tax(spec_brackets(status), 0);
}

/// Total tax is monotone in income, over any chained table.
pub proof fn lemma_tax_monotone_on(brs: Seq<TaxBracket>, x: int, y: int)
    requires
        chain_ok(brs),
        x <= y,
    ensures
        total_tax_on(brs, x) <= total_tax_on(brs, y),
    decreases brs.len(),
{
    if brs.len() > 0 {
        let shorter = brs.drop_last();
        assert(chain_ok(shorter));
        lemma_tax_monotone_on(shorter, x, y);
        let b = brs.last();
        assert(bracket_ok(b));
        assert(amount_in_bracket(x, b) <= amount_in_bracket(y, b));
        lemma_rate_part_monotone(amount_in_bracket(x, b), amount_in_bracket(y, b), b.rate as int);
    }
}

/// For a fixed filing status, total federal tax never decreases as
/// taxable income grows.
pub proof fn lemma_tax_monotonic(status: FilingStatus, x: int, y: int)
    requires
        0 <= x <= y,
    ensures
        total_tax_on(spec_brackets(status), x) <= total_tax_on(spec_brackets(status), y),
{
    lemma_brackets_well_formed(status);
    lemma_tax_monotone_on(spec_brackets(status), x, y);
}

/// Splitting a table at its first bracket splits the total tax.
proof fn lemma_total_cons(brs: Seq<TaxBracket>, x: int)
    requires
        brs.len() > 0,
    ensures
        total_tax_on(brs, x) == bracket_tax(x, brs[0]) + total_tax_on(brs.drop_first(), x),
    decreases brs.len(),
{
    if brs.len() == 1 {
        assert(brs.drop_first() =~= Seq::<TaxBracket>::empty());
        assert(brs.drop_last() =~= Seq::<TaxBracket>::empty());
    } else {
        let dl = brs.drop_last();
        lemma_total_cons(dl, x);
        assert(dl.drop_first() =~= brs.drop_first().drop_last());
        assert(brs.drop_first().last() == brs.last());
    }
}

/// A table whose first bracket starts at or above the income collects
/// nothing from it.
proof fn lemma_total_zero_below(brs: Seq<TaxBracket>, z: int)
    requires
        chain_ok(brs),
        brs.len() > 0 ==> z <= brs[0].min as int,
    ensures
        total_tax_on(brs, z) == 0,
    decreases brs.len(),
{
    if brs.len() > 0 {
        lemma_mins_ascend(brs, 0, brs.len() - 1);
        assert(amount_in_bracket(z, brs.last()) == 0);
        let shorter = brs.drop_last();
        assert(chain_ok(shorter));
        lemma_total_zero_below(shorter, z);
    }
}

/// Ten more cents of income inside a single bracket taxed at 10% or more
/// raise that bracket's tax: `floor` can hide less than one cent of tax
/// on a ten-cent slice.
proof fn lemma_same_bracket_step(ax: int, ay: int, r: int)
    requires
        0 <= ax,
        ax + 10 <= ay,
        1000 <= r,
    ensures
        rate_part(ax, r) + 1 <= rate_part(ay, r),
{
    let d = RATE_DENOM as int;
    let delta = ay - ax;
    assert(ay * r == ax * r + delta * r) by (nonlinear_arith)
        requires
            delta == ay - ax,
    ;
    lemma_div_sum_le(ax * r, delta * r, d);
    assert(10 * r <= delta * r) by {
        vstd::arithmetic::mul::lemma_mul_inequality(10, delta, r);
    }
    assert(10 * 1000 <= 10 * r) by (nonlinear_arith)
        requires
            1000 <= r,
    ;
    vstd::arithmetic::div_mod::lemma_div_is_ordered(10000, delta * r, d);
}

/// Strictness over any chained, unbounded, exact table whose rates are
/// at least 10%: ten more cents of income always cost at least one more
/// cent of tax.
proof fn lemma_tax_strict_on(brs: Seq<TaxBracket>, x: int, y: int)
    requires
        chain_ok(brs),
        brs.len() > 0,
        brs[brs.len() - 1].max is None,
        exact_boundaries(brs),
        rates_at_least(brs, 1000),
        brs[0].min as int <= x,
        x + 10 <= y,
    ensures
        total_tax_on(brs, x) + 1 <= total_tax_on(brs, y),
    decreases brs.len(),
{
    let d = RATE_DENOM as int;
    let b0 = brs[0];
    let lo = b0.min as int;
    let r = b0.rate as int;
    assert(bracket_ok(b0));
    let rest = brs.drop_first();
    assert(chain_ok(rest));
    lemma_total_cons(brs, x);
    lemma_total_cons(brs, y);
    match b0.max {
        None => {
            // chaining forces a bounded bracket before any successor, so
            // this is the only bracket
            assert(brs.len() == 1);
            assert(rest =~= Seq::<TaxBracket>::empty());
            assert(amount_in_bracket(x, b0) == x - lo);
            assert(amount_in_bracket(y, b0) == y - lo);
            lemma_same_bracket_step(x - lo, y - lo, r);
        },
        Some(c0) => {
            let c = c0 as int;
            assert(brs.len() > 1);
            assert(rest.len() > 0);
            assert(rest[0] == brs[1]);
            assert(brs[0].max == Some(brs[1].min));
            assert(rest[0].min == c0);
            if y <= c {
                lemma_total_zero_below(rest, x);
                lemma_total_zero_below(rest, y);
                assert(amount_in_bracket(x, b0) == x - lo);
                assert(amount_in_bracket(y, b0) == y - lo);
                lemma_same_bracket_step(x - lo, y - lo, r);
            } else if x >= c {
                assert(amount_in_bracket(x, b0) == c - lo);
                assert(amount_in_bracket(y, b0) == c - lo);
                assert(rest[rest.len() - 1] == brs[brs.len() - 1]);
                assert(exact_boundaries(rest)) by {
                    assert forall|i: int| 0 <= i < rest.len() - 1 implies (rest[i + 1].min - (
                    #[trigger] rest[i]).min) * (rest[i].rate as int) % (RATE_DENOM as int)
                        == 0 by {
                        assert(rest[i] == brs[i + 1]);
                        assert(rest[i + 1] == brs[i + 2]);
                    }
                }
                assert(rates_at_least(rest, 1000));
                lemma_tax_strict_on(rest, x, y);
            } else {
                // x sits inside the first bracket and y beyond it: filling
                // the bracket to its boundary already costs strictly more,
                // because the boundary product is exact
                lemma_tax_monotone_on(brs, c, y);
                lemma_total_cons(brs, c);
                lemma_total_zero_below(rest, x);
                lemma_total_zero_below(rest, c);
                let w = c - lo;
                let ax = x - lo;
                assert(amount_in_bracket(x, b0) == ax);
                assert(amount_in_bracket(c, b0) == w);
                assert((w * r) % d == 0) by {
                    assert((brs[1].min - brs[0].min) * (brs[0].rate as int) % (RATE_DENOM as int)
                        == 0);
                }
                assert(ax * r < w * r) by {
                    vstd::arithmetic::mul::lemma_mul_strict_inequality(ax, w, r);
                }
                vstd::arithmetic::mul::lemma_mul_nonnegative(ax, r);
                lemma_div_below_exact(ax * r, w * r, d);
            }
        },
    }
}

/// For a fixed filing status, total federal tax strictly increases with
/// income at ten-cent granularity: any dime of further income costs at
/// least one more cent of tax. (Exact cent-by-cent strictness cannot hold
/// of whole-cent results: one more cent of income at a 10% rate raises the
/// true tax by a tenth of a cent, which rounds away.)
pub proof fn lemma_tax_strictly_increasing(status: FilingStatus, x: int, y: int)
    requires
        0 <= x,
        x + 10 <= y,
    ensures
        total_tax_on(spec_brackets(status), x) < total_tax_on(spec_brackets(status), y),
{
    lemma_brackets_well_formed(status);
    lemma_tax_strict_on(spec_brackets(status), x, y);
}

/// Two incomes taxed identically by every bracket are taxed identically
/// in total.
proof fn lemma_total_congruent(brs: Seq<TaxBracket>, x1: int, x2: int)
    requires
        forall|j: int| 0 <= j < brs.len() ==> bracket_tax(x1, #[trigger] brs[j]) == bracket_tax(
            x2,
            brs[j],
        ),
    ensures
        total_tax_on(brs, x1) == total_tax_on(brs, x2),
    decreases brs.len(),
{
    if brs.len() > 0 {
        lemma_total_congruent(brs.drop_last(), x1, x2);
        assert(brs.last() == brs[brs.len() - 1]);
    }
}

/// When two incomes are taxed identically by every bracket but one, the
/// totals differ exactly by that bracket's difference.
proof fn lemma_total_pointwise_diff(brs: Seq<TaxBracket>, x1: int, x2: int, i: int)
    requires
        0 <= i < brs.len(),
        forall|j: int|
            0 <= j < brs.len() && j != i ==> bracket_tax(x1, #[trigger] brs[j]) == bracket_tax(
                x2,
                brs[j],
            ),
    ensures
        total_tax_on(brs, x1) - total_tax_on(brs, x2) == bracket_tax(x1, brs[i]) - bracket_tax(
            x2,
            brs[i],
        ),
    decreases brs.len(),
{
    if i == brs.len() - 1 {
        lemma_total_congruent(brs.drop_last(), x1, x2);
    } else {
        lemma_total_pointwise_diff(brs.drop_last(), x1, x2, i);
        assert(brs.last() == brs[brs.len() - 1]);
    }
}

/// Continuity at a bracket boundary: the tax at a bracket's upper bound
/// exceeds the tax at `bound - eps` by exactly the ceiling of
/// `eps * rate / RATE_DENOM` — the marginal rate applied to the missing
/// slice, and nothing more.
pub proof fn lemma_tax_continuous_at_boundary(status: FilingStatus, i: int, eps: int)
    requires
        0 <= i < spec_brackets(status).len() - 1,
        0 <= eps <= spec_brackets(status)[i + 1].min - spec_brackets(status)[i].min,
    ensures
        ({
            let brs = spec_brackets(status);
            let c = brs[i + 1].min as int;
            let r = brs[i].rate as int;
            total_tax_on(brs, c) == total_tax_on(brs, c - eps) + (eps * r + (RATE_DENOM - 1) as int)
                / (RATE_DENOM as int)
        }),
{
    lemma_brackets_well_formed(status);
    let d = RATE_DENOM as int;
    let brs = spec_brackets(status);
    let b = brs[i];
    let lo = b.min as int;
    let c = brs[i + 1].min as int;
    let r = b.rate as int;
    let w = c - lo;
    assert(b.max == Some(brs[i + 1].min));
    assert(bracket_ok(b));
    assert(amount_in_bracket(c, b) == w);
    assert(amount_in_bracket(c - eps, b) == w - eps);
    assert forall|j: int|
        0 <= j < brs.len() && j != i implies bracket_tax(c, #[trigger] brs[j]) == bracket_tax(
        c - eps,
        brs[j],
    ) by {
        if j < i {
            lemma_mins_ascend(brs, j + 1, i);
            assert(brs[j].max == Some(brs[j + 1].min));
            assert(amount_in_bracket(c, brs[j]) == brs[j + 1].min - brs[j].min);
            assert(amount_in_bracket(c - eps, brs[j]) == brs[j + 1].min - brs[j].min);
        } else {
            lemma_mins_ascend(brs, i + 1, j);
            assert(amount_in_bracket(c, brs[j]) == 0);
            assert(amount_in_bracket(c - eps, brs[j]) == 0);
        }
    }
    lemma_total_pointwise_diff(brs, c, c - eps, i);
    assert((w * r) % d == 0) by {
        assert((brs[i + 1].min - brs[i].min) * (brs[i].rate as int) % (RATE_DENOM as int) == 0);
    }
    let k = (w * r) / d;
    vstd::arithmetic::div_mod::lemma_fundamental_div_mod(w * r, d);
    assert(w * r == d * k);
    assert((w - eps) * r == w * r - eps * r) by (nonlinear_arith);
    assert(eps * r <= w * r) by {
        vstd::arithmetic::mul::lemma_mul_inequality(eps, w, r);
    }
    vstd::arithmetic::mul::lemma_mul_nonnegative(eps, r);
    lemma_div_exact_minus_ceil(k, eps * r, d);
}

/// The calculation is a pure function of its inputs: any two results that
/// satisfy [`calculate_tax`]'s contract for the same income and status are
/// identical in every field.
pub proof fn lemma_calculation_deterministic(
    r1: TaxCalculation,
    r2: TaxCalculation,
    income: int,
    status: FilingStatus,
)
    requires
        calculation_matches(r1, income, status),
        calculation_matches(r2, income, status),
    ensures
        r1.total_tax == r2.total_tax,
        r1.effective_rate == r2.effective_rate,
        r1.marginal_rate == r2.marginal_rate,
        r1.bracket_details@ == r2.bracket_details@,
{
}

} // verus!
