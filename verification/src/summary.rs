//! The composition layer: one call that resolves deductions, computes
//! taxable income, runs the federal and state calculators, applies
//! credits, and reports a single summary; plus quarterly estimates and a
//! bracket lookup by status name.

use vstd::prelude::*;

use vstd::math::max as spec_max;

use crate::brackets::{get_brackets, get_standard_deduction, spec_brackets,
    spec_standard_deduction, TaxBracket};
use crate::federal::{
    bracket_details_on, calculate_tax, effective_rate_of, marginal_rate_on, total_tax_on,
    BracketDetail,
};
use crate::filing::{parse_filing_status, FilingStatus, TaxError};
use crate::money::rate_part;
use crate::state::{calculate_state_tax, state_rate_bp};

verus! {

/// A request for a full tax summary. Amounts are cents; the filing status
/// and the optional jurisdiction are given by name.
#[derive(Debug, Clone, PartialEq, Eq)]
pub struct TaxCalculationRequest {
    pub gross_income: u64,
    pub filing_status: String,
    pub deductions: Option<u64>,
    pub credits: Option<u64>,
    pub state: Option<String>,
    pub tax_year: Option<i32>,
}

/// One bracket's line in a summary's breakdown.
#[derive(Debug, Clone, Copy, PartialEq, Eq)]
pub struct BracketBreakdown {
    pub bracket_min: u64,
    pub bracket_max: Option<u64>,
    pub rate: u32,
    pub taxable_in_bracket: u64,
    pub tax_from_bracket: u64,
}

/// A full tax summary. Amounts are cents; the two rates are basis points.
#[derive(Debug, Clone, PartialEq, Eq)]
pub struct TaxCalculationResponse {
    pub gross_income: u64,
    pub standard_deduction: u64,
    pub total_deductions: u64,
    pub taxable_income: u64,
    pub federal_tax: u64,
    pub state_tax: u64,
    pub total_tax: u64,
    pub effective_rate: u32,
    pub marginal_rate: u32,
    pub tax_credits: u64,
    pub tax_after_credits: u64,
    pub breakdown: Vec<BracketBreakdown>,
}

/// Itemized deductions count only when they beat the standard deduction.
pub open spec fn total_deductions_of(itemized: Option<u64>, standard: int) -> int {
    match itemized {
        Some(d) => spec_max(d as int, standard),
        None => standard,
    }
}

/// Taxable income: gross income less deductions, floored at zero.
pub open spec fn taxable_income_of(gross: int, deductions: int) -> int {
    spec_max(gross - deductions, 0)
}

/// The state tax a summary reports: zero when no jurisdiction was asked
/// for, and — unlike the standalone state calculator — zero again when the
/// jurisdiction is unsupported, so that a bad code never sinks the whole
/// summary.
pub open spec fn summary_state_tax(state: Option<String>, taxable: int) -> int {
    match state {
        Some(s) => match state_rate_bp(s@) {
            Some(rate) => rate_part(taxable, rate as int),
            None => 0,
        },
        None => 0,
    }
}

/// The breakdown line reported for one bracket detail.
pub open spec fn breakdown_entry(d: BracketDetail) -> BracketBreakdown {
    BracketBreakdown {
        bracket_min: d.min,
        bracket_max: d.max,
        rate: d.rate,
        taxable_in_bracket: d.taxable_amount,
        tax_from_bracket: d.tax_amount,
    }
}

/// The full contract of [`calculate_federal_tax`]'s successful result.
pub open spec fn summary_matches(
    resp: TaxCalculationResponse,
    request: TaxCalculationRequest,
    status: FilingStatus,
) -> bool {
    let standard = spec_standard_deduction(status) as int;
    let deductions = total_deductions_of(request.deductions, standard);
    let taxable = taxable_income_of(request.gross_income as int, deductions);
    let brs = spec_brackets(status);
    let federal = total_tax_on(brs, taxable);
    let credits = match request.credits {
        Some(c) => c as int,
        None => 0,
    };
    let after_credits = spec_max(federal - credits, 0);
    let details = bracket_details_on(brs, taxable);
    &&& resp.gross_income == request.gross_income
    &&& resp.standard_deduction == standard
    &&& resp.total_deductions == deductions
    &&& resp.taxable_income == taxable
    &&& resp.federal_tax == federal
    &&& resp.state_tax == summary_state_tax(request.state, taxable)
    &&& resp.total_tax == after_credits + resp.state_tax
    &&& resp.effective_rate == effective_rate_of(after_credits, taxable)
    &&& resp.marginal_rate == marginal_rate_on(brs, taxable)
    &&& resp.tax_credits == credits
    &&& resp.tax_after_credits == after_credits
    &&& resp.breakdown@.len() == details.len()
    &&& forall|j: int| 0 <= j < details.len() ==> resp.breakdown@[j] == breakdown_entry(
        #[trigger] details[j],
    )
}

/// Computes the full federal-plus-state summary of a request.
///
/// An unrecognized filing status is an error carrying the name as given.
/// The gross-income bound is a machine limit: the reported total sums the
/// federal tax after credits and the state tax, each of which can approach
/// the taxable income.
pub fn calculate_federal_tax(request: &TaxCalculationRequest) -> (r: Result<
    TaxCalculationResponse,
    TaxError,
>)
    requires
        request.gross_income <= u64::MAX / 2,
    ensures
        parse_filing_status(request.filing_status@) matches Some(status) ==> (r matches Ok(resp)
            && summary_matches(resp, *request, status)),
        parse_filing_status(request.filing_status@) is None ==> (r matches Err(
            TaxError::InvalidFilingStatus(m),
        ) && m@ == request.filing_status@),
{
    let filing_status = match FilingStatus::from_str(request.filing_status.as_str()) {
        Ok(status) => status,
        Err(e) => {
            return Err(e);
        },
    };
    let tax_year = match request.tax_year {
        Some(y) => y,
        None => 2024,
    };
    let standard_deduction = get_standard_deduction(filing_status, tax_year);
    let total_deductions = match request.deductions {
        Some(d) => if d > standard_deduction {
            d
        } else {
            standard_deduction
        },
        None => standard_deduction,
    };
    let taxable_income = if request.gross_income > total_deductions {
        request.gross_income - total_deductions
    } else {
        0
    };
    let calculation = calculate_tax(taxable_income, filing_status, tax_year);
    let tax_credits = match request.credits {
        Some(c) => c,
        None => 0,
    };
    let tax_after_credits = if calculation.total_tax > tax_credits {
        calculation.total_tax - tax_credits
    } else {
        0
    };
    let state_tax = match &request.state {
        Some(state) => match calculate_state_tax(taxable_income, state.as_str(), tax_year) {
            Ok(amount) => amount,
            Err(_) => 0,
        },
        None => 0,
    };
    let ghost details = bracket_details_on(spec_brackets(filing_status), taxable_income as int);
    let mut breakdown: Vec<BracketBreakdown> = Vec::new();
    let n = calculation.bracket_details.len();
    let mut i: usize = 0;
    while i < n
        invariant
            n == calculation.bracket_details@.len(),
            calculation.bracket_details@ == details,
            0 <= i <= n,
            breakdown@.len() == i,
            forall|j: int| 0 <= j < i ==> breakdown@[j] == breakdown_entry(#[trigger] details[j]),
        decreases n - i,
    {
        let d = calculation.bracket_details[i];
        breakdown.push(
            BracketBreakdown {
                bracket_min: d.min,
                bracket_max: d.max,
                rate: d.rate,
                taxable_in_bracket: d.taxable_amount,
                tax_from_bracket: d.tax_amount,
            },
        );
        i = i + 1;
    }
    let effective_rate: u32 = if taxable_income > 0 {
        proof {
            let d = crate::money::RATE_DENOM as int;
            let x = taxable_income as int;
            assert(tax_after_credits as int * d <= x * d) by {
                vstd::arithmetic::mul::lemma_mul_inequality(tax_after_credits as int, x, d);
            }
            vstd::arithmetic::div_mod::lemma_div_is_ordered(tax_after_credits as int * d, x * d, x);
            assert(x * d == d * x) by (nonlinear_arith);
            vstd::arithmetic::div_mod::lemma_div_multiples_vanish(d, x);
            vstd::arithmetic::div_mod::lemma_div_pos_is_pos(tax_after_credits as int * d, x);
            vstd::arithmetic::mul::lemma_mul_nonnegative(tax_after_credits as int, d);
        }
        (((tax_after_credits as u128) * (crate::money::RATE_DENOM as u128)) / (
        taxable_income as u128)) as u32
    } else {
        0
    };
    Ok(
        TaxCalculationResponse {
            gross_income: request.gross_income,
            standard_deduction,
            total_deductions,
            taxable_income,
            federal_tax: calculation.total_tax,
            state_tax,
            total_tax: tax_after_credits + state_tax,
            effective_rate,
            marginal_rate: calculation.marginal_rate,
            tax_credits,
            tax_after_credits,
            breakdown,
        },
    )
}

/// Returns the bracket table for a filing status given by name.
pub fn get_tax_brackets(filing_status: &str, tax_year: Option<i32>) -> (r: Result<
    Vec<TaxBracket>,
    TaxError,
>)
    ensures
        parse_filing_status(filing_status@) matches Some(status) ==> (r matches Ok(v) && v@
            == spec_brackets(status)),
        parse_filing_status(filing_status@) is None ==> (r matches Err(
            TaxError::InvalidFilingStatus(m),
        ) && m@ == filing_status@),
{
    let status = match FilingStatus::from_str(filing_status) {
        Ok(status) => status,
        Err(e) => {
            return Err(e);
        },
    };
    let year = match tax_year {
        Some(y) => y,
        None => 2024,
    };
    Ok(get_brackets(status, year))
}

/// A quarterly estimated-payment plan. Amounts are cents.
#[derive(Debug, Clone, PartialEq, Eq)]
pub struct QuarterlyEstimate {
    pub annual_tax: u64,
    pub withholding: u64,
    pub remaining_tax: u64,
    pub quarterly_payment: u64,
    pub due_dates: Vec<String>,
}

/// Estimates quarterly payments: the 2024 federal tax on the income after
/// the standard deduction, less what was already withheld, split in four.
///
/// The four due-date labels are the 2024 filing season's dates; like the
/// bracket tables, they are not yet derived from a tax-year argument.
pub fn estimate_quarterly_tax(annual_income: u64, filing_status: &str, withholding: Option<u64>)
    -> (r: Result<QuarterlyEstimate, TaxError>)
    ensures
        parse_filing_status(filing_status@) matches Some(status) ==> (r matches Ok(q) && {
            let taxable = taxable_income_of(
                annual_income as int,
                spec_standard_deduction(status) as int,
            );
            let annual = total_tax_on(spec_brackets(status), taxable);
            let withheld = match withholding {
                Some(w) => w as int,
                None => 0,
            };
            let remaining = spec_max(annual - withheld, 0);
            &&& q.annual_tax == annual
            &&& q.withholding == withheld
            &&& q.remaining_tax == remaining
            &&& q.quarterly_payment == remaining / 4
            &&& q.due_dates@.len() == 4
            &&& q.due_dates@[0]@ == "April 15, 2024"@
            &&& q.due_dates@[1]@ == "June 17, 2024"@
            &&& q.due_dates@[2]@ == "September 16, 2024"@
            &&& q.due_dates@[3]@ == "January 15, 2025"@
        }),
        parse_filing_status(filing_status@) is None ==> (r matches Err(
            TaxError::InvalidFilingStatus(m),
        ) && m@ == filing_status@),
{
    let status = match FilingStatus::from_str(filing_status) {
        Ok(status) => status,
        Err(e) => {
            return Err(e);
        },
    };
    let standard_deduction = get_standard_deduction(status, 2024);
    let taxable_income = if annual_income > standard_deduction {
        annual_income - standard_deduction
    } else {
        0
    };
    let calculation = calculate_tax(taxable_income, status, 2024);
    let annual_tax = calculation.total_tax;
    let already_withheld = match withholding {
        Some(w) => w,
        None => 0,
    };
    let remaining_tax = if annual_tax > already_withheld {
        annual_tax - already_withheld
    } else {
        0
    };
    let quarterly_payment = remaining_tax / 4;
    let mut due_dates: Vec<String> = Vec::new();
    due_dates.push("April 15, 2024".to_owned());
    due_dates.push("June 17, 2024".to_owned());
    due_dates.push("September 16, 2024".to_owned());
    due_dates.push("January 15, 2025".to_owned());
    Ok(
        QuarterlyEstimate {
            annual_tax,
            withholding: already_withheld,
            remaining_tax,
            quarterly_payment,
            due_dates,
        },
    )
}

} // verus!
