//! The composition layer: full summaries, bracket lookup by name, and
//! quarterly estimates.

use tax_engine::filing::TaxError;
use tax_engine::summary::{
    calculate_federal_tax, estimate_quarterly_tax, get_tax_brackets, TaxCalculationRequest,
};

fn request(gross_income: u64, filing_status: &str) -> TaxCalculationRequest {
    TaxCalculationRequest {
        gross_income,
        filing_status: filing_status.to_string(),
        deductions: None,
        credits: None,
        state: None,
        tax_year: None,
    }
}

#[test]
fn summary_for_a_single_filer_with_state() {
    let mut req = request(5_000_000, "single");
    req.state = Some("CA".to_string());
    let resp = calculate_federal_tax(&req).unwrap();
    assert_eq!(resp.gross_income, 5_000_000);
    assert_eq!(resp.standard_deduction, 1_460_000);
    assert_eq!(resp.total_deductions, 1_460_000);
    assert_eq!(resp.taxable_income, 3_540_000);
    assert_eq!(resp.federal_tax, 401_600);
    assert_eq!(resp.state_tax, 256_650);
    assert_eq!(resp.tax_credits, 0);
    assert_eq!(resp.tax_after_credits, 401_600);
    assert_eq!(resp.total_tax, 401_600 + 256_650);
    assert_eq!(resp.marginal_rate, 1200);
    assert_eq!(resp.effective_rate, 1134);
    assert_eq!(resp.breakdown.len(), 2);
    assert_eq!(resp.breakdown[0].bracket_min, 0);
    assert_eq!(resp.breakdown[0].taxable_in_bracket, 1_160_000);
    assert_eq!(resp.breakdown[0].tax_from_bracket, 116_000);
}

#[test]
fn summary_prefers_larger_itemized_deductions() {
    let mut req = request(5_000_000, "single");
    req.deductions = Some(2_000_000);
    let resp = calculate_federal_tax(&req).unwrap();
    assert_eq!(resp.total_deductions, 2_000_000);
    assert_eq!(resp.taxable_income, 3_000_000);

    // itemized below the standard deduction falls back to the standard one
    req.deductions = Some(1_000_000);
    let resp = calculate_federal_tax(&req).unwrap();
    assert_eq!(resp.total_deductions, 1_460_000);
}

#[test]
fn summary_applies_credits_floored_at_zero() {
    let mut req = request(5_000_000, "single");
    req.credits = Some(100_000);
    let resp = calculate_federal_tax(&req).unwrap();
    assert_eq!(resp.federal_tax, 401_600);
    assert_eq!(resp.tax_after_credits, 301_600);
    assert_eq!(resp.total_tax, 301_600);

    req.credits = Some(999_999_999);
    let resp = calculate_federal_tax(&req).unwrap();
    assert_eq!(resp.tax_after_credits, 0);
    assert_eq!(resp.total_tax, 0);
    assert_eq!(resp.effective_rate, 0);
}

#[test]
fn summary_treats_unsupported_state_as_zero() {
    let mut req = request(5_000_000, "single");
    req.state = Some("ZZ".to_string());
    let resp = calculate_federal_tax(&req).unwrap();
    assert_eq!(resp.state_tax, 0);
    assert_eq!(resp.total_tax, resp.tax_after_credits);
}

#[test]
fn summary_clamps_income_below_deductions_to_zero() {
    let resp = calculate_federal_tax(&request(1_000_000, "single")).unwrap();
    assert_eq!(resp.taxable_income, 0);
    assert_eq!(resp.federal_tax, 0);
    assert_eq!(resp.total_tax, 0);
    assert_eq!(resp.effective_rate, 0);
    assert_eq!(resp.marginal_rate, 0);
    assert!(resp.breakdown.is_empty());
}

#[test]
fn summary_rejects_unknown_filing_status() {
    let result = calculate_federal_tax(&request(5_000_000, "unknown"));
    assert_eq!(
        result,
        Err(TaxError::InvalidFilingStatus("unknown".to_string()))
    );
}

#[test]
fn bracket_lookup_by_name() {
    let brackets = get_tax_brackets("mfj", None).unwrap();
    assert_eq!(brackets.len(), 7);
    assert_eq!(brackets[0].min, 0);
    assert_eq!(brackets[0].max, Some(2_320_000));
    assert_eq!(brackets[0].rate, 1000);
    assert_eq!(brackets[6].max, None);
    assert_eq!(brackets[6].rate, 3700);

    assert_eq!(
        get_tax_brackets("nope", Some(2024)),
        Err(TaxError::InvalidFilingStatus("nope".to_string()))
    );
}

#[test]
fn quarterly_estimate_splits_the_remaining_tax() {
    let estimate = estimate_quarterly_tax(5_000_000, "single", Some(100_000)).unwrap();
    assert_eq!(estimate.annual_tax, 401_600);
    assert_eq!(estimate.withholding, 100_000);
    assert_eq!(estimate.remaining_tax, 301_600);
    assert_eq!(estimate.quarterly_payment, 75_400);
    assert_eq!(
        estimate.due_dates,
        vec![
            "April 15, 2024",
            "June 17, 2024",
            "September 16, 2024",
            "January 15, 2025",
        ]
    );
}

#[test]
fn quarterly_estimate_with_excess_withholding_owes_nothing() {
    let estimate = estimate_quarterly_tax(5_000_000, "single", Some(9_999_999)).unwrap();
    assert_eq!(estimate.remaining_tax, 0);
    assert_eq!(estimate.quarterly_payment, 0);

    let no_withholding = estimate_quarterly_tax(5_000_000, "single", None).unwrap();
    assert_eq!(no_withholding.remaining_tax, 401_600);
    assert_eq!(no_withholding.quarterly_payment, 100_400);
}
