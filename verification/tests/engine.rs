//! Federal bracket calculation, state tax, FICA and self-employment tax.
//! Amounts are cents, rates are basis points.

use tax_engine::brackets::{get_brackets, get_standard_deduction};
use tax_engine::federal::calculate_tax;
use tax_engine::fica::calculate_fica;
use tax_engine::filing::{FilingStatus, TaxError};
use tax_engine::self_employment::calculate_se_tax;
use tax_engine::state::calculate_state_tax;

#[test]
fn test_single_filer_basic() {
    // $50,000 income - $14,600 standard deduction = $35,400 taxable
    let result = calculate_tax(3_540_000, FilingStatus::Single, 2024);

    // 10% on first $11,600 = $1,160
    // 12% on remaining $23,800 = $2,856
    // Total = $4,016
    assert!((result.total_tax as i64 - 401_600).abs() < 100);
    assert_eq!(result.marginal_rate, 1200);
}

#[test]
fn test_married_filing_jointly() {
    // $150,000 income - $29,200 standard deduction = $120,800 taxable
    let result = calculate_tax(12_080_000, FilingStatus::MarriedFilingJointly, 2024);

    // 10% on $23,200 = $2,320
    // 12% on $71,100 ($94,300 - $23,200) = $8,532
    // 22% on $26,500 ($120,800 - $94,300) = $5,830
    // Total = $16,682
    assert!((result.total_tax as i64 - 1_668_200).abs() < 100);
    assert_eq!(result.marginal_rate, 2200);
}

#[test]
fn test_standard_deductions() {
    assert_eq!(get_standard_deduction(FilingStatus::Single, 2024), 1_460_000);
    assert_eq!(get_standard_deduction(FilingStatus::MarriedFilingJointly, 2024), 2_920_000);
    assert_eq!(get_standard_deduction(FilingStatus::HeadOfHousehold, 2024), 2_190_000);
}

#[test]
fn test_state_tax() {
    // Texas - no income tax
    assert_eq!(calculate_state_tax(10_000_000, "TX", 2024).unwrap(), 0);

    // California - ~7.25%
    let ca_tax = calculate_state_tax(10_000_000, "CA", 2024).unwrap();
    assert!((ca_tax as i64 - 725_000).abs() < 100);
}

#[test]
fn test_fica() {
    let result = calculate_fica(10_000_000);

    // 6.2% SS + 1.45% Medicare = 7.65%
    assert!((result.total_fica as i64 - 765_000).abs() < 100);
}

#[test]
fn single_filer_exact_amounts() {
    let result = calculate_tax(3_540_000, FilingStatus::Single, 2024);
    assert_eq!(result.total_tax, 401_600);
    assert_eq!(result.marginal_rate, 1200);
    // 401600 * 10000 / 3540000 = 1134 basis points, rounded down
    assert_eq!(result.effective_rate, 1134);
    assert_eq!(result.bracket_details.len(), 2);
    assert_eq!(result.bracket_details[0].min, 0);
    assert_eq!(result.bracket_details[0].max, Some(1_160_000));
    assert_eq!(result.bracket_details[0].taxable_amount, 1_160_000);
    assert_eq!(result.bracket_details[0].tax_amount, 116_000);
    assert_eq!(result.bracket_details[1].taxable_amount, 2_380_000);
    assert_eq!(result.bracket_details[1].tax_amount, 285_600);
}

#[test]
fn zero_income_owes_nothing_for_every_status() {
    let statuses = [
        FilingStatus::Single,
        FilingStatus::MarriedFilingJointly,
        FilingStatus::MarriedFilingSeparately,
        FilingStatus::HeadOfHousehold,
        FilingStatus::QualifyingWidow,
    ];
    for status in statuses {
        let result = calculate_tax(0, status, 2024);
        assert_eq!(result.total_tax, 0);
        assert_eq!(result.marginal_rate, 0);
        assert_eq!(result.effective_rate, 0);
        assert!(result.bracket_details.is_empty());
    }
}

#[test]
fn qualifying_widow_matches_married_filing_jointly() {
    let widow = calculate_tax(12_080_000, FilingStatus::QualifyingWidow, 2024);
    let joint = calculate_tax(12_080_000, FilingStatus::MarriedFilingJointly, 2024);
    assert_eq!(widow, joint);
    assert_eq!(
        get_brackets(FilingStatus::QualifyingWidow, 2024),
        get_brackets(FilingStatus::MarriedFilingJointly, 2024)
    );
    assert_eq!(
        get_standard_deduction(FilingStatus::QualifyingWidow, 2024),
        get_standard_deduction(FilingStatus::MarriedFilingJointly, 2024)
    );
}

#[test]
fn brackets_are_contiguous_and_ascending() {
    let statuses = [
        FilingStatus::Single,
        FilingStatus::MarriedFilingJointly,
        FilingStatus::MarriedFilingSeparately,
        FilingStatus::HeadOfHousehold,
        FilingStatus::QualifyingWidow,
    ];
    for status in statuses {
        let brackets = get_brackets(status, 2024);
        assert!(!brackets.is_empty());
        assert_eq!(brackets[0].min, 0);
        assert_eq!(brackets[brackets.len() - 1].max, None);
        for i in 0..brackets.len() - 1 {
            assert_eq!(brackets[i].max, Some(brackets[i + 1].min));
            assert!(brackets[i].min < brackets[i + 1].min);
            assert!(brackets[i].rate < brackets[i + 1].rate);
        }
    }
}

#[test]
fn any_tax_year_falls_back_to_the_2024_tables() {
    assert_eq!(
        get_brackets(FilingStatus::Single, 1999),
        get_brackets(FilingStatus::Single, 2024)
    );
    assert_eq!(
        calculate_tax(3_540_000, FilingStatus::Single, 2030),
        calculate_tax(3_540_000, FilingStatus::Single, 2024)
    );
    assert_eq!(get_standard_deduction(FilingStatus::Single, 1999), 1_460_000);
}

#[test]
fn total_tax_is_monotone_in_income() {
    let mut previous = 0;
    for step in 0..60 {
        let income = step * 2_500_000;
        let total = calculate_tax(income, FilingStatus::Single, 2024).total_tax;
        assert!(total >= previous);
        previous = total;
    }
    // a dime more of income costs at least a cent more of tax
    let lower = calculate_tax(5_000_000, FilingStatus::Single, 2024).total_tax;
    let higher = calculate_tax(5_000_010, FilingStatus::Single, 2024).total_tax;
    assert!(lower < higher);
}

#[test]
fn tax_is_continuous_at_bracket_boundaries() {
    // at the single filers' first boundary ($11,600.00), ten cents below
    // cost exactly one cent (ten cents at 10%) less
    let at_bound = calculate_tax(1_160_000, FilingStatus::Single, 2024).total_tax;
    let below = calculate_tax(1_159_990, FilingStatus::Single, 2024).total_tax;
    assert_eq!(at_bound, 116_000);
    assert_eq!(below, 115_999);

    // crossing into the 12% bracket adds twelve cents per further dollar
    let above = calculate_tax(1_160_100, FilingStatus::Single, 2024).total_tax;
    assert_eq!(above, 116_012);
}

#[test]
fn repeated_calls_return_identical_results() {
    let first = calculate_tax(9_876_543, FilingStatus::HeadOfHousehold, 2024);
    let second = calculate_tax(9_876_543, FilingStatus::HeadOfHousehold, 2024);
    assert_eq!(first, second);

    let fica_first = calculate_fica(25_000_000);
    let fica_second = calculate_fica(25_000_000);
    assert_eq!(fica_first, fica_second);

    let se_first = calculate_se_tax(25_000_000);
    let se_second = calculate_se_tax(25_000_000);
    assert_eq!(se_first, se_second);
}

#[test]
fn unsupported_state_is_an_error() {
    let result = calculate_state_tax(10_000_000, "ZZ", 2024);
    assert_eq!(result, Err(TaxError::UnsupportedState("ZZ".to_string())));
}

#[test]
fn state_codes_are_case_insensitive() {
    assert_eq!(
        calculate_state_tax(10_000_000, "ca", 2024).unwrap(),
        calculate_state_tax(10_000_000, "CA", 2024).unwrap()
    );
    assert_eq!(calculate_state_tax(10_000_000, "tx", 2024).unwrap(), 0);
}

#[test]
fn state_rates_spot_checks() {
    // Pennsylvania: flat 3.07%
    assert_eq!(calculate_state_tax(10_000_000, "PA", 2024).unwrap(), 307_000);
    // Oregon: 9.9% effective
    assert_eq!(calculate_state_tax(10_000_000, "OR", 2024).unwrap(), 990_000);
    // DC: 8.95% effective
    assert_eq!(calculate_state_tax(10_000_000, "DC", 2024).unwrap(), 895_000);
}

#[test]
fn fica_exact_amounts_below_caps() {
    let result = calculate_fica(10_000_000);
    assert_eq!(result.social_security_tax, 620_000);
    assert_eq!(result.medicare_tax, 145_000);
    assert_eq!(result.total_fica, 765_000);
}

#[test]
fn social_security_tax_is_capped_at_the_wage_base() {
    // the cap: $168,600 * 6.2% = $10,453.20
    let at_base = calculate_fica(16_860_000);
    assert_eq!(at_base.social_security_tax, 1_045_320);

    let enormous = calculate_fica(9_000_000_000_000);
    assert_eq!(enormous.social_security_tax, 1_045_320);

    let above = calculate_fica(30_000_000);
    assert_eq!(above.social_security_tax, 1_045_320);
}

#[test]
fn additional_medicare_applies_above_the_threshold() {
    // $300,000 wages: SS capped, Medicare 1.45% of all wages plus 0.9% of
    // the $100,000 above the threshold
    let result = calculate_fica(30_000_000);
    assert_eq!(result.medicare_tax, 435_000 + 90_000);
    assert_eq!(result.total_fica, 1_045_320 + 525_000);
}

#[test]
fn se_tax_exact_amounts() {
    // $100,000 net: 92.35% taxable, 12.4% SS + 2.9% Medicare
    let result = calculate_se_tax(10_000_000);
    assert_eq!(result.social_security_tax, 1_145_140);
    assert_eq!(result.medicare_tax, 267_815);
    assert_eq!(result.total_se_tax, 1_412_955);
    assert_eq!(result.deductible_amount, 706_477);
}

#[test]
fn se_deductible_is_half_of_the_total() {
    for net in [0u64, 100_000, 777_777, 10_000_000, 25_000_000, 123_456_789] {
        let result = calculate_se_tax(net);
        assert_eq!(result.deductible_amount, result.total_se_tax / 2);
        assert_eq!(
            result.total_se_tax,
            result.social_security_tax + result.medicare_tax
        );
    }
}

#[test]
fn se_tax_above_wage_base_and_threshold() {
    // $250,000 net: taxable $230,875; SS capped at the wage base; 0.9%
    // additional Medicare on the part above $200,000
    let result = calculate_se_tax(25_000_000);
    assert_eq!(result.social_security_tax, 2_090_640);
    assert_eq!(result.medicare_tax, 669_537 + 27_787);
    assert_eq!(result.total_se_tax, 2_787_964);
    assert_eq!(result.deductible_amount, 1_393_982);
}

#[test]
fn married_separate_splits_the_top_brackets_lower() {
    let single = get_brackets(FilingStatus::Single, 2024);
    let separate = get_brackets(FilingStatus::MarriedFilingSeparately, 2024);
    // identical through the 32% bracket...
    assert_eq!(single[..5], separate[..5]);
    // ...but the 35% band ends at $365,600 instead of $609,350
    assert_eq!(separate[5].max, Some(36_560_000));
    assert_eq!(single[5].max, Some(60_935_000));
    assert_eq!(separate[6].min, 36_560_000);
    assert_eq!(separate[6].max, None);
    assert_eq!(separate[6].rate, 3700);
}

#[test]
fn head_of_household_table_values() {
    let brackets = get_brackets(FilingStatus::HeadOfHousehold, 2024);
    let expected = [
        (0, Some(1_655_000), 1000),
        (1_655_000, Some(6_310_000), 1200),
        (6_310_000, Some(10_050_000), 2200),
        (10_050_000, Some(19_195_000), 2400),
        (19_195_000, Some(24_370_000), 3200),
        (24_370_000, Some(60_935_000), 3500),
        (60_935_000, None, 3700),
    ];
    assert_eq!(brackets.len(), expected.len());
    for (bracket, (min, max, rate)) in brackets.iter().zip(expected) {
        assert_eq!(bracket.min, min);
        assert_eq!(bracket.max, max);
        assert_eq!(bracket.rate, rate);
    }
}

#[test]
fn top_bracket_income_is_taxed_at_37_percent_margin() {
    // $1,000,000 taxable, single: deep in the unbounded 37% bracket
    let result = calculate_tax(100_000_000, FilingStatus::Single, 2024);
    assert_eq!(result.marginal_rate, 3700);
    assert_eq!(result.bracket_details.len(), 7);
    // 10%*11600 + 12%*35550 + 22%*53375 + 24%*91425 + 32%*51775 + 35%*365625 + 37%*390650
    let expected = 116_000u64 + 426_600 + 1_174_250 + 2_194_200 + 1_656_800 + 12_796_875
        + 14_454_050;
    assert_eq!(result.total_tax, expected);
}
