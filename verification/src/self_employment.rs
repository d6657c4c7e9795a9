//! Self-employment tax: the self-employed equivalent of combined
//! employer and employee FICA, at the fixed 2024 rates.

use vstd::prelude::*;

use vstd::math::min as spec_min;

use crate::fica::{MEDICARE_ADDITIONAL_RATE, MEDICARE_ADDITIONAL_THRESHOLD,
    SOCIAL_SECURITY_WAGE_BASE};
use crate::money::{lemma_rate_part_le, lemma_rate_parts_bounded, rate_part, times_rate};

verus! {

/// The combined self-employment tax rate, in basis points: 12.4% Social
/// Security plus 2.9% Medicare.
pub const SE_TAX_RATE: u32 = 1530;

/// Only 92.35% of net self-employment earnings are subject to the tax,
/// in basis points.
pub const SE_DEDUCTION_RATE: u32 = 9235;

/// The Social Security component of the combined rate, in basis points.
pub const SE_SOCIAL_SECURITY_RATE: u32 = 1240;

/// The Medicare component of the combined rate, in basis points.
pub const SE_MEDICARE_RATE: u32 = 290;

/// Self-employment tax on net earnings, in cents.
#[derive(Debug, Clone, Copy, PartialEq, Eq)]
pub struct SeResult {
    pub social_security_tax: u64,
    pub medicare_tax: u64,
    pub total_se_tax: u64,
    pub deductible_amount: u64,
}

/// The portion of net earnings subject to self-employment tax: 92.35%.
pub open spec fn se_taxable_income(net: int) -> int {
    rate_part(net, SE_DEDUCTION_RATE as int)
}

/// The Social Security portion: 12.4% of taxable earnings up to the wage
/// base.
pub open spec fn se_social_security_tax_of(net: int) -> int {
    rate_part(
        spec_min(se_taxable_income(net), SOCIAL_SECURITY_WAGE_BASE as int),
        SE_SOCIAL_SECURITY_RATE as int,
    )
}

/// The Medicare portion: 2.9% of all taxable earnings, plus 0.9% of
/// taxable earnings above the additional-Medicare threshold. (The engine
/// applies the threshold to self-employment earnings alone, never
/// combining them with wages — a deliberate simplification.)
pub open spec fn se_medicare_tax_of(net: int) -> int {
    let taxable = se_taxable_income(net);
    rate_part(taxable, SE_MEDICARE_RATE as int) + if taxable
        > MEDICARE_ADDITIONAL_THRESHOLD as int {
        rate_part(taxable - MEDICARE_ADDITIONAL_THRESHOLD as int, MEDICARE_ADDITIONAL_RATE as int)
    } else {
        0
    }
}

/// Calculates self-employment tax on `net_self_employment_income` cents.
///
/// The engine takes the net earnings as non-negative; clamping a business
/// loss to zero is the caller's decision. Exactly half of the total tax,
/// rounded down to the cent, is reported as deductible.
pub fn calculate_se_tax(net_self_employment_income: u64) -> (r: SeResult)
    ensures
        r.social_security_tax == se_social_security_tax_of(net_self_employment_income as int),
        r.medicare_tax == se_medicare_tax_of(net_self_employment_income as int),
        r.total_se_tax == r.social_security_tax + r.medicare_tax,
        r.deductible_amount == r.total_se_tax / 2,
        r.total_se_tax <= net_self_employment_income,
{
    let taxable_se_income = times_rate(net_self_employment_income, SE_DEDUCTION_RATE);
    proof {
        lemma_rate_part_le(net_self_employment_income as int, SE_DEDUCTION_RATE as int);
    }
    let ss_portion = if taxable_se_income < SOCIAL_SECURITY_WAGE_BASE {
        taxable_se_income
    } else {
        SOCIAL_SECURITY_WAGE_BASE
    };
    let ss_tax = times_rate(ss_portion, SE_SOCIAL_SECURITY_RATE);
    let medicare_base = times_rate(taxable_se_income, SE_MEDICARE_RATE);
    let additional_medicare = if taxable_se_income > MEDICARE_ADDITIONAL_THRESHOLD {
        times_rate(taxable_se_income - MEDICARE_ADDITIONAL_THRESHOLD, MEDICARE_ADDITIONAL_RATE)
    } else {
        0
    };
    proof {
        let t = taxable_se_income as int;
        let extra = if t > MEDICARE_ADDITIONAL_THRESHOLD as int {
            t - MEDICARE_ADDITIONAL_THRESHOLD as int
        } else {
            0
        };
        lemma_rate_parts_bounded(
            ss_portion as int,
            SE_SOCIAL_SECURITY_RATE as int,
            t,
            SE_MEDICARE_RATE as int,
            extra,
            MEDICARE_ADDITIONAL_RATE as int,
            t,
        );
        assert(rate_part(0, MEDICARE_ADDITIONAL_RATE as int) == 0);
    }
    let medicare_tax = medicare_base + additional_medicare;
    let total_se_tax = ss_tax + medicare_tax;
    let deductible_amount = total_se_tax / 2;
    SeResult { social_security_tax: ss_tax, medicare_tax, total_se_tax, deductible_amount }
}

/// The calculation is a pure function of the net earnings: two results
/// that meet [`calculate_se_tax`]'s contract for the same earnings agree
/// in every field.
pub proof fn lemma_se_deterministic(r1: SeResult, r2: SeResult, net: int)
    requires
        r1.social_security_tax == se_social_security_tax_of(net),
        r1.medicare_tax == se_medicare_tax_of(net),
        r1.total_se_tax == r1.social_security_tax + r1.medicare_tax,
        r1.deductible_amount == r1.total_se_tax / 2,
        r2.social_security_tax == se_social_security_tax_of(net),
        r2.medicare_tax == se_medicare_tax_of(net),
        r2.total_se_tax == r2.social_security_tax + r2.medicare_tax,
        r2.deductible_amount == r2.total_se_tax / 2,
    ensures
        r1 == r2,
{
}

} // verus!
