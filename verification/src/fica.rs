//! FICA: employee Social Security and Medicare payroll taxes, at the
//! fixed 2024 rates and thresholds.

use vstd::prelude::*;

use vstd::math::min as spec_min;

use crate::money::{lemma_rate_part_monotone, lemma_rate_parts_bounded, rate_part, times_rate};

verus! {

/// Social Security tax rate, in basis points (6.2%).
pub const SOCIAL_SECURITY_RATE: u32 = 620;

/// Medicare tax rate, in basis points (1.45%).
pub const MEDICARE_RATE: u32 = 145;

/// The 2024 Social Security wage base, in cents: wages above it owe no
/// further Social Security tax.
pub const SOCIAL_SECURITY_WAGE_BASE: u64 = 168_600_00;

/// Wages above this threshold, in cents, owe additional Medicare tax.
pub const MEDICARE_ADDITIONAL_THRESHOLD: u64 = 200_000_00;

/// The additional Medicare tax rate, in basis points (0.9%).
pub const MEDICARE_ADDITIONAL_RATE: u32 = 90;

/// Employee FICA taxes on gross wages, in cents.
#[derive(Debug, Clone, Copy, PartialEq, Eq)]
pub struct FicaResult {
    pub social_security_tax: u64,
    pub medicare_tax: u64,
    pub total_fica: u64,
}

/// The Social Security portion: 6.2% of wages up to the wage base.
pub open spec fn social_security_tax_of(wages: int) -> int {
    rate_part(spec_min(wages, SOCIAL_SECURITY_WAGE_BASE as int), SOCIAL_SECURITY_RATE as int)
}

/// The Medicare portion: 1.45% of all wages, plus 0.9% of wages above the
/// additional-Medicare threshold.
pub open spec fn medicare_tax_of(wages: int) -> int {
    rate_part(wages, MEDICARE_RATE as int) + if wages > MEDICARE_ADDITIONAL_THRESHOLD as int {
        rate_part(wages - MEDICARE_ADDITIONAL_THRESHOLD as int, MEDICARE_ADDITIONAL_RATE as int)
    } else {
        0
    }
}

/// Calculates employee FICA taxes on `gross_wages` cents.
///
/// The Social Security part never exceeds the tax on the wage base
/// itself, however large the wages.
pub fn calculate_fica(gross_wages: u64) -> (r: FicaResult)
    ensures
        r.social_security_tax == social_security_tax_of(gross_wages as int),
        r.medicare_tax == medicare_tax_of(gross_wages as int),
        r.total_fica == r.social_security_tax + r.medicare_tax,
        r.social_security_tax <= rate_part(
            SOCIAL_SECURITY_WAGE_BASE as int,
            SOCIAL_SECURITY_RATE as int,
        ),
        r.total_fica <= gross_wages,
{
    let ss_wages = if gross_wages < SOCIAL_SECURITY_WAGE_BASE {
        gross_wages
    } else {
        SOCIAL_SECURITY_WAGE_BASE
    };
    let social_security_tax = times_rate(ss_wages, SOCIAL_SECURITY_RATE);
    proof {
        lemma_rate_part_monotone(
            ss_wages as int,
            SOCIAL_SECURITY_WAGE_BASE as int,
            SOCIAL_SECURITY_RATE as int,
        );
    }
    let medicare_base = times_rate(gross_wages, MEDICARE_RATE);
    let medicare_additional = if gross_wages > MEDICARE_ADDITIONAL_THRESHOLD {
        times_rate(gross_wages - MEDICARE_ADDITIONAL_THRESHOLD, MEDICARE_ADDITIONAL_RATE)
    } else {
        0
    };
    proof {
        let w = gross_wages as int;
        let extra = if w > MEDICARE_ADDITIONAL_THRESHOLD as int {
            w - MEDICARE_ADDITIONAL_THRESHOLD as int
        } else {
            0
        };
        lemma_rate_parts_bounded(
            ss_wages as int,
            SOCIAL_SECURITY_RATE as int,
            w,
            MEDICARE_RATE as int,
            extra,
            MEDICARE_ADDITIONAL_RATE as int,
            w,
        );
        assert(rate_part(0, MEDICARE_ADDITIONAL_RATE as int) == 0);
    }
    let medicare_tax = medicare_base + medicare_additional;
    FicaResult {
        social_security_tax,
        medicare_tax,
        total_fica: social_security_tax + medicare_tax,
    }
}

/// The calculation is a pure function of the wages: two results that meet
/// [`calculate_fica`]'s contract for the same wages agree in every field.
pub proof fn lemma_fica_deterministic(r1: FicaResult, r2: FicaResult, wages: int)
    requires
        r1.social_security_tax == social_security_tax_of(wages),
        r1.medicare_tax == medicare_tax_of(wages),
        r1.total_fica == r1.social_security_tax + r1.medicare_tax,
        r2.social_security_tax == social_security_tax_of(wages),
        r2.medicare_tax == medicare_tax_of(wages),
        r2.total_fica == r2.social_security_tax + r2.medicare_tax,
    ensures
        r1 == r2,
{
}

} // verus!
