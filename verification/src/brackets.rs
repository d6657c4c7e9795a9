//! 2024 federal tax bracket tables and standard deductions.
//!
//! Only the 2024 tables exist; any other tax year deliberately falls back to
//! them, so callers must not assume year-accuracy beyond 2024. Amounts are
//! cents, rates are basis points.

use vstd::prelude::*;

use crate::filing::FilingStatus;
use crate::money::RATE_DENOM;

verus! {

/// One federal tax bracket: income from `min` (inclusive) to `max`
/// (exclusive) is taxed at `rate` basis points. The top bracket has
/// `max == None` and is unbounded.
#[derive(Debug, Clone, Copy, PartialEq, Eq)]
pub struct TaxBracket {
    pub min: u64,
    pub max: Option<u64>,
    pub rate: u32,
}

/// A single bracket is sane: a positive width and a rate below 100%.
pub open spec fn bracket_ok(b: TaxBracket) -> bool {
    &&& match b.max {
        Some(hi) => b.min < hi,
        None => true,
    }
    &&& b.rate < RATE_DENOM
}

/// A bracket table is ordered, contiguous and gap-free, starts at zero
/// income, and its final bracket is unbounded.
pub open spec fn well_formed(brs: Seq<TaxBracket>) -> bool {
    &&& brs.len() > 0
    &&& brs[0].min == 0
    &&& brs[brs.len() - 1].max is None
    &&& forall|i: int| 0 <= i < brs.len() ==> bracket_ok(#[trigger] brs[i])
    &&& forall|i: int| 0 <= i < brs.len() - 1 ==> (#[trigger] brs[i].max) == Some(
        brs[i + 1].min,
    )
}

/// Every bounded bracket's width times its rate is an exact number of
/// cents (no rounding is lost at a bracket boundary). This holds of the
/// 2024 tables because boundaries are whole dollars and rates are whole
/// tenths of a percent.
pub open spec fn exact_boundaries(brs: Seq<TaxBracket>) -> bool {
    forall|i: int| 0 <= i < brs.len() - 1 ==> (brs[i + 1].min - (#[trigger] brs[i]).min) * (
    brs[i].rate as int) % (RATE_DENOM as int) == 0
}

/// Every rate in the table is at least `r` basis points.
pub open spec fn rates_at_least(brs: Seq<TaxBracket>, r: int) -> bool {
    forall|i: int| 0 <= i < brs.len() ==> (#[trigger] brs[i]).rate >= r
}

/// The 2024 brackets for single filers.
pub open spec fn single_brackets() -> Seq<TaxBracket> {
    seq![
        TaxBracket { min: 0, max: Some(11_600_00), rate: 1000 },
        TaxBracket { min: 11_600_00, max: Some(47_150_00), rate: 1200 },
        TaxBracket { min: 47_150_00, max: Some(100_525_00), rate: 2200 },
        TaxBracket { min: 100_525_00, max: Some(191_950_00), rate: 2400 },
        TaxBracket { min: 191_950_00, max: Some(243_725_00), rate: 3200 },
        TaxBracket { min: 243_725_00, max: Some(609_350_00), rate: 3500 },
        TaxBracket { min: 609_350_00, max: None, rate: 3700 },
    ]
}

/// The 2024 brackets for married filing jointly (and, by design, for a
/// qualifying widow(er)).
pub open spec fn married_joint_brackets() -> Seq<TaxBracket> {
    seq![
        TaxBracket { min: 0, max: Some(23_200_00), rate: 1000 },
        TaxBracket { min: 23_200_00, max: Some(94_300_00), rate: 1200 },
        TaxBracket { min: 94_300_00, max: Some(201_050_00), rate: 2200 },
        TaxBracket { min: 201_050_00, max: Some(383_900_00), rate: 2400 },
        TaxBracket { min: 383_900_00, max: Some(487_450_00), rate: 3200 },
        TaxBracket { min: 487_450_00, max: Some(731_200_00), rate: 3500 },
        TaxBracket { min: 731_200_00, max: None, rate: 3700 },
    ]
}

/// The 2024 brackets for married filing separately: identical to single
/// except that the two top brackets split at a lower bound.
pub open spec fn married_separate_brackets() -> Seq<TaxBracket> {
    seq![
        TaxBracket { min: 0, max: Some(11_600_00), rate: 1000 },
        TaxBracket { min: 11_600_00, max: Some(47_150_00), rate: 1200 },
        TaxBracket { min: 47_150_00, max: Some(100_525_00), rate: 2200 },
        TaxBracket { min: 100_525_00, max: Some(191_950_00), rate: 2400 },
        TaxBracket { min: 191_950_00, max: Some(243_725_00), rate: 3200 },
        TaxBracket { min: 243_725_00, max: Some(365_600_00), rate: 3500 },
        TaxBracket { min: 365_600_00, max: None, rate: 3700 },
    ]
}

/// The 2024 brackets for a head of household.
pub open spec fn head_of_household_brackets() -> Seq<TaxBracket> {
    seq![
        TaxBracket { min: 0, max: Some(16_550_00), rate: 1000 },
        TaxBracket { min: 16_550_00, max: Some(63_100_00), rate: 1200 },
        TaxBracket { min: 63_100_00, max: Some(100_500_00), rate: 2200 },
        TaxBracket { min: 100_500_00, max: Some(191_950_00), rate: 2400 },
        TaxBracket { min: 191_950_00, max: Some(243_700_00), rate: 3200 },
        TaxBracket { min: 243_700_00, max: Some(609_350_00), rate: 3500 },
        TaxBracket { min: 609_350_00, max: None, rate: 3700 },
    ]
}

/// The bracket table of a filing status. A qualifying widow(er) uses the
/// married-filing-jointly table by design, not by accident.
pub open spec fn spec_brackets(status: FilingStatus) -> Seq<TaxBracket> {
    match status {
        FilingStatus::Single => single_brackets(),
        FilingStatus::MarriedFilingJointly => married_joint_brackets(),
        FilingStatus::MarriedFilingSeparately => married_separate_brackets(),
        FilingStatus::HeadOfHousehold => head_of_household_brackets(),
        FilingStatus::QualifyingWidow => married_joint_brackets(),
    }
}

/// The 2024 standard deduction of a filing status, in cents.
pub open spec fn spec_standard_deduction(status: FilingStatus) -> u64 {
    match status {
        FilingStatus::Single => 14_600_00,
        FilingStatus::MarriedFilingJointly => 29_200_00,
        FilingStatus::MarriedFilingSeparately => 14_600_00,
        FilingStatus::HeadOfHousehold => 21_900_00,
        FilingStatus::QualifyingWidow => 29_200_00,
    }
}

/// Returns the bracket table for a filing status.
///
/// The tax year is accepted for forward extensibility but currently
/// ignored: every year returns the 2024 table, as the contract states.
pub fn get_brackets(status: FilingStatus, _tax_year: i32) -> (r: Vec<TaxBracket>)
    ensures
        r@ == spec_brackets(status),
{
    let mut v: Vec<TaxBracket> = Vec::new();
    match status {
        FilingStatus::Single | FilingStatus::MarriedFilingSeparately => {
            v.push(TaxBracket { min: 0, max: Some(11_600_00), rate: 1000 });
            v.push(TaxBracket { min: 11_600_00, max: Some(47_150_00), rate: 1200 });
            v.push(TaxBracket { min: 47_150_00, max: Some(100_525_00), rate: 2200 });
            v.push(TaxBracket { min: 100_525_00, max: Some(191_950_00), rate: 2400 });
            v.push(TaxBracket { min: 191_950_00, max: Some(243_725_00), rate: 3200 });
            match status {
                FilingStatus::MarriedFilingSeparately => {
                    v.push(TaxBracket { min: 243_725_00, max: Some(365_600_00), rate: 3500 });
                    v.push(TaxBracket { min: 365_600_00, max: None, rate: 3700 });
                    proof {
                        assert(v@ =~= married_separate_brackets());
                    }
                },
                _ => {
                    v.push(TaxBracket { min: 243_725_00, max: Some(609_350_00), rate: 3500 });
                    v.push(TaxBracket { min: 609_350_00, max: None, rate: 3700 });
                    proof {
                        assert(v@ =~= single_brackets());
                    }
                },
            }
        },
        FilingStatus::MarriedFilingJointly | FilingStatus::QualifyingWidow => {
            v.push(TaxBracket { min: 0, max: Some(23_200_00), rate: 1000 });
            v.push(TaxBracket { min: 23_200_00, max: Some(94_300_00), rate: 1200 });
            v.push(TaxBracket { min: 94_300_00, max: Some(201_050_00), rate: 2200 });
            v.push(TaxBracket { min: 201_050_00, max: Some(383_900_00), rate: 2400 });
            v.push(TaxBracket { min: 383_900_00, max: Some(487_450_00), rate: 3200 });
            v.push(TaxBracket { min: 487_450_00, max: Some(731_200_00), rate: 3500 });
            v.push(TaxBracket { min: 731_200_00, max: None, rate: 3700 });
            proof {
                assert(v@ =~= married_joint_brackets());
            }
        },
        FilingStatus::HeadOfHousehold => {
            v.push(TaxBracket { min: 0, max: Some(16_550_00), rate: 1000 });
            v.push(TaxBracket { min: 16_550_00, max: Some(63_100_00), rate: 1200 });
            v.push(TaxBracket { min: 63_100_00, max: Some(100_500_00), rate: 2200 });
            v.push(TaxBracket { min: 100_500_00, max: Some(191_950_00), rate: 2400 });
            v.push(TaxBracket { min: 191_950_00, max: Some(243_700_00), rate: 3200 });
            v.push(TaxBracket { min: 243_700_00, max: Some(609_350_00), rate: 3500 });
            v.push(TaxBracket { min: 609_350_00, max: None, rate: 3700 });
            proof {
                assert(v@ =~= head_of_household_brackets());
            }
        },
    }
    v
}

/// Returns the standard deduction, in cents, for a filing status.
///
/// As with [`get_brackets`], any tax year returns the 2024 amount.
pub fn get_standard_deduction(status: FilingStatus, _tax_year: i32) -> (r: u64)
    ensures
        r == spec_standard_deduction(status),
{
    match status {
        FilingStatus::Single => 14_600_00,
        FilingStatus::MarriedFilingJointly => 29_200_00,
        FilingStatus::MarriedFilingSeparately => 14_600_00,
        FilingStatus::HeadOfHousehold => 21_900_00,
        FilingStatus::QualifyingWidow => 29_200_00,
    }
}

/// Boundary exactness of one concrete seven-bracket table, shown bracket
/// by bracket so that each width-times-rate product is constant arithmetic.
proof fn lemma_exact_boundaries_seven(brs: Seq<TaxBracket>)
    requires
        brs.len() == 7,
        (brs[1].min - brs[0].min) * (brs[0].rate as int) % (RATE_DENOM as int) == 0,
        (brs[2].min - brs[1].min) * (brs[1].rate as int) % (RATE_DENOM as int) == 0,
        (brs[3].min - brs[2].min) * (brs[2].rate as int) % (RATE_DENOM as int) == 0,
        (brs[4].min - brs[3].min) * (brs[3].rate as int) % (RATE_DENOM as int) == 0,
        (brs[5].min - brs[4].min) * (brs[4].rate as int) % (RATE_DENOM as int) == 0,
        (brs[6].min - brs[5].min) * (brs[5].rate as int) % (RATE_DENOM as int) == 0,
    ensures
        exact_boundaries(brs),
{
    assert forall|i: int| 0 <= i < brs.len() - 1 implies (brs[i + 1].min - (#[trigger] brs[i]).min)
        * (brs[i].rate as int) % (RATE_DENOM as int) == 0 by {
        if i == 0 {
        } else if i == 1 {
        } else if i == 2 {
        } else if i == 3 {
        } else if i == 4 {
        } else {
            assert(i == 5);
        }
    }
}

/// The bracket table of every filing status is contiguous, ascending and
/// gap-free, covers all income from zero up, ends in an unbounded bracket,
/// loses no rounding at bracket boundaries, and taxes every bracket at
/// between 10% and 100% (exclusive).
pub proof fn lemma_brackets_well_formed(status: FilingStatus)
    ensures
        well_formed(spec_brackets(status)),
        exact_boundaries(spec_brackets(status)),
        rates_at_least(spec_brackets(status), 1000),
{
    let brs = spec_brackets(status);
    match status {
        FilingStatus::Single => {
            assert(well_formed(brs));
            lemma_exact_boundaries_seven(brs);
            assert(rates_at_least(brs, 1000));
        },
        FilingStatus::MarriedFilingJointly => {
            assert(well_formed(brs));
            lemma_exact_boundaries_seven(brs);
            assert(rates_at_least(brs, 1000));
        },
        FilingStatus::MarriedFilingSeparately => {
            assert(well_formed(brs));
            lemma_exact_boundaries_seven(brs);
            assert(rates_at_least(brs, 1000));
        },
        FilingStatus::HeadOfHousehold => {
            assert(well_formed(brs));
            lemma_exact_boundaries_seven(brs);
            assert(rates_at_least(brs, 1000));
        },
        FilingStatus::QualifyingWidow => {
            assert(well_formed(brs));
            lemma_exact_boundaries_seven(brs);
            assert(rates_at_least(brs, 1000));
        },
    }
}

} // verus!
