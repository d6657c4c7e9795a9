//! Filing statuses for federal income tax, and the engine's error type.

use vstd::prelude::*;

use crate::text::{chars_eq_ci, str_eq_ignore_case};

verus! {

/// An error from one of the tax calculators.
///
/// `InvalidTaxYear` is reserved: no calculator raises it today, because every
/// tax year falls back to the 2024 tables (see [`crate::brackets`]).
#[derive(Debug, Clone, PartialEq, Eq)]
pub enum TaxError {
    InvalidFilingStatus(String),
    UnsupportedState(String),
    InvalidTaxYear(i32),
}

/// Filing status for federal taxes.
#[derive(Debug, Clone, Copy, PartialEq, Eq)]
pub enum FilingStatus {
    Single,
    MarriedFilingJointly,
    MarriedFilingSeparately,
    HeadOfHousehold,
    QualifyingWidow,
}

/// The filing status named by `s`, compared ignoring ASCII case, or `None`
/// when `s` names none of them.
pub open spec fn parse_filing_status(s: Seq<char>) -> Option<FilingStatus> {
    if chars_eq_ci(s, "single"@) {
        Some(FilingStatus::Single)
    } else if chars_eq_ci(s, "married_filing_jointly"@) || chars_eq_ci(
        s,
        "married filing jointly"@,
    ) || chars_eq_ci(s, "mfj"@) {
        Some(FilingStatus::MarriedFilingJointly)
    } else if chars_eq_ci(s, "married_filing_separately"@) || chars_eq_ci(
        s,
        "married filing separately"@,
    ) || chars_eq_ci(s, "mfs"@) {
        Some(FilingStatus::MarriedFilingSeparately)
    } else if chars_eq_ci(s, "head_of_household"@) || chars_eq_ci(s, "head of household"@)
        || chars_eq_ci(s, "hoh"@) {
        Some(FilingStatus::HeadOfHousehold)
    } else if chars_eq_ci(s, "qualifying_widow"@) || chars_eq_ci(s, "qualifying widow"@)
        || chars_eq_ci(s, "qw"@) {
        Some(FilingStatus::QualifyingWidow)
    } else {
        None
    }
}

/// The display name of a filing status, as a character sequence.
pub open spec fn filing_status_name(status: FilingStatus) -> Seq<char> {
    match status {
        FilingStatus::Single => "Single"@,
        FilingStatus::MarriedFilingJointly => "Married Filing Jointly"@,
        FilingStatus::MarriedFilingSeparately => "Married Filing Separately"@,
        FilingStatus::HeadOfHousehold => "Head of Household"@,
        FilingStatus::QualifyingWidow => "Qualifying Widow(er)"@,
    }
}

impl FilingStatus {
    /// Parses a filing status from a name or abbreviation, ignoring ASCII
    /// case ("Single", "mfj", "married filing jointly", ...).
    pub fn from_str(s: &str) -> (r: Result<FilingStatus, TaxError>)
        ensures
            parse_filing_status(s@) is Some ==> r == Ok::<FilingStatus, TaxError>(
                parse_filing_status(s@).unwrap(),
            ),
            parse_filing_status(s@) is None ==> (r matches Err(TaxError::InvalidFilingStatus(m))
                && m@ == s@),
    {
        if str_eq_ignore_case(s, "single") {
            Ok(FilingStatus::Single)
        } else if str_eq_ignore_case(s, "married_filing_jointly") || str_eq_ignore_case(
            s,
            "married filing jointly",
        ) || str_eq_ignore_case(s, "mfj") {
            Ok(FilingStatus::MarriedFilingJointly)
        } else if str_eq_ignore_case(s, "married_filing_separately") || str_eq_ignore_case(
            s,
            "married filing separately",
        ) || str_eq_ignore_case(s, "mfs") {
            Ok(FilingStatus::MarriedFilingSeparately)
        } else if str_eq_ignore_case(s, "head_of_household") || str_eq_ignore_case(
            s,
            "head of household",
        ) || str_eq_ignore_case(s, "hoh") {
            Ok(FilingStatus::HeadOfHousehold)
        } else if str_eq_ignore_case(s, "qualifying_widow") || str_eq_ignore_case(
            s,
            "qualifying widow",
        ) || str_eq_ignore_case(s, "qw") {
            Ok(FilingStatus::QualifyingWidow)
        } else {
            Err(TaxError::InvalidFilingStatus(s.to_owned()))
        }
    }

    /// The display name of this filing status.
    pub fn as_str(&self) -> (r: &'static str)
        ensures
            r@ == filing_status_name(*self),
    {
        match self {
            FilingStatus::Single => "Single",
            FilingStatus::MarriedFilingJointly => "Married Filing Jointly",
            FilingStatus::MarriedFilingSeparately => "Married Filing Separately",
            FilingStatus::HeadOfHousehold => "Head of Household",
            FilingStatus::QualifyingWidow => "Qualifying Widow(er)",
        }
    }
}

} // verus!
