//! Parsing and rendering filing statuses.

use tax_engine::filing::{FilingStatus, TaxError};

#[test]
fn parses_every_status_by_key() {
    assert_eq!(FilingStatus::from_str("single"), Ok(FilingStatus::Single));
    assert_eq!(
        FilingStatus::from_str("married_filing_jointly"),
        Ok(FilingStatus::MarriedFilingJointly)
    );
    assert_eq!(
        FilingStatus::from_str("married_filing_separately"),
        Ok(FilingStatus::MarriedFilingSeparately)
    );
    assert_eq!(
        FilingStatus::from_str("head_of_household"),
        Ok(FilingStatus::HeadOfHousehold)
    );
    assert_eq!(
        FilingStatus::from_str("qualifying_widow"),
        Ok(FilingStatus::QualifyingWidow)
    );
}

#[test]
fn parses_synonyms_and_spaced_forms() {
    assert_eq!(FilingStatus::from_str("mfj"), Ok(FilingStatus::MarriedFilingJointly));
    assert_eq!(
        FilingStatus::from_str("married filing jointly"),
        Ok(FilingStatus::MarriedFilingJointly)
    );
    assert_eq!(FilingStatus::from_str("mfs"), Ok(FilingStatus::MarriedFilingSeparately));
    assert_eq!(
        FilingStatus::from_str("married filing separately"),
        Ok(FilingStatus::MarriedFilingSeparately)
    );
    assert_eq!(FilingStatus::from_str("hoh"), Ok(FilingStatus::HeadOfHousehold));
    assert_eq!(
        FilingStatus::from_str("head of household"),
        Ok(FilingStatus::HeadOfHousehold)
    );
    assert_eq!(FilingStatus::from_str("qw"), Ok(FilingStatus::QualifyingWidow));
    assert_eq!(
        FilingStatus::from_str("qualifying widow"),
        Ok(FilingStatus::QualifyingWidow)
    );
}

#[test]
fn parsing_ignores_ascii_case() {
    assert_eq!(FilingStatus::from_str("Single"), Ok(FilingStatus::Single));
    assert_eq!(FilingStatus::from_str("SINGLE"), Ok(FilingStatus::Single));
    assert_eq!(FilingStatus::from_str("MFJ"), Ok(FilingStatus::MarriedFilingJointly));
    assert_eq!(
        FilingStatus::from_str("Head Of Household"),
        Ok(FilingStatus::HeadOfHousehold)
    );
}

#[test]
fn unknown_status_is_an_error_carrying_the_input() {
    assert_eq!(
        FilingStatus::from_str("widowed"),
        Err(TaxError::InvalidFilingStatus("widowed".to_string()))
    );
    assert_eq!(
        FilingStatus::from_str(""),
        Err(TaxError::InvalidFilingStatus("".to_string()))
    );
}

#[test]
fn renders_display_names() {
    assert_eq!(FilingStatus::Single.as_str(), "Single");
    assert_eq!(FilingStatus::MarriedFilingJointly.as_str(), "Married Filing Jointly");
    assert_eq!(
        FilingStatus::MarriedFilingSeparately.as_str(),
        "Married Filing Separately"
    );
    assert_eq!(FilingStatus::HeadOfHousehold.as_str(), "Head of Household");
    assert_eq!(FilingStatus::QualifyingWidow.as_str(), "Qualifying Widow(er)");
}
