//! Record vocabularies: statuses, deduction categories, document types,
//! and the deduction-category catalog.

use tax_engine::records::{
    get_deduction_categories, DeductionCategory, DocumentType, TaxReturnStatus,
};

#[test]
fn tax_return_status_round_trips() {
    let all = [
        TaxReturnStatus::Draft,
        TaxReturnStatus::InProgress,
        TaxReturnStatus::Review,
        TaxReturnStatus::Filed,
        TaxReturnStatus::Amended,
    ];
    for status in all {
        assert_eq!(TaxReturnStatus::from_str(status.as_str()), Ok(status));
    }
    assert_eq!(TaxReturnStatus::InProgress.as_str(), "in_progress");
    assert_eq!(
        TaxReturnStatus::from_str("inprogress"),
        Ok(TaxReturnStatus::InProgress)
    );
    assert_eq!(TaxReturnStatus::from_str("FILED"), Ok(TaxReturnStatus::Filed));
}

#[test]
fn unknown_tax_return_status_message() {
    assert_eq!(
        TaxReturnStatus::from_str("archived"),
        Err("Unknown status: archived".to_string())
    );
}

#[test]
fn deduction_category_round_trips() {
    let all = [
        DeductionCategory::Medical,
        DeductionCategory::StateLocalTaxes,
        DeductionCategory::MortgageInterest,
        DeductionCategory::Charitable,
        DeductionCategory::Business,
        DeductionCategory::HomeOffice,
        DeductionCategory::Education,
        DeductionCategory::Retirement,
        DeductionCategory::HealthSavings,
        DeductionCategory::Other,
    ];
    for category in all {
        assert_eq!(DeductionCategory::from_str(category.as_str()), Ok(category));
    }
    assert_eq!(
        DeductionCategory::from_str("salt"),
        Ok(DeductionCategory::StateLocalTaxes)
    );
    assert_eq!(
        DeductionCategory::from_str("HSA"),
        Ok(DeductionCategory::HealthSavings)
    );
    assert_eq!(
        DeductionCategory::from_str("donation"),
        Ok(DeductionCategory::Charitable)
    );
    assert_eq!(
        DeductionCategory::from_str("mortgage"),
        Ok(DeductionCategory::MortgageInterest)
    );
    assert_eq!(
        DeductionCategory::from_str("gambling"),
        Err("Unknown category: gambling".to_string())
    );
}

#[test]
fn deduction_category_display_names() {
    assert_eq!(DeductionCategory::Medical.display_name(), "Medical & Dental");
    assert_eq!(
        DeductionCategory::StateLocalTaxes.display_name(),
        "State & Local Taxes"
    );
    assert_eq!(
        DeductionCategory::HealthSavings.display_name(),
        "Health Savings Account"
    );
    assert_eq!(DeductionCategory::Other.display_name(), "Other");
}

#[test]
fn document_type_round_trips() {
    let all = [
        DocumentType::W2,
        DocumentType::Form1099Int,
        DocumentType::Form1099Div,
        DocumentType::Form1099Misc,
        DocumentType::Form1099Nec,
        DocumentType::Form1099B,
        DocumentType::FormK1,
        DocumentType::Receipt,
        DocumentType::BankStatement,
        DocumentType::Other,
    ];
    for doc_type in all {
        assert_eq!(DocumentType::from_str(doc_type.as_str()), Ok(doc_type));
    }
    assert_eq!(DocumentType::from_str("W-2"), Ok(DocumentType::W2));
    assert_eq!(DocumentType::from_str("form1099int"), Ok(DocumentType::Form1099Int));
    assert_eq!(DocumentType::from_str("k1"), Ok(DocumentType::FormK1));
    assert_eq!(DocumentType::from_str("bank"), Ok(DocumentType::BankStatement));
    assert_eq!(
        DocumentType::from_str("w9"),
        Err("Unknown document type: w9".to_string())
    );
}

#[test]
fn document_type_display_names() {
    assert_eq!(DocumentType::W2.display_name(), "W-2 (Wages)");
    assert_eq!(
        DocumentType::Form1099Nec.display_name(),
        "1099-NEC (Non-Employee Compensation)"
    );
    assert_eq!(DocumentType::Other.display_name(), "Other Document");
}

#[test]
fn category_catalog_contents() {
    let catalog = get_deduction_categories();
    assert_eq!(catalog.len(), 10);

    assert_eq!(catalog[0].id, "medical");
    assert_eq!(catalog[0].name, "Medical & Dental");
    assert_eq!(
        catalog[0].description,
        "Medical and dental expenses exceeding 7.5% of AGI"
    );
    assert_eq!(catalog[0].schedule, "Schedule A");
    assert_eq!(
        catalog[0].examples,
        vec![
            "Doctor visits",
            "Prescription medications",
            "Health insurance premiums",
            "Medical equipment",
        ]
    );

    assert_eq!(catalog[1].id, "state_local_taxes");
    assert_eq!(catalog[1].name, "State & Local Taxes (SALT)");
    assert_eq!(catalog[5].id, "home_office");
    assert_eq!(catalog[5].schedule, "Schedule C / Form 8829");
    assert_eq!(catalog[8].id, "health_savings");
    assert_eq!(catalog[8].examples, vec!["HSA contributions"]);
    assert_eq!(catalog[9].id, "other");
    assert_eq!(catalog[9].name, "Other Deductions");

    // every entry's id is a parseable category whose key round-trips
    for entry in &catalog {
        let category = DeductionCategory::from_str(&entry.id).unwrap();
        assert_eq!(category.as_str(), entry.id);
    }
}
