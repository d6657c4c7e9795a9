//! Record vocabularies: the status of a tax return, the category of a
//! deduction, and the kind of an attached document, each parsed from and
//! rendered to its string keys; plus the deduction-category catalog.

use vstd::prelude::*;

use crate::text::{chars_eq_ci, str_eq_ignore_case};

verus! {
/// The lifecycle state of a tax return record.
#[derive(Debug, Clone, Copy, PartialEq, Eq)]
pub enum TaxReturnStatus {
    Draft,
    InProgress,
    Review,
    Filed,
    Amended,
}

/// The status keyed by `s`, compared ignoring ASCII case, or `None`
/// when `s` keys none of them.
pub open spec fn parse_tax_return_status(s: Seq<char>) -> Option<TaxReturnStatus> {
    if chars_eq_ci(s, "draft"@) {
        Some(TaxReturnStatus::Draft)
    } else if chars_eq_ci(s, "in_progress"@) || chars_eq_ci(s, "inprogress"@) {
        Some(TaxReturnStatus::InProgress)
    } else if chars_eq_ci(s, "review"@) {
        Some(TaxReturnStatus::Review)
    } else if chars_eq_ci(s, "filed"@) {
        Some(TaxReturnStatus::Filed)
    } else if chars_eq_ci(s, "amended"@) {
        Some(TaxReturnStatus::Amended)
    } else {
        None
    }
}

/// The canonical string key of a status.
pub open spec fn tax_return_status_key(v: TaxReturnStatus) -> Seq<char> {
    match v {
        TaxReturnStatus::Draft => "draft"@,
        TaxReturnStatus::InProgress => "in_progress"@,
        TaxReturnStatus::Review => "review"@,
        TaxReturnStatus::Filed => "filed"@,
        TaxReturnStatus::Amended => "amended"@,
    }
}

impl TaxReturnStatus {
    /// Parses a status from its string key, ignoring ASCII case.
    pub fn from_str(s: &str) -> (r: Result<TaxReturnStatus, String>)
        ensures
            parse_tax_return_status(s@) matches Some(v) ==> r == Ok::<TaxReturnStatus, String>(v),
            parse_tax_return_status(s@) is None ==> (r matches Err(m) && m@ == "Unknown status: "@ + s@),
    {
        if str_eq_ignore_case(s, "draft") {
            Ok(TaxReturnStatus::Draft)
        } else if str_eq_ignore_case(s, "in_progress") || str_eq_ignore_case(s, "inprogress") {
            Ok(TaxReturnStatus::InProgress)
        } else if str_eq_ignore_case(s, "review") {
            Ok(TaxReturnStatus::Review)
        } else if str_eq_ignore_case(s, "filed") {
            Ok(TaxReturnStatus::Filed)
        } else if str_eq_ignore_case(s, "amended") {
            Ok(TaxReturnStatus::Amended)
        } else {
            Err("Unknown status: ".to_owned().concat(s))
        }
    }

    /// The canonical string key of this status.
    pub fn as_str(&self) -> (r: &'static str)
        ensures
            r@ == tax_return_status_key(*self),
    {
        match self {
            TaxReturnStatus::Draft => "draft",
            TaxReturnStatus::InProgress => "in_progress",
            TaxReturnStatus::Review => "review",
            TaxReturnStatus::Filed => "filed",
            TaxReturnStatus::Amended => "amended",
        }
    }
}

/// A category that a claimed deduction falls under.
#[derive(Debug, Clone, Copy, PartialEq, Eq)]
pub enum DeductionCategory {
    Medical,
    StateLocalTaxes,
    MortgageInterest,
    Charitable,
    Business,
    HomeOffice,
    Education,
    Retirement,
    HealthSavings,
    Other,
}

/// The category keyed by `s`, compared ignoring ASCII case, or `None`
/// when `s` keys none of them.
pub open spec fn parse_deduction_category(s: Seq<char>) -> Option<DeductionCategory> {
    if chars_eq_ci(s, "medical"@) {
        Some(DeductionCategory::Medical)
    } else if chars_eq_ci(s, "state_local_taxes"@) || chars_eq_ci(s, "statelocaltaxes"@) || chars_eq_ci(s, "salt"@) {
        Some(DeductionCategory::StateLocalTaxes)
    } else if chars_eq_ci(s, "mortgage_interest"@) || chars_eq_ci(s, "mortgageinterest"@) || chars_eq_ci(s, "mortgage"@) {
        Some(DeductionCategory::MortgageInterest)
    } else if chars_eq_ci(s, "charitable"@) || chars_eq_ci(s, "charity"@) || chars_eq_ci(s, "donation"@) {
        Some(DeductionCategory::Charitable)
    } else if chars_eq_ci(s, "business"@) {
        Some(DeductionCategory::Business)
    } else if chars_eq_ci(s, "home_office"@) || chars_eq_ci(s, "homeoffice"@) {
        Some(DeductionCategory::HomeOffice)
    } else if chars_eq_ci(s, "education"@) {
        Some(DeductionCategory::Education)
    } else if chars_eq_ci(s, "retirement"@) {
        Some(DeductionCategory::Retirement)
    } else if chars_eq_ci(s, "health_savings"@) || chars_eq_ci(s, "healthsavings"@) || chars_eq_ci(s, "hsa"@) {
        Some(DeductionCategory::HealthSavings)
    } else if chars_eq_ci(s, "other"@) {
        Some(DeductionCategory::Other)
    } else {
        None
    }
}

/// The canonical string key of a category.
pub open spec fn deduction_category_key(v: DeductionCategory) -> Seq<char> {
    match v {
        DeductionCategory::Medical => "medical"@,
        DeductionCategory::StateLocalTaxes => "state_local_taxes"@,
        DeductionCategory::MortgageInterest => "mortgage_interest"@,
        DeductionCategory::Charitable => "charitable"@,
        DeductionCategory::Business => "business"@,
        DeductionCategory::HomeOffice => "home_office"@,
        DeductionCategory::Education => "education"@,
        DeductionCategory::Retirement => "retirement"@,
        DeductionCategory::HealthSavings => "health_savings"@,
        DeductionCategory::Other => "other"@,
    }
}

/// The display name of a category.
pub open spec fn deduction_category_display_name(v: DeductionCategory) -> Seq<char> {
    match v {
        DeductionCategory::Medical => "Medical & Dental"@,
        DeductionCategory::StateLocalTaxes => "State & Local Taxes"@,
        DeductionCategory::MortgageInterest => "Mortgage Interest"@,
        DeductionCategory::Charitable => "Charitable Contributions"@,
        DeductionCategory::Business => "Business Expenses"@,
        DeductionCategory::HomeOffice => "Home Office"@,
        DeductionCategory::Education => "Education"@,
        DeductionCategory::Retirement => "Retirement Contributions"@,
        DeductionCategory::HealthSavings => "Health Savings Account"@,
        DeductionCategory::Other => "Other"@,
    }
}

impl DeductionCategory {
    /// Parses a category from its string key, ignoring ASCII case.
    pub fn from_str(s: &str) -> (r: Result<DeductionCategory, String>)
        ensures
            parse_deduction_category(s@) matches Some(v) ==> r == Ok::<DeductionCategory, String>(v),
            parse_deduction_category(s@) is None ==> (r matches Err(m) && m@ == "Unknown category: "@ + s@),
    {
        if str_eq_ignore_case(s, "medical") {
            Ok(DeductionCategory::Medical)
        } else if str_eq_ignore_case(s, "state_local_taxes") || str_eq_ignore_case(s, "statelocaltaxes") || str_eq_ignore_case(s, "salt") {
            Ok(DeductionCategory::StateLocalTaxes)
        } else if str_eq_ignore_case(s, "mortgage_interest") || str_eq_ignore_case(s, "mortgageinterest") || str_eq_ignore_case(s, "mortgage") {
            Ok(DeductionCategory::MortgageInterest)
        } else if str_eq_ignore_case(s, "charitable") || str_eq_ignore_case(s, "charity") || str_eq_ignore_case(s, "donation") {
            Ok(DeductionCategory::Charitable)
        } else if str_eq_ignore_case(s, "business") {
            Ok(DeductionCategory::Business)
        } else if str_eq_ignore_case(s, "home_office") || str_eq_ignore_case(s, "homeoffice") {
            Ok(DeductionCategory::HomeOffice)
        } else if str_eq_ignore_case(s, "education") {
            Ok(DeductionCategory::Education)
        } else if str_eq_ignore_case(s, "retirement") {
            Ok(DeductionCategory::Retirement)
        } else if str_eq_ignore_case(s, "health_savings") || str_eq_ignore_case(s, "healthsavings") || str_eq_ignore_case(s, "hsa") {
            Ok(DeductionCategory::HealthSavings)
        } else if str_eq_ignore_case(s, "other") {
            Ok(DeductionCategory::Other)
        } else {
            Err("Unknown category: ".to_owned().concat(s))
        }
    }

    /// The canonical string key of this category.
    pub fn as_str(&self) -> (r: &'static str)
        ensures
            r@ == deduction_category_key(*self),
    {
        match self {
            DeductionCategory::Medical => "medical",
            DeductionCategory::StateLocalTaxes => "state_local_taxes",
            DeductionCategory::MortgageInterest => "mortgage_interest",
            DeductionCategory::Charitable => "charitable",
            DeductionCategory::Business => "business",
            DeductionCategory::HomeOffice => "home_office",
            DeductionCategory::Education => "education",
            DeductionCategory::Retirement => "retirement",
            DeductionCategory::HealthSavings => "health_savings",
            DeductionCategory::Other => "other",
        }
    }

    /// The display name of this category.
    pub fn display_name(&self) -> (r: String)
        ensures
            r@ == deduction_category_display_name(*self),
    {
        match self {
            DeductionCategory::Medical => "Medical & Dental".to_owned(),
            DeductionCategory::StateLocalTaxes => "State & Local Taxes".to_owned(),
            DeductionCategory::MortgageInterest => "Mortgage Interest".to_owned(),
            DeductionCategory::Charitable => "Charitable Contributions".to_owned(),
            DeductionCategory::Business => "Business Expenses".to_owned(),
            DeductionCategory::HomeOffice => "Home Office".to_owned(),
            DeductionCategory::Education => "Education".to_owned(),
            DeductionCategory::Retirement => "Retirement Contributions".to_owned(),
            DeductionCategory::HealthSavings => "Health Savings Account".to_owned(),
            DeductionCategory::Other => "Other".to_owned(),
        }
    }
}

/// The kind of source document attached to a return.
#[derive(Debug, Clone, Copy, PartialEq, Eq)]
pub enum DocumentType {
    W2,
    Form1099Int,
    Form1099Div,
    Form1099Misc,
    Form1099Nec,
    Form1099B,
    FormK1,
    Receipt,
    BankStatement,
    Other,
}

/// The document type keyed by `s`, compared ignoring ASCII case, or `None`
/// when `s` keys none of them.
pub open spec fn parse_document_type(s: Seq<char>) -> Option<DocumentType> {
    if chars_eq_ci(s, "w2"@) || chars_eq_ci(s, "w-2"@) {
        Some(DocumentType::W2)
    } else if chars_eq_ci(s, "1099-int"@) || chars_eq_ci(s, "1099int"@) || chars_eq_ci(s, "form1099int"@) {
        Some(DocumentType::Form1099Int)
    } else if chars_eq_ci(s, "1099-div"@) || chars_eq_ci(s, "1099div"@) || chars_eq_ci(s, "form1099div"@) {
        Some(DocumentType::Form1099Div)
    } else if chars_eq_ci(s, "1099-misc"@) || chars_eq_ci(s, "1099misc"@) || chars_eq_ci(s, "form1099misc"@) {
        Some(DocumentType::Form1099Misc)
    } else if chars_eq_ci(s, "1099-nec"@) || chars_eq_ci(s, "1099nec"@) || chars_eq_ci(s, "form1099nec"@) {
        Some(DocumentType::Form1099Nec)
    } else if chars_eq_ci(s, "1099-b"@) || chars_eq_ci(s, "1099b"@) || chars_eq_ci(s, "form1099b"@) {
        Some(DocumentType::Form1099B)
    } else if chars_eq_ci(s, "k-1"@) || chars_eq_ci(s, "k1"@) || chars_eq_ci(s, "formk1"@) {
        Some(DocumentType::FormK1)
    } else if chars_eq_ci(s, "receipt"@) {
        Some(DocumentType::Receipt)
    } else if chars_eq_ci(s, "bank_statement"@) || chars_eq_ci(s, "bankstatement"@) || chars_eq_ci(s, "bank"@) {
        Some(DocumentType::BankStatement)
    } else if chars_eq_ci(s, "other"@) {
        Some(DocumentType::Other)
    } else {
        None
    }
}

/// The canonical string key of a document type.
pub open spec fn document_type_key(v: DocumentType) -> Seq<char> {
    match v {
        DocumentType::W2 => "w2"@,
        DocumentType::Form1099Int => "1099-int"@,
        DocumentType::Form1099Div => "1099-div"@,
        DocumentType::Form1099Misc => "1099-misc"@,
        DocumentType::Form1099Nec => "1099-nec"@,
        DocumentType::Form1099B => "1099-b"@,
        DocumentType::FormK1 => "k-1"@,
        DocumentType::Receipt => "receipt"@,
        DocumentType::BankStatement => "bank_statement"@,
        DocumentType::Other => "other"@,
    }
}

/// The display name of a document type.
pub open spec fn document_type_display_name(v: DocumentType) -> Seq<char> {
    match v {
        DocumentType::W2 => "W-2 (Wages)"@,
        DocumentType::Form1099Int => "1099-INT (Interest)"@,
        DocumentType::Form1099Div => "1099-DIV (Dividends)"@,
        DocumentType::Form1099Misc => "1099-MISC (Miscellaneous)"@,
        DocumentType::Form1099Nec => "1099-NEC (Non-Employee Compensation)"@,
        DocumentType::Form1099B => "1099-B (Broker Sales)"@,
        DocumentType::FormK1 => "K-1 (Partnership/S-Corp)"@,
        DocumentType::Receipt => "Receipt"@,
        DocumentType::BankStatement => "Bank Statement"@,
        DocumentType::Other => "Other Document"@,
    }
}

impl DocumentType {
    /// Parses a document type from its string key, ignoring ASCII case.
    pub fn from_str(s: &str) -> (r: Result<DocumentType, String>)
        ensures
            parse_document_type(s@) matches Some(v) ==> r == Ok::<DocumentType, String>(v),
            parse_document_type(s@) is None ==> (r matches Err(m) && m@ == "Unknown document type: "@ + s@),
    {
        if str_eq_ignore_case(s, "w2") || str_eq_ignore_case(s, "w-2") {
            Ok(DocumentType::W2)
        } else if str_eq_ignore_case(s, "1099-int") || str_eq_ignore_case(s, "1099int") || str_eq_ignore_case(s, "form1099int") {
            Ok(DocumentType::Form1099Int)
        } else if str_eq_ignore_case(s, "1099-div") || str_eq_ignore_case(s, "1099div") || str_eq_ignore_case(s, "form1099div") {
            Ok(DocumentType::Form1099Div)
        } else if str_eq_ignore_case(s, "1099-misc") || str_eq_ignore_case(s, "1099misc") || str_eq_ignore_case(s, "form1099misc") {
            Ok(DocumentType::Form1099Misc)
        } else if str_eq_ignore_case(s, "1099-nec") || str_eq_ignore_case(s, "1099nec") || str_eq_ignore_case(s, "form1099nec") {
            Ok(DocumentType::Form1099Nec)
        } else if str_eq_ignore_case(s, "1099-b") || str_eq_ignore_case(s, "1099b") || str_eq_ignore_case(s, "form1099b") {
            Ok(DocumentType::Form1099B)
        } else if str_eq_ignore_case(s, "k-1") || str_eq_ignore_case(s, "k1") || str_eq_ignore_case(s, "formk1") {
            Ok(DocumentType::FormK1)
        } else if str_eq_ignore_case(s, "receipt") {
            Ok(DocumentType::Receipt)
        } else if str_eq_ignore_case(s, "bank_statement") || str_eq_ignore_case(s, "bankstatement") || str_eq_ignore_case(s, "bank") {
            Ok(DocumentType::BankStatement)
        } else if str_eq_ignore_case(s, "other") {
            Ok(DocumentType::Other)
        } else {
            Err("Unknown document type: ".to_owned().concat(s))
        }
    }

    /// The canonical string key of this document type.
    pub fn as_str(&self) -> (r: &'static str)
        ensures
            r@ == document_type_key(*self),
    {
        match self {
            DocumentType::W2 => "w2",
            DocumentType::Form1099Int => "1099-int",
            DocumentType::Form1099Div => "1099-div",
            DocumentType::Form1099Misc => "1099-misc",
            DocumentType::Form1099Nec => "1099-nec",
            DocumentType::Form1099B => "1099-b",
            DocumentType::FormK1 => "k-1",
            DocumentType::Receipt => "receipt",
            DocumentType::BankStatement => "bank_statement",
            DocumentType::Other => "other",
        }
    }

    /// The display name of this document type.
    pub fn display_name(&self) -> (r: String)
        ensures
            r@ == document_type_display_name(*self),
    {
        match self {
            DocumentType::W2 => "W-2 (Wages)".to_owned(),
            DocumentType::Form1099Int => "1099-INT (Interest)".to_owned(),
            DocumentType::Form1099Div => "1099-DIV (Dividends)".to_owned(),
            DocumentType::Form1099Misc => "1099-MISC (Miscellaneous)".to_owned(),
            DocumentType::Form1099Nec => "1099-NEC (Non-Employee Compensation)".to_owned(),
            DocumentType::Form1099B => "1099-B (Broker Sales)".to_owned(),
            DocumentType::FormK1 => "K-1 (Partnership/S-Corp)".to_owned(),
            DocumentType::Receipt => "Receipt".to_owned(),
            DocumentType::BankStatement => "Bank Statement".to_owned(),
            DocumentType::Other => "Other Document".to_owned(),
        }
    }
}

/// Describes one deduction category for display: its key, name, the tax
/// schedule it belongs on, and example expenses.
#[derive(Debug, Clone, PartialEq, Eq)]
pub struct DeductionCategoryInfo {
    pub id: String,
    pub name: String,
    pub description: String,
    pub schedule: String,
    pub examples: Vec<String>,
}

/// The expected contents of entry `i` of the category catalog.
pub open spec fn catalog_entry_matches(info: DeductionCategoryInfo, i: int) -> bool {
    if i == 0 {
        &&& info.id@ == "medical"@
        &&& info.name@ == "Medical & Dental"@
        &&& info.description@ == "Medical and dental expenses exceeding 7.5% of AGI"@
        &&& info.schedule@ == "Schedule A"@
        &&& info.examples@.len() == 4
        &&& info.examples@[0]@ == "Doctor visits"@
        &&& info.examples@[1]@ == "Prescription medications"@
        &&& info.examples@[2]@ == "Health insurance premiums"@
        &&& info.examples@[3]@ == "Medical equipment"@
    } else if i == 1 {
        &&& info.id@ == "state_local_taxes"@
        &&& info.name@ == "State & Local Taxes (SALT)"@
        &&& info.description@ == "State income/sales tax and property taxes (max $10,000)"@
        &&& info.schedule@ == "Schedule A"@
        &&& info.examples@.len() == 3
        &&& info.examples@[0]@ == "State income tax"@
        &&& info.examples@[1]@ == "Property tax"@
        &&& info.examples@[2]@ == "Vehicle registration fees"@
    } else if i == 2 {
        &&& info.id@ == "mortgage_interest"@
        &&& info.name@ == "Mortgage Interest"@
        &&& info.description@ == "Interest on mortgage for primary residence"@
        &&& info.schedule@ == "Schedule A"@
        &&& info.examples@.len() == 2
        &&& info.examples@[0]@ == "Home mortgage interest"@
        &&& info.examples@[1]@ == "Points paid on home purchase"@
    } else if i == 3 {
        &&& info.id@ == "charitable"@
        &&& info.name@ == "Charitable Contributions"@
        &&& info.description@ == "Donations to qualified charitable organizations"@
        &&& info.schedule@ == "Schedule A"@
        &&& info.examples@.len() == 3
        &&& info.examples@[0]@ == "Cash donations"@
        &&& info.examples@[1]@ == "Non-cash donations"@
        &&& info.examples@[2]@ == "Volunteer mileage"@
    } else if i == 4 {
        &&& info.id@ == "business"@
        &&& info.name@ == "Business Expenses"@
        &&& info.description@ == "Ordinary and necessary business expenses"@
        &&& info.schedule@ == "Schedule C"@
        &&& info.examples@.len() == 4
        &&& info.examples@[0]@ == "Office supplies"@
        &&& info.examples@[1]@ == "Business travel"@
        &&& info.examples@[2]@ == "Professional services"@
        &&& info.examples@[3]@ == "Equipment"@
    } else if i == 5 {
        &&& info.id@ == "home_office"@
        &&& info.name@ == "Home Office"@
        &&& info.description@ == "Expenses for regular and exclusive business use of home"@
        &&& info.schedule@ == "Schedule C / Form 8829"@
        &&& info.examples@.len() == 4
        &&& info.examples@[0]@ == "Utilities"@
        &&& info.examples@[1]@ == "Rent/mortgage"@
        &&& info.examples@[2]@ == "Internet"@
        &&& info.examples@[3]@ == "Office furniture"@
    } else if i == 6 {
        &&& info.id@ == "education"@
        &&& info.name@ == "Education"@
        &&& info.description@ == "Work-related education expenses"@
        &&& info.schedule@ == "Various"@
        &&& info.examples@.len() == 3
        &&& info.examples@[0]@ == "Tuition"@
        &&& info.examples@[1]@ == "Books and supplies"@
        &&& info.examples@[2]@ == "Professional certifications"@
    } else if i == 7 {
        &&& info.id@ == "retirement"@
        &&& info.name@ == "Retirement Contributions"@
        &&& info.description@ == "Contributions to qualified retirement accounts"@
        &&& info.schedule@ == "Form 1040"@
        &&& info.examples@.len() == 3
        &&& info.examples@[0]@ == "Traditional IRA"@
        &&& info.examples@[1]@ == "SEP IRA"@
        &&& info.examples@[2]@ == "Solo 401(k)"@
    } else if i == 8 {
        &&& info.id@ == "health_savings"@
        &&& info.name@ == "Health Savings Account (HSA)"@
        &&& info.description@ == "Contributions to HSA accounts"@
        &&& info.schedule@ == "Form 8889"@
        &&& info.examples@.len() == 1
        &&& info.examples@[0]@ == "HSA contributions"@
    } else if i == 9 {
        &&& info.id@ == "other"@
        &&& info.name@ == "Other Deductions"@
        &&& info.description@ == "Other allowable deductions"@
        &&& info.schedule@ == "Various"@
        &&& info.examples@.len() == 3
        &&& info.examples@[0]@ == "Student loan interest"@
        &&& info.examples@[1]@ == "Self-employment tax"@
        &&& info.examples@[2]@ == "Alimony (pre-2019)"@
    } else {
        true
    }
}

/// Returns the catalog of deduction categories, in a fixed order: one
/// entry per [`DeductionCategory`], keyed like [`DeductionCategory::as_str`].
pub fn get_deduction_categories() -> (r: Vec<DeductionCategoryInfo>)
    ensures
        r@.len() == 10,
        forall|i: int| 0 <= i < 10 ==> catalog_entry_matches(#[trigger] r@[i], i),
{
    let mut catalog: Vec<DeductionCategoryInfo> = Vec::new();
    catalog.push(
        DeductionCategoryInfo {
            id: "medical".to_owned(),
            name: "Medical & Dental".to_owned(),
            description: "Medical and dental expenses exceeding 7.5% of AGI".to_owned(),
            schedule: "Schedule A".to_owned(),
            examples: vec!["Doctor visits".to_owned(), "Prescription medications".to_owned(), "Health insurance premiums".to_owned(), "Medical equipment".to_owned()],
        },
    );
    catalog.push(
        DeductionCategoryInfo {
            id: "state_local_taxes".to_owned(),
            name: "State & Local Taxes (SALT)".to_owned(),
            description: "State income/sales tax and property taxes (max $10,000)".to_owned(),
            schedule: "Schedule A".to_owned(),
            examples: vec!["State income tax".to_owned(), "Property tax".to_owned(), "Vehicle registration fees".to_owned()],
        },
    );
    catalog.push(
        DeductionCategoryInfo {
            id: "mortgage_interest".to_owned(),
            name: "Mortgage Interest".to_owned(),
            description: "Interest on mortgage for primary residence".to_owned(),
            schedule: "Schedule A".to_owned(),
            examples: vec!["Home mortgage interest".to_owned(), "Points paid on home purchase".to_owned()],
        },
    );
    catalog.push(
        DeductionCategoryInfo {
            id: "charitable".to_owned(),
            name: "Charitable Contributions".to_owned(),
            description: "Donations to qualified charitable organizations".to_owned(),
            schedule: "Schedule A".to_owned(),
            examples: vec!["Cash donations".to_owned(), "Non-cash donations".to_owned(), "Volunteer mileage".to_owned()],
        },
    );
    catalog.push(
        DeductionCategoryInfo {
            id: "business".to_owned(),
            name: "Business Expenses".to_owned(),
            description: "Ordinary and necessary business expenses".to_owned(),
            schedule: "Schedule C".to_owned(),
            examples: vec!["Office supplies".to_owned(), "Business travel".to_owned(), "Professional services".to_owned(), "Equipment".to_owned()],
        },
    );
    catalog.push(
        DeductionCategoryInfo {
            id: "home_office".to_owned(),
            name: "Home Office".to_owned(),
            description: "Expenses for regular and exclusive business use of home".to_owned(),
            schedule: "Schedule C / Form 8829".to_owned(),
            examples: vec!["Utilities".to_owned(), "Rent/mortgage".to_owned(), "Internet".to_owned(), "Office furniture".to_owned()],
        },
    );
    catalog.push(
        DeductionCategoryInfo {
            id: "education".to_owned(),
            name: "Education".to_owned(),
            description: "Work-related education expenses".to_owned(),
            schedule: "Various".to_owned(),
            examples: vec!["Tuition".to_owned(), "Books and supplies".to_owned(), "Professional certifications".to_owned()],
        },
    );
    catalog.push(
        DeductionCategoryInfo {
            id: "retirement".to_owned(),
            name: "Retirement Contributions".to_owned(),
            description: "Contributions to qualified retirement accounts".to_owned(),
            schedule: "Form 1040".to_owned(),
            examples: vec!["Traditional IRA".to_owned(), "SEP IRA".to_owned(), "Solo 401(k)".to_owned()],
        },
    );
    catalog.push(
        DeductionCategoryInfo {
            id: "health_savings".to_owned(),
            name: "Health Savings Account (HSA)".to_owned(),
            description: "Contributions to HSA accounts".to_owned(),
            schedule: "Form 8889".to_owned(),
            examples: vec!["HSA contributions".to_owned()],
        },
    );
    catalog.push(
        DeductionCategoryInfo {
            id: "other".to_owned(),
            name: "Other Deductions".to_owned(),
            description: "Other allowable deductions".to_owned(),
            schedule: "Various".to_owned(),
            examples: vec!["Student loan interest".to_owned(), "Self-employment tax".to_owned(), "Alimony (pre-2019)".to_owned()],
        },
    );
    catalog
}

} // verus!
