//! Application settings: the default configuration values and the API-key
//! status report with its masking rule.

use vstd::prelude::*;

use crate::text::str_starts_with;

verus! {

/// User-facing application settings.
#[derive(Debug, Clone, PartialEq, Eq)]
pub struct AppSettings {
    pub theme: String,
    pub default_tax_year: i32,
    pub default_filing_status: String,
    pub default_state: Option<String>,
    pub auto_save: bool,
    pub show_tooltips: bool,
    pub currency_format: String,
    pub date_format: String,
}

impl Default for AppSettings {
    /// The settings a fresh installation starts from.
    fn default() -> (r: AppSettings)
        ensures
            r.theme@ == "dark"@,
            r.default_tax_year == 2024,
            r.default_filing_status@ == "single"@,
            r.default_state is None,
            r.auto_save,
            r.show_tooltips,
            r.currency_format@ == "USD"@,
            r.date_format@ == "MM/DD/YYYY"@,
    {
        AppSettings {
            theme: "dark".to_owned(),
            default_tax_year: 2024,
            default_filing_status: "single".to_owned(),
            default_state: None,
            auto_save: true,
            show_tooltips: true,
            currency_format: "USD".to_owned(),
            date_format: "MM/DD/YYYY".to_owned(),
        }
    }
}

/// Whether an API key is configured, and a masked preview of it that never
/// reveals the key itself.
#[derive(Debug, Clone, PartialEq, Eq)]
pub struct ApiKeyStatus {
    pub configured: bool,
    pub masked_key: Option<String>,
}

/// The masked preview of a key of more than eight characters: its first
/// four characters, an ellipsis, and its last four.
pub open spec fn masked_key_of(key: Seq<char>) -> Seq<char> {
    key.subrange(0, 4) + "..."@ + key.subrange(key.len() - 4, key.len() as int)
}

/// Reports whether a key is configured, with a masked preview.
///
/// A key of more than eight characters shows its first and last four
/// characters; a shorter one is masked entirely.
pub fn get_api_key_status(api_key: Option<&str>) -> (r: ApiKeyStatus)
    ensures
        api_key is None ==> r == (ApiKeyStatus { configured: false, masked_key: None }),
        api_key matches Some(key) ==> ({
            &&& r.configured
            &&& key@.len() > 8 ==> (r.masked_key matches Some(m) && m@ == masked_key_of(key@))
            &&& key@.len() <= 8 ==> (r.masked_key matches Some(m) && m@ == "****"@)
        }),
{
    match api_key {
        Some(key) => {
            let len = key.unicode_len();
            if len > 8 {
                let head = key.substring_char(0, 4);
                let tail = key.substring_char(len - 4, len);
                let masked = head.to_owned().concat("...").concat(tail);
                ApiKeyStatus { configured: true, masked_key: Some(masked) }
            } else {
                ApiKeyStatus { configured: true, masked_key: Some("****".to_owned()) }
            }
        },
        None => ApiKeyStatus { configured: false, masked_key: None },
    }
}

/// An acceptable API key is either empty (which clears the stored key) or
/// carries the expected provider prefix.
pub fn api_key_format_ok(api_key: &str) -> (r: bool)
    ensures
        r == (api_key@.len() == 0 || (api_key@.len() >= 7 && api_key@.subrange(0, 7)
            == "sk-ant-"@)),
{
    proof {
        reveal_strlit("sk-ant-");
    }
    if api_key.unicode_len() == 0 {
        true
    } else {
        str_starts_with(api_key, "sk-ant-")
    }
}

} // verus!
