//! State income tax, modeled as one effective flat rate per jurisdiction.
//!
//! The table approximates 2024 rates: nine states tax no income, the rest
//! (and DC) get a single flat or effective rate in basis points. A code not
//! in the table is an error, never a default rate of zero.

use vstd::prelude::*;

use crate::filing::TaxError;
use crate::money::{rate_part, times_rate, RATE_DENOM};
use crate::text::{chars_eq_ci, str_eq_ignore_case};

verus! {

/// The effective flat rate, in basis points, of a two-letter jurisdiction
/// code (compared ignoring ASCII case), or `None` for an unsupported code.
pub open spec fn state_rate_bp(code: Seq<char>) -> Option<u32> {
    if chars_eq_ci(code, "AK"@) {
        Some(0u32)
    } else if chars_eq_ci(code, "FL"@) {
        Some(0u32)
    } else if chars_eq_ci(code, "NV"@) {
        Some(0u32)
    } else if chars_eq_ci(code, "NH"@) {
        Some(0u32)
    } else if chars_eq_ci(code, "SD"@) {
        Some(0u32)
    } else if chars_eq_ci(code, "TN"@) {
        Some(0u32)
    } else if chars_eq_ci(code, "TX"@) {
        Some(0u32)
    } else if chars_eq_ci(code, "WA"@) {
        Some(0u32)
    } else if chars_eq_ci(code, "WY"@) {
        Some(0u32)
    } else if chars_eq_ci(code, "CO"@) {
        Some(440u32)
    } else if chars_eq_ci(code, "IL"@) {
        Some(495u32)
    } else if chars_eq_ci(code, "IN"@) {
        Some(305u32)
    } else if chars_eq_ci(code, "KY"@) {
        Some(400u32)
    } else if chars_eq_ci(code, "MA"@) {
        Some(500u32)
    } else if chars_eq_ci(code, "MI"@) {
        Some(405u32)
    } else if chars_eq_ci(code, "NC"@) {
        Some(475u32)
    } else if chars_eq_ci(code, "PA"@) {
        Some(307u32)
    } else if chars_eq_ci(code, "UT"@) {
        Some(465u32)
    } else if chars_eq_ci(code, "AL"@) {
        Some(500u32)
    } else if chars_eq_ci(code, "AZ"@) {
        Some(250u32)
    } else if chars_eq_ci(code, "AR"@) {
        Some(470u32)
    } else if chars_eq_ci(code, "CA"@) {
        Some(725u32)
    } else if chars_eq_ci(code, "CT"@) {
        Some(500u32)
    } else if chars_eq_ci(code, "DE"@) {
        Some(550u32)
    } else if chars_eq_ci(code, "GA"@) {
        Some(549u32)
    } else if chars_eq_ci(code, "HI"@) {
        Some(725u32)
    } else if chars_eq_ci(code, "ID"@) {
        Some(580u32)
    } else if chars_eq_ci(code, "IA"@) {
        Some(570u32)
    } else if chars_eq_ci(code, "KS"@) {
        Some(570u32)
    } else if chars_eq_ci(code, "LA"@) {
        Some(425u32)
    } else if chars_eq_ci(code, "ME"@) {
        Some(715u32)
    } else if chars_eq_ci(code, "MD"@) {
        Some(575u32)
    } else if chars_eq_ci(code, "MN"@) {
        Some(785u32)
    } else if chars_eq_ci(code, "MS"@) {
        Some(500u32)
    } else if chars_eq_ci(code, "MO"@) {
        Some(495u32)
    } else if chars_eq_ci(code, "MT"@) {
        Some(590u32)
    } else if chars_eq_ci(code, "NE"@) {
        Some(584u32)
    } else if chars_eq_ci(code, "NJ"@) {
        Some(637u32)
    } else if chars_eq_ci(code, "NM"@) {
        Some(490u32)
    } else if chars_eq_ci(code, "NY"@) {
        Some(685u32)
    } else if chars_eq_ci(code, "ND"@) {
        Some(219u32)
    } else if chars_eq_ci(code, "OH"@) {
        Some(399u32)
    } else if chars_eq_ci(code, "OK"@) {
        Some(475u32)
    } else if chars_eq_ci(code, "OR"@) {
        Some(990u32)
    } else if chars_eq_ci(code, "RI"@) {
        Some(599u32)
    } else if chars_eq_ci(code, "SC"@) {
        Some(640u32)
    } else if chars_eq_ci(code, "VT"@) {
        Some(875u32)
    } else if chars_eq_ci(code, "VA"@) {
        Some(575u32)
    } else if chars_eq_ci(code, "WV"@) {
        Some(520u32)
    } else if chars_eq_ci(code, "WI"@) {
        Some(765u32)
    } else if chars_eq_ci(code, "DC"@) {
        Some(895u32)
    } else {
        None
    }
}

/// Looks up the effective rate of a jurisdiction code, ignoring ASCII case.
fn lookup_state_rate(state: &str) -> (r: Option<u32>)
    ensures
        r == state_rate_bp(state@),
        r matches Some(rate) ==> rate <= RATE_DENOM,
{
    if str_eq_ignore_case(state, "AK") {
        Some(0)
    } else if str_eq_ignore_case(state, "FL") {
        Some(0)
    } else if str_eq_ignore_case(state, "NV") {
        Some(0)
    } else if str_eq_ignore_case(state, "NH") {
        Some(0)
    } else if str_eq_ignore_case(state, "SD") {
        Some(0)
    } else if str_eq_ignore_case(state, "TN") {
        Some(0)
    } else if str_eq_ignore_case(state, "TX") {
        Some(0)
    } else if str_eq_ignore_case(state, "WA") {
        Some(0)
    } else if str_eq_ignore_case(state, "WY") {
        Some(0)
    } else if str_eq_ignore_case(state, "CO") {
        Some(440)
    } else if str_eq_ignore_case(state, "IL") {
        Some(495)
    } else if str_eq_ignore_case(state, "IN") {
        Some(305)
    } else if str_eq_ignore_case(state, "KY") {
        Some(400)
    } else if str_eq_ignore_case(state, "MA") {
        Some(500)
    } else if str_eq_ignore_case(state, "MI") {
        Some(405)
    } else if str_eq_ignore_case(state, "NC") {
        Some(475)
    } else if str_eq_ignore_case(state, "PA") {
        Some(307)
    } else if str_eq_ignore_case(state, "UT") {
        Some(465)
    } else if str_eq_ignore_case(state, "AL") {
        Some(500)
    } else if str_eq_ignore_case(state, "AZ") {
        Some(250)
    } else if str_eq_ignore_case(state, "AR") {
        Some(470)
    } else if str_eq_ignore_case(state, "CA") {
        Some(725)
    } else if str_eq_ignore_case(state, "CT") {
        Some(500)
    } else if str_eq_ignore_case(state, "DE") {
        Some(550)
    } else if str_eq_ignore_case(state, "GA") {
        Some(549)
    } else if str_eq_ignore_case(state, "HI") {
        Some(725)
    } else if str_eq_ignore_case(state, "ID") {
        Some(580)
    } else if str_eq_ignore_case(state, "IA") {
        Some(570)
    } else if str_eq_ignore_case(state, "KS") {
        Some(570)
    } else if str_eq_ignore_case(state, "LA") {
        Some(425)
    } else if str_eq_ignore_case(state, "ME") {
        Some(715)
    } else if str_eq_ignore_case(state, "MD") {
        Some(575)
    } else if str_eq_ignore_case(state, "MN") {
        Some(785)
    } else if str_eq_ignore_case(state, "MS") {
        Some(500)
    } else if str_eq_ignore_case(state, "MO") {
        Some(495)
    } else if str_eq_ignore_case(state, "MT") {
        Some(590)
    } else if str_eq_ignore_case(state, "NE") {
        Some(584)
    } else if str_eq_ignore_case(state, "NJ") {
        Some(637)
    } else if str_eq_ignore_case(state, "NM") {
        Some(490)
    } else if str_eq_ignore_case(state, "NY") {
        Some(685)
    } else if str_eq_ignore_case(state, "ND") {
        Some(219)
    } else if str_eq_ignore_case(state, "OH") {
        Some(399)
    } else if str_eq_ignore_case(state, "OK") {
        Some(475)
    } else if str_eq_ignore_case(state, "OR") {
        Some(990)
    } else if str_eq_ignore_case(state, "RI") {
        Some(599)
    } else if str_eq_ignore_case(state, "SC") {
        Some(640)
    } else if str_eq_ignore_case(state, "VT") {
        Some(875)
    } else if str_eq_ignore_case(state, "VA") {
        Some(575)
    } else if str_eq_ignore_case(state, "WV") {
        Some(520)
    } else if str_eq_ignore_case(state, "WI") {
        Some(765)
    } else if str_eq_ignore_case(state, "DC") {
        Some(895)
    } else {
        None
    }
}

/// Calculates state income tax on `taxable_income` cents for a
/// jurisdiction code, ignoring the code's ASCII case.
///
/// A supported code yields `taxable_income * rate / RATE_DENOM`, rounded
/// down; an unsupported code is an `UnsupportedState` error carrying the
/// code as given. The tax year is accepted but ignored: the single static
/// table answers for every year.
pub fn calculate_state_tax(taxable_income: u64, state: &str, _tax_year: i32) -> (r: Result<
    u64,
    TaxError,
>)
    ensures
        state_rate_bp(state@) matches Some(rate) ==> (r matches Ok(v) && v == rate_part(
            taxable_income as int,
            rate as int,
        )),
        state_rate_bp(state@) is None ==> (r matches Err(TaxError::UnsupportedState(m)) && m@
            == state@),
        r matches Ok(v) ==> v <= taxable_income,
{
    match lookup_state_rate(state) {
        Some(rate) => Ok(times_rate(taxable_income, rate)),
        None => Err(TaxError::UnsupportedState(state.to_owned())),
    }
}

} // verus!
