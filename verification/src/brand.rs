//! Brands: the records, the payloads that create or change them, and the
//! rules these payloads must meet.
use vstd::prelude::*;

use crate::status::{api_check_answers, bad_request, form_check_answers, ApiError};
use crate::text::{
    all_white_space, check_text, law_text_problem_of_trimmed, law_trim_ignores_padding, owned, text_problem, trim_chars,
    TextProblem,
};
use self::api::{brand_unchanged};

pub mod api;
pub mod filters;
pub mod web;

verus! {

/// The longest brand name, in characters, once trimmed.
pub const BRAND_NAME_MAX: usize = 100;

/// A stored brand.
#[derive(Clone, Debug)]
pub struct BrandResponseDto {
    pub id: i64,
    pub name: String,
    pub name_ar: String,
    pub notes: Option<String>,
    /// Creation time, in microseconds since the Unix epoch.
    pub created_at: i64,
    /// Last change, in microseconds since the Unix epoch.
    pub updated_at: i64,
}

/// The refusal message of the JSON API for a brand with these names, if any.
pub open spec fn brand_api_error(name: Seq<char>, name_ar: Seq<char>) -> Option<Seq<char>> {
    match text_problem(name, BRAND_NAME_MAX as nat) {
        Some(TextProblem::Missing) => Some("English name is required and cannot be empty"@),
        Some(TextProblem::TooLong) => Some("English name must not exceed 100 characters"@),
        None => match text_problem(name_ar, BRAND_NAME_MAX as nat) {
            Some(TextProblem::Missing) => Some("Arabic name is required and cannot be empty"@),
            Some(TextProblem::TooLong) => Some("Arabic name must not exceed 100 characters"@),
            None => None,
        },
    }
}

/// The refusal message of the web forms for a brand with these names, if any.
pub open spec fn brand_form_error(name: Seq<char>, name_ar: Seq<char>) -> Option<Seq<char>> {
    match text_problem(name, BRAND_NAME_MAX as nat) {
        Some(TextProblem::Missing) => Some("الاسم بالإنجليزية مطلوب ولا يمكن تركه فارغاً"@),
        Some(TextProblem::TooLong) => Some("اسم البراند طويل جداً (100 حرف كحد أقصى)"@),
        None => match text_problem(name_ar, BRAND_NAME_MAX as nat) {
            Some(TextProblem::Missing) => Some("الاسم بالعربية مطلوب"@),
            Some(TextProblem::TooLong) => Some("اسم البراند بالعربية طويل جداً (100 حرف كحد أقصى)"@),
            None => None,
        },
    }
}

fn brand_api_check(name: &str, name_ar: &str) -> (r: Result<(), ApiError>)
    ensures
        api_check_answers(r, brand_api_error(name@, name_ar@)),
{
    match check_text(name, BRAND_NAME_MAX) {
        Some(TextProblem::Missing) => {
            return Err(bad_request("English name is required and cannot be empty"));
        },
        Some(TextProblem::TooLong) => {
            return Err(bad_request("English name must not exceed 100 characters"));
        },
        None => {},
    }
    match check_text(name_ar, BRAND_NAME_MAX) {
        Some(TextProblem::Missing) => Err(bad_request("Arabic name is required and cannot be empty")),
        Some(TextProblem::TooLong) => Err(bad_request("Arabic name must not exceed 100 characters")),
        None => Ok(()),
    }
}

fn brand_form_check(name: &str, name_ar: &str) -> (r: Result<(), String>)
    ensures
        form_check_answers(r, brand_form_error(name@, name_ar@)),
{
    match check_text(name, BRAND_NAME_MAX) {
        Some(TextProblem::Missing) => {
            return Err(owned("الاسم بالإنجليزية مطلوب ولا يمكن تركه فارغاً"));
        },
        Some(TextProblem::TooLong) => {
            return Err(owned("اسم البراند طويل جداً (100 حرف كحد أقصى)"));
        },
        None => {},
    }
    match check_text(name_ar, BRAND_NAME_MAX) {
        Some(TextProblem::Missing) => Err(owned("الاسم بالعربية مطلوب")),
        Some(TextProblem::TooLong) => Err(owned("اسم البراند بالعربية طويل جداً (100 حرف كحد أقصى)")),
        None => Ok(()),
    }
}

/// The JSON payload that creates a brand.
#[derive(Debug)]
pub struct CreateBrandDto {
    pub name: String,
    pub name_ar: String,
    pub notes: Option<String>,
}

impl CreateBrandDto {
    /// Checks both names: required, and at most 100 characters once trimmed.
    pub fn validate(&self) -> (r: Result<(), ApiError>)
        ensures
            api_check_answers(r, brand_api_error(self.name@, self.name_ar@)),
    {
        brand_api_check(self.name.as_str(), self.name_ar.as_str())
    }
}

/// The JSON payload of a partial brand update; an absent field keeps its value.
#[derive(Debug)]
pub struct UpdateBrandDto {
    pub name: Option<String>,
    pub name_ar: Option<String>,
    pub notes: Option<String>,
}

/// The values of a brand once a partial update is merged into it.
pub struct MergedBrandData<'a> {
    pub name: &'a str,
    pub name_ar: &'a str,
}

impl<'a> MergedBrandData<'a> {
    /// Checks the merged names under the same rules as a new brand.
    pub fn validate(&self) -> (r: Result<(), ApiError>)
        ensures
            api_check_answers(r, brand_api_error(self.name@, self.name_ar@)),
    {
        brand_api_check(self.name, self.name_ar)
    }
}

/// The web form that creates a brand.
#[derive(Debug)]
pub struct CreateBrandForm {
    pub name: String,
    pub name_ar: String,
    pub notes: Option<String>,
}

impl CreateBrandForm {
    /// Checks both names, answering in Arabic.
    pub fn validate(&self) -> (r: Result<(), String>)
        ensures
            form_check_answers(r, brand_form_error(self.name@, self.name_ar@)),
    {
        brand_form_check(self.name.as_str(), self.name_ar.as_str())
    }
}

/// The web form that updates a brand; it always carries every field.
#[derive(Debug)]
pub struct UpdateBrandForm {
    pub name: String,
    pub name_ar: String,
    pub notes: Option<String>,
}

/// The values that a brand update form submits, as checked.
pub struct MergedBrandFormData<'a> {
    pub name: &'a str,
    pub name_ar: &'a str,
}

impl<'a> MergedBrandFormData<'a> {
    /// Checks both names, answering in Arabic.
    pub fn validate(&self) -> (r: Result<(), String>)
        ensures
            form_check_answers(r, brand_form_error(self.name@, self.name_ar@)),
    {
        brand_form_check(self.name, self.name_ar)
    }
}

impl UpdateBrandForm {
    /// Checks the form as `MergedBrandFormData` does.
    pub fn validate(&self) -> (r: Result<(), String>)
        ensures
            form_check_answers(r, brand_form_error(self.name@, self.name_ar@)),
    {
        let merged = MergedBrandFormData { name: self.name.as_str(), name_ar: self.name_ar.as_str() };
        merged.validate()
    }
}

/// The query string of the live brand search.
#[derive(Debug)]
pub struct BrandSearchQuery {
    pub q: String,
}

} // verus!

verus! {

/// The web forms and the JSON API accept the same brand names; only their
/// messages differ.
pub proof fn law_brand_pages_and_api_agree(name: Seq<char>, name_ar: Seq<char>)
    ensures
        brand_api_error(name, name_ar) is None <==> brand_form_error(name, name_ar) is None,
{
}

/// Brand names are judged on their trimmed values: white space around
/// them changes neither the verdict nor the message, in the API or on the
/// pages.
pub proof fn law_brand_check_ignores_padding(
    name: Seq<char>,
    name_ar: Seq<char>,
    before: Seq<char>,
    after: Seq<char>,
)
    requires
        all_white_space(before),
        all_white_space(after),
    ensures
        brand_api_error(before + name + after, before + name_ar + after) == brand_api_error(name, name_ar),
        brand_form_error(before + name + after, before + name_ar + after) == brand_form_error(name, name_ar),
{
    law_trim_ignores_padding(before, name, after);
    law_trim_ignores_padding(before, name_ar, after);
}

/// The names a brand is written with (trimmed) get the same verdict as the
/// names that were sent: accepted names stay accepted once stored.
pub proof fn law_stored_brand_names_pass(name: Seq<char>, name_ar: Seq<char>)
    ensures
        brand_api_error(trim_chars(name), trim_chars(name_ar)) == brand_api_error(name, name_ar),
        brand_form_error(trim_chars(name), trim_chars(name_ar)) == brand_form_error(name, name_ar),
{
    law_text_problem_of_trimmed(name, BRAND_NAME_MAX as nat);
    law_text_problem_of_trimmed(name_ar, BRAND_NAME_MAX as nat);
}

/// A partial update that gives no field, or gives the stored values again,
/// leaves the brand unchanged (and is not written).
pub proof fn law_brand_update_without_news(payload: UpdateBrandDto, old: BrandResponseDto)
    requires
        payload.name is None || payload.name->0@ == old.name@,
        payload.name_ar is None || payload.name_ar->0@ == old.name_ar@,
        payload.notes is None || (old.notes is Some && payload.notes->0@ == old.notes->0@),
    ensures
        brand_unchanged(payload, old),
{
}

} // verus!

verus! {

/// How a brand's names are judged, in the API and on the pages: the
/// English name first (required; at most 100 characters once trimmed),
/// then the Arabic name, each failure with its message; accepted exactly
/// when both are fine.
pub proof fn law_brand_name_refusals(name: Seq<char>, name_ar: Seq<char>)
    ensures
        ({
            let n = trim_chars(name).len();
            let a = trim_chars(name_ar).len();
            let api = brand_api_error(name, name_ar);
            let web = brand_form_error(name, name_ar);
            &&& n == 0 ==> api == Some("English name is required and cannot be empty"@) && web == Some(
                "الاسم بالإنجليزية مطلوب ولا يمكن تركه فارغاً"@,
            )
            &&& n > 100 ==> api == Some("English name must not exceed 100 characters"@) && web == Some(
                "اسم البراند طويل جداً (100 حرف كحد أقصى)"@,
            )
            &&& 0 < n <= 100 && a == 0 ==> api == Some("Arabic name is required and cannot be empty"@) && web == Some(
                "الاسم بالعربية مطلوب"@,
            )
            &&& 0 < n <= 100 && a > 100 ==> api == Some("Arabic name must not exceed 100 characters"@) && web == Some(
                "اسم البراند بالعربية طويل جداً (100 حرف كحد أقصى)"@,
            )
            &&& (api is None <==> (0 < n <= 100 && 0 < a <= 100))
            &&& (web is None <==> (0 < n <= 100 && 0 < a <= 100))
        }),
{
}

} // verus!
