//! Products: the records, the payloads that create or change them, and the
//! rules these payloads must meet.
use vstd::prelude::*;

use crate::status::{api_check_answers, bad_request, form_check_answers, ApiError, HttpStatus};
use crate::text::{
    check_text, check_two_names, exceeds_trimmed, law_text_problem_of_trimmed, law_trim_idempotent, opt_view, owned,
    text_problem, too_long_trimmed, trim_chars, two_names_error, TextProblem,
};

pub mod api;
pub mod filters;
pub mod web;

verus! {

/// The longest product name, in characters, once trimmed.
pub const PRODUCT_NAME_MAX: usize = 255;

/// The longest product notes, in characters, once trimmed.
pub const PRODUCT_NOTES_MAX: usize = 300;

/// A stored product.
#[derive(Clone, Debug)]
pub struct ProductResponseDto {
    pub id: i64,
    pub name: String,
    pub name_ar: String,
    pub category_id: i64,
    pub notes: Option<String>,
    /// Creation time, in microseconds since the Unix epoch.
    pub created_at: i64,
    /// Last change, in microseconds since the Unix epoch.
    pub updated_at: i64,
}

/// A product row as the database model declares it.
#[derive(Clone, Debug)]
pub struct Product {
    id: Option<i32>,
    name: String,
    name_ar: String,
    parent_id: Option<i32>,
    category_id: i32,
    notes: Option<String>,
    created_at: i64,
    updated_at: i64,
}

/// Notes longer than allowed once trimmed, if given.
pub open spec fn notes_too_long(notes: Option<Seq<char>>) -> bool {
    notes matches Some(n) && too_long_trimmed(n, PRODUCT_NOTES_MAX as nat)
}

/// The refusal message of the API for a new product, if any.
pub open spec fn product_create_api_error(
    name: Seq<char>,
    name_ar: Seq<char>,
    notes: Option<Seq<char>>,
) -> Option<Seq<char>> {
    let names = two_names_error(
        name,
        name_ar,
        PRODUCT_NAME_MAX as nat,
        (
            "Product name is required and cannot be empty"@,
            "Product name must not exceed 255 characters"@,
            "Arabic product name is required and cannot be empty"@,
            "Arabic product name must not exceed 255 characters"@,
        ),
    );
    if names is Some {
        names
    } else if notes_too_long(notes) {
        Some("Notes must not exceed 300 characters"@)
    } else {
        None
    }
}

/// The refusal message of the web forms for a product, if any.
pub open spec fn product_form_error(
    name: Seq<char>,
    name_ar: Seq<char>,
    category_id: i64,
    notes: Option<Seq<char>>,
) -> Option<Seq<char>> {
    let names = two_names_error(
        name,
        name_ar,
        PRODUCT_NAME_MAX as nat,
        (
            "اسم المنتج بالإنجليزية مطلوب ولا يمكن تركه فارغاً"@,
            "اسم المنتج بالإنجليزية طويل جداً (255 حرف كحد أقصى)"@,
            "اسم المنتج بالعربية مطلوب ولا يمكن تركه فارغاً"@,
            "اسم المنتج بالعربية طويل جداً (255 حرف كحد أقصى)"@,
        ),
    );
    if names is Some {
        names
    } else if category_id <= 0 {
        Some("يجب اختيار قسم صالح للمنتج"@)
    } else if notes_too_long(notes) {
        Some("الملاحظات طويلة جداً (300 حرف كحد أقصى)"@)
    } else {
        None
    }
}

fn notes_exceed(notes: Option<&str>) -> (r: bool)
    ensures
        r == notes_too_long(match notes {
            Some(n) => Some(n@),
            None => None,
        }),
{
    match notes {
        Some(n) => exceeds_trimmed(n, PRODUCT_NOTES_MAX),
        None => false,
    }
}

pub(crate) fn opt_str(o: &Option<String>) -> (r: Option<&str>)
    ensures
        match r {
            Some(s) => o is Some && s@ == o->0@,
            None => o is None,
        },
{
    match o {
        Some(s) => Some(s.as_str()),
        None => None,
    }
}

/// The JSON payload that creates a product.
#[derive(Debug)]
pub struct CreateProductDto {
    pub name: String,
    pub name_ar: String,
    pub category_id: i64,
    pub notes: Option<String>,
}

impl CreateProductDto {
    /// Checks both names (required, at most 255 characters once trimmed)
    /// and the notes (at most 300 characters once trimmed).
    pub fn validate(&self) -> (r: Result<(), ApiError>)
        ensures
            api_check_answers(r, product_create_api_error(self.name@, self.name_ar@, opt_view(self.notes))),
    {
        match check_two_names(
            self.name.as_str(),
            self.name_ar.as_str(),
            PRODUCT_NAME_MAX,
            "Product name is required and cannot be empty",
            "Product name must not exceed 255 characters",
            "Arabic product name is required and cannot be empty",
            "Arabic product name must not exceed 255 characters",
        ) {
            Some(m) => {
                return Err((HttpStatus::BadRequest, m));
            },
            None => {},
        }
        if notes_exceed(opt_str(&self.notes)) {
            return Err(bad_request("Notes must not exceed 300 characters"));
        }
        Ok(())
    }
}

/// The JSON payload of a partial product update.  `notes` is
/// `Some(None)` to clear the notes and `None` to keep them.
#[derive(Debug)]
pub struct UpdateProductDto {
    pub name: Option<String>,
    pub name_ar: Option<String>,
    pub category_id: Option<i64>,
    pub notes: Option<Option<String>>,
}

/// The notes that a partial update asks for, seen as characters.
pub open spec fn notes_request_view(notes: Option<Option<String>>) -> Option<Option<Seq<char>>> {
    match notes {
        Some(inner) => Some(opt_view(inner)),
        None => None,
    }
}

/// The refusal message of the API for a partial product update, if any:
/// something must be given, and each given field must be valid.
pub open spec fn product_update_api_error(
    name: Option<Seq<char>>,
    name_ar: Option<Seq<char>>,
    category_id: Option<i64>,
    notes: Option<Option<Seq<char>>>,
) -> Option<Seq<char>> {
    if name is None && name_ar is None && category_id is None && notes is None {
        Some("At least one field must be provided to update"@)
    } else if name matches Some(n) && text_problem(n, PRODUCT_NAME_MAX as nat) == Some(TextProblem::Missing) {
        Some("Product name cannot be empty"@)
    } else if name matches Some(n) && text_problem(n, PRODUCT_NAME_MAX as nat) == Some(TextProblem::TooLong) {
        Some("Product name must not exceed 255 characters"@)
    } else if name_ar matches Some(n) && text_problem(n, PRODUCT_NAME_MAX as nat) == Some(TextProblem::Missing) {
        Some("Arabic product name cannot be empty"@)
    } else if name_ar matches Some(n) && text_problem(n, PRODUCT_NAME_MAX as nat) == Some(TextProblem::TooLong) {
        Some("Arabic product name must not exceed 255 characters"@)
    } else if notes matches Some(inner) && notes_too_long(inner) {
        Some("Notes must not exceed 300 characters"@)
    } else {
        None
    }
}

impl UpdateProductDto {
    /// Checks the fields that the payload gives; an empty payload is refused.
    pub fn validate(&self) -> (r: Result<(), ApiError>)
        ensures
            api_check_answers(
                r,
                product_update_api_error(
                    opt_view(self.name),
                    opt_view(self.name_ar),
                    self.category_id,
                    notes_request_view(self.notes),
                ),
            ),
    {
        if self.name.is_none() && self.name_ar.is_none() && self.category_id.is_none()
            && self.notes.is_none() {
            return Err(bad_request("At least one field must be provided to update"));
        }
        match &self.name {
            Some(name) => match check_text(name.as_str(), PRODUCT_NAME_MAX) {
                Some(TextProblem::Missing) => {
                    return Err(bad_request("Product name cannot be empty"));
                },
                Some(TextProblem::TooLong) => {
                    return Err(bad_request("Product name must not exceed 255 characters"));
                },
                None => {},
            },
            None => {},
        }
        match &self.name_ar {
            Some(name_ar) => match check_text(name_ar.as_str(), PRODUCT_NAME_MAX) {
                Some(TextProblem::Missing) => {
                    return Err(bad_request("Arabic product name cannot be empty"));
                },
                Some(TextProblem::TooLong) => {
                    return Err(bad_request("Arabic product name must not exceed 255 characters"));
                },
                None => {},
            },
            None => {},
        }
        match &self.notes {
            Some(inner) => {
                if notes_exceed(opt_str(inner)) {
                    return Err(bad_request("Notes must not exceed 300 characters"));
                }
            },
            None => {},
        }
        Ok(())
    }
}

/// The web form that creates a product.
#[derive(Debug)]
pub struct CreateProductForm {
    pub name: String,
    pub name_ar: String,
    pub category_id: i64,
    pub notes: Option<String>,
}

impl CreateProductForm {
    /// Checks the form as `MergedProductFormData` does.
    pub fn validate(&self) -> (r: Result<(), String>)
        ensures
            form_check_answers(
                r,
                product_form_error(self.name@, self.name_ar@, self.category_id, opt_view(self.notes)),
            ),
    {
        let merged = MergedProductFormData {
            name: self.name.as_str(),
            name_ar: self.name_ar.as_str(),
            category_id: self.category_id,
            notes: opt_str(&self.notes),
        };
        merged.validate()
    }
}

/// The web form that updates a product.
#[derive(Debug)]
pub struct UpdateProductForm {
    pub name: String,
    pub name_ar: String,
    pub category_id: i64,
    pub notes: Option<String>,
}

/// The values of a product form, as checked.
pub struct MergedProductFormData<'a> {
    pub name: &'a str,
    pub name_ar: &'a str,
    pub category_id: i64,
    pub notes: Option<&'a str>,
}

impl<'a> MergedProductFormData<'a> {
    /// Checks both names (required, at most 255 characters once trimmed),
    /// that a category is chosen (a positive id) and the notes (at most 300
    /// characters once trimmed), answering in Arabic.
    pub fn validate(&self) -> (r: Result<(), String>)
        ensures
            form_check_answers(
                r,
                product_form_error(
                    self.name@,
                    self.name_ar@,
                    self.category_id,
                    match self.notes {
                        Some(n) => Some(n@),
                        None => None,
                    },
                ),
            ),
    {
        match check_two_names(
            self.name,
            self.name_ar,
            PRODUCT_NAME_MAX,
            "اسم المنتج بالإنجليزية مطلوب ولا يمكن تركه فارغاً",
            "اسم المنتج بالإنجليزية طويل جداً (255 حرف كحد أقصى)",
            "اسم المنتج بالعربية مطلوب ولا يمكن تركه فارغاً",
            "اسم المنتج بالعربية طويل جداً (255 حرف كحد أقصى)",
        ) {
            Some(m) => {
                return Err(m);
            },
            None => {},
        }
        if self.category_id <= 0 {
            return Err(owned("يجب اختيار قسم صالح للمنتج"));
        }
        if notes_exceed(self.notes) {
            return Err(owned("الملاحظات طويلة جداً (300 حرف كحد أقصى)"));
        }
        Ok(())
    }
}

impl UpdateProductForm {
    /// Checks the form as `MergedProductFormData` does.
    pub fn validate(&self) -> (r: Result<(), String>)
        ensures
            form_check_answers(
                r,
                product_form_error(self.name@, self.name_ar@, self.category_id, opt_view(self.notes)),
            ),
    {
        let merged = MergedProductFormData {
            name: self.name.as_str(),
            name_ar: self.name_ar.as_str(),
            category_id: self.category_id,
            notes: opt_str(&self.notes),
        };
        merged.validate()
    }
}

} // verus!

verus! {

/// The web forms accept exactly the products that the JSON API accepts
/// with a chosen category (a positive id).
pub proof fn law_product_pages_and_api_agree(
    name: Seq<char>,
    name_ar: Seq<char>,
    category_id: i64,
    notes: Option<Seq<char>>,
)
    ensures
        product_form_error(name, name_ar, category_id, notes) is None <==> (product_create_api_error(
            name,
            name_ar,
            notes,
        ) is None && category_id > 0),
{
}

/// The values a product is written with (names and notes trimmed) get the
/// same verdict as the values that were sent.
pub proof fn law_stored_product_values_pass(name: Seq<char>, name_ar: Seq<char>, notes: Option<Seq<char>>)
    ensures
        product_create_api_error(
            trim_chars(name),
            trim_chars(name_ar),
            match notes {
                Some(n) => Some(trim_chars(n)),
                None => None,
            },
        ) == product_create_api_error(name, name_ar, notes),
{
    law_text_problem_of_trimmed(name, PRODUCT_NAME_MAX as nat);
    law_text_problem_of_trimmed(name_ar, PRODUCT_NAME_MAX as nat);
    if notes is Some {
        law_trim_idempotent(notes->0);
    }
}

} // verus!

verus! {

/// How a new product is judged: the English name, then the Arabic name
/// (each required, at most 255 characters once trimmed), then the notes
/// (at most 300 characters once trimmed); the pages also require a chosen
/// category (a positive id) before the notes. Each failure has its message;
/// a product is accepted exactly when every check passes.
pub proof fn law_product_refusals(name: Seq<char>, name_ar: Seq<char>, category_id: i64, notes: Option<Seq<char>>)
    ensures
        ({
            let n = trim_chars(name).len();
            let a = trim_chars(name_ar).len();
            let long_notes = notes matches Some(t) && trim_chars(t).len() > 300;
            let api = product_create_api_error(name, name_ar, notes);
            let web = product_form_error(name, name_ar, category_id, notes);
            let names_ok = 0 < n <= 255 && 0 < a <= 255;
            &&& n == 0 ==> api == Some("Product name is required and cannot be empty"@) && web == Some(
                "اسم المنتج بالإنجليزية مطلوب ولا يمكن تركه فارغاً"@,
            )
            &&& n > 255 ==> api == Some("Product name must not exceed 255 characters"@) && web == Some(
                "اسم المنتج بالإنجليزية طويل جداً (255 حرف كحد أقصى)"@,
            )
            &&& 0 < n <= 255 && a == 0 ==> api == Some("Arabic product name is required and cannot be empty"@) && web
                == Some("اسم المنتج بالعربية مطلوب ولا يمكن تركه فارغاً"@)
            &&& 0 < n <= 255 && a > 255 ==> api == Some("Arabic product name must not exceed 255 characters"@) && web
                == Some("اسم المنتج بالعربية طويل جداً (255 حرف كحد أقصى)"@)
            &&& names_ok && long_notes ==> api == Some("Notes must not exceed 300 characters"@)
            &&& names_ok && category_id <= 0 ==> web == Some("يجب اختيار قسم صالح للمنتج"@)
            &&& names_ok && category_id > 0 && long_notes ==> web == Some("الملاحظات طويلة جداً (300 حرف كحد أقصى)"@)
            &&& (api is None <==> (names_ok && !long_notes))
            &&& (web is None <==> (names_ok && category_id > 0 && !long_notes))
        }),
{
}

/// How a partial product update is judged before anything is read: an
/// update that gives nothing is refused; a given name or Arabic name must
/// be present and at most 255 characters once trimmed, and given notes at
/// most 300; each failure has its message, and the update is accepted
/// exactly when every given field is fine.
pub proof fn law_product_update_refusals(
    name: Option<Seq<char>>,
    name_ar: Option<Seq<char>>,
    category_id: Option<i64>,
    notes: Option<Option<Seq<char>>>,
)
    ensures
        ({
            let r = product_update_api_error(name, name_ar, category_id, notes);
            let empty = name is None && name_ar is None && category_id is None && notes is None;
            let name_ok = name matches Some(n) ==> 0 < trim_chars(n).len() <= 255;
            let name_ar_ok = name_ar matches Some(n) ==> 0 < trim_chars(n).len() <= 255;
            let notes_ok = notes matches Some(Some(t)) ==> trim_chars(t).len() <= 300;
            &&& empty ==> r == Some("At least one field must be provided to update"@)
            &&& !empty && (name matches Some(n) && trim_chars(n).len() == 0) ==> r == Some(
                "Product name cannot be empty"@,
            )
            &&& !empty && (name matches Some(n) && trim_chars(n).len() > 255) ==> r == Some(
                "Product name must not exceed 255 characters"@,
            )
            &&& !empty && name_ok && (name_ar matches Some(n) && trim_chars(n).len() == 0) ==> r == Some(
                "Arabic product name cannot be empty"@,
            )
            &&& !empty && name_ok && (name_ar matches Some(n) && trim_chars(n).len() > 255) ==> r == Some(
                "Arabic product name must not exceed 255 characters"@,
            )
            &&& !empty && name_ok && name_ar_ok && !notes_ok ==> r == Some("Notes must not exceed 300 characters"@)
            &&& (r is None <==> (!empty && name_ok && name_ar_ok && notes_ok))
        }),
{
}

} // verus!
