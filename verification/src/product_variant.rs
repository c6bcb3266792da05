//! Product variants: the sellable items of a product (a brand, a SKU, a
//! barcode, stock), the payloads that create or change them, the rules
//! these payloads must meet, and the rows that the pages show.
use vstd::prelude::*;
use std::collections::HashMap;

use crate::status::{api_check_answers, bad_request, form_check_answers, ApiError, HttpStatus};
use crate::category::other_than;
use crate::text::law_text_problem_of_trimmed;
use crate::text::{
    char_count, check_text, check_two_names, copy_opt, eq_ignore_ascii_case, eq_ignore_ascii_case_chars,
    opt_str_view, opt_view, owned, same_text, text_problem, trim_chars, trim_str, two_names_error, TextProblem,
};

pub mod api;
pub mod filters;
pub mod web;

pub use crate::category::{empty_number_as_none, empty_string_as_none};

verus! {

broadcast use vstd::std_specs::hash::group_hash_axioms;

/// The longest variant name, in characters, once trimmed.
pub const VARIANT_NAME_MAX: usize = 255;

/// The longest SKU, in characters, once trimmed.
pub const SKU_MAX: usize = 100;

/// A stored product variant.
#[derive(Clone, Debug)]
pub struct ProductVariantResponseDto {
    pub id: i64,
    pub product_id: i64,
    pub brand_id: i64,
    pub name: String,
    pub name_ar: String,
    pub sku: String,
    pub barcode: Option<String>,
    pub shelf_location: Option<String>,
    pub stock_quantity: i32,
    pub reorder_threshold: i32,
    pub is_active: bool,
    /// Free attributes, as JSON text.
    pub attr: String,
    pub notes: Option<String>,
    /// Creation time, in microseconds since the Unix epoch.
    pub created_at: i64,
    /// Last change, in microseconds since the Unix epoch.
    pub updated_at: i64,
}

/// A product variant row as the database model declares it.
#[derive(Clone, Debug)]
pub struct ProductVariant {
    pub id: i64,
    pub product_id: i64,
    pub brand_id: i64,
    pub name: String,
    pub name_ar: String,
    pub sku: String,
    pub barcode: Option<String>,
    pub shelf_location: Option<String>,
    pub stock_quantity: i32,
    pub reorder_threshold: i32,
    pub is_active: bool,
    pub attr: String,
    pub notes: Option<String>,
    pub created_at: i64,
    pub updated_at: i64,
}

/// What the database says about a variant request: the answers of the
/// checks that the API asks.
#[derive(Clone, Copy, Debug)]
pub struct VariantLookups {
    /// The product exists.
    pub product_exists: bool,
    /// The brand exists.
    pub brand_exists: bool,
    /// Another variant has the same SKU, ignoring case.
    pub sku_exists: bool,
    /// Another variant has the same (trimmed, non-blank) barcode.
    pub barcode_exists: bool,
    /// Another variant of the same product has the same English name.
    pub name_exists: bool,
    /// Another variant of the same product has the same Arabic name.
    pub name_ar_exists: bool,
}

/// A barcode that is given and not blank once trimmed.
pub open spec fn has_barcode(barcode: Option<Seq<char>>) -> bool {
    barcode matches Some(b) && trim_chars(b).len() > 0
}

/// The checks that need no database, in order, with the messages of the
/// API for new variants.
pub open spec fn variant_fields_api_error(
    name: Seq<char>,
    name_ar: Seq<char>,
    sku: Seq<char>,
    stock_quantity: Option<i32>,
    reorder_threshold: Option<i32>,
) -> Option<Seq<char>> {
    let names = two_names_error(
        name,
        name_ar,
        VARIANT_NAME_MAX as nat,
        (
            "English name is required and cannot be empty"@,
            "English name must not exceed 255 characters"@,
            "Arabic name is required and cannot be empty"@,
            "Arabic name must not exceed 255 characters"@,
        ),
    );
    if names is Some {
        names
    } else if text_problem(sku, SKU_MAX as nat) == Some(TextProblem::Missing) {
        Some("SKU is required and cannot be empty"@)
    } else if text_problem(sku, SKU_MAX as nat) == Some(TextProblem::TooLong) {
        Some("SKU must not exceed 100 characters"@)
    } else if stock_quantity matches Some(q) && q < 0 {
        Some("Stock quantity cannot be negative"@)
    } else if reorder_threshold matches Some(t) && t < 0 {
        Some("Reorder threshold cannot be negative"@)
    } else {
        None
    }
}

/// The refusal message of the API for a new variant, if any.
pub open spec fn variant_create_api_error(
    name: Seq<char>,
    name_ar: Seq<char>,
    sku: Seq<char>,
    barcode: Option<Seq<char>>,
    stock_quantity: Option<i32>,
    reorder_threshold: Option<i32>,
    lookups: VariantLookups,
) -> Option<Seq<char>> {
    let fields = variant_fields_api_error(name, name_ar, sku, stock_quantity, reorder_threshold);
    if fields is Some {
        fields
    } else if !lookups.product_exists {
        Some("Referenced product_id does not exist"@)
    } else if !lookups.brand_exists {
        Some("Referenced brand_id does not exist"@)
    } else if lookups.sku_exists {
        Some("SKU already exists"@)
    } else if has_barcode(barcode) && lookups.barcode_exists {
        Some("Barcode already exists"@)
    } else if lookups.name_exists {
        Some("Variant English name already exists for this product"@)
    } else if lookups.name_ar_exists {
        Some("Variant Arabic name already exists for this product"@)
    } else {
        None
    }
}

/// The checks that need no database, in order, with the Arabic messages.
pub open spec fn variant_fields_error(
    name: Seq<char>,
    name_ar: Seq<char>,
    sku: Seq<char>,
    stock_quantity: i32,
    reorder_threshold: i32,
) -> Option<Seq<char>> {
    let names = two_names_error(
        name,
        name_ar,
        VARIANT_NAME_MAX as nat,
        (
            "الاسم بالإنجليزية مطلوب ولا يمكن تركه فارغاً"@,
            "اسم المتغير بالإنجليزية يجب ألا يتجاوز 255 حرفاً"@,
            "الاسم بالعربية مطلوب ولا يمكن تركه فارغاً"@,
            "اسم المتغير بالعربية يجب ألا يتجاوز 255 حرفاً"@,
        ),
    );
    if names is Some {
        names
    } else if text_problem(sku, SKU_MAX as nat) == Some(TextProblem::Missing) {
        Some("رمز SKU مطلوب ولا يمكن تركه فارغاً"@)
    } else if text_problem(sku, SKU_MAX as nat) == Some(TextProblem::TooLong) {
        Some("رمز SKU يجب ألا يتجاوز 100 حرف"@)
    } else if stock_quantity < 0 {
        Some("كمية المخزون لا يمكن أن تكون بالسالب"@)
    } else if reorder_threshold < 0 {
        Some("حد إعادة الطلب لا يمكن أن يكون بالسالب"@)
    } else {
        None
    }
}

/// The refusal message of the API for a changed variant, if any.
pub open spec fn variant_update_api_error(
    name: Seq<char>,
    name_ar: Seq<char>,
    sku: Seq<char>,
    barcode: Option<Seq<char>>,
    stock_quantity: i32,
    reorder_threshold: i32,
    lookups: VariantLookups,
) -> Option<Seq<char>> {
    let fields = variant_fields_error(name, name_ar, sku, stock_quantity, reorder_threshold);
    if fields is Some {
        fields
    } else if !lookups.product_exists {
        Some("المنتج التابع له غير موجود"@)
    } else if !lookups.brand_exists {
        Some("الماركة المحددة غير موجودة"@)
    } else if lookups.sku_exists {
        Some("رمز SKU موجود بالفعل لمتغير آخر"@)
    } else if has_barcode(barcode) && lookups.barcode_exists {
        Some("الباركود موجود بالفعل لمتغير آخر"@)
    } else if lookups.name_exists {
        Some("اسم المتغير بالإنجليزية موجود بالفعل لهذا المنتج"@)
    } else if lookups.name_ar_exists {
        Some("اسم المتغير بالعربية موجود بالفعل لهذا المنتج"@)
    } else {
        None
    }
}

fn opt_str(o: &Option<String>) -> (r: Option<&str>)
    ensures
        opt_str_view(r) == opt_view(*o),
{
    match o {
        Some(s) => Some(s.as_str()),
        None => None,
    }
}

fn barcode_given(barcode: Option<&str>) -> (r: bool)
    ensures
        r == has_barcode(opt_str_view(barcode)),
{
    match barcode {
        Some(b) => char_count(trim_str(b)) > 0,
        None => false,
    }
}

fn variant_fields_check(
    name: &str,
    name_ar: &str,
    sku: &str,
    stock_quantity: i32,
    reorder_threshold: i32,
) -> (r: Option<String>)
    ensures
        opt_view(r) == variant_fields_error(name@, name_ar@, sku@, stock_quantity, reorder_threshold),
{
    match check_two_names(
        name,
        name_ar,
        VARIANT_NAME_MAX,
        "الاسم بالإنجليزية مطلوب ولا يمكن تركه فارغاً",
        "اسم المتغير بالإنجليزية يجب ألا يتجاوز 255 حرفاً",
        "الاسم بالعربية مطلوب ولا يمكن تركه فارغاً",
        "اسم المتغير بالعربية يجب ألا يتجاوز 255 حرفاً",
    ) {
        Some(m) => {
            return Some(m);
        },
        None => {},
    }
    match check_text(sku, SKU_MAX) {
        Some(TextProblem::Missing) => {
            return Some(owned("رمز SKU مطلوب ولا يمكن تركه فارغاً"));
        },
        Some(TextProblem::TooLong) => {
            return Some(owned("رمز SKU يجب ألا يتجاوز 100 حرف"));
        },
        None => {},
    }
    if stock_quantity < 0 {
        return Some(owned("كمية المخزون لا يمكن أن تكون بالسالب"));
    }
    if reorder_threshold < 0 {
        return Some(owned("حد إعادة الطلب لا يمكن أن يكون بالسالب"));
    }
    None
}

/// The JSON payload that creates a product variant.
#[derive(Debug)]
pub struct CreateProductVariantApiDto {
    pub product_id: i64,
    pub brand_id: i64,
    pub name: String,
    pub name_ar: String,
    pub sku: String,
    pub barcode: Option<String>,
    pub shelf_location: Option<String>,
    pub stock_quantity: Option<i32>,
    pub reorder_threshold: Option<i32>,
    pub is_active: Option<bool>,
    /// Free attributes, as JSON text.
    pub attr: Option<String>,
    pub notes: Option<String>,
}

impl CreateProductVariantApiDto {
    /// Checks a new variant: names (at most 255 characters once trimmed),
    /// SKU (at most 100), no negative stock or threshold, then what the
    /// database answered: product and brand exist, SKU, barcode and names
    /// not taken.
    pub fn validate(&self, lookups: &VariantLookups) -> (r: Result<(), ApiError>)
        ensures
            api_check_answers(
                r,
                variant_create_api_error(
                    self.name@,
                    self.name_ar@,
                    self.sku@,
                    opt_view(self.barcode),
                    self.stock_quantity,
                    self.reorder_threshold,
                    *lookups,
                ),
            ),
    {
        match check_two_names(
            self.name.as_str(),
            self.name_ar.as_str(),
            VARIANT_NAME_MAX,
            "English name is required and cannot be empty",
            "English name must not exceed 255 characters",
            "Arabic name is required and cannot be empty",
            "Arabic name must not exceed 255 characters",
        ) {
            Some(m) => {
                return Err((HttpStatus::BadRequest, m));
            },
            None => {},
        }
        match check_text(self.sku.as_str(), SKU_MAX) {
            Some(TextProblem::Missing) => {
                return Err(bad_request("SKU is required and cannot be empty"));
            },
            Some(TextProblem::TooLong) => {
                return Err(bad_request("SKU must not exceed 100 characters"));
            },
            None => {},
        }
        match self.stock_quantity {
            Some(q) => {
                if q < 0 {
                    return Err(bad_request("Stock quantity cannot be negative"));
                }
            },
            None => {},
        }
        match self.reorder_threshold {
            Some(t) => {
                if t < 0 {
                    return Err(bad_request("Reorder threshold cannot be negative"));
                }
            },
            None => {},
        }
        if !lookups.product_exists {
            return Err(bad_request("Referenced product_id does not exist"));
        }
        if !lookups.brand_exists {
            return Err(bad_request("Referenced brand_id does not exist"));
        }
        if lookups.sku_exists {
            return Err(bad_request("SKU already exists"));
        }
        if barcode_given(opt_str(&self.barcode)) && lookups.barcode_exists {
            return Err(bad_request("Barcode already exists"));
        }
        if lookups.name_exists {
            return Err(bad_request("Variant English name already exists for this product"));
        }
        if lookups.name_ar_exists {
            return Err(bad_request("Variant Arabic name already exists for this product"));
        }
        Ok(())
    }
}

/// The JSON payload of a partial variant update; an absent field keeps its
/// value.
#[derive(Debug)]
pub struct UpdateProductVariantApiDto {
    pub product_id: Option<i64>,
    pub brand_id: Option<i64>,
    pub name: Option<String>,
    pub name_ar: Option<String>,
    pub sku: Option<String>,
    pub barcode: Option<String>,
    pub shelf_location: Option<String>,
    pub stock_quantity: Option<i32>,
    pub reorder_threshold: Option<i32>,
    pub is_active: Option<bool>,
    /// Free attributes, as JSON text.
    pub attr: Option<String>,
    pub notes: Option<String>,
}

/// The values of a variant once a change is merged into it.
pub struct MergedProductVariantData<'a> {
    pub product_id: i64,
    pub brand_id: i64,
    pub name: &'a str,
    pub name_ar: &'a str,
    pub sku: &'a str,
    pub barcode: Option<&'a str>,
    pub stock_quantity: i32,
    pub reorder_threshold: i32,
}

impl<'a> MergedProductVariantData<'a> {
    /// Checks a changed variant, answering in Arabic: the fields, then what
    /// the database answered about the other variants (all but
    /// `current_variant_id`).
    pub fn validate(&self, current_variant_id: i64, lookups: &VariantLookups) -> (r: Result<(), ApiError>)
        ensures
            api_check_answers(
                r,
                variant_update_api_error(
                    self.name@,
                    self.name_ar@,
                    self.sku@,
                    opt_str_view(self.barcode),
                    self.stock_quantity,
                    self.reorder_threshold,
                    *lookups,
                ),
            ),
    {
        match variant_fields_check(self.name, self.name_ar, self.sku, self.stock_quantity, self.reorder_threshold) {
            Some(m) => {
                return Err((HttpStatus::BadRequest, m));
            },
            None => {},
        }
        if !lookups.product_exists {
            return Err(bad_request("المنتج التابع له غير موجود"));
        }
        if !lookups.brand_exists {
            return Err(bad_request("الماركة المحددة غير موجودة"));
        }
        if lookups.sku_exists {
            return Err(bad_request("رمز SKU موجود بالفعل لمتغير آخر"));
        }
        if barcode_given(self.barcode) && lookups.barcode_exists {
            return Err(bad_request("الباركود موجود بالفعل لمتغير آخر"));
        }
        if lookups.name_exists {
            return Err(bad_request("اسم المتغير بالإنجليزية موجود بالفعل لهذا المنتج"));
        }
        if lookups.name_ar_exists {
            return Err(bad_request("اسم المتغير بالعربية موجود بالفعل لهذا المنتج"));
        }
        Ok(())
    }
}

} // verus!

verus! {

/// Some variant other than `current` has this SKU once trimmed, compared
/// without regard to ASCII case.
pub open spec fn sku_in_use(vs: Seq<ProductVariantResponseDto>, current: Option<i64>, sku: Seq<char>) -> bool {
    exists|i: int|
        #![trigger vs[i]]
        0 <= i < vs.len() && Some(vs[i].id) != current && eq_ignore_ascii_case_chars(trim_chars(vs[i].sku@), sku)
}

/// Some variant other than `current` has a barcode that is this one once
/// trimmed.
pub open spec fn barcode_in_use(vs: Seq<ProductVariantResponseDto>, current: Option<i64>, barcode: Seq<char>) -> bool {
    exists|i: int|
        #![trigger vs[i]]
        0 <= i < vs.len() && Some(vs[i].id) != current && (vs[i].barcode matches Some(b) && trim_chars(b@) == barcode)
}

/// Some variant of product `product_id` other than `current` has this
/// English name once trimmed, ignoring ASCII case.
pub open spec fn variant_name_in_use(
    vs: Seq<ProductVariantResponseDto>,
    current: Option<i64>,
    product_id: i64,
    name: Seq<char>,
) -> bool {
    exists|i: int|
        #![trigger vs[i]]
        0 <= i < vs.len() && Some(vs[i].id) != current && vs[i].product_id == product_id
            && eq_ignore_ascii_case_chars(trim_chars(vs[i].name@), name)
}

/// Some variant of product `product_id` other than `current` has this
/// Arabic name once trimmed, ignoring ASCII case.
pub open spec fn variant_name_ar_in_use(
    vs: Seq<ProductVariantResponseDto>,
    current: Option<i64>,
    product_id: i64,
    name_ar: Seq<char>,
) -> bool {
    exists|i: int|
        #![trigger vs[i]]
        0 <= i < vs.len() && Some(vs[i].id) != current && vs[i].product_id == product_id
            && eq_ignore_ascii_case_chars(trim_chars(vs[i].name_ar@), name_ar)
}

/// The refusal message of the variant web forms, if any: the fields, then
/// uniqueness among the other variants of the SKU, the barcode (when one is
/// given) and the two names within the product.
pub open spec fn variant_form_error(
    product_id: i64,
    name: Seq<char>,
    name_ar: Seq<char>,
    sku: Seq<char>,
    barcode: Option<Seq<char>>,
    stock_quantity: i32,
    reorder_threshold: i32,
    current: Option<i64>,
    vs: Seq<ProductVariantResponseDto>,
) -> Option<Seq<char>> {
    let fields = variant_fields_error(name, name_ar, sku, stock_quantity, reorder_threshold);
    if fields is Some {
        fields
    } else if sku_in_use(vs, current, trim_chars(sku)) {
        Some("رمز SKU موجود بالفعل لمتغير آخر"@)
    } else if has_barcode(barcode) && barcode_in_use(vs, current, trim_chars(barcode->0)) {
        Some("الباركود موجود بالفعل لمتغير آخر"@)
    } else if variant_name_in_use(vs, current, product_id, trim_chars(name)) {
        Some("اسم المتغير بالإنجليزية موجود بالفعل لهذا المنتج"@)
    } else if variant_name_ar_in_use(vs, current, product_id, trim_chars(name_ar)) {
        Some("اسم المتغير بالعربية موجود بالفعل لهذا المنتج"@)
    } else {
        None
    }
}

fn sku_taken(vs: &[ProductVariantResponseDto], current: Option<i64>, sku: &str) -> (r: bool)
    ensures
        r == sku_in_use(vs@, current, sku@),
{
    let n = vs.len();
    let mut i: usize = 0;
    while i < n
        invariant
            n == vs@.len(),
            i <= n,
            forall|j: int|
                #![trigger vs@[j]]
                0 <= j < i ==> !(Some(vs@[j].id) != current && eq_ignore_ascii_case_chars(
                    trim_chars(vs@[j].sku@),
                    sku@,
                )),
        decreases n - i,
    {
        if other_than(vs[i].id, current) && eq_ignore_ascii_case(trim_str(vs[i].sku.as_str()), sku) {
            assert(vs@[i as int] == vs[i as int]);
            return true;
        }
        i = i + 1;
    }
    false
}

fn barcode_taken(vs: &[ProductVariantResponseDto], current: Option<i64>, barcode: &str) -> (r: bool)
    ensures
        r == barcode_in_use(vs@, current, barcode@),
{
    let n = vs.len();
    let mut i: usize = 0;
    while i < n
        invariant
            n == vs@.len(),
            i <= n,
            forall|j: int|
                #![trigger vs@[j]]
                0 <= j < i ==> !(Some(vs@[j].id) != current && (vs@[j].barcode matches Some(b) && trim_chars(b@)
                    == barcode@)),
        decreases n - i,
    {
        let same = match &vs[i].barcode {
            Some(b) => same_text(trim_str(b.as_str()), barcode),
            None => false,
        };
        if other_than(vs[i].id, current) && same {
            assert(vs@[i as int] == vs[i as int]);
            return true;
        }
        i = i + 1;
    }
    false
}

fn variant_name_taken(
    vs: &[ProductVariantResponseDto],
    current: Option<i64>,
    product_id: i64,
    name: &str,
    arabic: bool,
) -> (r: bool)
    ensures
        r == if arabic {
            variant_name_ar_in_use(vs@, current, product_id, name@)
        } else {
            variant_name_in_use(vs@, current, product_id, name@)
        },
{
    let n = vs.len();
    let mut i: usize = 0;
    while i < n
        invariant
            n == vs@.len(),
            i <= n,
            forall|j: int|
                #![trigger vs@[j]]
                0 <= j < i ==> !(Some(vs@[j].id) != current && vs@[j].product_id == product_id
                    && eq_ignore_ascii_case_chars(
                    trim_chars(if arabic { vs@[j].name_ar@ } else { vs@[j].name@ }),
                    name@,
                )),
        decreases n - i,
    {
        let stored = if arabic {
            vs[i].name_ar.as_str()
        } else {
            vs[i].name.as_str()
        };
        if other_than(vs[i].id, current) && vs[i].product_id == product_id && eq_ignore_ascii_case(
            trim_str(stored),
            name,
        ) {
            assert(vs@[i as int] == vs[i as int]);
            return true;
        }
        i = i + 1;
    }
    false
}

/// The values of a variant form, as checked.
pub struct MergedProductVariantFormData<'a> {
    pub product_id: i64,
    pub brand_id: i64,
    pub name: &'a str,
    pub name_ar: &'a str,
    pub sku: &'a str,
    pub barcode: Option<&'a str>,
    pub stock_quantity: i32,
    pub reorder_threshold: i32,
}

impl<'a> MergedProductVariantFormData<'a> {
    /// Checks the fields (names of at most 255 characters and a SKU of at
    /// most 100 once trimmed, no negative stock or threshold), then, among
    /// the other variants (all but `current_variant_id`), that the SKU is
    /// not taken ignoring ASCII case, that a given barcode is not taken, and
    /// that no variant of the same product has either name.
    pub fn validate(
        &self,
        current_variant_id: Option<i64>,
        existing_variants: &[ProductVariantResponseDto],
    ) -> (r: Result<(), String>)
        ensures
            form_check_answers(
                r,
                variant_form_error(
                    self.product_id,
                    self.name@,
                    self.name_ar@,
                    self.sku@,
                    opt_str_view(self.barcode),
                    self.stock_quantity,
                    self.reorder_threshold,
                    current_variant_id,
                    existing_variants@,
                ),
            ),
    {
        match variant_fields_check(self.name, self.name_ar, self.sku, self.stock_quantity, self.reorder_threshold) {
            Some(m) => {
                return Err(m);
            },
            None => {},
        }
        let trimmed_name = trim_str(self.name);
        let trimmed_name_ar = trim_str(self.name_ar);
        let trimmed_sku = trim_str(self.sku);
        if sku_taken(existing_variants, current_variant_id, trimmed_sku) {
            return Err(owned("رمز SKU موجود بالفعل لمتغير آخر"));
        }
        match self.barcode {
            Some(bc) => {
                let trimmed_bc = trim_str(bc);
                if char_count(trimmed_bc) > 0 && barcode_taken(existing_variants, current_variant_id, trimmed_bc) {
                    return Err(owned("الباركود موجود بالفعل لمتغير آخر"));
                }
            },
            None => {},
        }
        if variant_name_taken(existing_variants, current_variant_id, self.product_id, trimmed_name, false) {
            return Err(owned("اسم المتغير بالإنجليزية موجود بالفعل لهذا المنتج"));
        }
        if variant_name_taken(existing_variants, current_variant_id, self.product_id, trimmed_name_ar, true) {
            return Err(owned("اسم المتغير بالعربية موجود بالفعل لهذا المنتج"));
        }
        Ok(())
    }
}

/// A count given in a form, or zero when left out.
pub open spec fn count_or_zero(o: Option<i32>) -> i32 {
    match o {
        Some(q) => q,
        None => 0,
    }
}

fn or_zero(o: Option<i32>) -> (r: i32)
    ensures
        r == count_or_zero(o),
{
    match o {
        Some(q) => q,
        None => 0,
    }
}

/// The web form that creates a product variant.
#[derive(Debug)]
pub struct CreateProductVariantForm {
    pub product_id: i64,
    pub brand_id: i64,
    pub name: String,
    pub name_ar: String,
    pub sku: String,
    pub barcode: Option<String>,
    pub shelf_location: Option<String>,
    pub stock_quantity: Option<i32>,
    pub reorder_threshold: Option<i32>,
    pub is_active: Option<bool>,
    pub notes: Option<String>,
}

impl CreateProductVariantForm {
    /// Checks the form as a new variant; a count left out counts as zero.
    pub fn validate(&self, existing_variants: &[ProductVariantResponseDto]) -> (r: Result<(), String>)
        ensures
            form_check_answers(
                r,
                variant_form_error(
                    self.product_id,
                    self.name@,
                    self.name_ar@,
                    self.sku@,
                    opt_view(self.barcode),
                    count_or_zero(self.stock_quantity),
                    count_or_zero(self.reorder_threshold),
                    None,
                    existing_variants@,
                ),
            ),
    {
        let merged = MergedProductVariantFormData {
            product_id: self.product_id,
            brand_id: self.brand_id,
            name: self.name.as_str(),
            name_ar: self.name_ar.as_str(),
            sku: self.sku.as_str(),
            barcode: opt_str(&self.barcode),
            stock_quantity: or_zero(self.stock_quantity),
            reorder_threshold: or_zero(self.reorder_threshold),
        };
        merged.validate(None, existing_variants)
    }
}

/// The web form that updates a product variant.
#[derive(Debug)]
pub struct UpdateProductVariantForm {
    pub product_id: i64,
    pub brand_id: i64,
    pub name: String,
    pub name_ar: String,
    pub sku: String,
    pub barcode: Option<String>,
    pub shelf_location: Option<String>,
    pub stock_quantity: Option<i32>,
    pub reorder_threshold: Option<i32>,
    pub is_active: Option<bool>,
    pub notes: Option<String>,
}

impl UpdateProductVariantForm {
    /// Checks the form as a change of variant `current_variant_id`; a count
    /// left out counts as zero.
    pub fn validate(
        &self,
        current_variant_id: i64,
        existing_variants: &[ProductVariantResponseDto],
    ) -> (r: Result<(), String>)
        ensures
            form_check_answers(
                r,
                variant_form_error(
                    self.product_id,
                    self.name@,
                    self.name_ar@,
                    self.sku@,
                    opt_view(self.barcode),
                    count_or_zero(self.stock_quantity),
                    count_or_zero(self.reorder_threshold),
                    Some(current_variant_id),
                    existing_variants@,
                ),
            ),
    {
        let merged = MergedProductVariantFormData {
            product_id: self.product_id,
            brand_id: self.brand_id,
            name: self.name.as_str(),
            name_ar: self.name_ar.as_str(),
            sku: self.sku.as_str(),
            barcode: opt_str(&self.barcode),
            stock_quantity: or_zero(self.stock_quantity),
            reorder_threshold: or_zero(self.reorder_threshold),
        };
        merged.validate(Some(current_variant_id), existing_variants)
    }
}

} // verus!

verus! {

/// A variant as the variants page lists it, with the names of its product
/// and brand.
#[derive(Debug, Clone)]
pub struct ProductVariantRow {
    pub id: i64,
    pub product_id: i64,
    pub product_name: String,
    pub brand_id: i64,
    pub brand_name: String,
    pub name: String,
    pub name_ar: String,
    pub sku: String,
    pub barcode: Option<String>,
    pub shelf_location: Option<String>,
    pub stock_quantity: i32,
    pub reorder_threshold: i32,
    pub is_active: bool,
    pub notes: Option<String>,
    /// Creation time, in microseconds since the Unix epoch.
    pub created_at: i64,
}

/// The name that `names` gives to `id`, or `fallback` when it has none.
pub open spec fn name_or(names: Map<i64, String>, id: i64, fallback: Seq<char>) -> Seq<char> {
    if names.contains_key(id) {
        names[id]@
    } else {
        fallback
    }
}

/// `row` shows variant `v`: its own fields, and the names of its product
/// and brand as the maps give them ("Unknown Product" / "Unknown Brand"
/// when they do not).
pub open spec fn variant_row_shows(
    row: ProductVariantRow,
    v: ProductVariantResponseDto,
    products: Map<i64, String>,
    brands: Map<i64, String>,
) -> bool {
    &&& row.id == v.id
    &&& row.product_id == v.product_id
    &&& row.product_name@ == name_or(products, v.product_id, "Unknown Product"@)
    &&& row.brand_id == v.brand_id
    &&& row.brand_name@ == name_or(brands, v.brand_id, "Unknown Brand"@)
    &&& row.name == v.name
    &&& row.name_ar == v.name_ar
    &&& row.sku == v.sku
    &&& row.barcode == v.barcode
    &&& row.shelf_location == v.shelf_location
    &&& row.stock_quantity == v.stock_quantity
    &&& row.reorder_threshold == v.reorder_threshold
    &&& row.is_active == v.is_active
    &&& row.notes == v.notes
    &&& row.created_at == v.created_at
}

fn lookup_name(names: &HashMap<i64, String>, id: i64, fallback: &str) -> (r: String)
    ensures
        r@ == name_or(names@, id, fallback@),
{
    match names.get(&id) {
        Some(n) => n.clone(),
        None => owned(fallback),
    }
}

impl ProductVariantRow {
    /// One row per variant, in order, each naming its product and brand
    /// from the two maps.
    pub fn build_rows(
        variants: &[ProductVariantResponseDto],
        products_map: &HashMap<i64, String>,
        brands_map: &HashMap<i64, String>,
    ) -> (r: Vec<ProductVariantRow>)
        ensures
            r@.len() == variants@.len(),
            forall|i: int|
                0 <= i < variants@.len() ==> variant_row_shows(
                    #[trigger] r@[i],
                    variants@[i],
                    products_map@,
                    brands_map@,
                ),
    {
        let n = variants.len();
        let mut rows: Vec<ProductVariantRow> = Vec::new();
        let mut i: usize = 0;
        while i < n
            invariant
                n == variants@.len(),
                i <= n,
                rows@.len() == i,
                forall|j: int|
                    0 <= j < i ==> variant_row_shows(
                        #[trigger] rows@[j],
                        variants@[j],
                        products_map@,
                        brands_map@,
                    ),
            decreases n - i,
        {
            let v = &variants[i];
            let row = ProductVariantRow {
                id: v.id,
                product_id: v.product_id,
                product_name: lookup_name(products_map, v.product_id, "Unknown Product"),
                brand_id: v.brand_id,
                brand_name: lookup_name(brands_map, v.brand_id, "Unknown Brand"),
                name: v.name.clone(),
                name_ar: v.name_ar.clone(),
                sku: v.sku.clone(),
                barcode: copy_opt(&v.barcode),
                shelf_location: copy_opt(&v.shelf_location),
                stock_quantity: v.stock_quantity,
                reorder_threshold: v.reorder_threshold,
                is_active: v.is_active,
                notes: copy_opt(&v.notes),
                created_at: v.created_at,
            };
            rows.push(row);
            i = i + 1;
        }
        rows
    }
}

} // verus!

verus! {

/// The JSON API for new variants and the web forms accept the same fields,
/// a count left out of the payload counting as zero on the forms.
pub proof fn law_variant_api_and_pages_agree(
    name: Seq<char>,
    name_ar: Seq<char>,
    sku: Seq<char>,
    stock_quantity: Option<i32>,
    reorder_threshold: Option<i32>,
)
    ensures
        variant_fields_api_error(name, name_ar, sku, stock_quantity, reorder_threshold) is None
            <==> variant_fields_error(
            name,
            name_ar,
            sku,
            count_or_zero(stock_quantity),
            count_or_zero(reorder_threshold),
        ) is None,
{
}

/// The names and SKU a variant is written with (trimmed) get the same
/// verdict as the ones that were sent.
pub proof fn law_stored_variant_fields_pass(
    name: Seq<char>,
    name_ar: Seq<char>,
    sku: Seq<char>,
    stock_quantity: i32,
    reorder_threshold: i32,
)
    ensures
        variant_fields_error(trim_chars(name), trim_chars(name_ar), trim_chars(sku), stock_quantity, reorder_threshold)
            == variant_fields_error(name, name_ar, sku, stock_quantity, reorder_threshold),
{
    law_text_problem_of_trimmed(name, VARIANT_NAME_MAX as nat);
    law_text_problem_of_trimmed(name_ar, VARIANT_NAME_MAX as nat);
    law_text_problem_of_trimmed(sku, SKU_MAX as nat);
}

} // verus!

verus! {

/// The fields of a variant are valid: both names required and at most 255
/// characters once trimmed, a SKU required and at most 100, and no
/// negative stock or threshold.
pub open spec fn fields_valid(name: Seq<char>, name_ar: Seq<char>, sku: Seq<char>, stock: int, reorder: int) -> bool {
    &&& 0 < trim_chars(name).len() <= 255
    &&& 0 < trim_chars(name_ar).len() <= 255
    &&& 0 < trim_chars(sku).len() <= 100
    &&& stock >= 0
    &&& reorder >= 0
}

/// How the JSON API judges a changed variant: once the fields are valid,
/// a missing product, a missing brand, a taken SKU, a taken barcode (when
/// one is given), and a taken English or Arabic name within the product
/// each refuse it with its message, in that order; it is accepted exactly
/// when the fields are valid and none of these holds.
pub proof fn law_variant_update_refusals(
    name: Seq<char>,
    name_ar: Seq<char>,
    sku: Seq<char>,
    barcode: Option<Seq<char>>,
    stock: i32,
    reorder: i32,
    l: VariantLookups,
)
    ensures
        ({
            let r = variant_update_api_error(name, name_ar, sku, barcode, stock, reorder, l);
            let ok = fields_valid(name, name_ar, sku, stock as int, reorder as int);
            let bc = barcode matches Some(b) && trim_chars(b).len() > 0;
            &&& ok && !l.product_exists ==> r == Some("المنتج التابع له غير موجود"@)
            &&& ok && l.product_exists && !l.brand_exists ==> r == Some("الماركة المحددة غير موجودة"@)
            &&& ok && l.product_exists && l.brand_exists && l.sku_exists ==> r == Some(
                "رمز SKU موجود بالفعل لمتغير آخر"@,
            )
            &&& ok && l.product_exists && l.brand_exists && !l.sku_exists && bc && l.barcode_exists ==> r == Some(
                "الباركود موجود بالفعل لمتغير آخر"@,
            )
            &&& ok && l.product_exists && l.brand_exists && !l.sku_exists && !(bc && l.barcode_exists)
                && l.name_exists ==> r == Some("اسم المتغير بالإنجليزية موجود بالفعل لهذا المنتج"@)
            &&& ok && l.product_exists && l.brand_exists && !l.sku_exists && !(bc && l.barcode_exists)
                && !l.name_exists && l.name_ar_exists ==> r == Some("اسم المتغير بالعربية موجود بالفعل لهذا المنتج"@)
            &&& (r is None <==> (ok && l.product_exists && l.brand_exists && !l.sku_exists && !(bc && l.barcode_exists)
                && !l.name_exists && !l.name_ar_exists))
        }),
{
}

/// How the JSON API judges a new variant: the same checks and order as a
/// change (a count left out is not checked), with English messages; it is
/// accepted exactly when every check passes.
pub proof fn law_variant_create_refusals(
    name: Seq<char>,
    name_ar: Seq<char>,
    sku: Seq<char>,
    barcode: Option<Seq<char>>,
    stock: Option<i32>,
    reorder: Option<i32>,
    l: VariantLookups,
)
    ensures
        ({
            let r = variant_create_api_error(name, name_ar, sku, barcode, stock, reorder, l);
            let ok = fields_valid(name, name_ar, sku, count_or_zero(stock) as int, count_or_zero(reorder) as int);
            let bc = barcode matches Some(b) && trim_chars(b).len() > 0;
            &&& ok && !l.product_exists ==> r == Some("Referenced product_id does not exist"@)
            &&& ok && l.product_exists && !l.brand_exists ==> r == Some("Referenced brand_id does not exist"@)
            &&& ok && l.product_exists && l.brand_exists && l.sku_exists ==> r == Some("SKU already exists"@)
            &&& ok && l.product_exists && l.brand_exists && !l.sku_exists && bc && l.barcode_exists ==> r == Some(
                "Barcode already exists"@,
            )
            &&& ok && l.product_exists && l.brand_exists && !l.sku_exists && !(bc && l.barcode_exists)
                && l.name_exists ==> r == Some("Variant English name already exists for this product"@)
            &&& ok && l.product_exists && l.brand_exists && !l.sku_exists && !(bc && l.barcode_exists)
                && !l.name_exists && l.name_ar_exists ==> r == Some(
                "Variant Arabic name already exists for this product"@,
            )
            &&& (r is None <==> (ok && l.product_exists && l.brand_exists && !l.sku_exists && !(bc && l.barcode_exists)
                && !l.name_exists && !l.name_ar_exists))
        }),
{
}

/// How the web forms judge a variant against the stored ones: accepted
/// exactly when the fields are valid and no other variant has the SKU
/// (trimmed, ignoring ASCII case), the given barcode (trimmed), or, within
/// the same product, either name (trimmed, ignoring ASCII case).
pub proof fn law_variant_form_accepts(
    product_id: i64,
    name: Seq<char>,
    name_ar: Seq<char>,
    sku: Seq<char>,
    barcode: Option<Seq<char>>,
    stock: i32,
    reorder: i32,
    current: Option<i64>,
    vs: Seq<ProductVariantResponseDto>,
)
    ensures
        variant_form_error(product_id, name, name_ar, sku, barcode, stock, reorder, current, vs) is None <==> ({
            &&& fields_valid(name, name_ar, sku, stock as int, reorder as int)
            &&& forall|i: int|
                0 <= i < vs.len() && Some(#[trigger] vs[i].id) != current ==> {
                    &&& !eq_ignore_ascii_case_chars(trim_chars(vs[i].sku@), trim_chars(sku))
                    &&& barcode matches Some(b) ==> (trim_chars(b).len() > 0 ==> !(vs[i].barcode matches Some(x)
                        && trim_chars(x@) == trim_chars(b)))
                    &&& vs[i].product_id == product_id ==> !eq_ignore_ascii_case_chars(
                        trim_chars(vs[i].name@),
                        trim_chars(name),
                    )
                    &&& vs[i].product_id == product_id ==> !eq_ignore_ascii_case_chars(
                        trim_chars(vs[i].name_ar@),
                        trim_chars(name_ar),
                    )
                }
        }),
{
    let ok = fields_valid(name, name_ar, sku, stock as int, reorder as int);
    if variant_form_error(product_id, name, name_ar, sku, barcode, stock, reorder, current, vs) is None {
        assert forall|i: int| 0 <= i < vs.len() && Some(#[trigger] vs[i].id) != current implies {
            &&& !eq_ignore_ascii_case_chars(trim_chars(vs[i].sku@), trim_chars(sku))
            &&& barcode matches Some(b) ==> (trim_chars(b).len() > 0 ==> !(vs[i].barcode matches Some(x)
                && trim_chars(x@) == trim_chars(b)))
            &&& vs[i].product_id == product_id ==> !eq_ignore_ascii_case_chars(trim_chars(vs[i].name@), trim_chars(name))
            &&& vs[i].product_id == product_id ==> !eq_ignore_ascii_case_chars(
                trim_chars(vs[i].name_ar@),
                trim_chars(name_ar),
            )
        } by {
            assert(vs[i] == vs[i]);
        }
    }
}

} // verus!

verus! {

/// How the fields of a variant are judged on the pages and in updates: the
/// English name, the Arabic name (each required, at most 255 characters
/// once trimmed), the SKU (required, at most 100), then no negative stock,
/// then no negative threshold, each failure with its message; the fields
/// pass exactly when every check does. The API for new variants asks the
/// same, in English, and skips a count that is left out.
pub proof fn law_variant_field_refusals(
    name: Seq<char>,
    name_ar: Seq<char>,
    sku: Seq<char>,
    stock: i32,
    reorder: i32,
    stock_given: Option<i32>,
    reorder_given: Option<i32>,
)
    ensures
        ({
            let r = variant_fields_error(name, name_ar, sku, stock, reorder);
            let n = trim_chars(name).len();
            let a = trim_chars(name_ar).len();
            let k = trim_chars(sku).len();
            let names_ok = 0 < n <= 255 && 0 < a <= 255;
            &&& n == 0 ==> r == Some("الاسم بالإنجليزية مطلوب ولا يمكن تركه فارغاً"@)
            &&& n > 255 ==> r == Some("اسم المتغير بالإنجليزية يجب ألا يتجاوز 255 حرفاً"@)
            &&& 0 < n <= 255 && a == 0 ==> r == Some("الاسم بالعربية مطلوب ولا يمكن تركه فارغاً"@)
            &&& 0 < n <= 255 && a > 255 ==> r == Some("اسم المتغير بالعربية يجب ألا يتجاوز 255 حرفاً"@)
            &&& names_ok && k == 0 ==> r == Some("رمز SKU مطلوب ولا يمكن تركه فارغاً"@)
            &&& names_ok && k > 100 ==> r == Some("رمز SKU يجب ألا يتجاوز 100 حرف"@)
            &&& names_ok && 0 < k <= 100 && stock < 0 ==> r == Some("كمية المخزون لا يمكن أن تكون بالسالب"@)
            &&& names_ok && 0 < k <= 100 && stock >= 0 && reorder < 0 ==> r == Some(
                "حد إعادة الطلب لا يمكن أن يكون بالسالب"@,
            )
            &&& (r is None <==> fields_valid(name, name_ar, sku, stock as int, reorder as int))
        }),
        ({
            let r = variant_fields_api_error(name, name_ar, sku, stock_given, reorder_given);
            let n = trim_chars(name).len();
            let a = trim_chars(name_ar).len();
            let k = trim_chars(sku).len();
            let names_ok = 0 < n <= 255 && 0 < a <= 255;
            &&& n == 0 ==> r == Some("English name is required and cannot be empty"@)
            &&& n > 255 ==> r == Some("English name must not exceed 255 characters"@)
            &&& 0 < n <= 255 && a == 0 ==> r == Some("Arabic name is required and cannot be empty"@)
            &&& 0 < n <= 255 && a > 255 ==> r == Some("Arabic name must not exceed 255 characters"@)
            &&& names_ok && k == 0 ==> r == Some("SKU is required and cannot be empty"@)
            &&& names_ok && k > 100 ==> r == Some("SKU must not exceed 100 characters"@)
            &&& names_ok && 0 < k <= 100 && (stock_given matches Some(q) && q < 0) ==> r == Some(
                "Stock quantity cannot be negative"@,
            )
            &&& names_ok && 0 < k <= 100 && !(stock_given matches Some(q) && q < 0) && (reorder_given matches Some(t)
                && t < 0) ==> r == Some("Reorder threshold cannot be negative"@)
        }),
{
}

/// The small rules of a variant form: a count left out counts as zero, a
/// barcode counts only when it is not blank once trimmed.
pub proof fn law_variant_form_defaults(q: Option<i32>, barcode: Option<Seq<char>>)
    ensures
        q matches Some(v) ==> count_or_zero(q) == v,
        q is None ==> count_or_zero(q) == 0,
        has_barcode(barcode) <==> (barcode matches Some(b) && trim_chars(b).len() > 0),
{
}

/// A variants page row shows its variant's own fields, and the names that
/// the maps give its product and brand, or "Unknown Product" and "Unknown
/// Brand" when they have none.
pub proof fn law_variant_row_fields(
    row: ProductVariantRow,
    v: ProductVariantResponseDto,
    products: Map<i64, String>,
    brands: Map<i64, String>,
)
    requires
        variant_row_shows(row, v, products, brands),
    ensures
        row.id == v.id && row.product_id == v.product_id && row.brand_id == v.brand_id,
        row.name == v.name && row.name_ar == v.name_ar && row.sku == v.sku && row.barcode == v.barcode,
        row.shelf_location == v.shelf_location && row.notes == v.notes && row.created_at == v.created_at,
        row.stock_quantity == v.stock_quantity && row.reorder_threshold == v.reorder_threshold && row.is_active
            == v.is_active,
        products.contains_key(v.product_id) ==> row.product_name@ == products[v.product_id]@,
        !products.contains_key(v.product_id) ==> row.product_name@ == "Unknown Product"@,
        brands.contains_key(v.brand_id) ==> row.brand_name@ == brands[v.brand_id]@,
        !brands.contains_key(v.brand_id) ==> row.brand_name@ == "Unknown Brand"@,
{
}

} // verus!
