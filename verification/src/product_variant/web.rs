//! The decisions of the product variant pages: the flash message, what a
//! form writes, which variant the edit page shows, and what each change
//! answers.
use vstd::prelude::*;

use super::api::trimmed_text;
use super::{
    count_or_zero, variant_form_error, CreateProductVariantForm, ProductVariantResponseDto, UpdateProductVariantForm,
};
use crate::reply::{flash_message, flash_of, write_answer, write_answered, DbFailure, PageAnswer};
use crate::text::{copy_opt, opt_view, owned, trim_chars, trim_str};

verus! {

/// The flag that a redirect leaves in the address of the variants page.
#[derive(Debug)]
pub struct FlashParams {
    pub ok: Option<String>,
}

impl FlashParams {
    /// The success message for the flag, if it is one of the three.
    pub fn success_message(&self) -> (r: Option<String>)
        ensures
            opt_view(r) == flash_of(
                opt_view(self.ok),
                "تم إنشاء متغير المنتج بنجاح"@,
                "تم تحديث متغير المنتج بنجاح"@,
                "تم حذف متغير المنتج بنجاح"@,
            ),
    {
        let ok = match &self.ok {
            Some(s) => Some(s.as_str()),
            None => None,
        };
        flash_message(ok, "تم إنشاء متغير المنتج بنجاح", "تم تحديث متغير المنتج بنجاح", "تم حذف متغير المنتج بنجاح")
    }
}

/// The values a variant form writes.
#[derive(Debug)]
pub struct VariantFormValues {
    pub product_id: i64,
    pub brand_id: i64,
    pub name: String,
    pub name_ar: String,
    pub sku: String,
    pub barcode: Option<String>,
    pub shelf_location: Option<String>,
    pub stock_quantity: i32,
    pub reorder_threshold: i32,
    pub is_active: bool,
    /// Free attributes to store, as JSON text; `None` keeps the stored ones.
    pub attr: Option<String>,
    pub notes: Option<String>,
}

/// An activity flag given in a form, or active when left out.
pub open spec fn active_or_true(o: Option<bool>) -> bool {
    match o {
        Some(b) => b,
        None => true,
    }
}

/// `v` holds what a variant form with these fields writes: ids as given,
/// texts trimmed, counts or zero, active unless unticked, notes as given.
pub open spec fn form_values_are(
    v: VariantFormValues,
    product_id: i64,
    brand_id: i64,
    name: Seq<char>,
    name_ar: Seq<char>,
    sku: Seq<char>,
    barcode: Option<String>,
    shelf_location: Option<String>,
    stock_quantity: Option<i32>,
    reorder_threshold: Option<i32>,
    is_active: Option<bool>,
    notes: Option<String>,
) -> bool {
    &&& v.product_id == product_id
    &&& v.brand_id == brand_id
    &&& v.name@ == trim_chars(name)
    &&& v.name_ar@ == trim_chars(name_ar)
    &&& v.sku@ == trim_chars(sku)
    &&& opt_view(v.barcode) == trimmed_text(barcode)
    &&& opt_view(v.shelf_location) == trimmed_text(shelf_location)
    &&& v.stock_quantity == count_or_zero(stock_quantity)
    &&& v.reorder_threshold == count_or_zero(reorder_threshold)
    &&& v.is_active == active_or_true(is_active)
    &&& v.notes == notes
}

fn trim_opt(o: &Option<String>) -> (r: Option<String>)
    ensures
        opt_view(r) == trimmed_text(*o),
{
    match o {
        Some(s) => Some(owned(trim_str(s.as_str()))),
        None => None,
    }
}

fn count_or_zero_of(o: Option<i32>) -> (r: i32)
    ensures
        r == count_or_zero(o),
{
    match o {
        Some(q) => q,
        None => 0,
    }
}

fn active_of(o: Option<bool>) -> (r: bool)
    ensures
        r == active_or_true(o),
{
    match o {
        Some(b) => b,
        None => true,
    }
}

impl CreateProductVariantForm {
    /// What the form writes as a new variant (with empty attributes),
    /// checked against the stored variants; or the message that refuses it.
    pub fn plan(&self, existing_variants: &[ProductVariantResponseDto]) -> (r: Result<VariantFormValues, String>)
        ensures
            match r {
                Ok(v) => variant_form_error(
                    self.product_id,
                    self.name@,
                    self.name_ar@,
                    self.sku@,
                    opt_view(self.barcode),
                    count_or_zero(self.stock_quantity),
                    count_or_zero(self.reorder_threshold),
                    None,
                    existing_variants@,
                ) is None && form_values_are(
                    v,
                    self.product_id,
                    self.brand_id,
                    self.name@,
                    self.name_ar@,
                    self.sku@,
                    self.barcode,
                    self.shelf_location,
                    self.stock_quantity,
                    self.reorder_threshold,
                    self.is_active,
                    self.notes,
                ) && opt_view(v.attr) == Some("{}"@),
                Err(m) => variant_form_error(
                    self.product_id,
                    self.name@,
                    self.name_ar@,
                    self.sku@,
                    opt_view(self.barcode),
                    count_or_zero(self.stock_quantity),
                    count_or_zero(self.reorder_threshold),
                    None,
                    existing_variants@,
                ) == Some(m@),
            },
    {
        match self.validate(existing_variants) {
            Err(m) => Err(m),
            Ok(()) => Ok(
                VariantFormValues {
                    product_id: self.product_id,
                    brand_id: self.brand_id,
                    name: owned(trim_str(self.name.as_str())),
                    name_ar: owned(trim_str(self.name_ar.as_str())),
                    sku: owned(trim_str(self.sku.as_str())),
                    barcode: trim_opt(&self.barcode),
                    shelf_location: trim_opt(&self.shelf_location),
                    stock_quantity: count_or_zero_of(self.stock_quantity),
                    reorder_threshold: count_or_zero_of(self.reorder_threshold),
                    is_active: active_of(self.is_active),
                    attr: Some(owned("{}")),
                    notes: copy_opt(&self.notes),
                },
            ),
        }
    }
}

impl UpdateProductVariantForm {
    /// What the form writes over variant `id` (its attributes kept),
    /// checked against the other stored variants; or the message that
    /// refuses it.
    pub fn plan(&self, id: i64, existing_variants: &[ProductVariantResponseDto]) -> (r: Result<VariantFormValues, String>)
        ensures
            match r {
                Ok(v) => variant_form_error(
                    self.product_id,
                    self.name@,
                    self.name_ar@,
                    self.sku@,
                    opt_view(self.barcode),
                    count_or_zero(self.stock_quantity),
                    count_or_zero(self.reorder_threshold),
                    Some(id),
                    existing_variants@,
                ) is None && form_values_are(
                    v,
                    self.product_id,
                    self.brand_id,
                    self.name@,
                    self.name_ar@,
                    self.sku@,
                    self.barcode,
                    self.shelf_location,
                    self.stock_quantity,
                    self.reorder_threshold,
                    self.is_active,
                    self.notes,
                ) && v.attr is None,
                Err(m) => variant_form_error(
                    self.product_id,
                    self.name@,
                    self.name_ar@,
                    self.sku@,
                    opt_view(self.barcode),
                    count_or_zero(self.stock_quantity),
                    count_or_zero(self.reorder_threshold),
                    Some(id),
                    existing_variants@,
                ) == Some(m@),
            },
    {
        match self.validate(id, existing_variants) {
            Err(m) => Err(m),
            Ok(()) => Ok(
                VariantFormValues {
                    product_id: self.product_id,
                    brand_id: self.brand_id,
                    name: owned(trim_str(self.name.as_str())),
                    name_ar: owned(trim_str(self.name_ar.as_str())),
                    sku: owned(trim_str(self.sku.as_str())),
                    barcode: trim_opt(&self.barcode),
                    shelf_location: trim_opt(&self.shelf_location),
                    stock_quantity: count_or_zero_of(self.stock_quantity),
                    reorder_threshold: count_or_zero_of(self.reorder_threshold),
                    is_active: active_of(self.is_active),
                    attr: None,
                    notes: copy_opt(&self.notes),
                },
            ),
        }
    }
}

/// The position of the first variant with id `id`.
pub open spec fn first_variant_with(vs: Seq<ProductVariantResponseDto>, id: i64, k: int) -> bool {
    0 <= k < vs.len() && vs[k].id == id && forall|j: int| 0 <= j < k ==> #[trigger] vs[j].id != id
}

fn copy_variant(v: &ProductVariantResponseDto) -> (r: ProductVariantResponseDto)
    ensures
        r == *v,
{
    ProductVariantResponseDto {
        id: v.id,
        product_id: v.product_id,
        brand_id: v.brand_id,
        name: v.name.clone(),
        name_ar: v.name_ar.clone(),
        sku: v.sku.clone(),
        barcode: copy_opt(&v.barcode),
        shelf_location: copy_opt(&v.shelf_location),
        stock_quantity: v.stock_quantity,
        reorder_threshold: v.reorder_threshold,
        is_active: v.is_active,
        attr: v.attr.clone(),
        notes: copy_opt(&v.notes),
        created_at: v.created_at,
        updated_at: v.updated_at,
    }
}

/// The first variant with id `id`, as the edit page shows it.
pub fn find_variant(variants: &[ProductVariantResponseDto], id: i64) -> (r: Option<ProductVariantResponseDto>)
    ensures
        match r {
            Some(v) => exists|k: int| first_variant_with(variants@, id, k) && v == variants@[k],
            None => forall|j: int| 0 <= j < variants@.len() ==> #[trigger] variants@[j].id != id,
        },
{
    let n = variants.len();
    let mut i: usize = 0;
    while i < n
        invariant
            n == variants@.len(),
            i <= n,
            forall|j: int| 0 <= j < i ==> #[trigger] variants@[j].id != id,
        decreases n - i,
    {
        if variants[i].id == id {
            assert(first_variant_with(variants@, id, i as int));
            return Some(copy_variant(&variants[i]));
        }
        i = i + 1;
    }
    None
}

/// The message when the variant to update does not exist.
pub fn missing_variant_message() -> (r: String)
    ensures
        r@ == "متغير المنتج غير موجود"@,
{
    owned("متغير المنتج غير موجود")
}

/// The answer once the insert from the form ended with `outcome`.
pub fn create_answer(outcome: Result<(), DbFailure>) -> (a: PageAnswer)
    ensures
        write_answered(
            a,
            outcome,
            "/web/product-variants?ok=created"@,
            Some("رمز SKU أو الباركود مستخدم بالفعل"@),
            Some("المنتج أو الماركة المحددة غير موجودة"@),
            "حدث خطأ أثناء إضافة متغير المنتج، حاول مرة أخرى"@,
        ),
{
    write_answer(
        outcome,
        "/web/product-variants?ok=created",
        Some("رمز SKU أو الباركود مستخدم بالفعل"),
        Some("المنتج أو الماركة المحددة غير موجودة"),
        "حدث خطأ أثناء إضافة متغير المنتج، حاول مرة أخرى",
    )
}

/// The answer once the update from the form ended with `outcome`.
pub fn update_answer(outcome: Result<(), DbFailure>) -> (a: PageAnswer)
    ensures
        write_answered(
            a,
            outcome,
            "/web/product-variants?ok=updated"@,
            Some("رمز SKU أو الباركود مستخدم بالفعل لمتغير آخر"@),
            Some("المنتج أو الماركة المحددة غير موجودة"@),
            "حدث خطأ أثناء تحديث متغير المنتج، حاول مرة أخرى"@,
        ),
{
    write_answer(
        outcome,
        "/web/product-variants?ok=updated",
        Some("رمز SKU أو الباركود مستخدم بالفعل لمتغير آخر"),
        Some("المنتج أو الماركة المحددة غير موجودة"),
        "حدث خطأ أثناء تحديث متغير المنتج، حاول مرة أخرى",
    )
}

/// The answer once a delete ended with `outcome`.
pub fn delete_answer(outcome: Result<(), DbFailure>) -> (a: PageAnswer)
    ensures
        write_answered(
            a,
            outcome,
            "/web/product-variants?ok=deleted"@,
            None,
            Some("لا يمكن حذف هذا المتغير لأنه مرتبط بسجلات أخرى (مثل حركة المخزون أو الفواتير)"@),
            "حدث خطأ أثناء حذف متغير المنتج، حاول مرة أخرى"@,
        ),
{
    write_answer(
        outcome,
        "/web/product-variants?ok=deleted",
        None,
        Some("لا يمكن حذف هذا المتغير لأنه مرتبط بسجلات أخرى (مثل حركة المخزون أو الفواتير)"),
        "حدث خطأ أثناء حذف متغير المنتج، حاول مرة أخرى",
    )
}

} // verus!

verus! {

/// What a variant form writes: the ids as given, the names and SKU trimmed,
/// a barcode or shelf trimmed when given, a count left out as zero, active
/// unless the flag says otherwise, and the notes as given.
pub proof fn law_variant_form_values_fields(
    v: VariantFormValues,
    product_id: i64,
    brand_id: i64,
    name: Seq<char>,
    name_ar: Seq<char>,
    sku: Seq<char>,
    barcode: Option<String>,
    shelf_location: Option<String>,
    stock_quantity: Option<i32>,
    reorder_threshold: Option<i32>,
    is_active: Option<bool>,
    notes: Option<String>,
)
    requires
        form_values_are(
            v,
            product_id,
            brand_id,
            name,
            name_ar,
            sku,
            barcode,
            shelf_location,
            stock_quantity,
            reorder_threshold,
            is_active,
            notes,
        ),
    ensures
        v.product_id == product_id && v.brand_id == brand_id,
        v.name@ == trim_chars(name) && v.name_ar@ == trim_chars(name_ar) && v.sku@ == trim_chars(sku),
        barcode matches Some(b) ==> (v.barcode matches Some(x) && x@ == trim_chars(b@)),
        barcode is None ==> v.barcode is None,
        shelf_location matches Some(b) ==> (v.shelf_location matches Some(x) && x@ == trim_chars(b@)),
        shelf_location is None ==> v.shelf_location is None,
        stock_quantity matches Some(q) ==> v.stock_quantity == q,
        stock_quantity is None ==> v.stock_quantity == 0,
        reorder_threshold matches Some(q) ==> v.reorder_threshold == q,
        reorder_threshold is None ==> v.reorder_threshold == 0,
        is_active matches Some(b) ==> v.is_active == b,
        is_active is None ==> v.is_active,
        v.notes == notes,
{
}

} // verus!

verus! {

/// The variant an edit page shows is the first one with the asked id.
pub proof fn law_first_variant_meaning(vs: Seq<ProductVariantResponseDto>, id: i64, k: int)
    ensures
        first_variant_with(vs, id, k) <==> (0 <= k < vs.len() && vs[k].id == id && forall|j: int|
            0 <= j < k ==> #[trigger] vs[j].id != id),
{
}

} // verus!
