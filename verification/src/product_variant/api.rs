//! The decisions of the product variant endpoints of the JSON API: what
//! each one writes and what it replies, given what the database answered.
use vstd::prelude::*;

use super::{variant_create_api_error, CreateProductVariantApiDto, UpdateProductVariantApiDto, VariantLookups};
use crate::reply::{reply, reply_with, replies, DbFailure, Lookup, Reply};
use crate::status::HttpStatus;
use crate::text::{copy_opt, decimal_text, opt_view, owned, trim_chars, trim_str, with_id};

verus! {

/// A text trimmed, if there is one.
pub open spec fn trimmed_text(o: Option<String>) -> Option<Seq<char>> {
    match o {
        Some(s) => Some(trim_chars(s@)),
        None => None,
    }
}

fn trim_opt(o: &Option<String>) -> (r: Option<String>)
    ensures
        opt_view(r) == trimmed_text(*o),
{
    match o {
        Some(s) => Some(owned(trim_str(s.as_str()))),
        None => None,
    }
}

/// The message for a variant that does not exist.
pub open spec fn variant_missing_text(id: i64) -> Seq<char> {
    "Product variant with ID "@ + decimal_text(id as int) + " not found"@
}

/// The reply to the listing of all variants, read or not.
pub fn list_reply(fetched: bool) -> (r: Reply)
    ensures
        fetched ==> replies(r, HttpStatus::Okay, "Product variants retrieved successfully"@),
        !fetched ==> replies(r, HttpStatus::InternalServerError, "Internal server error occurred"@),
{
    if fetched {
        reply(HttpStatus::Okay, "Product variants retrieved successfully")
    } else {
        reply(HttpStatus::InternalServerError, "Internal server error occurred")
    }
}

/// The reply to the request for variant `id`.
pub fn get_reply(id: i64, lookup: Lookup) -> (r: Reply)
    ensures
        lookup == Lookup::Found ==> replies(r, HttpStatus::Okay, "Product variant retrieved successfully"@),
        lookup == Lookup::Missing ==> replies(r, HttpStatus::NotFound, variant_missing_text(id)),
        lookup == Lookup::Failed ==> replies(r, HttpStatus::InternalServerError, "Internal server error occurred"@),
{
    match lookup {
        Lookup::Found => reply(HttpStatus::Okay, "Product variant retrieved successfully"),
        Lookup::Missing => reply_with(HttpStatus::NotFound, with_id("Product variant with ID ", id, " not found")),
        Lookup::Failed => reply(HttpStatus::InternalServerError, "Internal server error occurred"),
    }
}

/// The values a new variant row is written with; a count or flag left out
/// takes the table's default.
#[derive(Debug)]
pub struct VariantInsert {
    pub product_id: i64,
    pub brand_id: i64,
    pub sku: String,
    pub barcode: Option<String>,
    pub name: String,
    pub name_ar: String,
    /// Free attributes, as JSON text.
    pub attr: Option<String>,
    pub notes: Option<String>,
    pub is_active: Option<bool>,
    pub reorder_threshold: Option<i32>,
    pub shelf_location: Option<String>,
    pub stock_quantity: Option<i32>,
}

/// What creating a variant writes: the payload checked against what the
/// database answered, then its texts trimmed and the rest as given; or the
/// refusal.
pub fn plan_create(payload: &CreateProductVariantApiDto, lookups: &VariantLookups) -> (r: Result<VariantInsert, Reply>)
    ensures
        match r {
            Ok(v) => variant_create_api_error(
                payload.name@,
                payload.name_ar@,
                payload.sku@,
                opt_view(payload.barcode),
                payload.stock_quantity,
                payload.reorder_threshold,
                *lookups,
            ) is None && v.product_id == payload.product_id && v.brand_id == payload.brand_id && v.sku@
                == trim_chars(payload.sku@) && opt_view(v.barcode) == trimmed_text(payload.barcode) && v.name@
                == trim_chars(payload.name@) && v.name_ar@ == trim_chars(payload.name_ar@) && v.attr == payload.attr
                && opt_view(v.notes) == trimmed_text(payload.notes) && v.is_active == payload.is_active
                && v.reorder_threshold == payload.reorder_threshold && opt_view(v.shelf_location) == trimmed_text(
                payload.shelf_location,
            ) && v.stock_quantity == payload.stock_quantity,
            Err(e) => e.0 == HttpStatus::BadRequest && variant_create_api_error(
                payload.name@,
                payload.name_ar@,
                payload.sku@,
                opt_view(payload.barcode),
                payload.stock_quantity,
                payload.reorder_threshold,
                *lookups,
            ) == Some(e.1@),
        },
{
    match payload.validate(lookups) {
        Err(e) => Err(e),
        Ok(()) => Ok(
            VariantInsert {
                product_id: payload.product_id,
                brand_id: payload.brand_id,
                sku: owned(trim_str(payload.sku.as_str())),
                barcode: trim_opt(&payload.barcode),
                name: owned(trim_str(payload.name.as_str())),
                name_ar: owned(trim_str(payload.name_ar.as_str())),
                attr: copy_opt(&payload.attr),
                notes: trim_opt(&payload.notes),
                is_active: payload.is_active,
                reorder_threshold: payload.reorder_threshold,
                shelf_location: trim_opt(&payload.shelf_location),
                stock_quantity: payload.stock_quantity,
            },
        ),
    }
}

/// The reply once the insert of a new variant of product `product_id`
/// ended with `outcome`.
pub fn create_reply(product_id: i64, outcome: Result<(), DbFailure>) -> (r: Reply)
    ensures
        outcome is Ok ==> replies(r, HttpStatus::Created, "Product variant created successfully"@),
        outcome == Err::<(), DbFailure>(DbFailure::ForeignKeyViolation) ==> replies(
            r,
            HttpStatus::BadRequest,
            "Referenced product (ID "@ + decimal_text(product_id as int) + ") or brand does not exist"@,
        ),
        outcome == Err::<(), DbFailure>(DbFailure::UniqueViolation) ==> replies(
            r,
            HttpStatus::BadRequest,
            "Product variant SKU, barcode, or name already exists"@,
        ),
        outcome == Err::<(), DbFailure>(DbFailure::Other) ==> replies(
            r,
            HttpStatus::InternalServerError,
            "Failed to insert product variant into database"@,
        ),
{
    match outcome {
        Ok(_) => reply(HttpStatus::Created, "Product variant created successfully"),
        Err(DbFailure::ForeignKeyViolation) => reply_with(
            HttpStatus::BadRequest,
            with_id("Referenced product (ID ", product_id, ") or brand does not exist"),
        ),
        Err(DbFailure::UniqueViolation) => reply(
            HttpStatus::BadRequest,
            "Product variant SKU, barcode, or name already exists",
        ),
        Err(DbFailure::Other) => reply(HttpStatus::InternalServerError, "Failed to insert product variant into database"),
    }
}

/// The reply when the variant to update could not be read: it does not
/// exist, or the read failed.
pub fn update_fetch_reply(id: i64, failed: bool) -> (r: Reply)
    ensures
        !failed ==> replies(r, HttpStatus::NotFound, variant_missing_text(id)),
        failed ==> replies(r, HttpStatus::InternalServerError, "Failed to query product variant from database"@),
{
    if failed {
        reply(HttpStatus::InternalServerError, "Failed to query product variant from database")
    } else {
        reply_with(HttpStatus::NotFound, with_id("Product variant with ID ", id, " not found"))
    }
}

/// What a partial variant update writes: each given field, texts trimmed;
/// an absent field keeps its stored value.
#[derive(Debug)]
pub struct VariantChanges {
    pub product_id: Option<i64>,
    pub brand_id: Option<i64>,
    pub sku: Option<String>,
    pub barcode: Option<String>,
    pub name: Option<String>,
    pub name_ar: Option<String>,
    /// Free attributes, as JSON text.
    pub attr: Option<String>,
    pub notes: Option<String>,
    pub is_active: Option<bool>,
    pub reorder_threshold: Option<i32>,
    pub shelf_location: Option<String>,
    pub stock_quantity: Option<i32>,
}

impl UpdateProductVariantApiDto {
    /// What the update writes: each given field, its text trimmed.
    pub fn changes(&self) -> (r: VariantChanges)
        ensures
            r.product_id == self.product_id,
            r.brand_id == self.brand_id,
            opt_view(r.sku) == trimmed_text(self.sku),
            opt_view(r.barcode) == trimmed_text(self.barcode),
            opt_view(r.name) == trimmed_text(self.name),
            opt_view(r.name_ar) == trimmed_text(self.name_ar),
            r.attr == self.attr,
            opt_view(r.notes) == trimmed_text(self.notes),
            r.is_active == self.is_active,
            r.reorder_threshold == self.reorder_threshold,
            opt_view(r.shelf_location) == trimmed_text(self.shelf_location),
            r.stock_quantity == self.stock_quantity,
    {
        VariantChanges {
            product_id: self.product_id,
            brand_id: self.brand_id,
            sku: trim_opt(&self.sku),
            barcode: trim_opt(&self.barcode),
            name: trim_opt(&self.name),
            name_ar: trim_opt(&self.name_ar),
            attr: copy_opt(&self.attr),
            notes: trim_opt(&self.notes),
            is_active: self.is_active,
            reorder_threshold: self.reorder_threshold,
            shelf_location: trim_opt(&self.shelf_location),
            stock_quantity: self.stock_quantity,
        }
    }
}

/// The reply once the update of a variant ended with `outcome`.
pub fn update_reply(outcome: Result<(), DbFailure>) -> (r: Reply)
    ensures
        outcome is Ok ==> replies(r, HttpStatus::Okay, "Product variant updated successfully"@),
        outcome == Err::<(), DbFailure>(DbFailure::ForeignKeyViolation) ==> replies(
            r,
            HttpStatus::BadRequest,
            "Referenced product or brand does not exist"@,
        ),
        outcome == Err::<(), DbFailure>(DbFailure::UniqueViolation) ==> replies(
            r,
            HttpStatus::BadRequest,
            "Product variant SKU, barcode, or name already exists"@,
        ),
        outcome == Err::<(), DbFailure>(DbFailure::Other) ==> replies(
            r,
            HttpStatus::InternalServerError,
            "Failed to update product variant in database"@,
        ),
{
    match outcome {
        Ok(_) => reply(HttpStatus::Okay, "Product variant updated successfully"),
        Err(DbFailure::ForeignKeyViolation) => reply(HttpStatus::BadRequest, "Referenced product or brand does not exist"),
        Err(DbFailure::UniqueViolation) => reply(
            HttpStatus::BadRequest,
            "Product variant SKU, barcode, or name already exists",
        ),
        Err(DbFailure::Other) => reply(HttpStatus::InternalServerError, "Failed to update product variant in database"),
    }
}

/// The reply once the delete of variant `id` ended with `outcome`
/// (`Ok(true)`: a row was deleted; `Ok(false)`: there was none).
pub fn delete_reply(id: i64, outcome: Result<bool, DbFailure>) -> (r: Reply)
    ensures
        outcome == Ok::<bool, DbFailure>(true) ==> replies(
            r,
            HttpStatus::Okay,
            "Product variant deleted successfully"@,
        ),
        outcome == Ok::<bool, DbFailure>(false) ==> replies(r, HttpStatus::NotFound, variant_missing_text(id)),
        outcome == Err::<bool, DbFailure>(DbFailure::ForeignKeyViolation) ==> replies(
            r,
            HttpStatus::Conflict,
            "Cannot delete product variant ID "@ + decimal_text(id as int)
                + " because it is referenced in active inventory or transactions"@,
        ),
        (outcome matches Err(f) && f != DbFailure::ForeignKeyViolation) ==> replies(
            r,
            HttpStatus::InternalServerError,
            "Failed to delete product variant from database"@,
        ),
{
    match outcome {
        Ok(true) => reply(HttpStatus::Okay, "Product variant deleted successfully"),
        Ok(false) => reply_with(HttpStatus::NotFound, with_id("Product variant with ID ", id, " not found")),
        Err(DbFailure::ForeignKeyViolation) => reply_with(
            HttpStatus::Conflict,
            with_id(
                "Cannot delete product variant ID ",
                id,
                " because it is referenced in active inventory or transactions",
            ),
        ),
        Err(_) => reply(HttpStatus::InternalServerError, "Failed to delete product variant from database"),
    }
}

} // verus!

verus! {

/// A text field of a variant request is sent trimmed when given and not at
/// all when left out.
pub proof fn law_variant_text_sent_trimmed(o: Option<String>)
    ensures
        o matches Some(s) ==> trimmed_text(o) == Some(trim_chars(s@)),
        o is None ==> trimmed_text(o) is None,
{
}

} // verus!
