//! The decisions of the product endpoints of the JSON API: what each one
//! writes and what it replies, given what the database answered.
use vstd::prelude::*;

use super::{product_create_api_error, product_update_api_error, notes_request_view, CreateProductDto, ProductResponseDto, UpdateProductDto};
use crate::reply::{reply, reply_with, replies, DbFailure, Lookup, Reply};
use crate::status::HttpStatus;
use crate::text::{decimal_text, opt_view, owned, same_opt_text, same_text, trim_chars, trim_str, with_id};

verus! {

/// A text trimmed, if there is one.
pub open spec fn trimmed_opt(o: Option<String>) -> Option<Seq<char>> {
    match o {
        Some(s) => Some(trim_chars(s@)),
        None => None,
    }
}

fn trim_opt(o: &Option<String>) -> (r: Option<String>)
    ensures
        opt_view(r) == trimmed_opt(*o),
{
    match o {
        Some(s) => Some(owned(trim_str(s.as_str()))),
        None => None,
    }
}

/// The values a new product row is written with.
#[derive(Debug)]
pub struct ProductValues {
    pub name: String,
    pub name_ar: String,
    pub category_id: i64,
    pub notes: Option<String>,
}

/// The reply to the listing of all products, read or not.
pub fn list_reply(fetched: bool) -> (r: Reply)
    ensures
        fetched ==> replies(r, HttpStatus::Okay, "Products retrieved successfully"@),
        !fetched ==> replies(r, HttpStatus::InternalServerError, "Internal server error occurred"@),
{
    if fetched {
        reply(HttpStatus::Okay, "Products retrieved successfully")
    } else {
        reply(HttpStatus::InternalServerError, "Internal server error occurred")
    }
}

/// The message for a product that does not exist.
pub open spec fn product_missing_text(id: i64) -> Seq<char> {
    "Product with ID "@ + decimal_text(id as int) + " not found"@
}

/// The reply to the request for product `id`.
pub fn get_reply(id: i64, lookup: Lookup) -> (r: Reply)
    ensures
        lookup == Lookup::Found ==> replies(r, HttpStatus::Okay, "Product retrieved successfully"@),
        lookup == Lookup::Missing ==> replies(r, HttpStatus::NotFound, product_missing_text(id)),
        lookup == Lookup::Failed ==> replies(r, HttpStatus::InternalServerError, "Internal server error occurred"@),
{
    match lookup {
        Lookup::Found => reply(HttpStatus::Okay, "Product retrieved successfully"),
        Lookup::Missing => reply_with(HttpStatus::NotFound, with_id("Product with ID ", id, " not found")),
        Lookup::Failed => reply(HttpStatus::InternalServerError, "Internal server error occurred"),
    }
}

/// What creating a product writes: the payload checked, then its trimmed
/// names, its category and its trimmed notes; or the refusal.
pub fn plan_create(payload: &CreateProductDto) -> (r: Result<ProductValues, Reply>)
    ensures
        match r {
            Ok(v) => product_create_api_error(payload.name@, payload.name_ar@, opt_view(payload.notes)) is None
                && v.name@ == trim_chars(payload.name@) && v.name_ar@ == trim_chars(payload.name_ar@)
                && v.category_id == payload.category_id && opt_view(v.notes) == trimmed_opt(payload.notes),
            Err(e) => e.0 == HttpStatus::BadRequest && product_create_api_error(
                payload.name@,
                payload.name_ar@,
                opt_view(payload.notes),
            ) == Some(e.1@),
        },
{
    match payload.validate() {
        Err(e) => Err(e),
        Ok(()) => Ok(
            ProductValues {
                name: owned(trim_str(payload.name.as_str())),
                name_ar: owned(trim_str(payload.name_ar.as_str())),
                category_id: payload.category_id,
                notes: trim_opt(&payload.notes),
            },
        ),
    }
}

/// The message for a category that does not exist.
pub open spec fn category_missing_text(category_id: i64) -> Seq<char> {
    "Category with ID "@ + decimal_text(category_id as int) + " does not exist"@
}

/// The reply once the insert of a new product in category `category_id`
/// ended with `outcome`.
pub fn create_reply(category_id: i64, outcome: Result<(), DbFailure>) -> (r: Reply)
    ensures
        outcome is Ok ==> replies(r, HttpStatus::Created, "Product created successfully"@),
        outcome == Err::<(), DbFailure>(DbFailure::ForeignKeyViolation) ==> replies(
            r,
            HttpStatus::BadRequest,
            category_missing_text(category_id),
        ),
        outcome == Err::<(), DbFailure>(DbFailure::UniqueViolation) ==> replies(
            r,
            HttpStatus::BadRequest,
            "Product name already exists"@,
        ),
        outcome == Err::<(), DbFailure>(DbFailure::Other) ==> replies(
            r,
            HttpStatus::InternalServerError,
            "Failed to insert product into database"@,
        ),
{
    match outcome {
        Ok(_) => reply(HttpStatus::Created, "Product created successfully"),
        Err(DbFailure::ForeignKeyViolation) => reply_with(
            HttpStatus::BadRequest,
            with_id("Category with ID ", category_id, " does not exist"),
        ),
        Err(DbFailure::UniqueViolation) => reply(HttpStatus::BadRequest, "Product name already exists"),
        Err(DbFailure::Other) => reply(HttpStatus::InternalServerError, "Failed to insert product into database"),
    }
}

/// Checks a partial update before anything is read: the reply that refuses
/// it, if any.
pub fn check_update(payload: &UpdateProductDto) -> (r: Option<Reply>)
    ensures
        match r {
            None => product_update_api_error(
                opt_view(payload.name),
                opt_view(payload.name_ar),
                payload.category_id,
                notes_request_view(payload.notes),
            ) is None,
            Some(e) => e.0 == HttpStatus::BadRequest && product_update_api_error(
                opt_view(payload.name),
                opt_view(payload.name_ar),
                payload.category_id,
                notes_request_view(payload.notes),
            ) == Some(e.1@),
        },
{
    match payload.validate() {
        Ok(()) => None,
        Err(e) => Some(e),
    }
}

/// The reply when the product to update could not be read: it does not
/// exist, or the read failed.
pub fn update_fetch_reply(id: i64, failed: bool) -> (r: Reply)
    ensures
        !failed ==> replies(r, HttpStatus::NotFound, product_missing_text(id)),
        failed ==> replies(r, HttpStatus::InternalServerError, "Failed to query product from database"@),
{
    if failed {
        reply(HttpStatus::InternalServerError, "Failed to query product from database")
    } else {
        reply_with(HttpStatus::NotFound, with_id("Product with ID ", id, " not found"))
    }
}

/// The notes that a partial update writes: the trimmed text when notes are
/// given with a text, otherwise none.
pub open spec fn target_notes(notes: Option<Option<String>>) -> Option<Seq<char>> {
    match notes {
        Some(Some(s)) => Some(trim_chars(s@)),
        _ => None,
    }
}

/// The partial update changes something of the stored product: a given
/// name or Arabic name differs once trimmed, a given category differs, or
/// notes are given and differ from the stored ones.
pub open spec fn product_changes(payload: UpdateProductDto, existing: ProductResponseDto) -> bool {
    ||| payload.name matches Some(n) && trim_chars(n@) != existing.name@
    ||| payload.name_ar matches Some(n) && trim_chars(n@) != existing.name_ar@
    ||| payload.category_id matches Some(c) && c != existing.category_id
    ||| payload.notes is Some && target_notes(payload.notes) != opt_view(existing.notes)
}

/// A partial product update changes the stored product exactly when one of
/// the fields it gives differs from the stored one: a name or Arabic name
/// once trimmed, the category, or the notes (trimmed, or cleared).
pub proof fn law_product_update_detects_changes(payload: UpdateProductDto, existing: ProductResponseDto)
    ensures
        (payload.name matches Some(n) && trim_chars(n@) != existing.name@) ==> product_changes(payload, existing),
        (payload.name_ar matches Some(n) && trim_chars(n@) != existing.name_ar@) ==> product_changes(
            payload,
            existing,
        ),
        (payload.category_id matches Some(c) && c != existing.category_id) ==> product_changes(payload, existing),
        (payload.notes matches Some(Some(n)) && opt_view(existing.notes) != Some(trim_chars(n@))) ==> product_changes(
            payload,
            existing,
        ),
        (payload.notes == Some(None::<String>) && existing.notes is Some) ==> product_changes(payload, existing),
        (payload.name is None || trim_chars(payload.name->0@) == existing.name@) && (payload.name_ar is None
            || trim_chars(payload.name_ar->0@) == existing.name_ar@) && (payload.category_id is None
            || payload.category_id->0 == existing.category_id) && (payload.notes is None || (payload.notes
            == Some(None::<String>) && existing.notes is None) || (payload.notes matches Some(Some(n))
            && opt_view(existing.notes) == Some(trim_chars(n@)))) ==> !product_changes(payload, existing),
{
}

/// What a partial product update writes: the given names trimmed, the
/// given category, and the notes when they are given (`set_notes`).
#[derive(Debug)]
pub struct ProductChanges {
    pub name: Option<String>,
    pub name_ar: Option<String>,
    pub category_id: Option<i64>,
    pub set_notes: bool,
    pub notes: Option<String>,
}

fn changed_text(given: &Option<String>, stored: &String) -> (r: bool)
    ensures
        r == (*given matches Some(n) && trim_chars(n@) != stored@),
{
    match given {
        Some(n) => !same_text(trim_str(n.as_str()), stored.as_str()),
        None => false,
    }
}

impl UpdateProductDto {
    /// Whether the update changes something of `existing`.
    pub fn has_changes(&self, existing: &ProductResponseDto) -> (r: bool)
        ensures
            (self.name matches Some(n) && trim_chars(n@) != existing.name@) ==> r,
            (self.name_ar matches Some(n) && trim_chars(n@) != existing.name_ar@) ==> r,
            (self.category_id matches Some(c) && c != existing.category_id) ==> r,
            (self.notes is Some && target_notes(self.notes) != opt_view(existing.notes)) ==> r,
            r == product_changes(*self, *existing),
    {
        let name_changed = changed_text(&self.name, &existing.name);
        let name_ar_changed = changed_text(&self.name_ar, &existing.name_ar);
        let category_changed = match self.category_id {
            Some(c) => c != existing.category_id,
            None => false,
        };
        let notes_changed = match &self.notes {
            Some(inner) => {
                let target = trim_opt(inner);
                !same_opt_text(&target, &existing.notes)
            },
            None => false,
        };
        name_changed || name_ar_changed || category_changed || notes_changed
    }

    /// What the update writes: the given names trimmed, the given category,
    /// and the notes (trimmed, or cleared) when they are given.
    pub fn changes(&self) -> (r: ProductChanges)
        ensures
            opt_view(r.name) == trimmed_opt(self.name),
            opt_view(r.name_ar) == trimmed_opt(self.name_ar),
            r.category_id == self.category_id,
            r.set_notes == self.notes is Some,
            opt_view(r.notes) == target_notes(self.notes),
    {
        let notes = match &self.notes {
            Some(inner) => trim_opt(inner),
            None => None,
        };
        ProductChanges {
            name: trim_opt(&self.name),
            name_ar: trim_opt(&self.name_ar),
            category_id: self.category_id,
            set_notes: self.notes.is_some(),
            notes,
        }
    }
}

/// The reply to an update that changes nothing.
pub fn unchanged_reply() -> (r: Reply)
    ensures
        replies(r, HttpStatus::Okay, "No changes detected"@),
{
    reply(HttpStatus::Okay, "No changes detected")
}

/// The category that an update names in its refusal: the given one, or
/// zero.
pub open spec fn category_or_zero(c: Option<i64>) -> i64 {
    match c {
        Some(v) => v,
        None => 0,
    }
}

/// The reply once the update of a product, with the category the payload
/// gives, ended with `outcome`.
pub fn update_reply(category_id: Option<i64>, outcome: Result<(), DbFailure>) -> (r: Reply)
    ensures
        outcome is Ok ==> replies(r, HttpStatus::Okay, "Product updated successfully"@),
        outcome == Err::<(), DbFailure>(DbFailure::ForeignKeyViolation) ==> replies(
            r,
            HttpStatus::BadRequest,
            category_missing_text(category_or_zero(category_id)),
        ),
        outcome == Err::<(), DbFailure>(DbFailure::UniqueViolation) ==> replies(
            r,
            HttpStatus::BadRequest,
            "Product name already exists"@,
        ),
        outcome == Err::<(), DbFailure>(DbFailure::Other) ==> replies(
            r,
            HttpStatus::InternalServerError,
            "Failed to update product in database"@,
        ),
{
    match outcome {
        Ok(_) => reply(HttpStatus::Okay, "Product updated successfully"),
        Err(DbFailure::ForeignKeyViolation) => {
            let c = match category_id {
                Some(v) => v,
                None => 0,
            };
            reply_with(HttpStatus::BadRequest, with_id("Category with ID ", c, " does not exist"))
        },
        Err(DbFailure::UniqueViolation) => reply(HttpStatus::BadRequest, "Product name already exists"),
        Err(DbFailure::Other) => reply(HttpStatus::InternalServerError, "Failed to update product in database"),
    }
}

/// The reply once the delete of product `id` ended with `outcome`
/// (`Ok(true)`: a row was deleted; `Ok(false)`: there was none).
pub fn delete_reply(id: i64, outcome: Result<bool, DbFailure>) -> (r: Reply)
    ensures
        outcome == Ok::<bool, DbFailure>(true) ==> replies(r, HttpStatus::Okay, "Product deleted successfully"@),
        outcome == Ok::<bool, DbFailure>(false) ==> replies(r, HttpStatus::NotFound, product_missing_text(id)),
        outcome == Err::<bool, DbFailure>(DbFailure::ForeignKeyViolation) ==> replies(
            r,
            HttpStatus::Conflict,
            "Cannot delete product ID "@ + decimal_text(id as int)
                + " because it is referenced in other records (e.g., sales or inventory)"@,
        ),
        (outcome matches Err(f) && f != DbFailure::ForeignKeyViolation) ==> replies(
            r,
            HttpStatus::InternalServerError,
            "Failed to delete product from database"@,
        ),
{
    match outcome {
        Ok(true) => reply(HttpStatus::Okay, "Product deleted successfully"),
        Ok(false) => reply_with(HttpStatus::NotFound, with_id("Product with ID ", id, " not found")),
        Err(DbFailure::ForeignKeyViolation) => reply_with(
            HttpStatus::Conflict,
            with_id(
                "Cannot delete product ID ",
                id,
                " because it is referenced in other records (e.g., sales or inventory)",
            ),
        ),
        Err(_) => reply(HttpStatus::InternalServerError, "Failed to delete product from database"),
    }
}

} // verus!

verus! {

/// What a partial update sends: a given name is sent trimmed and an absent
/// one is not sent; notes given with a text are sent trimmed, notes given
/// as none clear them, and absent notes are not sent.
pub proof fn law_product_update_sends(o: Option<String>, notes: Option<Option<String>>)
    ensures
        o matches Some(s) ==> trimmed_opt(o) == Some(trim_chars(s@)),
        o is None ==> trimmed_opt(o) is None,
        notes matches Some(Some(s)) ==> target_notes(notes) == Some(trim_chars(s@)),
        notes == Some(None::<String>) ==> target_notes(notes) is None,
        notes is None ==> target_notes(notes) is None,
{
}

} // verus!
