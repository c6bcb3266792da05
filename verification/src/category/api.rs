//! The decisions of the category endpoints of the JSON API: what each one
//! writes and what it replies, given what the database answered.
use vstd::prelude::*;

use super::{
    category_create_api_error, category_update_api_error, CategoryLookups, CategoryPatch, CreateCategoryApiDto,
    MergedCategoryData,
};
use crate::reply::{reply, reply_with, replies, DbFailure, Lookup, Reply};
use crate::status::HttpStatus;
use crate::text::{copy_opt, decimal_i64, decimal_text, join3, opt_view, owned, parse_i64, trim_chars, trim_str, with_id};

verus! {

/// The values a category row is written with.
#[derive(Debug)]
pub struct CategoryValues {
    pub name: String,
    pub name_ar: String,
    pub parent_id: Option<i64>,
    pub notes: Option<String>,
}

/// `v` holds these names, parent and notes.
pub open spec fn category_values_are(
    v: CategoryValues,
    name: Seq<char>,
    name_ar: Seq<char>,
    parent_id: Option<i64>,
    notes: Option<Seq<char>>,
) -> bool {
    v.name@ == name && v.name_ar@ == name_ar && v.parent_id == parent_id && opt_view(v.notes) == notes
}

/// The reply to the listing of the category tree, read or not.
pub fn list_reply(fetched: bool) -> (r: Reply)
    ensures
        fetched ==> replies(r, HttpStatus::Okay, "Categories tree retrieved successfully"@),
        !fetched ==> replies(r, HttpStatus::InternalServerError, "Internal server error occurred"@),
{
    if fetched {
        reply(HttpStatus::Okay, "Categories tree retrieved successfully")
    } else {
        reply(HttpStatus::InternalServerError, "Internal server error occurred")
    }
}

/// Reads the id in the address of a category: a decimal `i64`, or a bad
/// request that quotes the text.
pub fn parse_category_id(id_str: &str) -> (r: Result<i64, Reply>)
    ensures
        match r {
            Ok(v) => decimal_i64(id_str@) == Some(v),
            Err(e) => decimal_i64(id_str@) is None && replies(
                e,
                HttpStatus::BadRequest,
                "Invalid ID format: '"@ + id_str@ + "'. Expected a valid number."@,
            ),
        },
{
    match parse_i64(id_str) {
        Ok(v) => Ok(v),
        Err(_) => Err(
            reply_with(HttpStatus::BadRequest, join3("Invalid ID format: '", id_str, "'. Expected a valid number.")),
        ),
    }
}

/// The reply to the request for category `id`.
pub fn get_reply(id: i64, lookup: Lookup) -> (r: Reply)
    ensures
        lookup == Lookup::Found ==> replies(r, HttpStatus::Okay, "Category retrieved successfully"@),
        lookup == Lookup::Missing ==> replies(
            r,
            HttpStatus::NotFound,
            "Category with ID "@ + decimal_text(id as int) + " not found"@,
        ),
        lookup == Lookup::Failed ==> replies(r, HttpStatus::InternalServerError, "Internal server error occurred"@),
{
    match lookup {
        Lookup::Found => reply(HttpStatus::Okay, "Category retrieved successfully"),
        Lookup::Missing => reply_with(HttpStatus::NotFound, with_id("Category with ID ", id, " not found")),
        Lookup::Failed => reply(HttpStatus::InternalServerError, "Internal server error occurred"),
    }
}

/// What creating a category writes: the payload checked against what the
/// database answered, then its trimmed names, its parent and its notes as
/// given; or the refusal.
pub fn plan_create(payload: &CreateCategoryApiDto, lookups: &CategoryLookups) -> (r: Result<CategoryValues, Reply>)
    ensures
        match r {
            Ok(v) => category_create_api_error(payload.name@, payload.name_ar@, payload.parent_id, *lookups) is None
                && category_values_are(
                v,
                trim_chars(payload.name@),
                trim_chars(payload.name_ar@),
                payload.parent_id,
                opt_view(payload.notes),
            ),
            Err(e) => e.0 == HttpStatus::BadRequest && category_create_api_error(
                payload.name@,
                payload.name_ar@,
                payload.parent_id,
                *lookups,
            ) == Some(e.1@),
        },
{
    match payload.validate(lookups) {
        Err(e) => Err(e),
        Ok(()) => Ok(
            CategoryValues {
                name: owned(trim_str(payload.name.as_str())),
                name_ar: owned(trim_str(payload.name_ar.as_str())),
                parent_id: payload.parent_id,
                notes: copy_opt(&payload.notes),
            },
        ),
    }
}

/// The reply once the insert of a new category ended with `outcome`.
pub fn create_reply(outcome: Result<(), DbFailure>) -> (r: Reply)
    ensures
        outcome is Ok ==> replies(r, HttpStatus::Created, "Category created successfully"@),
        outcome == Err::<(), DbFailure>(DbFailure::UniqueViolation) ==> replies(
            r,
            HttpStatus::BadRequest,
            "Category name already exists"@,
        ),
        (outcome matches Err(f) && f != DbFailure::UniqueViolation) ==> replies(
            r,
            HttpStatus::InternalServerError,
            "Failed to insert category into database"@,
        ),
{
    match outcome {
        Ok(_) => reply(HttpStatus::Created, "Category created successfully"),
        Err(DbFailure::UniqueViolation) => reply(HttpStatus::BadRequest, "Category name already exists"),
        Err(_) => reply(HttpStatus::InternalServerError, "Failed to insert category into database"),
    }
}

/// The reply when the category to update could not be read: it does not
/// exist, or the read failed.
pub fn update_fetch_reply(failed: bool) -> (r: Reply)
    ensures
        !failed ==> replies(r, HttpStatus::NotFound, "Category not found"@),
        failed ==> replies(r, HttpStatus::InternalServerError, "Database error while fetching category"@),
{
    if failed {
        reply(HttpStatus::InternalServerError, "Database error while fetching category")
    } else {
        reply(HttpStatus::NotFound, "Category not found")
    }
}

/// What a partial update of a category comes to.
#[derive(Debug)]
pub enum CategoryUpdate {
    /// Nothing changes; the stored category is the answer.
    Unchanged,
    /// The merged values are refused with this reply.
    Refused(Reply),
    /// Write these values.
    Write(CategoryValues),
}

/// Decides a partial update of category `category_id` from the merged
/// values (`UpdateCategoryApiDto::merge_with`), the parent it had, and what
/// the database answered about the merged values: an unchanged category is
/// not written; otherwise the merged values are checked, and the trimmed
/// names are written with the merged parent and notes.
pub fn plan_update(
    patch: &CategoryPatch,
    category_id: i64,
    old_parent_id: Option<i64>,
    lookups: &CategoryLookups,
) -> (r: CategoryUpdate)
    ensures
        match r {
            CategoryUpdate::Unchanged => patch.unchanged,
            CategoryUpdate::Refused(e) => !patch.unchanged && e.0 == HttpStatus::BadRequest
                && category_update_api_error(
                patch.name@,
                patch.name_ar@,
                patch.parent_id,
                category_id,
                old_parent_id,
                *lookups,
            ) == Some(e.1@),
            CategoryUpdate::Write(v) => !patch.unchanged && category_update_api_error(
                patch.name@,
                patch.name_ar@,
                patch.parent_id,
                category_id,
                old_parent_id,
                *lookups,
            ) is None && category_values_are(
                v,
                trim_chars(patch.name@),
                trim_chars(patch.name_ar@),
                patch.parent_id,
                opt_view(patch.notes),
            ),
        },
{
    if patch.unchanged {
        return CategoryUpdate::Unchanged;
    }
    let merged = MergedCategoryData {
        name: patch.name.as_str(),
        name_ar: patch.name_ar.as_str(),
        parent_id: patch.parent_id,
    };
    match merged.validate(category_id, old_parent_id, lookups) {
        Err(e) => CategoryUpdate::Refused(e),
        Ok(()) => CategoryUpdate::Write(
            CategoryValues {
                name: owned(trim_str(patch.name.as_str())),
                name_ar: owned(trim_str(patch.name_ar.as_str())),
                parent_id: patch.parent_id,
                notes: copy_opt(&patch.notes),
            },
        ),
    }
}

/// The reply to an update that changes nothing.
pub fn unchanged_reply() -> (r: Reply)
    ensures
        replies(r, HttpStatus::Okay, "No changes detected, category remains unchanged"@),
{
    reply(HttpStatus::Okay, "No changes detected, category remains unchanged")
}

/// The reply once the update of a category ended with `outcome`.
pub fn update_reply(outcome: Result<(), DbFailure>) -> (r: Reply)
    ensures
        outcome is Ok ==> replies(r, HttpStatus::Okay, "Category updated successfully"@),
        outcome == Err::<(), DbFailure>(DbFailure::UniqueViolation) ==> replies(
            r,
            HttpStatus::BadRequest,
            "Category name already exists"@,
        ),
        (outcome matches Err(f) && f != DbFailure::UniqueViolation) ==> replies(
            r,
            HttpStatus::InternalServerError,
            "Failed to update category in database"@,
        ),
{
    match outcome {
        Ok(_) => reply(HttpStatus::Okay, "Category updated successfully"),
        Err(DbFailure::UniqueViolation) => reply(HttpStatus::BadRequest, "Category name already exists"),
        Err(_) => reply(HttpStatus::InternalServerError, "Failed to update category in database"),
    }
}

/// The reply once the delete of a category ended with `outcome`
/// (`Ok(true)`: a row was deleted; `Ok(false)`: there was none).
pub fn delete_reply(outcome: Result<bool, DbFailure>) -> (r: Reply)
    ensures
        outcome == Ok::<bool, DbFailure>(true) ==> replies(r, HttpStatus::Okay, "Category deleted successfully"@),
        outcome == Ok::<bool, DbFailure>(false) ==> replies(r, HttpStatus::NotFound, "Category not found"@),
        outcome == Err::<bool, DbFailure>(DbFailure::ForeignKeyViolation) ==> replies(
            r,
            HttpStatus::BadRequest,
            "Cannot delete this category because it has sub-categories (or related records) linked to it. Please remove or reassign them first."@,
        ),
        (outcome matches Err(f) && f != DbFailure::ForeignKeyViolation) ==> replies(
            r,
            HttpStatus::InternalServerError,
            "Failed to delete category from database"@,
        ),
{
    match outcome {
        Ok(true) => reply(HttpStatus::Okay, "Category deleted successfully"),
        Ok(false) => reply(HttpStatus::NotFound, "Category not found"),
        Err(DbFailure::ForeignKeyViolation) => reply(
            HttpStatus::BadRequest,
            "Cannot delete this category because it has sub-categories (or related records) linked to it. Please remove or reassign them first.",
        ),
        Err(_) => reply(HttpStatus::InternalServerError, "Failed to delete category from database"),
    }
}

} // verus!

verus! {

/// What a category row is written with: exactly the given names, parent
/// and notes.
pub proof fn law_category_values_fields(
    v: CategoryValues,
    name: Seq<char>,
    name_ar: Seq<char>,
    parent_id: Option<i64>,
    notes: Option<Seq<char>>,
)
    ensures
        category_values_are(v, name, name_ar, parent_id, notes) <==> (v.name@ == name && v.name_ar@ == name_ar
            && v.parent_id == parent_id && (match v.notes {
            Some(t) => notes == Some(t@),
            None => notes is None,
        })),
{
}

} // verus!
