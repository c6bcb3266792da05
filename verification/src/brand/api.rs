//! The decisions of the brand endpoints of the JSON API: what each one
//! writes and what it replies, given what the database answered.
use vstd::prelude::*;

use super::{brand_api_error, BrandResponseDto, CreateBrandDto, MergedBrandData, UpdateBrandDto};
use crate::reply::{reply, reply_with, replies, DbFailure, Lookup, Reply};
use crate::status::HttpStatus;
use crate::text::{copy_opt, decimal_text, opt_view, or_copy, owned, same_opt_text, same_text, text_or, trim_chars, trim_str, with_id};

verus! {

/// The values a brand row is written with.
#[derive(Debug)]
pub struct BrandValues {
    pub name: String,
    pub name_ar: String,
    pub notes: Option<String>,
}

/// `v` holds these names and notes.
pub open spec fn values_are(v: BrandValues, name: Seq<char>, name_ar: Seq<char>, notes: Option<Seq<char>>) -> bool {
    v.name@ == name && v.name_ar@ == name_ar && opt_view(v.notes) == notes
}

/// The reply to the listing of all brands, read or not.
pub fn list_reply(fetched: bool) -> (r: Reply)
    ensures
        fetched ==> replies(r, HttpStatus::Okay, "Brands retrieved successfully"@),
        !fetched ==> replies(r, HttpStatus::InternalServerError, "Internal server error occurred"@),
{
    if fetched {
        reply(HttpStatus::Okay, "Brands retrieved successfully")
    } else {
        reply(HttpStatus::InternalServerError, "Internal server error occurred")
    }
}

/// The reply to the request for brand `id`.
pub fn get_reply(id: i64, lookup: Lookup) -> (r: Reply)
    ensures
        lookup == Lookup::Found ==> replies(r, HttpStatus::Okay, "Brand retrieved successfully"@),
        lookup == Lookup::Missing ==> replies(
            r,
            HttpStatus::NotFound,
            "Brand with ID "@ + decimal_text(id as int) + " not found"@,
        ),
        lookup == Lookup::Failed ==> replies(r, HttpStatus::InternalServerError, "Internal server error occurred"@),
{
    match lookup {
        Lookup::Found => reply(HttpStatus::Okay, "Brand retrieved successfully"),
        Lookup::Missing => reply_with(HttpStatus::NotFound, with_id("Brand with ID ", id, " not found")),
        Lookup::Failed => reply(HttpStatus::InternalServerError, "Internal server error occurred"),
    }
}

/// What creating a brand writes: the payload checked, then its trimmed
/// names and its notes as given; or the refusal.
pub fn plan_create(payload: &CreateBrandDto) -> (r: Result<BrandValues, Reply>)
    ensures
        match r {
            Ok(v) => brand_api_error(payload.name@, payload.name_ar@) is None && values_are(
                v,
                trim_chars(payload.name@),
                trim_chars(payload.name_ar@),
                opt_view(payload.notes),
            ),
            Err(e) => brand_api_error(payload.name@, payload.name_ar@) == Some(e.1@) && e.0
                == HttpStatus::BadRequest,
        },
{
    match payload.validate() {
        Err(e) => Err(e),
        Ok(()) => Ok(
            BrandValues {
                name: owned(trim_str(payload.name.as_str())),
                name_ar: owned(trim_str(payload.name_ar.as_str())),
                notes: copy_opt(&payload.notes),
            },
        ),
    }
}

/// The reply once the insert of a new brand ended with `outcome`.
pub fn create_reply(outcome: Result<(), DbFailure>) -> (r: Reply)
    ensures
        outcome is Ok ==> replies(r, HttpStatus::Created, "Brand created successfully"@),
        outcome == Err::<(), DbFailure>(DbFailure::UniqueViolation) ==> replies(
            r,
            HttpStatus::BadRequest,
            "Brand name already exists"@,
        ),
        (outcome matches Err(f) && f != DbFailure::UniqueViolation) ==> replies(
            r,
            HttpStatus::InternalServerError,
            "Failed to insert brand into database"@,
        ),
{
    match outcome {
        Ok(_) => reply(HttpStatus::Created, "Brand created successfully"),
        Err(DbFailure::UniqueViolation) => reply(HttpStatus::BadRequest, "Brand name already exists"),
        Err(_) => reply(HttpStatus::InternalServerError, "Failed to insert brand into database"),
    }
}

/// The reply when the brand to update could not be read: it does not
/// exist, or the read failed.
pub fn update_fetch_reply(failed: bool) -> (r: Reply)
    ensures
        !failed ==> replies(r, HttpStatus::NotFound, "Brand not found"@),
        failed ==> replies(r, HttpStatus::InternalServerError, "Database error while fetching brand"@),
{
    if failed {
        reply(HttpStatus::InternalServerError, "Database error while fetching brand")
    } else {
        reply(HttpStatus::NotFound, "Brand not found")
    }
}

/// A text after a partial update: the given one, or else the stored one.
pub open spec fn merged_text(given: Option<String>, stored: String) -> Seq<char> {
    match given {
        Some(s) => s@,
        None => stored@,
    }
}

/// Notes after a partial update: the given ones, or else the stored ones.
pub open spec fn merged_notes(given: Option<String>, stored: Option<String>) -> Option<Seq<char>> {
    if given is Some {
        opt_view(given)
    } else {
        opt_view(stored)
    }
}

/// The update leaves the stored brand as it is.
pub open spec fn brand_unchanged(payload: UpdateBrandDto, old: BrandResponseDto) -> bool {
    &&& merged_text(payload.name, old.name) == old.name@
    &&& merged_text(payload.name_ar, old.name_ar) == old.name_ar@
    &&& merged_notes(payload.notes, old.notes) == opt_view(old.notes)
}

/// What a partial update of a brand comes to.
#[derive(Debug)]
pub enum BrandUpdate {
    /// Nothing changes; the stored brand is the answer.
    Unchanged,
    /// The merged values are refused with this reply.
    Refused(Reply),
    /// Write these values.
    Write(BrandValues),
}

/// Merges a partial update into the stored brand: an unchanged brand is
/// not written; otherwise the merged names are checked, and the trimmed
/// names are written with the merged notes.
pub fn plan_update(payload: &UpdateBrandDto, old: &BrandResponseDto) -> (r: BrandUpdate)
    ensures
        (payload.name matches Some(n) && n@ != old.name@) ==> !(r is Unchanged),
        (payload.name_ar matches Some(n) && n@ != old.name_ar@) ==> !(r is Unchanged),
        (payload.notes matches Some(n) && opt_view(old.notes) != Some(n@)) ==> !(r is Unchanged),
        match r {
            BrandUpdate::Unchanged => brand_unchanged(*payload, *old),
            BrandUpdate::Refused(e) => !brand_unchanged(*payload, *old) && e.0 == HttpStatus::BadRequest
                && brand_api_error(merged_text(payload.name, old.name), merged_text(payload.name_ar, old.name_ar))
                == Some(e.1@),
            BrandUpdate::Write(v) => !brand_unchanged(*payload, *old) && brand_api_error(
                merged_text(payload.name, old.name),
                merged_text(payload.name_ar, old.name_ar),
            ) is None && values_are(
                v,
                trim_chars(merged_text(payload.name, old.name)),
                trim_chars(merged_text(payload.name_ar, old.name_ar)),
                merged_notes(payload.notes, old.notes),
            ),
        },
{
    let name = text_or(&payload.name, &old.name);
    let name_ar = text_or(&payload.name_ar, &old.name_ar);
    let notes = or_copy(&payload.notes, &old.notes);
    if same_text(name.as_str(), old.name.as_str()) && same_text(name_ar.as_str(), old.name_ar.as_str())
        && same_opt_text(&notes, &old.notes) {
        return BrandUpdate::Unchanged;
    }
    let merged = MergedBrandData { name: name.as_str(), name_ar: name_ar.as_str() };
    match merged.validate() {
        Err(e) => BrandUpdate::Refused(e),
        Ok(()) => BrandUpdate::Write(
            BrandValues {
                name: owned(trim_str(name.as_str())),
                name_ar: owned(trim_str(name_ar.as_str())),
                notes,
            },
        ),
    }
}

/// A partial brand update changes nothing exactly when each field it gives
/// repeats the stored value: a given name, Arabic name or notes that differ
/// from what is stored always make it a change.
pub proof fn law_brand_update_detects_changes(payload: UpdateBrandDto, old: BrandResponseDto)
    ensures
        (payload.name matches Some(n) && n@ != old.name@) ==> !brand_unchanged(payload, old),
        (payload.name_ar matches Some(n) && n@ != old.name_ar@) ==> !brand_unchanged(payload, old),
        (payload.notes matches Some(n) && opt_view(old.notes) != Some(n@)) ==> !brand_unchanged(payload, old),
        (payload.name is None || payload.name->0@ == old.name@) && (payload.name_ar is None
            || payload.name_ar->0@ == old.name_ar@) && (payload.notes is None || opt_view(old.notes) == Some(
            payload.notes->0@,
        )) ==> brand_unchanged(payload, old),
{
}

/// A partial update keeps every field it leaves out and takes every field
/// it gives: the merged values are the given ones where given, the stored
/// ones elsewhere.
pub proof fn law_brand_update_merges_fields(payload: UpdateBrandDto, old: BrandResponseDto)
    ensures
        payload.name matches Some(n) ==> merged_text(payload.name, old.name) == n@,
        payload.name is None ==> merged_text(payload.name, old.name) == old.name@,
        payload.name_ar matches Some(n) ==> merged_text(payload.name_ar, old.name_ar) == n@,
        payload.name_ar is None ==> merged_text(payload.name_ar, old.name_ar) == old.name_ar@,
        payload.notes matches Some(n) ==> merged_notes(payload.notes, old.notes) == Some(n@),
        payload.notes is None ==> merged_notes(payload.notes, old.notes) == opt_view(old.notes),
{
}

/// The reply to an update that changes nothing.
pub fn unchanged_reply() -> (r: Reply)
    ensures
        replies(r, HttpStatus::Okay, "No changes detected, brand remains unchanged"@),
{
    reply(HttpStatus::Okay, "No changes detected, brand remains unchanged")
}

/// The reply once the update of a brand ended with `outcome`.
pub fn update_reply(outcome: Result<(), DbFailure>) -> (r: Reply)
    ensures
        outcome is Ok ==> replies(r, HttpStatus::Okay, "Brand updated successfully"@),
        outcome == Err::<(), DbFailure>(DbFailure::UniqueViolation) ==> replies(
            r,
            HttpStatus::BadRequest,
            "Brand name already exists"@,
        ),
        (outcome matches Err(f) && f != DbFailure::UniqueViolation) ==> replies(
            r,
            HttpStatus::InternalServerError,
            "Failed to update brand in database"@,
        ),
{
    match outcome {
        Ok(_) => reply(HttpStatus::Okay, "Brand updated successfully"),
        Err(DbFailure::UniqueViolation) => reply(HttpStatus::BadRequest, "Brand name already exists"),
        Err(_) => reply(HttpStatus::InternalServerError, "Failed to update brand in database"),
    }
}

/// The reply once the delete of a brand ended with `outcome`
/// (`Ok(true)`: a row was deleted; `Ok(false)`: there was none).
pub fn delete_reply(outcome: Result<bool, DbFailure>) -> (r: Reply)
    ensures
        outcome == Ok::<bool, DbFailure>(true) ==> replies(r, HttpStatus::Okay, "Brand deleted successfully"@),
        outcome == Ok::<bool, DbFailure>(false) ==> replies(r, HttpStatus::NotFound, "Brand not found"@),
        outcome == Err::<bool, DbFailure>(DbFailure::ForeignKeyViolation) ==> replies(
            r,
            HttpStatus::BadRequest,
            "Cannot delete this brand because it has related records linked to it. Please remove or reassign them first."@,
        ),
        (outcome matches Err(f) && f != DbFailure::ForeignKeyViolation) ==> replies(
            r,
            HttpStatus::InternalServerError,
            "Failed to delete brand from database"@,
        ),
{
    match outcome {
        Ok(true) => reply(HttpStatus::Okay, "Brand deleted successfully"),
        Ok(false) => reply(HttpStatus::NotFound, "Brand not found"),
        Err(DbFailure::ForeignKeyViolation) => reply(
            HttpStatus::BadRequest,
            "Cannot delete this brand because it has related records linked to it. Please remove or reassign them first.",
        ),
        Err(_) => reply(HttpStatus::InternalServerError, "Failed to delete brand from database"),
    }
}

} // verus!

verus! {

/// What a brand row is written with: exactly the given names and notes.
pub proof fn law_values_are_fields(v: BrandValues, name: Seq<char>, name_ar: Seq<char>, notes: Option<Seq<char>>)
    ensures
        values_are(v, name, name_ar, notes) <==> (v.name@ == name && v.name_ar@ == name_ar && (match v.notes {
            Some(t) => notes == Some(t@),
            None => notes is None,
        })),
{
}

} // verus!
