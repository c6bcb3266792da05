//! The decisions of the brand pages: the flash message, what a form
//! writes, what each change answers, and the live search.
use vstd::prelude::*;

use super::api::{values_are, BrandValues};
use super::{brand_form_error, CreateBrandForm, MergedBrandFormData, UpdateBrandForm};
use crate::reply::{flash_message, flash_of, write_answer, write_answered, DbFailure, PageAnswer};
use crate::text::{copy_opt, opt_view, owned, trim_chars, trim_str};

verus! {

/// The flag that a redirect leaves in the address of the brands page.
#[derive(Debug)]
pub struct FlashParams {
    pub ok: Option<String>,
}

impl FlashParams {
    /// The success message for the flag, if it is one of the three.
    pub fn success_message(&self) -> (r: Option<String>)
        ensures
            opt_view(r) == flash_of(
                opt_view(self.ok),
                "تم إضافة البراند بنجاح"@,
                "تم تعديل البراند بنجاح"@,
                "تم حذف البراند بنجاح"@,
            ),
    {
        let ok = match &self.ok {
            Some(s) => Some(s.as_str()),
            None => None,
        };
        flash_message(ok, "تم إضافة البراند بنجاح", "تم تعديل البراند بنجاح", "تم حذف البراند بنجاح")
    }
}

/// What a brand form writes once checked: its trimmed names and its notes
/// as given; or the message that refuses it.
fn form_values(name: &str, name_ar: &str, notes: &Option<String>) -> (r: Result<BrandValues, String>)
    ensures
        match r {
            Ok(v) => brand_form_error(name@, name_ar@) is None && values_are(
                v,
                trim_chars(name@),
                trim_chars(name_ar@),
                opt_view(*notes),
            ),
            Err(m) => brand_form_error(name@, name_ar@) == Some(m@),
        },
{
    let merged = MergedBrandFormData { name, name_ar };
    match merged.validate() {
        Err(m) => Err(m),
        Ok(()) => Ok(
            BrandValues {
                name: owned(trim_str(name)),
                name_ar: owned(trim_str(name_ar)),
                notes: copy_opt(notes),
            },
        ),
    }
}

impl CreateBrandForm {
    /// What the form writes as a new brand, or the message that refuses it.
    pub fn plan(&self) -> (r: Result<BrandValues, String>)
        ensures
            match r {
                Ok(v) => brand_form_error(self.name@, self.name_ar@) is None && values_are(
                    v,
                    trim_chars(self.name@),
                    trim_chars(self.name_ar@),
                    opt_view(self.notes),
                ),
                Err(m) => brand_form_error(self.name@, self.name_ar@) == Some(m@),
            },
    {
        form_values(self.name.as_str(), self.name_ar.as_str(), &self.notes)
    }
}

impl UpdateBrandForm {
    /// What the form writes over the brand, or the message that refuses it.
    pub fn plan(&self) -> (r: Result<BrandValues, String>)
        ensures
            match r {
                Ok(v) => brand_form_error(self.name@, self.name_ar@) is None && values_are(
                    v,
                    trim_chars(self.name@),
                    trim_chars(self.name_ar@),
                    opt_view(self.notes),
                ),
                Err(m) => brand_form_error(self.name@, self.name_ar@) == Some(m@),
            },
    {
        form_values(self.name.as_str(), self.name_ar.as_str(), &self.notes)
    }
}

/// The message when the brand to update does not exist.
pub fn missing_brand_message() -> (r: String)
    ensures
        r@ == "البراند غير موجود"@,
{
    owned("البراند غير موجود")
}

/// The answer once the insert from the form ended with `outcome`.
pub fn create_answer(outcome: Result<(), DbFailure>) -> (a: PageAnswer)
    ensures
        write_answered(
            a,
            outcome,
            "/web/brands?ok=created"@,
            Some("اسم البراند موجود بالفعل"@),
            None,
            "حدث خطأ أثناء إضافة البراند، حاول مرة أخرى"@,
        ),
{
    write_answer(
        outcome,
        "/web/brands?ok=created",
        Some("اسم البراند موجود بالفعل"),
        None,
        "حدث خطأ أثناء إضافة البراند، حاول مرة أخرى",
    )
}

/// The answer once the update from the form ended with `outcome`.
pub fn update_answer(outcome: Result<(), DbFailure>) -> (a: PageAnswer)
    ensures
        write_answered(
            a,
            outcome,
            "/web/brands?ok=updated"@,
            Some("اسم البراند موجود بالفعل"@),
            None,
            "حدث خطأ أثناء تعديل البراند، حاول مرة أخرى"@,
        ),
{
    write_answer(
        outcome,
        "/web/brands?ok=updated",
        Some("اسم البراند موجود بالفعل"),
        None,
        "حدث خطأ أثناء تعديل البراند، حاول مرة أخرى",
    )
}

/// The answer once a delete ended with `outcome`.
pub fn delete_answer(outcome: Result<(), DbFailure>) -> (a: PageAnswer)
    ensures
        write_answered(
            a,
            outcome,
            "/web/brands?ok=deleted"@,
            None,
            Some("لا يمكن حذف هذا البراند لأنه مرتبط بسجلات أخرى. قم بإزالتها أو نقلها أولاً."@),
            "حدث خطأ أثناء حذف البراند"@,
        ),
{
    write_answer(
        outcome,
        "/web/brands?ok=deleted",
        None,
        Some("لا يمكن حذف هذا البراند لأنه مرتبط بسجلات أخرى. قم بإزالتها أو نقلها أولاً."),
        "حدث خطأ أثناء حذف البراند",
    )
}

} // verus!
