//! The decisions of the category pages: the flash message, what a form
//! writes, which category the edit page shows, and what each change
//! answers.
use vstd::prelude::*;

use super::api::{category_values_are, CategoryValues};
use super::{
    category_form_error, copy_category, find_by_id, find_id, CategoryResponseDto, CreateCategoryForm,
    UpdateCategoryForm,
};
use crate::reply::{flash_message, flash_of, write_answer, write_answered, DbFailure, PageAnswer};
use crate::text::{copy_opt, opt_view, owned, trim_chars, trim_str};

verus! {

/// The flag that a redirect leaves in the address of the categories page.
#[derive(Debug)]
pub struct FlashParams {
    pub ok: Option<String>,
}

impl FlashParams {
    /// The success message for the flag, if it is one of the three.
    pub fn success_message(&self) -> (r: Option<String>)
        ensures
            opt_view(r) == flash_of(
                opt_view(self.ok),
                "تم إنشاء الفئة بنجاح"@,
                "تم تحديث الفئة بنجاح"@,
                "تم حذف الفئة بنجاح"@,
            ),
    {
        let ok = match &self.ok {
            Some(s) => Some(s.as_str()),
            None => None,
        };
        flash_message(ok, "تم إنشاء الفئة بنجاح", "تم تحديث الفئة بنجاح", "تم حذف الفئة بنجاح")
    }
}

/// The first category with id `id`, as the edit page shows it.
pub fn find_category(categories: &[CategoryResponseDto], id: i64) -> (r: Option<CategoryResponseDto>)
    ensures
        match find_id(categories@, id) {
            Some(k) => r == Some(categories@[k]),
            None => r is None,
        },
{
    match find_by_id(categories, id) {
        Some(k) => Some(copy_category(&categories[k])),
        None => None,
    }
}

impl CreateCategoryForm {
    /// What the form writes as a new category, checked against the stored
    /// categories: its trimmed names, its parent and its notes as given; or
    /// the message that refuses it.
    pub fn plan(&self, existing_categories: &[CategoryResponseDto]) -> (r: Result<CategoryValues, String>)
        ensures
            match r {
                Ok(v) => category_form_error(self.name@, self.name_ar@, self.parent_id, None, existing_categories@)
                    is None && category_values_are(
                    v,
                    trim_chars(self.name@),
                    trim_chars(self.name_ar@),
                    self.parent_id,
                    opt_view(self.notes),
                ),
                Err(m) => category_form_error(self.name@, self.name_ar@, self.parent_id, None, existing_categories@)
                    == Some(m@),
            },
    {
        match self.validate(existing_categories) {
            Err(m) => Err(m),
            Ok(()) => Ok(
                CategoryValues {
                    name: owned(trim_str(self.name.as_str())),
                    name_ar: owned(trim_str(self.name_ar.as_str())),
                    parent_id: self.parent_id,
                    notes: copy_opt(&self.notes),
                },
            ),
        }
    }
}

impl UpdateCategoryForm {
    /// What the form writes over category `id`, checked against the stored
    /// categories; or the message that refuses it.
    pub fn plan(&self, id: i64, existing_categories: &[CategoryResponseDto]) -> (r: Result<CategoryValues, String>)
        ensures
            match r {
                Ok(v) => category_form_error(
                    self.name@,
                    self.name_ar@,
                    self.parent_id,
                    Some(id),
                    existing_categories@,
                ) is None && category_values_are(
                    v,
                    trim_chars(self.name@),
                    trim_chars(self.name_ar@),
                    self.parent_id,
                    opt_view(self.notes),
                ),
                Err(m) => category_form_error(
                    self.name@,
                    self.name_ar@,
                    self.parent_id,
                    Some(id),
                    existing_categories@,
                ) == Some(m@),
            },
    {
        match self.validate(id, existing_categories) {
            Err(m) => Err(m),
            Ok(()) => Ok(
                CategoryValues {
                    name: owned(trim_str(self.name.as_str())),
                    name_ar: owned(trim_str(self.name_ar.as_str())),
                    parent_id: self.parent_id,
                    notes: copy_opt(&self.notes),
                },
            ),
        }
    }
}

/// The message when the category to update does not exist.
pub fn missing_category_message() -> (r: String)
    ensures
        r@ == "الفئة غير موجودة"@,
{
    owned("الفئة غير موجودة")
}

/// The answer once the insert from the form ended with `outcome`.
pub fn create_answer(outcome: Result<(), DbFailure>) -> (a: PageAnswer)
    ensures
        write_answered(
            a,
            outcome,
            "/web/categories?ok=created"@,
            Some("اسم الفئة موجود بالفعل"@),
            None,
            "حدث خطأ أثناء إضافة الفئة، حاول مرة أخرى"@,
        ),
{
    write_answer(
        outcome,
        "/web/categories?ok=created",
        Some("اسم الفئة موجود بالفعل"),
        None,
        "حدث خطأ أثناء إضافة الفئة، حاول مرة أخرى",
    )
}

/// The answer once the update from the form ended with `outcome`.
pub fn update_answer(outcome: Result<(), DbFailure>) -> (a: PageAnswer)
    ensures
        write_answered(
            a,
            outcome,
            "/web/categories?ok=updated"@,
            Some("اسم الفئة موجود بالفعل"@),
            None,
            "حدث خطأ أثناء تحديث الفئة، حاول مرة أخرى"@,
        ),
{
    write_answer(
        outcome,
        "/web/categories?ok=updated",
        Some("اسم الفئة موجود بالفعل"),
        None,
        "حدث خطأ أثناء تحديث الفئة، حاول مرة أخرى",
    )
}

/// The answer once a delete ended with `outcome`.
pub fn delete_answer(outcome: Result<(), DbFailure>) -> (a: PageAnswer)
    ensures
        write_answered(
            a,
            outcome,
            "/web/categories?ok=deleted"@,
            None,
            Some("لا يمكن حذف هذه الفئة لأنها مرتبطة بفئات فرعية أو منتجات. قم بإزالتها أو نقلها أولاً."@),
            "حدث خطأ أثناء حذف الفئة"@,
        ),
{
    write_answer(
        outcome,
        "/web/categories?ok=deleted",
        None,
        Some("لا يمكن حذف هذه الفئة لأنها مرتبطة بفئات فرعية أو منتجات. قم بإزالتها أو نقلها أولاً."),
        "حدث خطأ أثناء حذف الفئة",
    )
}

} // verus!
