use stationery::product::api::{
    check_update, create_reply, delete_reply, get_reply, list_reply, plan_create, unchanged_reply, update_fetch_reply,
    update_reply,
};
use stationery::product::filters::{first_letter, initial_color};
use stationery::product::web::{
    create_answer, delete_answer, find_product, missing_product_message, product_name_taken, update_answer, FlashParams,
};
use stationery::product::{
    CreateProductDto, CreateProductForm, MergedProductFormData, ProductResponseDto, UpdateProductDto, UpdateProductForm,
};
use stationery::reply::{DbFailure, Lookup, PageAnswer};
use stationery::status::HttpStatus;

fn product(id: i64, name: &str) -> ProductResponseDto {
    ProductResponseDto {
        id,
        name: name.to_string(),
        name_ar: "منتج".to_string(),
        category_id: 1,
        notes: Some("n".to_string()),
        created_at: 0,
        updated_at: 0,
    }
}

fn bad(msg: &str) -> Result<(), (HttpStatus, String)> {
    Err((HttpStatus::BadRequest, msg.to_string()))
}

#[test]
fn create_product_dto_checks() {
    let ok = CreateProductDto { name: "Pen".to_string(), name_ar: "قلم".to_string(), category_id: 1, notes: None };
    assert_eq!(ok.validate(), Ok(()));
    let d = CreateProductDto { name: " ".to_string(), ..ok };
    assert_eq!(d.validate(), bad("Product name is required and cannot be empty"));
    let d = CreateProductDto { name: "p".repeat(256), name_ar: "قلم".to_string(), category_id: 1, notes: None };
    assert_eq!(d.validate(), bad("Product name must not exceed 255 characters"));
    let d = CreateProductDto { name: "Pen".to_string(), name_ar: "".to_string(), category_id: 1, notes: None };
    assert_eq!(d.validate(), bad("Arabic product name is required and cannot be empty"));
    let d = CreateProductDto { name: "Pen".to_string(), name_ar: "ق".repeat(256), category_id: 1, notes: None };
    assert_eq!(d.validate(), bad("Arabic product name must not exceed 255 characters"));
    let d = CreateProductDto { name: "Pen".to_string(), name_ar: "قلم".to_string(), category_id: 1, notes: Some("x".repeat(301)) };
    assert_eq!(d.validate(), bad("Notes must not exceed 300 characters"));
    let d = CreateProductDto {
        name: "Pen".to_string(),
        name_ar: "قلم".to_string(),
        category_id: 1,
        notes: Some(format!("  {}  ", "x".repeat(300))),
    };
    assert_eq!(d.validate(), Ok(()));
}

#[test]
fn update_product_dto_checks() {
    let empty = UpdateProductDto { name: None, name_ar: None, category_id: None, notes: None };
    assert_eq!(empty.validate(), bad("At least one field must be provided to update"));
    let u = UpdateProductDto { name: Some("  ".to_string()), name_ar: None, category_id: None, notes: None };
    assert_eq!(u.validate(), bad("Product name cannot be empty"));
    let u = UpdateProductDto { name: None, name_ar: Some("".to_string()), category_id: None, notes: None };
    assert_eq!(u.validate(), bad("Arabic product name cannot be empty"));
    let u = UpdateProductDto { name: None, name_ar: None, category_id: None, notes: Some(None) };
    assert_eq!(u.validate(), Ok(()));
    let u = UpdateProductDto { name: None, name_ar: None, category_id: None, notes: Some(Some("y".repeat(301))) };
    assert_eq!(u.validate(), bad("Notes must not exceed 300 characters"));
    assert_eq!(check_update(&empty).map(|e| e.1), Some("At least one field must be provided to update".to_string()));
}

#[test]
fn product_changes_are_detected() {
    let stored = product(3, "Pen");
    let same = UpdateProductDto { name: Some(" Pen ".to_string()), name_ar: None, category_id: Some(1), notes: None };
    assert!(!same.has_changes(&stored));
    let renamed = UpdateProductDto { name: Some("Pencil".to_string()), name_ar: None, category_id: None, notes: None };
    assert!(renamed.has_changes(&stored));
    let cleared = UpdateProductDto { name: None, name_ar: None, category_id: None, notes: Some(None) };
    assert!(cleared.has_changes(&stored));
    let same_notes = UpdateProductDto { name: None, name_ar: None, category_id: None, notes: Some(Some(" n ".to_string())) };
    assert!(!same_notes.has_changes(&stored));
    let moved = UpdateProductDto { name: None, name_ar: None, category_id: Some(2), notes: None };
    assert!(moved.has_changes(&stored));
    let c = renamed.changes();
    assert_eq!(c.name, Some("Pencil".to_string()));
    assert_eq!(c.name_ar, None);
    assert!(!c.set_notes);
    let c = same_notes.changes();
    assert!(c.set_notes);
    assert_eq!(c.notes, Some("n".to_string()));
}

#[test]
fn product_api_replies() {
    assert_eq!(list_reply(true).1, "Products retrieved successfully");
    assert_eq!(get_reply(5, Lookup::Missing), (HttpStatus::NotFound, "Product with ID 5 not found".to_string()));
    let v = plan_create(&CreateProductDto {
        name: " Pen ".to_string(),
        name_ar: " قلم ".to_string(),
        category_id: 4,
        notes: Some(" blue ".to_string()),
    })
    .unwrap();
    assert_eq!((v.name.as_str(), v.name_ar.as_str(), v.category_id), ("Pen", "قلم", 4));
    assert_eq!(v.notes, Some("blue".to_string()));
    assert_eq!(
        create_reply(4, Err(DbFailure::ForeignKeyViolation)),
        (HttpStatus::BadRequest, "Category with ID 4 does not exist".to_string())
    );
    assert_eq!(create_reply(4, Err(DbFailure::UniqueViolation)).1, "Product name already exists");
    assert_eq!(create_reply(4, Ok(())).0, HttpStatus::Created);
    assert_eq!(update_fetch_reply(9, false).1, "Product with ID 9 not found");
    assert_eq!(update_fetch_reply(9, true).1, "Failed to query product from database");
    assert_eq!(unchanged_reply(), (HttpStatus::Okay, "No changes detected".to_string()));
    assert_eq!(update_reply(None, Err(DbFailure::ForeignKeyViolation)).1, "Category with ID 0 does not exist");
    assert_eq!(update_reply(Some(8), Err(DbFailure::ForeignKeyViolation)).1, "Category with ID 8 does not exist");
    assert_eq!(update_reply(Some(8), Ok(())).1, "Product updated successfully");
    assert_eq!(
        delete_reply(6, Err(DbFailure::ForeignKeyViolation)),
        (
            HttpStatus::Conflict,
            "Cannot delete product ID 6 because it is referenced in other records (e.g., sales or inventory)".to_string()
        )
    );
    assert_eq!(delete_reply(6, Ok(true)).1, "Product deleted successfully");
}

#[test]
fn product_forms() {
    let f = CreateProductForm { name: "".to_string(), name_ar: "قلم".to_string(), category_id: 1, notes: None };
    assert_eq!(f.validate(), Err("اسم المنتج بالإنجليزية مطلوب ولا يمكن تركه فارغاً".to_string()));
    let f = CreateProductForm { name: "Pen".to_string(), name_ar: "قلم".to_string(), category_id: 0, notes: None };
    assert_eq!(f.validate(), Err("يجب اختيار قسم صالح للمنتج".to_string()));
    let f = UpdateProductForm { name: "Pen".to_string(), name_ar: "قلم".to_string(), category_id: 2, notes: Some("z".repeat(301)) };
    assert_eq!(f.validate(), Err("الملاحظات طويلة جداً (300 حرف كحد أقصى)".to_string()));
    let m = MergedProductFormData { name: "Pen", name_ar: "ق".repeat(256).as_str(), category_id: 2, notes: None }.validate();
    assert_eq!(m, Err("اسم المنتج بالعربية طويل جداً (255 حرف كحد أقصى)".to_string()));
}

#[test]
fn product_pages_check_duplicate_names() {
    let all = vec![product(1, "Pen"), product(2, "Pencil ")];
    assert!(product_name_taken(&all, None, "pen"));
    assert!(!product_name_taken(&all, Some(1), "pen"));
    // Stored names are compared as stored.
    assert!(!product_name_taken(&all, None, "pencil"));
    let f = CreateProductForm { name: "  PEN ".to_string(), name_ar: "قلم".to_string(), category_id: 1, notes: None };
    assert_eq!(f.plan(&all).unwrap_err(), "اسم المنتج بالإنجليزية موجود بالفعل");
    let u = UpdateProductForm { name: "pen".to_string(), name_ar: "قلم".to_string(), category_id: 1, notes: None };
    assert_eq!(u.plan(2, &all).unwrap_err(), "اسم المنتج بالإنجليزية مستخدم بالفعل لمنتج آخر");
    let v = u.plan(1, &all).unwrap();
    assert_eq!(v.name, "pen");
    assert_eq!(find_product(&all, 2).map(|p| p.name), Some("Pencil ".to_string()));
    assert!(find_product(&all, 3).is_none());
}

#[test]
fn product_page_answers() {
    let f = |ok: &str| FlashParams { ok: Some(ok.to_string()) }.success_message();
    assert_eq!(f("created"), Some("تم إنشاء المنتج بنجاح".to_string()));
    assert_eq!(f("deleted"), Some("تم حذف المنتج بنجاح".to_string()));
    assert_eq!(missing_product_message(), "المنتج غير موجود");
    match create_answer(Err(DbFailure::Other)) {
        PageAnswer::Error(m) => assert_eq!(m, "حدث خطأ أثناء إضافة المنتج، حاول مرة أخرى"),
        other => panic!("unexpected {:?}", other),
    }
    match update_answer(Err(DbFailure::UniqueViolation)) {
        PageAnswer::Error(m) => assert_eq!(m, "اسم المنتج موجود بالفعل"),
        other => panic!("unexpected {:?}", other),
    }
    match delete_answer(Err(DbFailure::ForeignKeyViolation)) {
        PageAnswer::Error(m) => assert_eq!(m, "لا يمكن حذف هذا المنتج لأنه مرتبط ببيانات أخرى (مثل المتغيرات). قم بإزالتها أولاً."),
        other => panic!("unexpected {:?}", other),
    }
}

#[test]
fn product_filters() {
    assert_eq!(first_letter("ink"), "I");
    assert_eq!(first_letter(""), "?");
    assert_eq!(initial_color("A"), "#0891B2");
}

#[test]
fn pages_accept_what_the_api_accepts_with_a_category() {
    let api = CreateProductDto { name: "Pen".to_string(), name_ar: "قلم".to_string(), category_id: 0, notes: None };
    assert_eq!(api.validate(), Ok(()));
    let page = CreateProductForm { name: "Pen".to_string(), name_ar: "قلم".to_string(), category_id: 0, notes: None };
    assert!(page.validate().is_err());
    let page = CreateProductForm { category_id: 3, ..page };
    assert_eq!(page.validate(), Ok(()));
}

#[test]
fn stored_product_values_pass_again() {
    let dto = CreateProductDto {
        name: "  Pen ".to_string(),
        name_ar: " قلم ".to_string(),
        category_id: 2,
        notes: Some(format!(" {} ", "x".repeat(300))),
    };
    let v = plan_create(&dto).unwrap();
    let again = CreateProductDto { name: v.name, name_ar: v.name_ar, category_id: v.category_id, notes: v.notes };
    assert_eq!(again.validate(), Ok(()));
}
