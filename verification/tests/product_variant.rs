use std::collections::HashMap;

use stationery::product_variant::api::{
    create_reply, delete_reply, get_reply, list_reply, plan_create, update_fetch_reply, update_reply,
};
use stationery::product_variant::web::{
    create_answer, delete_answer, find_variant, missing_variant_message, update_answer, FlashParams,
};
use stationery::product_variant::{
    CreateProductVariantApiDto, CreateProductVariantForm, MergedProductVariantData, MergedProductVariantFormData,
    ProductVariantResponseDto, ProductVariantRow, UpdateProductVariantApiDto, UpdateProductVariantForm, VariantLookups,
};
use stationery::reply::{DbFailure, Lookup, PageAnswer};
use stationery::status::HttpStatus;

fn variant(id: i64, product_id: i64, name: &str, name_ar: &str, sku: &str, barcode: Option<&str>) -> ProductVariantResponseDto {
    ProductVariantResponseDto {
        id,
        product_id,
        brand_id: 1,
        name: name.to_string(),
        name_ar: name_ar.to_string(),
        sku: sku.to_string(),
        barcode: barcode.map(|b| b.to_string()),
        shelf_location: None,
        stock_quantity: 3,
        reorder_threshold: 1,
        is_active: true,
        attr: "{}".to_string(),
        notes: None,
        created_at: 100,
        updated_at: 100,
    }
}

fn stock() -> Vec<ProductVariantResponseDto> {
    vec![
        variant(1, 10, "Blue", "أزرق", "PEN-BLUE", Some(" 111 ")),
        variant(2, 10, "Red ", "أحمر", "PEN-RED", None),
        variant(3, 20, "Blue", "أزرق", "INK-BLUE", Some("222")),
    ]
}

fn all_clear() -> VariantLookups {
    VariantLookups {
        product_exists: true,
        brand_exists: true,
        sku_exists: false,
        barcode_exists: false,
        name_exists: false,
        name_ar_exists: false,
    }
}

fn form(name: &str, name_ar: &str, sku: &str, barcode: Option<&str>, product_id: i64) -> CreateProductVariantForm {
    CreateProductVariantForm {
        product_id,
        brand_id: 1,
        name: name.to_string(),
        name_ar: name_ar.to_string(),
        sku: sku.to_string(),
        barcode: barcode.map(|b| b.to_string()),
        shelf_location: Some(" A1 ".to_string()),
        stock_quantity: None,
        reorder_threshold: None,
        is_active: None,
        notes: None,
    }
}

fn api_dto() -> CreateProductVariantApiDto {
    CreateProductVariantApiDto {
        product_id: 10,
        brand_id: 1,
        name: " Green ".to_string(),
        name_ar: "أخضر".to_string(),
        sku: " PEN-GREEN ".to_string(),
        barcode: Some(" 333 ".to_string()),
        shelf_location: None,
        stock_quantity: Some(5),
        reorder_threshold: None,
        is_active: None,
        attr: None,
        notes: Some(" note ".to_string()),
    }
}

fn bad(msg: &str) -> Result<(), (HttpStatus, String)> {
    Err((HttpStatus::BadRequest, msg.to_string()))
}

#[test]
fn api_create_checks_fields_then_lookups() {
    let dto = api_dto();
    assert_eq!(dto.validate(&all_clear()), Ok(()));
    let d = CreateProductVariantApiDto { name: " ".to_string(), ..api_dto() };
    assert_eq!(d.validate(&all_clear()), bad("English name is required and cannot be empty"));
    let d = CreateProductVariantApiDto { name_ar: "ز".repeat(256), ..api_dto() };
    assert_eq!(d.validate(&all_clear()), bad("Arabic name must not exceed 255 characters"));
    let d = CreateProductVariantApiDto { sku: "".to_string(), ..api_dto() };
    assert_eq!(d.validate(&all_clear()), bad("SKU is required and cannot be empty"));
    let d = CreateProductVariantApiDto { sku: "S".repeat(101), ..api_dto() };
    assert_eq!(d.validate(&all_clear()), bad("SKU must not exceed 100 characters"));
    let d = CreateProductVariantApiDto { stock_quantity: Some(-1), ..api_dto() };
    assert_eq!(d.validate(&all_clear()), bad("Stock quantity cannot be negative"));
    let d = CreateProductVariantApiDto { reorder_threshold: Some(-1), ..api_dto() };
    assert_eq!(d.validate(&all_clear()), bad("Reorder threshold cannot be negative"));
    let l = VariantLookups { product_exists: false, ..all_clear() };
    assert_eq!(dto.validate(&l), bad("Referenced product_id does not exist"));
    let l = VariantLookups { brand_exists: false, ..all_clear() };
    assert_eq!(dto.validate(&l), bad("Referenced brand_id does not exist"));
    let l = VariantLookups { sku_exists: true, ..all_clear() };
    assert_eq!(dto.validate(&l), bad("SKU already exists"));
    let l = VariantLookups { barcode_exists: true, ..all_clear() };
    assert_eq!(dto.validate(&l), bad("Barcode already exists"));
    let no_barcode = CreateProductVariantApiDto { barcode: Some("  ".to_string()), ..api_dto() };
    assert_eq!(no_barcode.validate(&l), Ok(()));
    let l = VariantLookups { name_exists: true, ..all_clear() };
    assert_eq!(dto.validate(&l), bad("Variant English name already exists for this product"));
    let l = VariantLookups { name_ar_exists: true, ..all_clear() };
    assert_eq!(dto.validate(&l), bad("Variant Arabic name already exists for this product"));
}

#[test]
fn api_merged_checks_answer_in_arabic() {
    let m = MergedProductVariantData {
        product_id: 10,
        brand_id: 1,
        name: "Blue",
        name_ar: "أزرق",
        sku: "X",
        barcode: None,
        stock_quantity: -2,
        reorder_threshold: 0,
    };
    assert_eq!(m.validate(1, &all_clear()), bad("كمية المخزون لا يمكن أن تكون بالسالب"));
    let m = MergedProductVariantData { stock_quantity: 0, ..m };
    let l = VariantLookups { product_exists: false, ..all_clear() };
    assert_eq!(m.validate(1, &l), bad("المنتج التابع له غير موجود"));
    let l = VariantLookups { sku_exists: true, ..all_clear() };
    assert_eq!(m.validate(1, &l), bad("رمز SKU موجود بالفعل لمتغير آخر"));
    assert_eq!(m.validate(1, &all_clear()), Ok(()));
}

#[test]
fn plan_create_trims_the_texts() {
    let v = plan_create(&api_dto(), &all_clear()).unwrap();
    assert_eq!(v.name, "Green");
    assert_eq!(v.sku, "PEN-GREEN");
    assert_eq!(v.barcode, Some("333".to_string()));
    assert_eq!(v.notes, Some("note".to_string()));
    assert_eq!(v.stock_quantity, Some(5));
    assert_eq!(v.is_active, None);
}

#[test]
fn update_changes_trim_given_fields() {
    let u = UpdateProductVariantApiDto {
        product_id: None,
        brand_id: Some(2),
        name: Some(" Teal ".to_string()),
        name_ar: None,
        sku: Some(" T-1 ".to_string()),
        barcode: None,
        shelf_location: Some(" B2 ".to_string()),
        stock_quantity: Some(9),
        reorder_threshold: None,
        is_active: Some(false),
        attr: None,
        notes: None,
    };
    let c = u.changes();
    assert_eq!(c.brand_id, Some(2));
    assert_eq!(c.name, Some("Teal".to_string()));
    assert_eq!(c.sku, Some("T-1".to_string()));
    assert_eq!(c.shelf_location, Some("B2".to_string()));
    assert_eq!(c.name_ar, None);
    assert_eq!(c.is_active, Some(false));
}

#[test]
fn variant_api_replies() {
    assert_eq!(list_reply(false).0, HttpStatus::InternalServerError);
    assert_eq!(get_reply(4, Lookup::Missing).1, "Product variant with ID 4 not found");
    assert_eq!(
        create_reply(10, Err(DbFailure::ForeignKeyViolation)),
        (HttpStatus::BadRequest, "Referenced product (ID 10) or brand does not exist".to_string())
    );
    assert_eq!(create_reply(10, Err(DbFailure::UniqueViolation)).1, "Product variant SKU, barcode, or name already exists");
    assert_eq!(update_fetch_reply(4, true).1, "Failed to query product variant from database");
    assert_eq!(update_reply(Err(DbFailure::ForeignKeyViolation)).1, "Referenced product or brand does not exist");
    assert_eq!(
        delete_reply(4, Err(DbFailure::ForeignKeyViolation)),
        (
            HttpStatus::Conflict,
            "Cannot delete product variant ID 4 because it is referenced in active inventory or transactions".to_string()
        )
    );
}

#[test]
fn form_checks_duplicates_in_memory() {
    let all = stock();
    let ok = form("Green", "أخضر", "PEN-GREEN", None, 10);
    assert_eq!(ok.validate(&all), Ok(()));
    let dup_sku = form("Green", "أخضر", " pen-blue ", None, 10);
    assert_eq!(dup_sku.validate(&all), Err("رمز SKU موجود بالفعل لمتغير آخر".to_string()));
    let dup_bc = form("Green", "أخضر", "PEN-GREEN", Some("111"), 10);
    assert_eq!(dup_bc.validate(&all), Err("الباركود موجود بالفعل لمتغير آخر".to_string()));
    let blank_bc = form("Green", "أخضر", "PEN-GREEN", Some("   "), 10);
    assert_eq!(blank_bc.validate(&all), Ok(()));
    let dup_name = form("red", "أخضر", "PEN-GREEN", None, 10);
    assert_eq!(dup_name.validate(&all), Err("اسم المتغير بالإنجليزية موجود بالفعل لهذا المنتج".to_string()));
    let other_product = form("Red", "أحمر", "INK-RED", None, 20);
    assert_eq!(other_product.validate(&all), Ok(()));
    let dup_ar = form("Green", "أحمر", "PEN-GREEN", None, 10);
    assert_eq!(dup_ar.validate(&all), Err("اسم المتغير بالعربية موجود بالفعل لهذا المنتج".to_string()));
    let negative = CreateProductVariantForm { stock_quantity: Some(-1), ..form("Green", "أخضر", "PEN-GREEN", None, 10) };
    assert_eq!(negative.validate(&all), Err("كمية المخزون لا يمكن أن تكون بالسالب".to_string()));
}

#[test]
fn update_form_ignores_the_variant_itself() {
    let all = stock();
    let u = UpdateProductVariantForm {
        product_id: 10,
        brand_id: 1,
        name: "Blue".to_string(),
        name_ar: "أزرق".to_string(),
        sku: "PEN-BLUE".to_string(),
        barcode: Some("111".to_string()),
        shelf_location: None,
        stock_quantity: Some(1),
        reorder_threshold: Some(-3),
        is_active: None,
        notes: None,
    };
    assert_eq!(u.validate(1, &all), Err("حد إعادة الطلب لا يمكن أن يكون بالسالب".to_string()));
    let u = UpdateProductVariantForm { reorder_threshold: None, ..u };
    assert_eq!(u.validate(1, &all), Ok(()));
    assert_eq!(u.validate(2, &all), Err("رمز SKU موجود بالفعل لمتغير آخر".to_string()));
    let m = MergedProductVariantFormData {
        product_id: 10,
        brand_id: 1,
        name: "",
        name_ar: "x",
        sku: "x",
        barcode: None,
        stock_quantity: 0,
        reorder_threshold: 0,
    };
    assert_eq!(m.validate(None, &all), Err("الاسم بالإنجليزية مطلوب ولا يمكن تركه فارغاً".to_string()));
    let v = u.plan(1, &all).unwrap();
    assert_eq!(v.stock_quantity, 1);
    assert_eq!(v.reorder_threshold, 0);
    assert!(v.is_active);
    assert_eq!(v.attr, None);
}

#[test]
fn create_form_plan_fills_defaults() {
    let v = form(" Green ", "أخضر", " PEN-GREEN ", Some(" 444 "), 10).plan(&stock()).unwrap();
    assert_eq!(v.name, "Green");
    assert_eq!(v.sku, "PEN-GREEN");
    assert_eq!(v.barcode, Some("444".to_string()));
    assert_eq!(v.shelf_location, Some("A1".to_string()));
    assert_eq!((v.stock_quantity, v.reorder_threshold, v.is_active), (0, 0, true));
    assert_eq!(v.attr, Some("{}".to_string()));
}

#[test]
fn rows_carry_product_and_brand_names() {
    let mut products = HashMap::new();
    products.insert(10i64, "قلم".to_string());
    let mut brands = HashMap::new();
    brands.insert(1i64, "فابر".to_string());
    let rows = ProductVariantRow::build_rows(&stock(), &products, &brands);
    assert_eq!(rows.len(), 3);
    assert_eq!(rows[0].product_name, "قلم");
    assert_eq!(rows[0].brand_name, "فابر");
    assert_eq!(rows[2].product_name, "Unknown Product");
    assert_eq!(rows[1].sku, "PEN-RED");
    let rows = ProductVariantRow::build_rows(&stock(), &HashMap::new(), &HashMap::new());
    assert_eq!(rows[0].brand_name, "Unknown Brand");
}

#[test]
fn variant_pages() {
    let f = |ok: &str| FlashParams { ok: Some(ok.to_string()) }.success_message();
    assert_eq!(f("updated"), Some("تم تحديث متغير المنتج بنجاح".to_string()));
    assert_eq!(f("nope"), None);
    assert_eq!(missing_variant_message(), "متغير المنتج غير موجود");
    assert_eq!(find_variant(&stock(), 3).map(|v| v.sku), Some("INK-BLUE".to_string()));
    match create_answer(Err(DbFailure::ForeignKeyViolation)) {
        PageAnswer::Error(m) => assert_eq!(m, "المنتج أو الماركة المحددة غير موجودة"),
        other => panic!("unexpected {:?}", other),
    }
    match update_answer(Err(DbFailure::UniqueViolation)) {
        PageAnswer::Error(m) => assert_eq!(m, "رمز SKU أو الباركود مستخدم بالفعل لمتغير آخر"),
        other => panic!("unexpected {:?}", other),
    }
    match delete_answer(Ok(())) {
        PageAnswer::Redirect(to) => assert_eq!(to, "/web/product-variants?ok=deleted"),
        other => panic!("unexpected {:?}", other),
    }
}

#[test]
fn api_and_pages_agree_on_fields() {
    let api = CreateProductVariantApiDto { stock_quantity: None, reorder_threshold: None, ..api_dto() };
    assert_eq!(api.validate(&all_clear()), Ok(()));
    let page = form(" Green ", "أخضر", " PEN-GREEN ", None, 10);
    assert_eq!(page.validate(&[]), Ok(()));
    let api = CreateProductVariantApiDto { sku: " ".to_string(), ..api_dto() };
    let page = form(" Green ", "أخضر", " ", None, 10);
    assert!(api.validate(&all_clear()).is_err());
    assert!(page.validate(&[]).is_err());
}

#[test]
fn stored_variant_fields_pass_again() {
    let v = form("\u{2009}Green\u{2009}", " أخضر ", "\tPEN-GREEN\n", None, 10).plan(&[]).unwrap();
    let again = form(&v.name, &v.name_ar, &v.sku, None, 10);
    assert_eq!(again.validate(&[]), Ok(()));
}
