use stationery::category::api::{
    create_reply, delete_reply, get_reply, list_reply, parse_category_id, plan_create, plan_update, unchanged_reply,
    update_fetch_reply, update_reply, CategoryUpdate,
};
use stationery::category::filters::{first_letter, initial_color};
use stationery::category::web::{create_answer, delete_answer, find_category, missing_category_message, update_answer, FlashParams};
use stationery::category::{
    build_root_categories, empty_number_as_none, empty_string_as_none, has_unique_ids, CategoryLookups,
    CategoryResponseDto, CategoryRow, CategoryTreeDto, CreateCategoryApiDto, CreateCategoryForm, MergedCategoryData,
    MergedCategoryFormData, UpdateCategoryApiDto, UpdateCategoryForm,
};
use stationery::reply::{DbFailure, Lookup, PageAnswer};
use stationery::status::HttpStatus;

fn cat(id: i64, name: &str, name_ar: &str, parent_id: Option<i64>) -> CategoryResponseDto {
    CategoryResponseDto {
        id,
        name: name.to_string(),
        name_ar: name_ar.to_string(),
        parent_id,
        notes: None,
        created_at: id * 10,
        updated_at: id * 10,
    }
}

fn sample() -> Vec<CategoryResponseDto> {
    vec![
        cat(1, "Pens", "أقلام", None),
        cat(2, "Ballpoint", "جاف", Some(1)),
        cat(3, "Paper", "ورق", None),
        cat(4, "Gel", "جل", Some(1)),
        cat(5, "A4", "أ٤", Some(3)),
    ]
}

fn no_lookups() -> CategoryLookups {
    CategoryLookups { name_exists: false, name_ar_exists: false, parent_is_root: true, has_children: false }
}

fn err(msg: &str) -> Result<(), String> {
    Err(msg.to_string())
}

#[test]
fn tree_has_roots_with_children_in_order() {
    let tree = CategoryTreeDto::build_tree(sample());
    assert_eq!(tree.len(), 2);
    assert_eq!(tree[0].id, 1);
    assert_eq!(tree[0].children.len(), 2);
    assert_eq!(tree[0].children[0].id, 2);
    assert_eq!(tree[0].children[1].id, 4);
    assert_eq!(tree[1].id, 3);
    assert_eq!(tree[1].children.len(), 1);
    assert_eq!(tree[1].children[0].name, "A4");
    assert!(tree[1].children[0].children.is_empty());
}

#[test]
fn tree_of_nothing_is_empty() {
    assert!(CategoryTreeDto::build_tree(vec![]).is_empty());
}

#[test]
fn orphans_are_left_out_of_the_tree() {
    let tree = CategoryTreeDto::build_tree(vec![cat(1, "A", "ا", None), cat(2, "B", "ب", Some(99))]);
    assert_eq!(tree.len(), 1);
    assert!(tree[0].children.is_empty());
}

#[test]
fn unique_ids_are_detected() {
    assert!(has_unique_ids(&sample()));
    assert!(!has_unique_ids(&[cat(1, "A", "ا", None), cat(1, "B", "ب", None)]));
    assert!(has_unique_ids(&[]));
}

#[test]
fn rows_name_their_parent() {
    let rows = CategoryRow::build_rows(&sample());
    assert_eq!(rows.len(), 5);
    assert_eq!(rows[0].parent_name, None);
    assert_eq!(rows[1].parent_name, Some("Pens".to_string()));
    assert_eq!(rows[4].parent_name, Some("Paper".to_string()));
    let orphan = CategoryRow::build_rows(&[cat(2, "B", "ب", Some(99))]);
    assert_eq!(orphan[0].parent_name, None);
}

#[test]
fn root_choices_skip_children_and_the_edited_category() {
    let all = sample();
    let roots = build_root_categories(&all, None);
    assert_eq!(roots.iter().map(|c| c.id).collect::<Vec<_>>(), vec![1, 3]);
    let roots = build_root_categories(&all, Some(1));
    assert_eq!(roots.iter().map(|c| c.id).collect::<Vec<_>>(), vec![3]);
}

#[test]
fn category_form_checks_names() {
    let all = sample();
    let f = CreateCategoryForm { name: " ".to_string(), name_ar: "x".to_string(), parent_id: None, notes: None };
    assert_eq!(f.validate(&all), err("الاسم بالإنجليزية مطلوب ولا يمكن تركه فارغاً"));
    let f = CreateCategoryForm { name: "n".repeat(51), name_ar: "x".to_string(), parent_id: None, notes: None };
    assert_eq!(f.validate(&all), err("اسم الفئة بالإنجليزية يجب ألا يتجاوز 50 حرفاً"));
    let f = CreateCategoryForm { name: "Ink".to_string(), name_ar: "".to_string(), parent_id: None, notes: None };
    assert_eq!(f.validate(&all), err("الاسم بالعربية مطلوب ولا يمكن تركه فارغاً"));
    let f = CreateCategoryForm { name: "Ink".to_string(), name_ar: "ح".repeat(51), parent_id: None, notes: None };
    assert_eq!(f.validate(&all), err("اسم الفئة بالعربية يجب ألا يتجاوز 50 حرفاً"));
}

#[test]
fn category_form_checks_duplicates() {
    let all = sample();
    let f = CreateCategoryForm { name: "  pens ".to_string(), name_ar: "حبر".to_string(), parent_id: None, notes: None };
    assert_eq!(f.validate(&all), err("اسم الفئة بالإنجليزية موجود بالفعل"));
    let f = CreateCategoryForm { name: "Ink".to_string(), name_ar: " ورق ".to_string(), parent_id: None, notes: None };
    assert_eq!(f.validate(&all), err("اسم الفئة بالعربية موجود بالفعل"));
    // A category may keep its own names.
    let u = UpdateCategoryForm { name: "Pens".to_string(), name_ar: "أقلام".to_string(), parent_id: None, notes: None };
    assert_eq!(u.validate(1, &all), Ok(()));
}

#[test]
fn category_form_checks_the_parent() {
    let all = sample();
    let u = UpdateCategoryForm { name: "Pens".to_string(), name_ar: "أقلام".to_string(), parent_id: Some(1), notes: None };
    assert_eq!(u.validate(1, &all), err("لا يمكن تعيين الفئة كأب لنفسها"));
    let f = CreateCategoryForm { name: "Ink".to_string(), name_ar: "حبر".to_string(), parent_id: Some(42), notes: None };
    assert_eq!(f.validate(&all), err("معرف الفئة الرئيسية (Parent ID) غير موجود"));
    let f = CreateCategoryForm { name: "Ink".to_string(), name_ar: "حبر".to_string(), parent_id: Some(2), notes: None };
    assert_eq!(f.validate(&all), err("لا يمكن اختيار فئة فرعية لتكون أب، يجب أن تكون الفئة المختارة جذعية"));
    let u = UpdateCategoryForm { name: "Pens".to_string(), name_ar: "أقلام".to_string(), parent_id: Some(3), notes: None };
    assert_eq!(u.validate(1, &all), err("لا يمكن تحويل هذه الفئة إلى فئة فرعية لأن لديها فئات فرعية تابعة لها"));
    let f = CreateCategoryForm { name: "Ink".to_string(), name_ar: "حبر".to_string(), parent_id: Some(3), notes: None };
    assert_eq!(f.validate(&all), Ok(()));
    let m = MergedCategoryFormData { name: "Ink", name_ar: "حبر", parent_id: None };
    assert_eq!(m.validate(None, &all), Ok(()));
}

#[test]
fn category_api_create_checks() {
    let dto = CreateCategoryApiDto { name: "".to_string(), name_ar: "x".to_string(), parent_id: None, notes: None };
    assert_eq!(
        dto.validate(&no_lookups()),
        Err((HttpStatus::BadRequest, "English name is required and cannot be empty".to_string()))
    );
    let dto = CreateCategoryApiDto { name: "Ink".to_string(), name_ar: "حبر".to_string(), parent_id: Some(3), notes: None };
    let taken = CategoryLookups { name_exists: true, ..no_lookups() };
    assert_eq!(dto.validate(&taken), Err((HttpStatus::BadRequest, "English category name already exists".to_string())));
    let taken_ar = CategoryLookups { name_ar_exists: true, ..no_lookups() };
    assert_eq!(dto.validate(&taken_ar), Err((HttpStatus::BadRequest, "Arabic category name already exists".to_string())));
    let bad_parent = CategoryLookups { parent_is_root: false, ..no_lookups() };
    assert_eq!(
        dto.validate(&bad_parent),
        Err((HttpStatus::BadRequest, "Parent ID does not exist, or is not a top-level category".to_string()))
    );
    assert_eq!(dto.validate(&no_lookups()), Ok(()));
    let v = plan_create(&CreateCategoryApiDto { name: " Ink ".to_string(), ..dto }, &no_lookups()).unwrap();
    assert_eq!(v.name, "Ink");
    assert_eq!(v.parent_id, Some(3));
}

#[test]
fn category_api_update_checks() {
    let m = MergedCategoryData { name: "Pens", name_ar: "أقلام", parent_id: Some(1) };
    assert_eq!(
        m.validate(1, None, &no_lookups()),
        Err((HttpStatus::BadRequest, "لا يمكن تعيين الفئة كأب لنفسها".to_string()))
    );
    let m = MergedCategoryData { name: "Pens", name_ar: "أقلام", parent_id: Some(3) };
    let with_kids = CategoryLookups { has_children: true, ..no_lookups() };
    assert_eq!(
        m.validate(1, None, &with_kids),
        Err((HttpStatus::BadRequest, "لا يمكن تحويل هذه الفئة إلى فئة فرعية لأن لديها فئات فرعية تابعة لها".to_string()))
    );
    assert_eq!(m.validate(1, Some(3), &with_kids), Ok(()));
    let not_root = CategoryLookups { parent_is_root: false, ..no_lookups() };
    assert_eq!(
        m.validate(1, None, &not_root),
        Err((HttpStatus::BadRequest, "معرف الفئة الرئيسية غير موجود، أو أنها ليست فئة جذعية".to_string()))
    );
}

#[test]
fn category_merge_and_plan() {
    let old = cat(2, "Ballpoint", "جاف", Some(1));
    let none = UpdateCategoryApiDto { name: None, name_ar: None, parent_id: None, notes: None };
    let patch = none.merge_with(&old);
    assert!(patch.unchanged);
    assert!(matches!(plan_update(&patch, 2, old.parent_id, &no_lookups()), CategoryUpdate::Unchanged));
    let renamed = UpdateCategoryApiDto { name: Some("  Roller ".to_string()), name_ar: None, parent_id: None, notes: None };
    let patch = renamed.merge_with(&old);
    assert!(!patch.unchanged);
    assert_eq!(patch.parent_id, Some(1));
    match plan_update(&patch, 2, old.parent_id, &no_lookups()) {
        CategoryUpdate::Write(v) => {
            assert_eq!(v.name, "Roller");
            assert_eq!(v.name_ar, "جاف");
            assert_eq!(v.parent_id, Some(1));
        }
        other => panic!("unexpected {:?}", other),
    }
    let taken = CategoryLookups { name_exists: true, ..no_lookups() };
    match plan_update(&patch, 2, old.parent_id, &taken) {
        CategoryUpdate::Refused(e) => assert_eq!(e.1, "اسم الفئة بالإنجليزية موجود بالفعل"),
        other => panic!("unexpected {:?}", other),
    }
}

#[test]
fn category_api_replies() {
    assert_eq!(list_reply(true).1, "Categories tree retrieved successfully");
    assert_eq!(parse_category_id("12"), Ok(12));
    assert_eq!(parse_category_id("-7"), Ok(-7));
    assert_eq!(
        parse_category_id("abc"),
        Err((HttpStatus::BadRequest, "Invalid ID format: 'abc'. Expected a valid number.".to_string()))
    );
    assert!(parse_category_id(" 12").is_err());
    assert!(parse_category_id("99999999999999999999").is_err());
    assert_eq!(get_reply(12, Lookup::Missing), (HttpStatus::NotFound, "Category with ID 12 not found".to_string()));
    assert_eq!(get_reply(12, Lookup::Failed).0, HttpStatus::InternalServerError);
    assert_eq!(create_reply(Ok(())), (HttpStatus::Created, "Category created successfully".to_string()));
    assert_eq!(create_reply(Err(DbFailure::UniqueViolation)).1, "Category name already exists");
    assert_eq!(update_fetch_reply(false), (HttpStatus::NotFound, "Category not found".to_string()));
    assert_eq!(unchanged_reply().1, "No changes detected, category remains unchanged");
    assert_eq!(update_reply(Err(DbFailure::Other)).1, "Failed to update category in database");
    assert_eq!(delete_reply(Ok(false)), (HttpStatus::NotFound, "Category not found".to_string()));
    assert_eq!(
        delete_reply(Err(DbFailure::ForeignKeyViolation)).1,
        "Cannot delete this category because it has sub-categories (or related records) linked to it. Please remove or reassign them first."
    );
}

#[test]
fn category_pages() {
    let f = |ok: &str| FlashParams { ok: Some(ok.to_string()) }.success_message();
    assert_eq!(f("created"), Some("تم إنشاء الفئة بنجاح".to_string()));
    assert_eq!(f("updated"), Some("تم تحديث الفئة بنجاح".to_string()));
    assert_eq!(f("deleted"), Some("تم حذف الفئة بنجاح".to_string()));
    assert_eq!(f("Created"), None);
    assert_eq!(find_category(&sample(), 4).map(|c| c.name), Some("Gel".to_string()));
    assert!(find_category(&sample(), 40).is_none());
    assert_eq!(missing_category_message(), "الفئة غير موجودة");
    match create_answer(Err(DbFailure::UniqueViolation)) {
        PageAnswer::Error(m) => assert_eq!(m, "اسم الفئة موجود بالفعل"),
        other => panic!("unexpected {:?}", other),
    }
    match update_answer(Ok(())) {
        PageAnswer::Redirect(to) => assert_eq!(to, "/web/categories?ok=updated"),
        other => panic!("unexpected {:?}", other),
    }
    match delete_answer(Err(DbFailure::Other)) {
        PageAnswer::Error(m) => assert_eq!(m, "حدث خطأ أثناء حذف الفئة"),
        other => panic!("unexpected {:?}", other),
    }
    let all = sample();
    let plan = CreateCategoryForm { name: " Ink ".to_string(), name_ar: "حبر".to_string(), parent_id: None, notes: None }
        .plan(&all)
        .unwrap();
    assert_eq!(plan.name, "Ink");
    let refused = UpdateCategoryForm { name: "Paper".to_string(), name_ar: "حبر".to_string(), parent_id: None, notes: None }
        .plan(1, &all);
    assert_eq!(refused.unwrap_err(), "اسم الفئة بالإنجليزية موجود بالفعل");
}

#[test]
fn form_helpers_blank_values() {
    assert_eq!(empty_string_as_none(Some("  ".to_string())), None);
    assert_eq!(empty_string_as_none(Some(" a ".to_string())), Some(" a ".to_string()));
    assert_eq!(empty_string_as_none(None), None);
    assert_eq!(empty_number_as_none(None).unwrap(), None);
    assert_eq!(empty_number_as_none(Some("   ")).unwrap(), None);
    assert_eq!(empty_number_as_none(Some(" 42 ")).unwrap(), Some(42));
    assert_eq!(empty_number_as_none(Some("+5")).unwrap(), Some(5));
    assert!(empty_number_as_none(Some("4x")).is_err());
}

#[test]
fn category_filters() {
    assert_eq!(first_letter("gel"), "G");
    assert_eq!(first_letter(""), "?");
    assert_eq!(first_letter(" gel"), " ");
    assert_eq!(initial_color("B"), "#0E7C66");
}

#[test]
fn stored_category_names_pass_again() {
    let all = sample();
    let v = CreateCategoryForm { name: " Ink ".to_string(), name_ar: " حبر ".to_string(), parent_id: Some(3), notes: None }
        .plan(&all)
        .unwrap();
    let again = CreateCategoryForm { name: v.name, name_ar: v.name_ar, parent_id: v.parent_id, notes: None };
    assert_eq!(again.validate(&all), Ok(()));
}

#[test]
fn blanking_twice_is_blanking_once() {
    for raw in [None, Some("".to_string()), Some("  ".to_string()), Some(" a ".to_string())] {
        let once = empty_string_as_none(raw.clone());
        assert_eq!(empty_string_as_none(once.clone()), once);
    }
}

#[test]
fn api_and_pages_apply_the_same_name_rules() {
    for (n, a) in [("", "x"), ("Ink", ""), ("Ink", "حبر"), (" ", " "), ("n", "ح")] {
        let api = CreateCategoryApiDto { name: n.to_string(), name_ar: a.to_string(), parent_id: None, notes: None }
            .validate(&no_lookups())
            .is_ok();
        let page = CreateCategoryForm { name: n.to_string(), name_ar: a.to_string(), parent_id: None, notes: None }
            .validate(&[])
            .is_ok();
        assert_eq!(api, page);
    }
    let long = "n".repeat(51);
    let api = CreateCategoryApiDto { name: long.clone(), name_ar: "ح".to_string(), parent_id: None, notes: None };
    let page = CreateCategoryForm { name: long, name_ar: "ح".to_string(), parent_id: None, notes: None };
    assert!(api.validate(&no_lookups()).is_err());
    assert!(page.validate(&[]).is_err());
}
