use stationery::brand::api::{
    create_reply, delete_reply, get_reply, list_reply, plan_create, plan_update, unchanged_reply, update_fetch_reply,
    update_reply, BrandUpdate,
};
use stationery::brand::filters::{first_letter, initial_color};
use stationery::brand::web::{create_answer, delete_answer, missing_brand_message, update_answer, FlashParams};
use stationery::brand::{
    BrandResponseDto, CreateBrandDto, CreateBrandForm, MergedBrandData, MergedBrandFormData, UpdateBrandDto,
    UpdateBrandForm,
};
use stationery::reply::{DbFailure, Lookup, PageAnswer};
use stationery::status::HttpStatus;

fn stored() -> BrandResponseDto {
    BrandResponseDto {
        id: 7,
        name: "Faber".to_string(),
        name_ar: "فابر".to_string(),
        notes: Some("pens".to_string()),
        created_at: 0,
        updated_at: 0,
    }
}

fn api_err(status: HttpStatus, msg: &str) -> Result<(), (HttpStatus, String)> {
    Err((status, msg.to_string()))
}

#[test]
fn create_brand_dto_accepts_padded_names() {
    let dto = CreateBrandDto { name: "  Pilot ".to_string(), name_ar: "\tبايلوت\n".to_string(), notes: None };
    assert_eq!(dto.validate(), Ok(()));
}

#[test]
fn create_brand_dto_refusals_in_order() {
    let blank = CreateBrandDto { name: "   ".to_string(), name_ar: "".to_string(), notes: None };
    assert_eq!(blank.validate(), api_err(HttpStatus::BadRequest, "English name is required and cannot be empty"));
    let long = CreateBrandDto { name: "a".repeat(101), name_ar: "".to_string(), notes: None };
    assert_eq!(long.validate(), api_err(HttpStatus::BadRequest, "English name must not exceed 100 characters"));
    let no_ar = CreateBrandDto { name: "Pilot".to_string(), name_ar: " ".to_string(), notes: None };
    assert_eq!(no_ar.validate(), api_err(HttpStatus::BadRequest, "Arabic name is required and cannot be empty"));
    let long_ar = CreateBrandDto { name: "Pilot".to_string(), name_ar: "ب".repeat(101), notes: None };
    assert_eq!(long_ar.validate(), api_err(HttpStatus::BadRequest, "Arabic name must not exceed 100 characters"));
}

#[test]
fn brand_name_limit_counts_characters_not_bytes() {
    let exactly = CreateBrandDto { name: "x".to_string(), name_ar: "ب".repeat(100), notes: None };
    assert_eq!(exactly.validate(), Ok(()));
    let padded = CreateBrandDto { name: format!("  {}  ", "y".repeat(100)), name_ar: "ب".to_string(), notes: None };
    assert_eq!(padded.validate(), Ok(()));
}

#[test]
fn merged_brand_data_uses_api_messages() {
    let m = MergedBrandData { name: "", name_ar: "x" };
    assert_eq!(m.validate(), api_err(HttpStatus::BadRequest, "English name is required and cannot be empty"));
    let ok = MergedBrandData { name: "A", name_ar: "ب" };
    assert_eq!(ok.validate(), Ok(()));
}

#[test]
fn brand_forms_answer_in_arabic() {
    let f = CreateBrandForm { name: " ".to_string(), name_ar: "ب".to_string(), notes: None };
    assert_eq!(f.validate(), Err("الاسم بالإنجليزية مطلوب ولا يمكن تركه فارغاً".to_string()));
    let f = CreateBrandForm { name: "z".repeat(101), name_ar: "ب".to_string(), notes: None };
    assert_eq!(f.validate(), Err("اسم البراند طويل جداً (100 حرف كحد أقصى)".to_string()));
    let f = UpdateBrandForm { name: "Z".to_string(), name_ar: "".to_string(), notes: None };
    assert_eq!(f.validate(), Err("الاسم بالعربية مطلوب".to_string()));
    let f = UpdateBrandForm { name: "Z".to_string(), name_ar: "ب".repeat(101), notes: None };
    assert_eq!(f.validate(), Err("اسم البراند بالعربية طويل جداً (100 حرف كحد أقصى)".to_string()));
    let m = MergedBrandFormData { name: "Z", name_ar: "ب" };
    assert_eq!(m.validate(), Ok(()));
}

#[test]
fn pages_and_api_accept_the_same_names() {
    let cases = [("", "x"), ("a", ""), ("a", "b"), ("  ", "  "), ("ok", "حسن")];
    for (n, a) in cases {
        let api = MergedBrandData { name: n, name_ar: a }.validate().is_ok();
        let web = MergedBrandFormData { name: n, name_ar: a }.validate().is_ok();
        assert_eq!(api, web);
    }
}

#[test]
fn plan_create_trims_names_and_keeps_notes() {
    let dto = CreateBrandDto { name: " Pilot ".to_string(), name_ar: " بايلوت".to_string(), notes: Some(" n ".to_string()) };
    let v = plan_create(&dto).unwrap();
    assert_eq!(v.name, "Pilot");
    assert_eq!(v.name_ar, "بايلوت");
    assert_eq!(v.notes, Some(" n ".to_string()));
    let bad = CreateBrandDto { name: "".to_string(), name_ar: "x".to_string(), notes: None };
    assert_eq!(
        plan_create(&bad).unwrap_err(),
        (HttpStatus::BadRequest, "English name is required and cannot be empty".to_string())
    );
}

#[test]
fn empty_update_is_unchanged() {
    let p = UpdateBrandDto { name: None, name_ar: None, notes: None };
    assert!(matches!(plan_update(&p, &stored()), BrandUpdate::Unchanged));
    let same = UpdateBrandDto { name: Some("Faber".to_string()), name_ar: None, notes: Some("pens".to_string()) };
    assert!(matches!(plan_update(&same, &stored()), BrandUpdate::Unchanged));
}

#[test]
fn update_merges_and_trims() {
    let p = UpdateBrandDto { name: Some("  Faber Castell ".to_string()), name_ar: None, notes: None };
    match plan_update(&p, &stored()) {
        BrandUpdate::Write(v) => {
            assert_eq!(v.name, "Faber Castell");
            assert_eq!(v.name_ar, "فابر");
            assert_eq!(v.notes, Some("pens".to_string()));
        }
        other => panic!("unexpected {:?}", other),
    }
}

#[test]
fn update_with_blank_name_is_refused() {
    let p = UpdateBrandDto { name: Some("   ".to_string()), name_ar: None, notes: None };
    match plan_update(&p, &stored()) {
        BrandUpdate::Refused(e) => {
            assert_eq!(e, (HttpStatus::BadRequest, "English name is required and cannot be empty".to_string()))
        }
        other => panic!("unexpected {:?}", other),
    }
}

#[test]
fn brand_api_replies() {
    assert_eq!(list_reply(true), (HttpStatus::Okay, "Brands retrieved successfully".to_string()));
    assert_eq!(list_reply(false), (HttpStatus::InternalServerError, "Internal server error occurred".to_string()));
    assert_eq!(get_reply(42, Lookup::Missing), (HttpStatus::NotFound, "Brand with ID 42 not found".to_string()));
    assert_eq!(get_reply(-3, Lookup::Missing), (HttpStatus::NotFound, "Brand with ID -3 not found".to_string()));
    assert_eq!(get_reply(1, Lookup::Found), (HttpStatus::Okay, "Brand retrieved successfully".to_string()));
    assert_eq!(create_reply(Ok(())), (HttpStatus::Created, "Brand created successfully".to_string()));
    assert_eq!(
        create_reply(Err(DbFailure::UniqueViolation)),
        (HttpStatus::BadRequest, "Brand name already exists".to_string())
    );
    assert_eq!(
        create_reply(Err(DbFailure::Other)),
        (HttpStatus::InternalServerError, "Failed to insert brand into database".to_string())
    );
    assert_eq!(update_fetch_reply(false), (HttpStatus::NotFound, "Brand not found".to_string()));
    assert_eq!(
        update_fetch_reply(true),
        (HttpStatus::InternalServerError, "Database error while fetching brand".to_string())
    );
    assert_eq!(unchanged_reply(), (HttpStatus::Okay, "No changes detected, brand remains unchanged".to_string()));
    assert_eq!(update_reply(Ok(())), (HttpStatus::Okay, "Brand updated successfully".to_string()));
    assert_eq!(
        update_reply(Err(DbFailure::ForeignKeyViolation)),
        (HttpStatus::InternalServerError, "Failed to update brand in database".to_string())
    );
    assert_eq!(delete_reply(Ok(true)), (HttpStatus::Okay, "Brand deleted successfully".to_string()));
    assert_eq!(delete_reply(Ok(false)), (HttpStatus::NotFound, "Brand not found".to_string()));
    assert_eq!(
        delete_reply(Err(DbFailure::ForeignKeyViolation)).1,
        "Cannot delete this brand because it has related records linked to it. Please remove or reassign them first."
    );
    assert_eq!(delete_reply(Err(DbFailure::UniqueViolation)).0, HttpStatus::InternalServerError);
}

#[test]
fn brand_page_answers() {
    match create_answer(Ok(())) {
        PageAnswer::Redirect(to) => assert_eq!(to, "/web/brands?ok=created"),
        other => panic!("unexpected {:?}", other),
    }
    match create_answer(Err(DbFailure::UniqueViolation)) {
        PageAnswer::Error(m) => assert_eq!(m, "اسم البراند موجود بالفعل"),
        other => panic!("unexpected {:?}", other),
    }
    match update_answer(Err(DbFailure::ForeignKeyViolation)) {
        PageAnswer::Error(m) => assert_eq!(m, "حدث خطأ أثناء تعديل البراند، حاول مرة أخرى"),
        other => panic!("unexpected {:?}", other),
    }
    match delete_answer(Err(DbFailure::ForeignKeyViolation)) {
        PageAnswer::Error(m) => assert_eq!(m, "لا يمكن حذف هذا البراند لأنه مرتبط بسجلات أخرى. قم بإزالتها أو نقلها أولاً."),
        other => panic!("unexpected {:?}", other),
    }
    match delete_answer(Ok(())) {
        PageAnswer::Redirect(to) => assert_eq!(to, "/web/brands?ok=deleted"),
        other => panic!("unexpected {:?}", other),
    }
    assert_eq!(missing_brand_message(), "البراند غير موجود");
}

#[test]
fn brand_flash_messages() {
    let f = |ok: Option<&str>| FlashParams { ok: ok.map(|s| s.to_string()) }.success_message();
    assert_eq!(f(Some("created")), Some("تم إضافة البراند بنجاح".to_string()));
    assert_eq!(f(Some("updated")), Some("تم تعديل البراند بنجاح".to_string()));
    assert_eq!(f(Some("deleted")), Some("تم حذف البراند بنجاح".to_string()));
    assert_eq!(f(Some("other")), None);
    assert_eq!(f(None), None);
}

#[test]
fn brand_avatar_letter_and_colour() {
    assert_eq!(first_letter("  pilot"), "P");
    assert_eq!(first_letter("ß"), "SS");
    assert_eq!(first_letter("   "), "؟");
    assert_eq!(first_letter(""), "؟");
    // "A" is 65; 65 % 6 == 5.
    assert_eq!(initial_color("A"), "#0891B2");
    // "" sums to 0.
    assert_eq!(initial_color(""), "#0E7C66");
    // "AB" is 65 + 66 = 131; 131 % 6 == 5.
    assert_eq!(initial_color("AB"), "#0891B2");
    // "B" is 66; 66 % 6 == 0.
    assert_eq!(initial_color("B"), "#0E7C66");
    assert_eq!(initial_color("  pilot"), initial_color("  pilot"));
}

#[test]
fn stored_brand_names_pass_again() {
    let dto = CreateBrandDto { name: "\u{3000} Pilot \t".to_string(), name_ar: "\u{a0}بايلوت\u{2028}".to_string(), notes: None };
    let v = plan_create(&dto).unwrap();
    assert_eq!(v.name, "Pilot");
    assert_eq!(v.name_ar, "بايلوت");
    let again = CreateBrandDto { name: v.name.clone(), name_ar: v.name_ar.clone(), notes: None };
    assert_eq!(again.validate(), Ok(()));
}

#[test]
fn padding_does_not_change_the_verdict() {
    let bare = MergedBrandData { name: "", name_ar: "x" }.validate();
    let padded = MergedBrandData { name: " \n ", name_ar: "\u{2003}x\u{2003}" }.validate();
    assert_eq!(bare, padded);
    assert_eq!(first_letter("\u{85}pilot\u{85}"), first_letter("pilot"));
}
