use stationery::category::api::parse_category_id;
use stationery::reply::{classify_failure, is_foreign_key_violation, is_unique_violation, search_plan, DbFailure};
use stationery::status::HttpStatus;
use stationery::text::{eq_ignore_ascii_case, join3, with_id};

#[test]
fn failures_are_told_apart_by_code() {
    assert!(is_unique_violation(Some("23505")));
    assert!(!is_unique_violation(Some("23503")));
    assert!(!is_unique_violation(None));
    assert!(is_foreign_key_violation(Some("23503")));
    assert_eq!(classify_failure(Some("23505")), DbFailure::UniqueViolation);
    assert_eq!(classify_failure(Some("23503")), DbFailure::ForeignKeyViolation);
    assert_eq!(classify_failure(Some("42P01")), DbFailure::Other);
    assert_eq!(classify_failure(None), DbFailure::Other);
}

#[test]
fn search_plans() {
    assert!(search_plan("   ").is_none());
    let p = search_plan("  قلم ").unwrap();
    assert_eq!(p.query, "قلم");
    assert_eq!(p.pattern, "%قلم%");
}

#[test]
fn texts_join_and_ids() {
    assert_eq!(join3("a", "", "c"), "ac");
    assert_eq!(with_id("#", 0, "!"), "#0!");
    assert_eq!(with_id("", i64::MIN, ""), "-9223372036854775808");
    assert!(eq_ignore_ascii_case("PeN", "pEn"));
    assert!(!eq_ignore_ascii_case("É", "é"));
}

#[test]
fn status_codes() {
    assert_eq!(HttpStatus::Okay.as_u16(), 200);
    assert_eq!(HttpStatus::Created.as_u16(), 201);
    assert_eq!(HttpStatus::BadRequest.as_u16(), 400);
    assert_eq!(HttpStatus::NotFound.as_u16(), 404);
    assert_eq!(HttpStatus::Conflict.as_u16(), 409);
    assert_eq!(HttpStatus::InternalServerError.as_u16(), 500);
}

#[test]
fn ids_in_messages_read_back() {
    for v in [0i64, 7, -7, 10, 1234567890, i64::MAX, i64::MIN] {
        assert_eq!(parse_category_id(&with_id("", v, "")), Ok(v));
    }
}

#[test]
fn avatar_colours_come_from_the_palette() {
    let palette = ["#0E7C66", "#2563EB", "#D97706", "#7C3AED", "#DB2777", "#0891B2"];
    for name in ["", "A", "Pilot", "فابر", "ß", "a longer name with spaces"] {
        let c = stationery::brand::filters::initial_color(name);
        assert!(palette.contains(&c.as_str()));
    }
}
