use estore_auth::error::AppError;
use estore_auth::model::{ApiResponse, ProductQuery, User};
use estore_auth::profile::{copy_user, ProfileCache};
use estore_auth::text::{strip_trailing_slashes, trim};

fn alice() -> User {
    User {
        id: 7,
        username: "alice".to_string(),
        email: "alice@example.test".to_string(),
        phone: "555-0100".to_string(),
        address: "1 Main St".to_string(),
        is_admin: false,
    }
}

fn same_user(a: &User, b: &User) -> bool {
    a.id == b.id
        && a.username == b.username
        && a.email == b.email
        && a.phone == b.phone
        && a.address == b.address
        && a.is_admin == b.is_admin
}

#[test]
fn trailing_slashes_are_stripped() {
    assert_eq!(strip_trailing_slashes("/user/me/"), "/user/me");
    assert_eq!(strip_trailing_slashes("/user/me"), "/user/me");
    assert_eq!(strip_trailing_slashes("//"), "");
    assert_eq!(strip_trailing_slashes(""), "");
    assert_eq!(strip_trailing_slashes("/a/ /"), "/a/ ");
}

#[test]
fn trim_cuts_white_space_at_both_ends() {
    assert_eq!(trim("  shoes \t\n"), "shoes");
    assert_eq!(trim("red shoes"), "red shoes");
    assert_eq!(trim(" red  shoes "), "red  shoes");
    assert_eq!(trim("\u{3000}\u{a0}x\u{2028}\u{85}"), "x");
    assert_eq!(trim(" \u{1680}\u{2000}\u{200a}\u{2029}\u{202f}\u{205f}"), "");
    assert_eq!(trim("\u{200b}x\u{200b}"), "\u{200b}x\u{200b}");
    assert_eq!(trim(""), "");
}

#[test]
fn blank_keyword_means_no_query() {
    assert_eq!(ProductQuery::for_keyword(None).q, None);
    assert_eq!(ProductQuery::for_keyword(Some(String::new())).q, None);
    assert_eq!(ProductQuery::for_keyword(Some(" \t ".to_string())).q, None);
}

#[test]
fn keyword_is_trimmed() {
    assert_eq!(ProductQuery::for_keyword(Some(" shoes ".to_string())).q, Some("shoes".to_string()));
    assert_eq!(
        ProductQuery::for_keyword(Some("red shoes".to_string())).q,
        Some("red shoes".to_string())
    );
}

#[test]
fn empty_profile_cache_has_no_answer() {
    let cache = ProfileCache::new();
    assert!(cache.user.is_none());
    assert!(cache.cached().is_none());
}

#[test]
fn fetched_profile_is_remembered() {
    let mut cache = ProfileCache::new();
    let fetched = ApiResponse::new(200, "fetched".to_string(), true, Some(alice()));
    let handed_on = cache.remember(fetched).unwrap();
    assert_eq!(handed_on.message, "fetched");
    assert!(same_user(handed_on.data.as_ref().unwrap(), &alice()));
    let answer = cache.cached().unwrap();
    assert_eq!(answer.code, 200);
    assert_eq!(answer.message, "OK");
    assert!(answer.success);
    assert!(same_user(answer.data.as_ref().unwrap(), &alice()));
}

#[test]
fn profile_without_data_is_an_api_error() {
    let mut cache = ProfileCache::new();
    cache.remember(ApiResponse::new(200, "OK".to_string(), true, Some(alice()))).unwrap();
    match cache.remember(ApiResponse::new(404, "gone".to_string(), false, None)) {
        Err(AppError::Api { code, message }) => {
            assert_eq!(code, 404);
            assert_eq!(message, "gone");
        }
        _ => panic!("an Api error was expected"),
    }
    assert!(same_user(cache.user.as_ref().unwrap(), &alice()));
}

#[test]
fn forget_drops_the_profile() {
    let mut cache = ProfileCache::new();
    cache.remember(ApiResponse::new(200, "OK".to_string(), true, Some(alice()))).unwrap();
    cache.forget();
    assert!(cache.cached().is_none());
}

#[test]
fn copy_of_a_user_keeps_every_field() {
    let mut admin = alice();
    admin.is_admin = true;
    assert!(same_user(&copy_user(&admin), &admin));
    assert!(!same_user(&copy_user(&admin), &alice()));
}
