use miku_notes_gateway::config::{
    chunk_size_bytes, max_decoding_message_size, mebibytes, request_body_limit_bytes, MEBIBYTE,
};
use miku_notes_gateway::error::{ErrorKind, JsonRejectionKind, ResError};
use axum_extra::extract::cookie::{Cookie, CookieJar, SameSite};
use miku_notes_gateway::session::{
    cleared_cookies, new_cookie_ok_res, require_token, session_cookies, token_cookie,
    CreateAndAddCookie, SameSitePolicy,
};

fn check_cookie(jar: &CookieJar, name: &str, value: &str, max_age: i64) {
    let cookie = jar.get(name).expect("the jar holds the cookie");
    assert_eq!(cookie.name(), name);
    assert_eq!(cookie.value(), value);
    assert_eq!(cookie.max_age(), Some(time::Duration::seconds(max_age)));
    assert_eq!(cookie.path(), Some("/"));
    assert_eq!(cookie.same_site(), Some(SameSite::None));
    assert_eq!(cookie.http_only(), Some(true));
    assert_eq!(cookie.secure(), Some(false));
}

#[test]
fn token_cookie_has_the_fixed_attributes() {
    let cookie = token_cookie("at".to_string(), "token".to_string(), 900);
    assert_eq!(cookie.name, "at");
    assert_eq!(cookie.value, "token");
    assert_eq!(cookie.max_age, 900);
    assert_eq!(cookie.path, "/");
    assert_eq!(cookie.same_site, SameSitePolicy::Unrestricted);
    assert!(cookie.http_only);
    assert!(!cookie.secure);
}

#[test]
fn added_cookie_is_found_in_the_jar() {
    let jar = CookieJar::new().add_new_cookie("at".to_string(), "token".to_string(), 900);
    assert_eq!(jar.iter().count(), 1);
    check_cookie(&jar, "at", "token", 900);
    let jar = jar.add_new_cookie("rt".to_string(), "other".to_string(), 86400);
    assert_eq!(jar.iter().count(), 2);
    check_cookie(&jar, "at", "token", 900);
    check_cookie(&jar, "rt", "other", 86400);
}

#[test]
fn added_cookie_replaces_one_of_the_same_name() {
    let jar = CookieJar::new()
        .add(Cookie::new("at", "old"))
        .add(Cookie::new("theme", "dark"))
        .add_new_cookie("at".to_string(), "new".to_string(), 60);
    assert_eq!(jar.iter().count(), 2);
    check_cookie(&jar, "at", "new", 60);
    assert_eq!(jar.get("theme").map(|c| c.value()), Some("dark"));
}

#[test]
fn new_session_sets_refresh_then_access() {
    let jar = session_cookies(
        CookieJar::new(),
        "rt".to_string(),
        "refresh".to_string(),
        86400,
        "at".to_string(),
        "access".to_string(),
        900,
    );
    assert_eq!(jar.iter().count(), 2);
    check_cookie(&jar, "rt", "refresh", 86400);
    check_cookie(&jar, "at", "access", 900);
}

#[test]
fn logout_clears_both_tokens() {
    let jar = CookieJar::new().add(Cookie::new("at", "access")).add(Cookie::new("rt", "refresh"));
    let jar = cleared_cookies(jar, "rt".to_string(), "at".to_string());
    assert_eq!(jar.iter().count(), 2);
    check_cookie(&jar, "rt", "", 0);
    check_cookie(&jar, "at", "", 0);
}

#[test]
fn token_is_read_from_its_cookie() {
    let jar = CookieJar::new().add(Cookie::new("at", "abc")).add(Cookie::new("rt", "xyz"));
    assert_eq!(require_token(&jar, "at", "no token").unwrap(), "abc");
    assert_eq!(require_token(&jar, "rt", "no token").unwrap(), "xyz");
}

#[test]
fn missing_token_is_unauthorized() {
    let jar = CookieJar::new().add(Cookie::new("at", "abc"));
    let err = require_token(&jar, "rt", "Could not get a refresh token").unwrap_err();
    assert_eq!(err.kind(), ErrorKind::Unauthorized);
    assert_eq!(err.status_code(), 401);
    assert_eq!(err.internal_msg(), "Could not get a refresh token");
    let err = require_token(&CookieJar::new(), "at", "Could not get an access token").unwrap_err();
    assert_eq!(err.kind(), ErrorKind::Unauthorized);
}

#[test]
fn cookie_response_is_an_empty_success() {
    let jar = CookieJar::new().add_new_cookie("at".to_string(), "t".to_string(), 1);
    let (code, jar, body) = new_cookie_ok_res(jar).unwrap();
    assert_eq!(code, 200);
    check_cookie(&jar, "at", "t", 1);
    assert!(body.0.success);
    assert_eq!(body.0.error, None);
    assert_eq!(body.0.data, None);
}

#[test]
fn refused_json_maps_to_error_kind() {
    let map = |kind: JsonRejectionKind| ResError::from_json_rejection(kind, "why".to_string());
    assert_eq!(map(JsonRejectionKind::MissingJsonContentType).kind(), ErrorKind::InvalidContentType);
    assert_eq!(map(JsonRejectionKind::MissingJsonContentType).status_code(), 415);
    assert_eq!(map(JsonRejectionKind::JsonDataError).kind(), ErrorKind::InvalidValues);
    assert_eq!(map(JsonRejectionKind::JsonDataError).status_code(), 422);
    assert_eq!(map(JsonRejectionKind::Other).kind(), ErrorKind::BadRequest);
    assert_eq!(map(JsonRejectionKind::Other).internal_msg(), "why");
}

#[test]
fn sizes_are_given_in_mebibytes() {
    assert_eq!(MEBIBYTE, 1024 * 1024);
    assert_eq!(mebibytes(0), Some(0));
    assert_eq!(mebibytes(4), Some(4 * 1024 * 1024));
    assert_eq!(mebibytes(usize::MAX / MEBIBYTE), Some((usize::MAX / MEBIBYTE) * MEBIBYTE));
    assert_eq!(mebibytes(usize::MAX / MEBIBYTE + 1), None);
    assert_eq!(request_body_limit_bytes(100), Some(104857600));
    assert_eq!(request_body_limit_bytes(usize::MAX), None);
}

#[test]
fn chunk_size_must_be_positive() {
    assert_eq!(chunk_size_bytes(0), None);
    assert_eq!(chunk_size_bytes(1), Some(1048576));
    assert_eq!(chunk_size_bytes(4), Some(4194304));
    assert_eq!(chunk_size_bytes(usize::MAX), None);
}

#[test]
fn decoding_limit_is_one_mebibyte_above_the_chunk() {
    assert_eq!(max_decoding_message_size(0), Some(1048576));
    assert_eq!(max_decoding_message_size(4), Some(5242880));
    assert_eq!(max_decoding_message_size(usize::MAX), None);
    assert_eq!(max_decoding_message_size(usize::MAX / MEBIBYTE), None);
}
