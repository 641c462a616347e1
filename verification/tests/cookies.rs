//! Tokens in the headers of requests, and the cookies of responses.

use axum::http::{header, HeaderMap, HeaderName, HeaderValue};
use axum_login::cookies::{extract_cookie, extract_token};
use axum_login::headers::FIELDS_LIMIT;
use axum_login::manager::add_cookies;
use axum_login::text::{decimal_text, trim};
use axum_login::{JwtConfig, DEFAULT_JWT_COOKIE_NAME};
use std::time::Duration;

fn cookies(values: Vec<&str>) -> HeaderMap {
    let mut headers = HeaderMap::new();
    for value in values {
        headers.append(header::COOKIE, HeaderValue::from_str(value).unwrap());
    }
    headers
}

fn authorization(value: &str) -> HeaderMap {
    let mut headers = HeaderMap::new();
    headers.insert(header::AUTHORIZATION, HeaderValue::from_str(value).unwrap());
    headers
}

#[test]
fn extract_prefers_cookie_over_bearer() {
    let mut headers = HeaderMap::new();
    headers.insert(
        header::COOKIE,
        HeaderValue::from_static("other=1; axum-login.jwt=cookie-token; foo=bar"),
    );
    headers.insert(
        header::AUTHORIZATION,
        HeaderValue::from_static("Bearer header-token"),
    );

    assert_eq!(
        extract_token(&headers, DEFAULT_JWT_COOKIE_NAME).as_deref(),
        Some("cookie-token")
    );
}

#[test]
fn extract_falls_back_to_bearer() {
    let mut headers = HeaderMap::new();
    headers.insert(
        header::AUTHORIZATION,
        HeaderValue::from_static("Bearer header-token"),
    );

    assert_eq!(
        extract_token(&headers, DEFAULT_JWT_COOKIE_NAME).as_deref(),
        Some("header-token")
    );
}

#[test]
fn extract_returns_none_when_absent() {
    let headers = HeaderMap::new();
    assert!(extract_token(&headers, DEFAULT_JWT_COOKIE_NAME).is_none());
}

#[test]
fn first_cookie_of_a_name_counts() {
    let headers = cookies(vec!["a=1; b=2; a=3"]);
    assert_eq!(extract_cookie(&headers, "a").as_deref(), Some("1"));
    assert_eq!(extract_cookie(&headers, "b").as_deref(), Some("2"));
    assert_eq!(extract_cookie(&headers, "c"), None);

    let headers = cookies(vec!["x=0", "b=2; a=1", "a=3"]);
    assert_eq!(extract_cookie(&headers, "a").as_deref(), Some("1"));
}

#[test]
fn blanks_around_names_and_values_do_not_count() {
    let headers = cookies(vec!["  a \t=\t 1 2  ;b=2"]);
    assert_eq!(extract_cookie(&headers, "a").as_deref(), Some("1 2"));
    assert_eq!(extract_cookie(&headers, "b").as_deref(), Some("2"));
    assert_eq!(extract_cookie(&headers, " a"), None);
}

#[test]
fn odd_pairs_are_read_as_they_are() {
    let headers = cookies(vec!["a; b=; c=1=2; =3;; d=4"]);
    assert_eq!(extract_cookie(&headers, "a"), None);
    assert_eq!(extract_cookie(&headers, "b").as_deref(), Some(""));
    assert_eq!(extract_cookie(&headers, "c").as_deref(), Some("1=2"));
    assert_eq!(extract_cookie(&headers, "").as_deref(), Some("3"));
    assert_eq!(extract_cookie(&headers, "d").as_deref(), Some("4"));
}

#[test]
fn header_that_is_no_text_is_passed_over() {
    let mut headers = HeaderMap::new();
    headers.append(
        header::COOKIE,
        HeaderValue::from_bytes(&[b'a', b'=', 0xff]).unwrap(),
    );
    headers.append(header::COOKIE, HeaderValue::from_static("a=1"));
    assert_eq!(extract_cookie(&headers, "a").as_deref(), Some("1"));

    headers.insert(
        header::AUTHORIZATION,
        HeaderValue::from_bytes(&[b'B', b'e', b'a', b'r', b'e', b'r', b' ', 0xff]).unwrap(),
    );
    assert_eq!(extract_token(&headers, "b"), None);
}

#[test]
fn empty_cookie_still_comes_before_bearer() {
    let mut headers = cookies(vec!["a="]);
    headers.insert(
        header::AUTHORIZATION,
        HeaderValue::from_static("Bearer header-token"),
    );
    assert_eq!(extract_token(&headers, "a").as_deref(), Some(""));
}

#[test]
fn bearer_scheme_is_exact() {
    assert_eq!(
        extract_token(&authorization("Bearer  \ttoken "), "a").as_deref(),
        Some("token")
    );
    assert_eq!(extract_token(&authorization("Bearer "), "a").as_deref(), Some(""));
    assert_eq!(extract_token(&authorization("Bearer"), "a"), None);
    assert_eq!(extract_token(&authorization("bearer token"), "a"), None);
    assert_eq!(extract_token(&authorization("Basic token"), "a"), None);
}

#[test]
fn first_authorization_header_counts() {
    let mut headers = authorization("Basic x");
    headers.append(
        header::AUTHORIZATION,
        HeaderValue::from_static("Bearer token"),
    );
    assert_eq!(extract_token(&headers, "a"), None);
}

#[test]
fn cookies_have_their_attributes() {
    let config = JwtConfig::from_secret(b"secret")
        .with_ttl(Duration::from_secs(60))
        .with_cookie_name("a")
        .with_refresh_cookie_name("r")
        .with_refresh_ttl(Duration::from_millis(120_500))
        .with_refresh_path("/auth/refresh");
    assert_eq!(
        config.access_set_cookie("token"),
        "a=token; Path=/; HttpOnly; SameSite=Lax; Max-Age=60; Secure"
    );
    assert_eq!(
        config.refresh_set_cookie("token"),
        "r=token; Path=/auth/refresh; HttpOnly; SameSite=Lax; Max-Age=120; Secure"
    );
    assert_eq!(
        config.access_clear_cookie(),
        "a=; Path=/; HttpOnly; SameSite=Lax; Max-Age=0; Secure"
    );
    assert_eq!(
        config.refresh_clear_cookie(),
        "r=; Path=/auth/refresh; HttpOnly; SameSite=Lax; Max-Age=0; Secure"
    );
    let config = config.with_secure(false);
    assert_eq!(
        config.build_cookie("n", "/p", "v", u64::MAX),
        "n=v; Path=/p; HttpOnly; SameSite=Lax; Max-Age=18446744073709551615"
    );
}

#[test]
fn set_cookie_is_read_back_from_a_request() {
    let config = JwtConfig::from_secret(b"secret");
    let set = config.access_set_cookie("abc.def-_");
    let pair = set.split(';').next().unwrap();
    let headers = cookies(vec![&format!("other=1; {pair} ; more=2")]);
    assert_eq!(
        extract_cookie(&headers, DEFAULT_JWT_COOKIE_NAME).as_deref(),
        Some("abc.def-_")
    );
}

#[test]
fn cookies_are_added_in_order() {
    let mut headers = HeaderMap::new();
    headers.insert(header::CONTENT_TYPE, HeaderValue::from_static("text/plain"));
    headers.insert(header::SET_COOKIE, HeaderValue::from_static("a=1"));
    assert!(add_cookies(
        &mut headers,
        &vec![
            "b=2".to_string(),
            "c=\n".to_string(),
            "d=\u{e9}".to_string(),
            "e=5".to_string(),
        ],
    ));
    let values: Vec<&[u8]> = headers
        .get_all(header::SET_COOKIE)
        .iter()
        .map(|v| v.as_bytes())
        .collect();
    assert_eq!(
        values,
        vec!["a=1".as_bytes(), b"b=2", "d=\u{e9}".as_bytes(), b"e=5"]
    );
    assert_eq!(headers.get(header::CONTENT_TYPE).unwrap(), "text/plain");
    assert_eq!(headers.len(), 5);
}

#[test]
fn no_cookies_change_nothing() {
    let mut headers = cookies(vec!["a=1"]);
    let before = headers.clone();
    assert!(add_cookies(&mut headers, &vec![]));
    assert_eq!(headers, before);
}

#[test]
fn few_different_fields_leave_room() {
    let mut headers = HeaderMap::new();
    for i in 0..FIELDS_LIMIT - 2 {
        let name = HeaderName::from_bytes(format!("x-{i}").as_bytes()).unwrap();
        headers.insert(name, HeaderValue::from_static("1"));
    }
    assert!(add_cookies(
        &mut headers,
        &vec!["a=1".to_string(), "b=2".to_string()]
    ));
    assert_eq!(headers.get_all(header::SET_COOKIE).iter().count(), 2);
}

#[test]
fn texts_are_trimmed() {
    assert_eq!(trim(" \t a b\t "), "a b");
    assert_eq!(trim(" \t "), "");
    assert_eq!(trim(""), "");
    assert_eq!(trim("a"), "a");
}

#[test]
fn numbers_are_written_in_decimal() {
    assert_eq!(decimal_text(0), "0");
    assert_eq!(decimal_text(9), "9");
    assert_eq!(decimal_text(10), "10");
    assert_eq!(decimal_text(86400), "86400");
    assert_eq!(decimal_text(u64::MAX), "18446744073709551615");
}
