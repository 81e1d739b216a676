use indexnow::error::IndexnowError;
use indexnow::key::Key;
use indexnow::request::{
    build_submission, submit_batch_request, submit_one_request, HttpMethod, MAX_URLS,
};
use indexnow::url::{ContentUrl, EndpointUrl, KeyfileLocation, KeyfileUrl};

const KEY: &str = "687a308e4eff49f994d89eb22f764514";

fn key() -> Key {
    Key::parse(KEY).unwrap()
}

fn content(s: &str) -> ContentUrl {
    ContentUrl::parse(s).unwrap()
}

fn batch_urls() -> Vec<ContentUrl> {
    vec![
        content("https://www.example.com/url1"),
        content("https://www.example.com/folder/url2"),
        content("https://www.example.com/url3"),
    ]
}

#[test]
fn test_submit_one_request() {
    let request = submit_one_request(
        EndpointUrl::default_endpoint(),
        key(),
        KeyfileLocation::RootDirectory,
        content("https://www.example.com/product.html"),
    )
    .unwrap();

    assert_eq!(request.uri, "https://api.indexnow.org/indexnow?url=https%3A%2F%2Fwww.example.com%2Fproduct.html&key=687a308e4eff49f994d89eb22f764514");
    assert_eq!(request.method, HttpMethod::Get);
}

#[test]
fn test_submit_one_request_with_location() {
    let request = submit_one_request(
        EndpointUrl::default_endpoint(),
        key(),
        KeyfileLocation::from_option(Some(
            KeyfileUrl::parse("http://www.example.com/myIndexNowKey63638.txt").unwrap(),
        )),
        content("http://www.example.com/product.html"),
    )
    .unwrap();

    assert_eq!(request.uri, "https://api.indexnow.org/indexnow?url=http%3A%2F%2Fwww.example.com%2Fproduct.html&key=687a308e4eff49f994d89eb22f764514&keyLocation=http%3A%2F%2Fwww.example.com%2FmyIndexNowKey63638.txt");
    assert_eq!(request.method, HttpMethod::Get);
}

#[test]
fn single_request_has_no_body_or_content_type() {
    let request = submit_one_request(
        EndpointUrl::default_endpoint(),
        key(),
        KeyfileLocation::default(),
        content("https://www.example.com/product.html"),
    )
    .unwrap();
    assert!(request.content_type.is_none());
    assert_eq!(request.body, "");
}

#[test]
fn single_request_encodes_query_characters() {
    let request = submit_one_request(
        EndpointUrl::parse("http://localhost:8080/api/submit").unwrap(),
        key(),
        KeyfileLocation::RootDirectory,
        content("https://www.example.com/p?q=a*b_c.d-e~f"),
    )
    .unwrap();
    assert_eq!(
        request.uri,
        "http://localhost:8080/api/submit?url=https%3A%2F%2Fwww.example.com%2Fp%3Fq%3Da*b_c.d-e%7Ef&key=687a308e4eff49f994d89eb22f764514"
    );
}

#[test]
fn single_request_too_long_fails() {
    let long = format!("https://www.example.com/{}", "a".repeat(65480));
    let url = content(&long);
    let r = submit_one_request(
        EndpointUrl::default_endpoint(),
        key(),
        KeyfileLocation::RootDirectory,
        url,
    );
    assert_eq!(r.unwrap_err(), IndexnowError::RequestBuildError);
}

#[test]
fn batch_request_root_location() {
    let request = submit_batch_request(
        EndpointUrl::default_endpoint(),
        key(),
        KeyfileLocation::RootDirectory,
        batch_urls(),
    )
    .unwrap();
    assert_eq!(request.method, HttpMethod::Post);
    assert_eq!(request.uri, "https://api.indexnow.org/indexnow");
    assert_eq!(request.content_type.as_deref(), Some("application/json"));
    assert_eq!(
        request.body,
        "{\"host\":\"www.example.com\",\"key\":\"687a308e4eff49f994d89eb22f764514\",\"urlList\":[\"https://www.example.com/url1\",\"https://www.example.com/folder/url2\",\"https://www.example.com/url3\"]}"
    );
    assert!(!request.body.contains("keyLocation"));
}

#[test]
fn batch_request_explicit_location() {
    let location = KeyfileUrl::parse("https://www.example.com/myIndexNowKey63638.txt").unwrap();
    let canonical = location.to_string();
    let request = submit_batch_request(
        EndpointUrl::default_endpoint(),
        key(),
        KeyfileLocation::Url(location),
        batch_urls(),
    )
    .unwrap();
    assert_eq!(request.method, HttpMethod::Post);
    assert_eq!(request.uri, "https://api.indexnow.org/indexnow");
    assert_eq!(request.content_type.as_deref(), Some("application/json"));
    assert_eq!(canonical, "https://www.example.com/myIndexNowKey63638.txt");
    assert_eq!(
        request.body,
        "{\"host\":\"www.example.com\",\"key\":\"687a308e4eff49f994d89eb22f764514\",\"keyLocation\":\"https://www.example.com/myIndexNowKey63638.txt\",\"urlList\":[\"https://www.example.com/url1\",\"https://www.example.com/folder/url2\",\"https://www.example.com/url3\"]}"
    );
}

#[test]
fn batch_request_escapes_backslash() {
    let request = submit_batch_request(
        EndpointUrl::default_endpoint(),
        key(),
        KeyfileLocation::RootDirectory,
        vec![content("https://www.example.com/a\\b")],
    )
    .unwrap();
    assert_eq!(
        request.body,
        "{\"host\":\"www.example.com\",\"key\":\"687a308e4eff49f994d89eb22f764514\",\"urlList\":[\"https://www.example.com/a\\\\b\"]}"
    );
}

#[test]
fn batch_request_empty_fails() {
    let r = submit_batch_request(
        EndpointUrl::default_endpoint(),
        key(),
        KeyfileLocation::RootDirectory,
        Vec::new(),
    );
    assert_eq!(r.unwrap_err(), IndexnowError::RequestBuildError);
}

#[test]
fn batch_request_limit() {
    let mut urls = Vec::new();
    for i in 0..MAX_URLS {
        urls.push(content(&format!("https://www.example.com/{}", i)));
    }
    let r = submit_batch_request(
        EndpointUrl::default_endpoint(),
        key(),
        KeyfileLocation::RootDirectory,
        urls,
    );
    assert!(r.is_ok());

    let mut urls = Vec::new();
    for i in 0..MAX_URLS + 1 {
        urls.push(content(&format!("https://www.example.com/{}", i)));
    }
    let r = submit_batch_request(
        EndpointUrl::default_endpoint(),
        key(),
        KeyfileLocation::RootDirectory,
        urls,
    );
    assert_eq!(r.unwrap_err(), IndexnowError::RequestBuildError);
}

#[test]
fn batch_request_other_host_fails() {
    let r = submit_batch_request(
        EndpointUrl::default_endpoint(),
        key(),
        KeyfileLocation::RootDirectory,
        vec![
            content("https://www.example.com/url1"),
            content("https://other.example.com/url2"),
        ],
    );
    assert_eq!(r.unwrap_err(), IndexnowError::InvalidUrl);
}

#[test]
fn batch_request_host_case_ignored() {
    let request = submit_batch_request(
        EndpointUrl::default_endpoint(),
        key(),
        KeyfileLocation::RootDirectory,
        vec![
            content("https://www.example.com/url1"),
            content("https://WWW.Example.com/url2"),
        ],
    )
    .unwrap();
    assert!(request.body.starts_with("{\"host\":\"www.example.com\","));
}

#[test]
fn batch_request_location_scope() {
    let location = KeyfileUrl::parse("https://www.example.com/folder/key.txt").unwrap();
    let r = submit_batch_request(
        EndpointUrl::default_endpoint(),
        key(),
        KeyfileLocation::Url(location),
        vec![content("https://www.example.com/folder/url2")],
    );
    assert!(r.is_ok());

    let location = KeyfileUrl::parse("https://www.example.com/folder/key.txt").unwrap();
    let r = submit_batch_request(
        EndpointUrl::default_endpoint(),
        key(),
        KeyfileLocation::Url(location),
        batch_urls(),
    );
    assert_eq!(r.unwrap_err(), IndexnowError::InvalidUrl);

    let location = KeyfileUrl::parse("https://elsewhere.example.com/key.txt").unwrap();
    let r = submit_batch_request(
        EndpointUrl::default_endpoint(),
        key(),
        KeyfileLocation::Url(location),
        batch_urls(),
    );
    assert_eq!(r.unwrap_err(), IndexnowError::InvalidUrl);
}

#[test]
fn submission_picks_form_by_count() {
    let one = build_submission(
        EndpointUrl::default_endpoint(),
        key(),
        KeyfileLocation::RootDirectory,
        vec![content("https://www.example.com/product.html")],
    )
    .unwrap();
    assert_eq!(one.method, HttpMethod::Get);
    assert_eq!(one.uri, "https://api.indexnow.org/indexnow?url=https%3A%2F%2Fwww.example.com%2Fproduct.html&key=687a308e4eff49f994d89eb22f764514");

    let many = build_submission(
        EndpointUrl::default_endpoint(),
        key(),
        KeyfileLocation::RootDirectory,
        batch_urls(),
    )
    .unwrap();
    assert_eq!(many.method, HttpMethod::Post);
    assert_eq!(many.uri, "https://api.indexnow.org/indexnow");

    let none = build_submission(
        EndpointUrl::default_endpoint(),
        key(),
        KeyfileLocation::RootDirectory,
        Vec::new(),
    );
    assert_eq!(none.unwrap_err(), IndexnowError::RequestBuildError);
}
