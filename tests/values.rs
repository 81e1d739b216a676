use indexnow::error::IndexnowError;
use indexnow::key::Key;
use indexnow::url::{ContentUrl, EndpointUrl, KeyfileUrl};

#[test]
fn key_length_boundary() {
    assert_eq!(Key::parse(&"a".repeat(7)).unwrap_err(), IndexnowError::InvalidKey);
    assert_eq!(Key::parse(&"a".repeat(8)).unwrap().as_str(), "aaaaaaaa");
    assert_eq!(Key::parse(&"Z9-".repeat(43)[..128]).unwrap().as_str().len(), 128);
    assert_eq!(Key::parse(&"b".repeat(129)).unwrap_err(), IndexnowError::InvalidKey);
}

#[test]
fn key_foreign_character() {
    assert_eq!(Key::parse("abcd_efgh").unwrap_err(), IndexnowError::InvalidKey);
    assert_eq!(Key::parse("abcdefgh ").unwrap_err(), IndexnowError::InvalidKey);
    assert_eq!(Key::parse("abcdefgh\n").unwrap_err(), IndexnowError::InvalidKey);
    assert_eq!(Key::parse("abcdéfgh").unwrap_err(), IndexnowError::InvalidKey);
    assert_eq!(Key::parse("").unwrap_err(), IndexnowError::InvalidKey);
}

#[test]
fn key_from_str() {
    let k: Key = "687a308e4eff49f994d89eb22f764514".parse().unwrap();
    assert_eq!(k.as_str(), "687a308e4eff49f994d89eb22f764514");
}

#[test]
fn endpoint_rejects_query() {
    assert_eq!(
        EndpointUrl::parse("https://api.indexnow.org/indexnow?url=x&key=y").unwrap_err(),
        IndexnowError::InvalidUrl
    );
    assert!(ContentUrl::parse("https://api.indexnow.org/indexnow?url=x&key=y").is_ok());
}

#[test]
fn scheme_enforcement() {
    for s in ["ftp://example.com", "example.com", "/path/only", "not a url"] {
        assert_eq!(EndpointUrl::parse(s).unwrap_err(), IndexnowError::InvalidUrl);
        assert_eq!(KeyfileUrl::parse(s).unwrap_err(), IndexnowError::InvalidUrl);
        assert_eq!(ContentUrl::parse(s).unwrap_err(), IndexnowError::InvalidUrl);
    }
}

#[test]
fn scheme_case_insensitive() {
    let e = EndpointUrl::parse("HTTPS://api.indexnow.org/indexnow").unwrap();
    assert_eq!(e.to_string(), "https://api.indexnow.org/indexnow");
    assert!(ContentUrl::parse("Http://www.example.com/").is_ok());
}

#[test]
fn default_endpoint_parses() {
    let parsed = EndpointUrl::parse("https://api.indexnow.org/indexnow").unwrap();
    let default = EndpointUrl::default();
    assert_eq!(parsed, default);
    assert_eq!(default.to_string(), "https://api.indexnow.org/indexnow");
}

#[test]
fn round_trip() {
    for s in [
        "https://www.example.com/product.html",
        "http://www.example.com",
        "http://user@www.example.com:8080/a/b",
        "HTTPS://WWW.example.com/x#frag",
    ] {
        let e = EndpointUrl::parse(s).unwrap();
        assert_eq!(EndpointUrl::parse(&e.to_string()).unwrap(), e);
        let k = KeyfileUrl::parse(s).unwrap();
        assert_eq!(KeyfileUrl::parse(&k.to_string()).unwrap(), k);
        let c = ContentUrl::parse(s).unwrap();
        assert_eq!(ContentUrl::parse(&c.to_string()).unwrap(), c);
    }
    let c = ContentUrl::parse("http://www.example.com/a?b=c").unwrap();
    assert_eq!(ContentUrl::parse(&c.to_string()).unwrap(), c);
    assert_eq!(
        ContentUrl::parse("http://www.example.com").unwrap().to_string(),
        "http://www.example.com/"
    );
}

#[test]
fn equality_is_structural() {
    assert_eq!(
        ContentUrl::parse("HTTP://www.example.com/a").unwrap(),
        ContentUrl::parse("http://www.example.com/a").unwrap()
    );
    assert_ne!(
        ContentUrl::parse("http://www.example.com/a").unwrap(),
        ContentUrl::parse("http://www.example.com/b").unwrap()
    );
}

#[test]
fn key_from_str_refuses() {
    let r: Result<Key, IndexnowError> = "687a308e_4eff49f994d89eb22f764514".parse();
    assert_eq!(r.unwrap_err(), IndexnowError::InvalidKey);
    let k: Key = "--------".parse().unwrap();
    assert_eq!(k.as_str(), "--------");
}

#[test]
fn round_trip_at_length_limit() {
    // The text form adds `/` for the empty path, which here passes the limit.
    let s = format!("http://{}", "a".repeat(65527));
    let c = ContentUrl::parse(&s).unwrap();
    assert_eq!(c.to_string().len(), 65535);
    assert_eq!(ContentUrl::parse(&c.to_string()).unwrap_err(), IndexnowError::InvalidUrl);
}
