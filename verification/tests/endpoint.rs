use auth0_client::endpoint::{jwks_uri, scheme_length, squeezed, token_url};

#[test]
fn squeezing_shortens_every_run_of_separators() {
    assert_eq!(squeezed("a//b"), "a/b");
    assert_eq!(squeezed("a///b"), "a/b");
    assert_eq!(squeezed("//a////b//"), "/a/b/");
    assert_eq!(squeezed("//"), "/");
    assert_eq!(squeezed("/"), "/");
}

#[test]
fn squeezing_leaves_clean_text_alone() {
    assert_eq!(squeezed(""), "");
    assert_eq!(squeezed("abc"), "abc");
    assert_eq!(squeezed("/a/b/c"), "/a/b/c");
    assert_eq!(squeezed("é/ü"), "é/ü");
}

#[test]
fn squeezing_twice_is_squeezing_once() {
    let once = squeezed("https://host//a///b");
    assert_eq!(squeezed(&once), once);
    assert!(!once.contains("//"));
}

#[test]
fn token_url_appends_the_path_and_keeps_the_scheme() {
    assert_eq!(token_url("http://127.0.0.1:1234"), "http://127.0.0.1:1234/oauth/token");
    assert_eq!(token_url("http://h/"), "http://h/oauth/token");
    assert_eq!(token_url("https://tenant.example.com//"), "https://tenant.example.com/oauth/token");
    assert_eq!(token_url("https://h//a///b/"), "https://h/a/b/oauth/token");
}

#[test]
fn token_url_without_a_scheme_is_squeezed_whole() {
    assert_eq!(token_url("tenant.example.com"), "tenant.example.com/oauth/token");
    assert_eq!(token_url("tenant.example.com/"), "tenant.example.com/oauth/token");
    assert_eq!(token_url("//h//"), "/h/oauth/token");
    assert_eq!(token_url("h:/"), "h:/oauth/token");
    assert_eq!(token_url(""), "/oauth/token");
}

#[test]
fn only_the_first_scheme_mark_is_kept() {
    assert_eq!(token_url("a://b://c"), "a://b:/c/oauth/token");
    assert_eq!(token_url("http:///h"), "http:///h/oauth/token");
    assert_eq!(token_url("://"), ":///oauth/token");
}

#[test]
fn the_scheme_ends_after_its_first_mark() {
    assert_eq!(scheme_length("http://h/"), 7);
    assert_eq!(scheme_length("https://h"), 8);
    assert_eq!(scheme_length("://"), 3);
    assert_eq!(scheme_length("a://b://c"), 4);
    assert_eq!(scheme_length("é://x"), 4);
    assert_eq!(scheme_length("h:/x"), 0);
    assert_eq!(scheme_length("host/path"), 0);
    assert_eq!(scheme_length(":/"), 0);
    assert_eq!(scheme_length(""), 0);
}

#[test]
fn jwks_uri_appends_the_well_known_path() {
    assert_eq!(
        jwks_uri("http://127.0.0.1:1234"),
        "http://127.0.0.1:1234/.well-known/jwks.json"
    );
    assert_eq!(jwks_uri("https://a/"), "https://a//.well-known/jwks.json");
    assert_eq!(jwks_uri(""), "/.well-known/jwks.json");
}
