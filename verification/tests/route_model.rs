//! Tests of the match model: hostname translation, pattern identity by
//! source text, and method parsing.

use std::collections::hash_map::DefaultHasher;
use std::hash::{Hash, Hasher};

use inbound_policy::method::Method;
use inbound_policy::pattern::Pattern;
use inbound_policy::route::{Hostname, PathMatch, Value};
use inbound_policy::translate::convert_hostname;

fn hash_of<T: Hash>(v: &T) -> u64 {
    let mut h = DefaultHasher::new();
    v.hash(&mut h);
    h.finish()
}

#[test]
fn wildcard_hostname_becomes_reversed_suffix() {
    let h = convert_hostname("*.example.com");
    assert_eq!(
        h,
        Hostname::Suffix { reverse_labels: vec!["com".to_string(), "example".to_string()] }
    );
}

#[test]
fn literal_hostname_becomes_exact() {
    let h = convert_hostname("www.example.com");
    assert_eq!(h, Hostname::Exact("www.example.com".to_string()));
}

#[test]
fn bare_wildcard_suffix_of_one_label() {
    let h = convert_hostname("*.com");
    assert_eq!(h, Hostname::Suffix { reverse_labels: vec!["com".to_string()] });
}

#[test]
fn path_regexes_from_same_pattern_are_equal_and_hash_equal() {
    let a = PathMatch::try_regex("^/foo/.*$").expect("pattern must compile");
    let b = PathMatch::try_regex("^/foo/.*$").expect("pattern must compile");
    assert_eq!(a, b);
    assert_eq!(hash_of(&a), hash_of(&b));
}

#[test]
fn value_regexes_from_same_pattern_are_equal_and_hash_equal() {
    let a = Value::try_regex("[a-z]+").expect("pattern must compile");
    let b = Value::try_regex("[a-z]+").expect("pattern must compile");
    assert_eq!(a, b);
    assert_eq!(hash_of(&a), hash_of(&b));
}

#[test]
fn path_regexes_from_different_patterns_differ() {
    let a = PathMatch::try_regex("^/foo$").expect("pattern must compile");
    let b = PathMatch::try_regex("^/bar$").expect("pattern must compile");
    assert_ne!(a, b);
}

#[test]
fn path_match_variants_do_not_cross_compare() {
    let exact = PathMatch::Exact("/foo".to_string());
    let prefix = PathMatch::Prefix("/foo".to_string());
    assert_ne!(exact, prefix);
}

#[test]
fn invalid_pattern_is_rejected() {
    assert!(PathMatch::try_regex("foo(bar").is_err());
    assert!(Value::try_regex("[unclosed").is_err());
    assert!(Pattern::new("foo(bar").is_err());
}

#[test]
fn valid_pattern_keeps_its_source() {
    let p = Pattern::new("^/api/v[0-9]+$").expect("pattern must compile");
    assert_eq!(p.as_str(), "^/api/v[0-9]+$");
}

#[test]
fn method_parses_standard_and_extension_tokens() {
    let get = Method::parse("GET").expect("GET is a method");
    assert_eq!(get.as_str(), "GET");
    let ext = Method::parse("PURGE").expect("a token is a method");
    assert_eq!(ext.as_str(), "PURGE");
}

#[test]
fn method_rejects_invalid_tokens() {
    assert!(Method::parse("GE T").is_none());
    assert!(Method::parse("").is_none());
}
