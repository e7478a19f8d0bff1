//! Tests of the route translator: conversion, fail-fast validation, parent
//! references, server selection and the admission rule.

use inbound_policy::route::{HeaderMatch, Hostname, PathMatch, Value};
use inbound_policy::translate::{
    admission_accepts, ParentReference, ResourceHeaderMatch, ResourcePathMatch,
    ResourceQueryParamMatch, ResourceRouteMatch, RouteBinding, RouteResource, RouteRule,
    ValidationError,
};

fn server_parent_ref(ns: &str) -> ParentReference {
    ParentReference {
        group: Some("policy.linkerd.io".to_string()),
        kind: Some("Server".to_string()),
        namespace: Some(ns.to_string()),
        name: "my-server".to_string(),
        section_name: None,
        port: None,
    }
}

fn non_server_parent_ref(ns: &str) -> ParentReference {
    ParentReference {
        group: Some("foo.bar.bas".to_string()),
        kind: Some("Gateway".to_string()),
        namespace: Some(ns.to_string()),
        name: "my-gateway".to_string(),
        section_name: None,
        port: None,
    }
}

fn rules() -> Vec<RouteRule> {
    vec![RouteRule {
        matches: Some(vec![ResourceRouteMatch {
            path: Some(ResourcePathMatch::Exact { value: "/foo".to_string() }),
            headers: None,
            query_params: None,
            method: None,
        }]),
    }]
}

fn resource(parent_refs: Vec<ParentReference>) -> RouteResource {
    RouteResource { hostnames: None, rules: Some(rules()), parent_refs: Some(parent_refs) }
}

#[test]
fn accepts_valid() {
    let route = resource(vec![server_parent_ref("test-ns")]);
    assert!(admission_accepts(&route));
}

#[test]
fn rejects_non_server_parent_ref() {
    let route = resource(vec![non_server_parent_ref("test-ns")]);
    assert!(!admission_accepts(&route));
}

#[test]
fn rejects_mixed_parent_ref() {
    let route = resource(vec![server_parent_ref("test-ns"), non_server_parent_ref("test-ns")]);
    assert!(!admission_accepts(&route));
    // order-independent
    let route = resource(vec![non_server_parent_ref("test-ns"), server_parent_ref("test-ns")]);
    assert!(!admission_accepts(&route));
}

#[test]
fn accepts_empty_parent_refs() {
    let route = RouteResource { hostnames: None, rules: Some(rules()), parent_refs: None };
    assert!(admission_accepts(&route));
}

#[test]
fn translates_hostnames_and_matches() {
    let route = RouteResource {
        hostnames: Some(vec!["*.example.com".to_string(), "www.example.com".to_string()]),
        rules: Some(vec![RouteRule {
            matches: Some(vec![ResourceRouteMatch {
                path: Some(ResourcePathMatch::PathPrefix { value: "/api".to_string() }),
                headers: Some(vec![ResourceHeaderMatch::Exact {
                    name: "x-tenant".to_string(),
                    value: "blue".to_string(),
                }]),
                query_params: Some(vec![ResourceQueryParamMatch::Exact {
                    name: "v".to_string(),
                    value: "2".to_string(),
                }]),
                method: Some("GET".to_string()),
            }]),
        }]),
        parent_refs: Some(vec![server_parent_ref("ns")]),
    };
    let binding = RouteBinding::from_resource(route).expect("resource must translate");
    assert_eq!(
        binding.route.hostnames,
        vec![
            Hostname::Suffix {
                reverse_labels: vec!["com".to_string(), "example".to_string()],
            },
            Hostname::Exact("www.example.com".to_string()),
        ]
    );
    assert_eq!(binding.route.matches.len(), 1);
    let m = &binding.route.matches[0];
    assert_eq!(m.path, Some(PathMatch::Prefix("/api".to_string())));
    assert_eq!(
        m.headers,
        vec![HeaderMatch { name: "x-tenant".to_string(), value: Value::Exact("blue".to_string()) }]
    );
    assert_eq!(m.method.as_ref().map(|m| m.as_str()), Some("GET"));
    assert_eq!(binding.parent_refs, vec![server_parent_ref("ns")]);
}

#[test]
fn rules_flatten_in_order() {
    let route = RouteResource {
        hostnames: None,
        rules: Some(vec![
            RouteRule {
                matches: Some(vec![ResourceRouteMatch {
                    path: Some(ResourcePathMatch::Exact { value: "/a".to_string() }),
                    headers: None,
                    query_params: None,
                    method: None,
                }]),
            },
            RouteRule { matches: None },
            RouteRule {
                matches: Some(vec![ResourceRouteMatch {
                    path: Some(ResourcePathMatch::Exact { value: "/b".to_string() }),
                    headers: None,
                    query_params: None,
                    method: None,
                }]),
            },
        ]),
        parent_refs: None,
    };
    let binding = RouteBinding::from_resource(route).expect("resource must translate");
    let paths: Vec<_> = binding.route.matches.iter().map(|m| m.path.clone()).collect();
    assert_eq!(
        paths,
        vec![
            Some(PathMatch::Exact("/a".to_string())),
            Some(PathMatch::Exact("/b".to_string())),
        ]
    );
}

#[test]
fn bad_path_pattern_fails_whole_resource() {
    let route = RouteResource {
        hostnames: None,
        rules: Some(vec![RouteRule {
            matches: Some(vec![ResourceRouteMatch {
                path: Some(ResourcePathMatch::RegularExpression { value: "foo(bar".to_string() }),
                headers: None,
                query_params: None,
                method: None,
            }]),
        }]),
        parent_refs: None,
    };
    assert_eq!(RouteBinding::from_resource(route), Err(ValidationError::PatternError));
}

#[test]
fn bad_header_pattern_fails_whole_resource() {
    let route = RouteResource {
        hostnames: None,
        rules: Some(vec![RouteRule {
            matches: Some(vec![ResourceRouteMatch {
                path: None,
                headers: Some(vec![ResourceHeaderMatch::RegularExpression {
                    name: "x-id".to_string(),
                    value: "[unclosed".to_string(),
                }]),
                query_params: None,
                method: None,
            }]),
        }]),
        parent_refs: None,
    };
    assert_eq!(RouteBinding::from_resource(route), Err(ValidationError::PatternError));
}

#[test]
fn bad_method_fails_whole_resource() {
    let route = RouteResource {
        hostnames: None,
        rules: Some(vec![RouteRule {
            matches: Some(vec![ResourceRouteMatch {
                path: None,
                headers: None,
                query_params: None,
                method: Some("GE T".to_string()),
            }]),
        }]),
        parent_refs: None,
    };
    assert_eq!(RouteBinding::from_resource(route), Err(ValidationError::InvalidMethod));
}

#[test]
fn selects_server_by_name() {
    let route = resource(vec![server_parent_ref("ns")]);
    let binding = RouteBinding::from_resource(route).expect("resource must translate");
    assert!(binding.selects_server("my-server"));
    assert!(!binding.selects_server("other-server"));
}

#[test]
fn does_not_select_through_non_server_refs() {
    let mut gateway_ref = non_server_parent_ref("ns");
    gateway_ref.name = "my-server".to_string();
    let route = resource(vec![gateway_ref]);
    let binding = RouteBinding::from_resource(route).expect("resource must translate");
    assert!(!binding.selects_server("my-server"));
}
