//! Tests of the wire encoder: the default-grant rule, the identity
//! partition, labels, and route placement per protocol.

use inbound_policy::encode::{
    to_authn, to_authz, to_server, Labels, WireAuthn, WireClients, WireProtocol,
};
use inbound_policy::policy::{
    AuthorizationRef, ClientAuthentication, ClientAuthorization, Duration, IdentityMatch,
    InboundServer, IpNet, NetworkMatch, ProxyProtocol, ServerRef,
};
use inbound_policy::route::{HttpRoute, HttpRouteMatch, PathMatch};

fn ten_slash_eight() -> IpNet {
    IpNet::V4 { addr: 0x0a000000, prefix_len: 8 }
}

fn sample_route() -> HttpRoute {
    HttpRoute {
        hostnames: vec![],
        matches: vec![HttpRouteMatch {
            path: Some(PathMatch::Exact("/foo".to_string())),
            headers: vec![],
            query_params: vec![],
            method: None,
        }],
    }
}

#[test]
fn empty_networks_fall_back_to_cluster_networks() {
    let authz = ClientAuthorization {
        networks: vec![],
        authentication: ClientAuthentication::Unauthenticated,
    };
    let cluster = vec![ten_slash_eight()];
    let wire = to_authz(&AuthorizationRef::Default("all".to_string()), &authz, &cluster);
    assert_eq!(
        wire.networks,
        vec![NetworkMatch { net: ten_slash_eight(), except: vec![] }]
    );
}

#[test]
fn explicit_networks_pass_through_verbatim() {
    let except = IpNet::V4 { addr: 0x0a010000, prefix_len: 16 };
    let authz = ClientAuthorization {
        networks: vec![NetworkMatch { net: ten_slash_eight(), except: vec![except] }],
        authentication: ClientAuthentication::Unauthenticated,
    };
    let cluster = vec![IpNet::V4 { addr: 0xc0a80000, prefix_len: 16 }];
    let wire = to_authz(&AuthorizationRef::Default("all".to_string()), &authz, &cluster);
    assert_eq!(
        wire.networks,
        vec![NetworkMatch { net: ten_slash_eight(), except: vec![except] }]
    );
}

#[test]
fn identity_partition_preserves_order() {
    let authn = ClientAuthentication::TlsAuthenticated(vec![
        IdentityMatch::Exact("foo.ns.sa".to_string()),
        IdentityMatch::Suffix(vec!["ns".to_string(), "sa".to_string()]),
        IdentityMatch::Exact("bar.ns.sa".to_string()),
    ]);
    let wire = to_authn(&authn);
    assert_eq!(
        wire,
        WireAuthn::MeshTls(WireClients::Identities {
            identities: vec!["foo.ns.sa".to_string(), "bar.ns.sa".to_string()],
            suffixes: vec![vec!["ns".to_string(), "sa".to_string()]],
        })
    );
}

#[test]
fn unauthenticated_and_tls_unauthenticated_encode_their_markers() {
    assert_eq!(to_authn(&ClientAuthentication::Unauthenticated), WireAuthn::Unauthenticated);
    assert_eq!(
        to_authn(&ClientAuthentication::TlsUnauthenticated),
        WireAuthn::MeshTls(WireClients::Unauthenticated)
    );
}

#[test]
fn authorization_labels_follow_the_reference_kind() {
    let authz = ClientAuthorization {
        networks: vec![],
        authentication: ClientAuthentication::Unauthenticated,
    };
    let cluster = vec![ten_slash_eight()];
    let default = to_authz(&AuthorizationRef::Default("all".to_string()), &authz, &cluster);
    assert_eq!(
        default.labels,
        Labels { group: "".to_string(), kind: "default".to_string(), name: "all".to_string() }
    );
    let sa = to_authz(
        &AuthorizationRef::ServerAuthorization("sa-1".to_string()),
        &authz,
        &cluster,
    );
    assert_eq!(
        sa.labels,
        Labels {
            group: "policy.linkerd.io".to_string(),
            kind: "serverauthorization".to_string(),
            name: "sa-1".to_string(),
        }
    );
    let ap = to_authz(
        &AuthorizationRef::AuthorizationPolicy("ap-1".to_string()),
        &authz,
        &cluster,
    );
    assert_eq!(
        ap.labels,
        Labels {
            group: "policy.linkerd.io".to_string(),
            kind: "authorizationpolicy".to_string(),
            name: "ap-1".to_string(),
        }
    );
}

#[test]
fn detect_carries_timeout_and_routes() {
    let srv = InboundServer {
        reference: ServerRef::Server("srv-8080".to_string()),
        protocol: ProxyProtocol::Detect { timeout: Duration { secs: 10, nanos: 0 } },
        authorizations: vec![],
        http_routes: vec![("route-a".to_string(), sample_route())],
    };
    let wire = to_server(&srv, &vec![ten_slash_eight()]);
    match wire.protocol {
        WireProtocol::Detect { timeout, http_routes } => {
            assert_eq!(timeout, Duration { secs: 10, nanos: 0 });
            assert_eq!(http_routes.len(), 1);
            let route = &http_routes[0];
            assert_eq!(
                route.metadata,
                Labels {
                    group: "gateway.networking.k8s.io".to_string(),
                    kind: "HTTPRoute".to_string(),
                    name: "route-a".to_string(),
                }
            );
            assert_eq!(route.rules.len(), 1);
            assert_eq!(route.rules[0].matches.len(), 1);
            assert!(route.rules[0].filters.is_empty());
        },
        other => panic!("detect must keep its routes, got {:?}", other),
    }
    assert_eq!(
        wire.labels,
        Labels {
            group: "policy.linkerd.io".to_string(),
            kind: "server".to_string(),
            name: "srv-8080".to_string(),
        }
    );
}

#[test]
fn opaque_protocols_carry_no_routes() {
    for protocol in [ProxyProtocol::Grpc, ProxyProtocol::Opaque, ProxyProtocol::Tls] {
        let srv = InboundServer {
            reference: ServerRef::Default("all-unauthenticated".to_string()),
            protocol,
            authorizations: vec![],
            http_routes: vec![("route-a".to_string(), sample_route())],
        };
        let wire = to_server(&srv, &vec![ten_slash_eight()]);
        match wire.protocol {
            WireProtocol::Grpc | WireProtocol::Opaque | WireProtocol::Tls => {},
            other => panic!("expected a routeless protocol, got {:?}", other),
        }
    }
}

#[test]
fn http1_carries_routes_and_default_labels() {
    let srv = InboundServer {
        reference: ServerRef::Default("all-unauthenticated".to_string()),
        protocol: ProxyProtocol::Http1,
        authorizations: vec![(
            AuthorizationRef::Default("all".to_string()),
            ClientAuthorization {
                networks: vec![],
                authentication: ClientAuthentication::Unauthenticated,
            },
        )],
        http_routes: vec![("route-a".to_string(), sample_route())],
    };
    let wire = to_server(&srv, &vec![ten_slash_eight()]);
    match wire.protocol {
        WireProtocol::Http1 { routes } => {
            assert_eq!(routes.len(), 1);
            // each encoded route repeats the record's authorizations
            assert_eq!(routes[0].authorizations.len(), 1);
        },
        other => panic!("http1 must keep its routes, got {:?}", other),
    }
    assert_eq!(wire.authorizations.len(), 1);
    assert_eq!(
        wire.labels,
        Labels {
            group: "".to_string(),
            kind: "default".to_string(),
            name: "all-unauthenticated".to_string(),
        }
    );
}
