//! The wire encoder: maps a resolved policy record onto the outbound wire
//! format, applying the default-grant and identity-partition rules.
//!
//! Encoding is total and deterministic: any well-formed record encodes, and
//! the whole result is pinned by [`encode_server`].

use vstd::prelude::*;
use crate::policy::{
    AuthorizationRef, AuthorizationRefSpec, ClientAuthentication, ClientAuthenticationSpec,
    ClientAuthorization, ClientAuthorizationSpec, Duration, IdentityMatch, IdentityMatchSpec,
    InboundServer, InboundServerSpec, IpNet, NetworkMatch, NetworkMatchSpec, ProxyProtocol,
    ServerRef, ServerRefSpec,
};
use crate::route::{
    HeaderMatch, HeaderMatchSpec, Hostname, HostnameSpec, HttpRoute, HttpRouteMatch,
    HttpRouteMatchSpec, HttpRouteSpec, PathMatch, PathMatchSpec, QueryParamMatch,
    QueryParamMatchSpec, Value, ValueSpec,
};
use crate::strings::seq_view;

verus! {

/// The labels that name a resource on the wire: group, kind and name.
#[derive(Debug, Clone, PartialEq)]
pub struct Labels {
    pub group: String,
    pub kind: String,
    pub name: String,
}

/// Mathematical form of [`Labels`].
#[verifier::ext_equal]
pub struct LabelsSpec {
    pub group: Seq<char>,
    pub kind: Seq<char>,
    pub name: Seq<char>,
}

impl View for Labels {
    type V = LabelsSpec;

    open spec fn view(&self) -> LabelsSpec {
        LabelsSpec { group: self.group@, kind: self.kind@, name: self.name@ }
    }
}

/// Wire authentication: no requirement, or mesh TLS with a client set.
#[derive(Debug, Clone, PartialEq)]
pub enum WireAuthn {
    Unauthenticated,
    MeshTls(WireClients),
}

/// The clients a mesh-TLS requirement admits.
#[derive(Debug, Clone, PartialEq)]
pub enum WireClients {
    /// Any client with TLS; identity not checked.
    Unauthenticated,
    /// Clients whose identity matches an exact name or a suffix.
    Identities { identities: Vec<String>, suffixes: Vec<Vec<String>> },
}

/// Mathematical form of [`WireAuthn`].
#[verifier::ext_equal]
pub enum WireAuthnSpec {
    Unauthenticated,
    MeshTls(WireClientsSpec),
}

/// Mathematical form of [`WireClients`].
#[verifier::ext_equal]
pub enum WireClientsSpec {
    Unauthenticated,
    Identities { identities: Seq<Seq<char>>, suffixes: Seq<Seq<Seq<char>>> },
}

impl View for WireClients {
    type V = WireClientsSpec;

    open spec fn view(&self) -> WireClientsSpec {
        match self {
            WireClients::Unauthenticated => WireClientsSpec::Unauthenticated,
            WireClients::Identities { identities, suffixes } => WireClientsSpec::Identities {
                identities: seq_view(identities@),
                suffixes: suffixes@.map_values(|v: Vec<String>| seq_view(v@)),
            },
        }
    }
}

impl View for WireAuthn {
    type V = WireAuthnSpec;

    open spec fn view(&self) -> WireAuthnSpec {
        match self {
            WireAuthn::Unauthenticated => WireAuthnSpec::Unauthenticated,
            WireAuthn::MeshTls(clients) => WireAuthnSpec::MeshTls(clients@),
        }
    }
}

/// One encoded authorization.
#[derive(Debug, Clone, PartialEq)]
pub struct WireAuthz {
    pub networks: Vec<NetworkMatch>,
    pub labels: Labels,
    pub authentication: WireAuthn,
}

/// Mathematical form of [`WireAuthz`].
#[verifier::ext_equal]
pub struct WireAuthzSpec {
    pub networks: Seq<NetworkMatchSpec>,
    pub labels: LabelsSpec,
    pub authentication: WireAuthnSpec,
}

impl View for WireAuthz {
    type V = WireAuthzSpec;

    open spec fn view(&self) -> WireAuthzSpec {
        WireAuthzSpec {
            networks: self.networks@.map_values(|n: NetworkMatch| n@),
            labels: self.labels@,
            authentication: self.authentication@,
        }
    }
}

/// Wire path matcher; a regular expression is carried as its source text.
#[derive(Debug, Clone, PartialEq)]
pub enum WirePathMatch {
    Exact(String),
    Prefix(String),
    Regex(String),
}

impl View for WirePathMatch {
    type V = PathMatchSpec;

    open spec fn view(&self) -> PathMatchSpec {
        match self {
            WirePathMatch::Exact(s) => PathMatchSpec::Exact(s@),
            WirePathMatch::Prefix(s) => PathMatchSpec::Prefix(s@),
            WirePathMatch::Regex(s) => PathMatchSpec::Regex(s@),
        }
    }
}

/// Wire header or query-parameter value matcher.
#[derive(Debug, Clone, PartialEq)]
pub enum WireValue {
    Exact(String),
    Regex(String),
}

impl View for WireValue {
    type V = ValueSpec;

    open spec fn view(&self) -> ValueSpec {
        match self {
            WireValue::Exact(s) => ValueSpec::Exact(s@),
            WireValue::Regex(s) => ValueSpec::Regex(s@),
        }
    }
}

/// Wire header matcher.
#[derive(Debug, Clone, PartialEq)]
pub struct WireHeaderMatch {
    pub name: String,
    pub value: WireValue,
}

impl View for WireHeaderMatch {
    type V = HeaderMatchSpec;

    open spec fn view(&self) -> HeaderMatchSpec {
        HeaderMatchSpec { name: self.name@, value: self.value@ }
    }
}

/// Wire query-parameter matcher.
#[derive(Debug, Clone, PartialEq)]
pub struct WireQueryParamMatch {
    pub name: String,
    pub value: WireValue,
}

impl View for WireQueryParamMatch {
    type V = QueryParamMatchSpec;

    open spec fn view(&self) -> QueryParamMatchSpec {
        QueryParamMatchSpec { name: self.name@, value: self.value@ }
    }
}

/// Wire form of one match conjunction; the method is carried as its token.
#[derive(Debug, Clone, PartialEq)]
pub struct WireRouteMatch {
    pub path: Option<WirePathMatch>,
    pub headers: Vec<WireHeaderMatch>,
    pub query_params: Vec<WireQueryParamMatch>,
    pub method: Option<String>,
}

impl View for WireRouteMatch {
    type V = HttpRouteMatchSpec;

    open spec fn view(&self) -> HttpRouteMatchSpec {
        HttpRouteMatchSpec {
            path: match self.path {
                Some(p) => Some(p@),
                None => None,
            },
            headers: self.headers@.map_values(|h: WireHeaderMatch| h@),
            query_params: self.query_params@.map_values(|q: WireQueryParamMatch| q@),
            method: match self.method {
                Some(m) => Some(m@),
                None => None,
            },
        }
    }
}

/// A route filter. None is modeled yet; the wire schema reserves the field
/// and every rule carries an empty filter list.
#[derive(Debug, Clone, Copy, PartialEq, Eq, Structural)]
pub struct WireFilter {}

/// One encoded rule: the route's matches and its (empty) filter list.
#[derive(Debug, Clone, PartialEq)]
pub struct WireRule {
    pub matches: Vec<WireRouteMatch>,
    pub filters: Vec<WireFilter>,
}

/// Mathematical form of [`WireRule`].
#[verifier::ext_equal]
pub struct WireRuleSpec {
    pub matches: Seq<HttpRouteMatchSpec>,
    pub filters: Seq<WireFilter>,
}

impl View for WireRule {
    type V = WireRuleSpec;

    open spec fn view(&self) -> WireRuleSpec {
        WireRuleSpec {
            matches: self.matches@.map_values(|m: WireRouteMatch| m@),
            filters: self.filters@,
        }
    }
}

/// One encoded route.
#[derive(Debug, Clone, PartialEq)]
pub struct WireHttpRoute {
    pub metadata: Labels,
    pub hosts: Vec<Hostname>,
    pub authorizations: Vec<WireAuthz>,
    pub rules: Vec<WireRule>,
}

/// Mathematical form of [`WireHttpRoute`].
#[verifier::ext_equal]
pub struct WireHttpRouteSpec {
    pub metadata: LabelsSpec,
    pub hosts: Seq<HostnameSpec>,
    pub authorizations: Seq<WireAuthzSpec>,
    pub rules: Seq<WireRuleSpec>,
}

impl View for WireHttpRoute {
    type V = WireHttpRouteSpec;

    open spec fn view(&self) -> WireHttpRouteSpec {
        WireHttpRouteSpec {
            metadata: self.metadata@,
            hosts: self.hosts@.map_values(|h: Hostname| h@),
            authorizations: self.authorizations@.map_values(|a: WireAuthz| a@),
            rules: self.rules@.map_values(|r: WireRule| r@),
        }
    }
}

/// The protocol part of an encoded record; only the first three variants
/// carry routes.
#[derive(Debug, Clone, PartialEq)]
pub enum WireProtocol {
    Detect { timeout: Duration, http_routes: Vec<WireHttpRoute> },
    Http1 { routes: Vec<WireHttpRoute> },
    Http2 { routes: Vec<WireHttpRoute> },
    Grpc,
    Opaque,
    Tls,
}

/// Mathematical form of [`WireProtocol`].
#[verifier::ext_equal]
pub enum WireProtocolSpec {
    Detect { timeout: Duration, http_routes: Seq<WireHttpRouteSpec> },
    Http1 { routes: Seq<WireHttpRouteSpec> },
    Http2 { routes: Seq<WireHttpRouteSpec> },
    Grpc,
    Opaque,
    Tls,
}

impl View for WireProtocol {
    type V = WireProtocolSpec;

    open spec fn view(&self) -> WireProtocolSpec {
        match self {
            WireProtocol::Detect { timeout, http_routes } => WireProtocolSpec::Detect {
                timeout: *timeout,
                http_routes: http_routes@.map_values(|r: WireHttpRoute| r@),
            },
            WireProtocol::Http1 { routes } => WireProtocolSpec::Http1 {
                routes: routes@.map_values(|r: WireHttpRoute| r@),
            },
            WireProtocol::Http2 { routes } => WireProtocolSpec::Http2 {
                routes: routes@.map_values(|r: WireHttpRoute| r@),
            },
            WireProtocol::Grpc => WireProtocolSpec::Grpc,
            WireProtocol::Opaque => WireProtocolSpec::Opaque,
            WireProtocol::Tls => WireProtocolSpec::Tls,
        }
    }
}

/// One fully encoded policy record.
#[derive(Debug, Clone, PartialEq)]
pub struct WireServer {
    pub protocol: WireProtocol,
    pub authorizations: Vec<WireAuthz>,
    pub labels: Labels,
}

/// Mathematical form of [`WireServer`].
#[verifier::ext_equal]
pub struct WireServerSpec {
    pub protocol: WireProtocolSpec,
    pub authorizations: Seq<WireAuthzSpec>,
    pub labels: LabelsSpec,
}

impl View for WireServer {
    type V = WireServerSpec;

    open spec fn view(&self) -> WireServerSpec {
        WireServerSpec {
            protocol: self.protocol@,
            authorizations: self.authorizations@.map_values(|a: WireAuthz| a@),
            labels: self.labels@,
        }
    }
}

/// The labels under which a server's policy is reported.
pub open spec fn server_labels(r: ServerRefSpec) -> LabelsSpec {
    match r {
        ServerRefSpec::Default(name) => LabelsSpec { group: ""@, kind: "default"@, name },
        ServerRefSpec::Server(name) => LabelsSpec {
            group: "policy.linkerd.io"@,
            kind: "server"@,
            name,
        },
    }
}

/// The labels under which an authorization is reported.
pub open spec fn authz_labels(r: AuthorizationRefSpec) -> LabelsSpec {
    match r {
        AuthorizationRefSpec::Default(name) => LabelsSpec { group: ""@, kind: "default"@, name },
        AuthorizationRefSpec::ServerAuthorization(name) => LabelsSpec {
            group: "policy.linkerd.io"@,
            kind: "serverauthorization"@,
            name,
        },
        AuthorizationRefSpec::AuthorizationPolicy(name) => LabelsSpec {
            group: "policy.linkerd.io"@,
            kind: "authorizationpolicy"@,
            name,
        },
    }
}

/// The implicit grant used when an authorization names no networks: every
/// cluster network, with no exceptions.
pub open spec fn default_networks(cluster: Seq<IpNet>) -> Seq<NetworkMatchSpec> {
    cluster.map_values(|n: IpNet| NetworkMatchSpec { net: n, except: Seq::<IpNet>::empty() })
}

/// The networks an authorization encodes to: its own list verbatim, or the
/// implicit cluster-wide grant when the list is empty.
pub open spec fn encode_networks(networks: Seq<NetworkMatchSpec>, cluster: Seq<IpNet>) -> Seq<
    NetworkMatchSpec,
> {
    if networks.len() == 0 {
        default_networks(cluster)
    } else {
        networks
    }
}

/// The exact names among an identity set, in input order.
pub open spec fn exact_identities(ids: Seq<IdentityMatchSpec>) -> Seq<Seq<char>> {
    ids.filter(|i: IdentityMatchSpec| i is Exact).map_values(
        |i: IdentityMatchSpec| i->Exact_0,
    )
}

/// The suffix patterns among an identity set, in input order.
pub open spec fn suffix_identities(ids: Seq<IdentityMatchSpec>) -> Seq<Seq<Seq<char>>> {
    ids.filter(|i: IdentityMatchSpec| i is Suffix).map_values(
        |i: IdentityMatchSpec| i->Suffix_0,
    )
}

/// The wire form of a client-authentication demand.
pub open spec fn encode_authn(a: ClientAuthenticationSpec) -> WireAuthnSpec {
    match a {
        ClientAuthenticationSpec::Unauthenticated => WireAuthnSpec::Unauthenticated,
        ClientAuthenticationSpec::TlsUnauthenticated => WireAuthnSpec::MeshTls(
            WireClientsSpec::Unauthenticated,
        ),
        ClientAuthenticationSpec::TlsAuthenticated(ids) => WireAuthnSpec::MeshTls(
            WireClientsSpec::Identities {
                identities: exact_identities(ids),
                suffixes: suffix_identities(ids),
            },
        ),
    }
}

/// The wire form of one authorization.
pub open spec fn encode_authz(
    r: AuthorizationRefSpec,
    a: ClientAuthorizationSpec,
    cluster: Seq<IpNet>,
) -> WireAuthzSpec {
    WireAuthzSpec {
        networks: encode_networks(a.networks, cluster),
        labels: authz_labels(r),
        authentication: encode_authn(a.authentication),
    }
}

/// The wire form of a record's authorization list, in record order.
pub open spec fn encode_authzs(
    authzs: Seq<(AuthorizationRefSpec, ClientAuthorizationSpec)>,
    cluster: Seq<IpNet>,
) -> Seq<WireAuthzSpec> {
    authzs.map_values(
        |p: (AuthorizationRefSpec, ClientAuthorizationSpec)| encode_authz(p.0, p.1, cluster),
    )
}

/// The metadata naming one encoded route.
pub open spec fn route_metadata(name: Seq<char>) -> LabelsSpec {
    LabelsSpec { group: "gateway.networking.k8s.io"@, kind: "HTTPRoute"@, name }
}

/// The wire form of one named route: its metadata, hosts, the record's
/// authorizations, and a single rule holding all the route's matches with an
/// empty filter list.
pub open spec fn encode_route(
    name: Seq<char>,
    route: HttpRouteSpec,
    authzs: Seq<(AuthorizationRefSpec, ClientAuthorizationSpec)>,
    cluster: Seq<IpNet>,
) -> WireHttpRouteSpec {
    WireHttpRouteSpec {
        metadata: route_metadata(name),
        hosts: route.hostnames,
        authorizations: encode_authzs(authzs, cluster),
        rules: seq![
            WireRuleSpec { matches: route.matches, filters: Seq::<WireFilter>::empty() },
        ],
    }
}

/// The wire form of a record's route list, in record order.
pub open spec fn encode_routes(
    routes: Seq<(Seq<char>, HttpRouteSpec)>,
    authzs: Seq<(AuthorizationRefSpec, ClientAuthorizationSpec)>,
    cluster: Seq<IpNet>,
) -> Seq<WireHttpRouteSpec> {
    routes.map_values(|p: (Seq<char>, HttpRouteSpec)| encode_route(p.0, p.1, authzs, cluster))
}

/// The protocol part of a record's encoding; routes ride only on `Detect`,
/// `Http1` and `Http2`.
pub open spec fn encode_protocol(s: InboundServerSpec, cluster: Seq<IpNet>) -> WireProtocolSpec {
    match s.protocol {
        ProxyProtocol::Detect { timeout } => WireProtocolSpec::Detect {
            timeout,
            http_routes: encode_routes(s.http_routes, s.authorizations, cluster),
        },
        ProxyProtocol::Http1 => WireProtocolSpec::Http1 {
            routes: encode_routes(s.http_routes, s.authorizations, cluster),
        },
        ProxyProtocol::Http2 => WireProtocolSpec::Http2 {
            routes: encode_routes(s.http_routes, s.authorizations, cluster),
        },
        ProxyProtocol::Grpc => WireProtocolSpec::Grpc,
        ProxyProtocol::Opaque => WireProtocolSpec::Opaque,
        ProxyProtocol::Tls => WireProtocolSpec::Tls,
    }
}

/// The full encoding of one policy record.
pub open spec fn encode_server(s: InboundServerSpec, cluster: Seq<IpNet>) -> WireServerSpec {
    WireServerSpec {
        protocol: encode_protocol(s, cluster),
        authorizations: encode_authzs(s.authorizations, cluster),
        labels: server_labels(s.reference),
    }
}

/// The networks a vector holds, copied.
fn copy_nets(v: &Vec<IpNet>) -> (r: Vec<IpNet>)
    ensures
        r@ == v@,
{
    let mut out: Vec<IpNet> = Vec::new();
    let mut i: usize = 0;
    while i < v.len()
        invariant
            i <= v.len(),
            out@ =~= v@.take(i as int),
        decreases v.len() - i,
    {
        out.push(v[i]);
        proof {
            assert(out@ =~= v@.take(i as int + 1));
        }
        i += 1;
    }
    proof {
        assert(v@.take(v@.len() as int) =~= v@);
    }
    out
}

/// The implicit cluster-wide grant list: one entry per cluster network, with
/// no exceptions.
fn default_network_list(cluster: &Vec<IpNet>) -> (r: Vec<NetworkMatch>)
    ensures
        r@.map_values(|n: NetworkMatch| n@) == default_networks(cluster@),
{
    let mut out: Vec<NetworkMatch> = Vec::new();
    let mut i: usize = 0;
    while i < cluster.len()
        invariant
            i <= cluster.len(),
            out@.len() == i,
            forall|k: int|
                0 <= k < i ==> out@[k]@ == (NetworkMatchSpec {
                    net: cluster@[k],
                    except: Seq::<IpNet>::empty(),
                }),
        decreases cluster.len() - i,
    {
        out.push(NetworkMatch { net: cluster[i], except: Vec::new() });
        i += 1;
    }
    proof {
        assert(out@.map_values(|n: NetworkMatch| n@) =~~= default_networks(cluster@));
    }
    out
}

/// The networks one authorization encodes to.
fn to_networks(networks: &Vec<NetworkMatch>, cluster: &Vec<IpNet>) -> (r: Vec<NetworkMatch>)
    ensures
        r@.map_values(|n: NetworkMatch| n@) == encode_networks(
            networks@.map_values(|n: NetworkMatch| n@),
            cluster@,
        ),
{
    if networks.len() == 0 {
        default_network_list(cluster)
    } else {
        let mut out: Vec<NetworkMatch> = Vec::new();
        let mut i: usize = 0;
        while i < networks.len()
            invariant
                i <= networks.len(),
                out@.len() == i,
                forall|k: int| 0 <= k < i ==> out@[k]@ == networks@[k]@,
            decreases networks.len() - i,
        {
            let n = &networks[i];
            out.push(NetworkMatch { net: n.net, except: copy_nets(&n.except) });
            i += 1;
        }
        proof {
            assert(out@.map_values(|n: NetworkMatch| n@) =~~= networks@.map_values(
                |n: NetworkMatch| n@,
            ));
        }
        out
    }
}

/// The wire form of a client-authentication demand; a TLS-authenticated
/// identity set is partitioned into exact names and suffix patterns, each in
/// input order.
pub fn to_authn(authentication: &ClientAuthentication) -> (r: WireAuthn)
    ensures
        r@ == encode_authn(authentication@),
{
    match authentication {
        ClientAuthentication::Unauthenticated => WireAuthn::Unauthenticated,
        ClientAuthentication::TlsUnauthenticated => WireAuthn::MeshTls(
            WireClients::Unauthenticated,
        ),
        ClientAuthentication::TlsAuthenticated(ids) => {
            let ghost ids_v: Seq<IdentityMatchSpec> = ids@.map_values(|i: IdentityMatch| i@);
            let mut identities: Vec<String> = Vec::new();
            let mut suffixes: Vec<Vec<String>> = Vec::new();
            let mut i: usize = 0;
            while i < ids.len()
                invariant
                    i <= ids.len(),
                    ids_v == ids@.map_values(|i: IdentityMatch| i@),
                    ids_v.len() == ids@.len(),
                    seq_view(identities@) =~= exact_identities(ids_v.take(i as int)),
                    suffixes@.map_values(|v: Vec<String>| seq_view(v@)) =~= suffix_identities(
                        ids_v.take(i as int),
                    ),
                decreases ids.len() - i,
            {
                let ghost pre = ids_v.take(i as int);
                let ghost e = ids_v[i as int];
                proof {
                    assert(e == ids@[i as int]@);
                    assert(ids_v.take(i as int + 1) =~= pre.push(e));
                    lemma_filter_push(pre, e);
                }
                match &ids[i] {
                    IdentityMatch::Exact(name) => {
                        identities.push(name.clone());
                        proof {
                            assert(e is Exact && e->Exact_0 == name@);
                            assert(exact_identities(pre.push(e)) =~= exact_identities(pre).push(
                                name@,
                            ));
                            assert(suffix_identities(pre.push(e)) =~= suffix_identities(pre));
                            assert(seq_view(identities@) =~= exact_identities(
                                ids_v.take(i as int + 1),
                            ));
                        }
                    },
                    IdentityMatch::Suffix(parts) => {
                        let copied = crate::strings::copy_strings(parts);
                        suffixes.push(copied);
                        proof {
                            assert(e is Suffix && e->Suffix_0 == seq_view(parts@));
                            assert(suffix_identities(pre.push(e)) =~= suffix_identities(pre).push(
                                seq_view(parts@),
                            ));
                            assert(exact_identities(pre.push(e)) =~= exact_identities(pre));
                            assert(suffixes@.map_values(|v: Vec<String>| seq_view(v@))
                                =~= suffix_identities(ids_v.take(i as int + 1)));
                        }
                    },
                }
                i += 1;
            }
            proof {
                assert(ids_v.take(ids_v.len() as int) =~= ids_v);
            }
            WireAuthn::MeshTls(WireClients::Identities { identities, suffixes })
        },
    }
}

/// The labels naming one authorization.
fn authz_ref_labels(reference: &AuthorizationRef) -> (r: Labels)
    ensures
        r@ == authz_labels(reference@),
{
    match reference {
        AuthorizationRef::Default(name) => Labels {
            group: "".to_owned(),
            kind: "default".to_owned(),
            name: name.clone(),
        },
        AuthorizationRef::ServerAuthorization(name) => Labels {
            group: "policy.linkerd.io".to_owned(),
            kind: "serverauthorization".to_owned(),
            name: name.clone(),
        },
        AuthorizationRef::AuthorizationPolicy(name) => Labels {
            group: "policy.linkerd.io".to_owned(),
            kind: "authorizationpolicy".to_owned(),
            name: name.clone(),
        },
    }
}

/// The labels naming a server's policy.
fn server_ref_labels(reference: &ServerRef) -> (r: Labels)
    ensures
        r@ == server_labels(reference@),
{
    match reference {
        ServerRef::Default(name) => Labels {
            group: "".to_owned(),
            kind: "default".to_owned(),
            name: name.clone(),
        },
        ServerRef::Server(name) => Labels {
            group: "policy.linkerd.io".to_owned(),
            kind: "server".to_owned(),
            name: name.clone(),
        },
    }
}

/// Encode one authorization: its networks (or the implicit cluster-wide
/// grant), its labels and its authentication demand.
pub fn to_authz(
    reference: &AuthorizationRef,
    authz: &ClientAuthorization,
    cluster_networks: &Vec<IpNet>,
) -> (r: WireAuthz)
    ensures
        r@ == encode_authz(reference@, authz@, cluster_networks@),
{
    let networks = to_networks(&authz.networks, cluster_networks);
    let labels = authz_ref_labels(reference);
    let authentication = to_authn(&authz.authentication);
    let r = WireAuthz { networks, labels, authentication };
    proof {
        assert(r@ =~~= encode_authz(reference@, authz@, cluster_networks@));
    }
    r
}

/// Encode a record's whole authorization list, in record order.
fn to_authz_list(
    authzs: &Vec<(AuthorizationRef, ClientAuthorization)>,
    cluster_networks: &Vec<IpNet>,
) -> (r: Vec<WireAuthz>)
    ensures
        r@.map_values(|a: WireAuthz| a@) == encode_authzs(
            authzs@.map_values(|p: (AuthorizationRef, ClientAuthorization)| (p.0@, p.1@)),
            cluster_networks@,
        ),
{
    let ghost target = encode_authzs(
        authzs@.map_values(|p: (AuthorizationRef, ClientAuthorization)| (p.0@, p.1@)),
        cluster_networks@,
    );
    let mut out: Vec<WireAuthz> = Vec::new();
    let mut i: usize = 0;
    while i < authzs.len()
        invariant
            i <= authzs.len(),
            out@.len() == i,
            target == encode_authzs(
                authzs@.map_values(|p: (AuthorizationRef, ClientAuthorization)| (p.0@, p.1@)),
                cluster_networks@,
            ),
            target.len() == authzs@.len(),
            forall|k: int| 0 <= k < i ==> out@[k]@ == target[k],
        decreases authzs.len() - i,
    {
        let pair = &authzs[i];
        out.push(to_authz(&pair.0, &pair.1, cluster_networks));
        i += 1;
    }
    proof {
        assert(out@.map_values(|a: WireAuthz| a@) =~= target);
    }
    out
}

/// The wire copy of one hostname rule.
pub fn into_host_match(hostname: &Hostname) -> (r: Hostname)
    ensures
        r@ == hostname@,
{
    match hostname {
        Hostname::Exact(host) => Hostname::Exact(host.clone()),
        Hostname::Suffix { reverse_labels } => Hostname::Suffix {
            reverse_labels: crate::strings::copy_strings(reverse_labels),
        },
    }
}

/// The wire form of a path matcher; a regular expression becomes its source
/// text.
pub fn into_path_match(pm: &PathMatch) -> (r: WirePathMatch)
    ensures
        r@ == pm@,
{
    match pm {
        PathMatch::Exact(path) => WirePathMatch::Exact(path.clone()),
        PathMatch::Prefix(pfx) => WirePathMatch::Prefix(pfx.clone()),
        PathMatch::Regex(re) => WirePathMatch::Regex(re.as_str().to_owned()),
    }
}

/// The wire form of a value matcher.
fn into_value(value: &Value) -> (r: WireValue)
    ensures
        r@ == value@,
{
    match value {
        Value::Exact(v) => WireValue::Exact(v.clone()),
        Value::Regex(re) => WireValue::Regex(re.as_str().to_owned()),
    }
}

/// The wire form of a header matcher.
pub fn into_header_match(header: &HeaderMatch) -> (r: WireHeaderMatch)
    ensures
        r@ == header@,
{
    WireHeaderMatch { name: header.name.clone(), value: into_value(&header.value) }
}

/// The wire form of a query-parameter matcher.
pub fn into_query_param_match(query_param: &QueryParamMatch) -> (r: WireQueryParamMatch)
    ensures
        r@ == query_param@,
{
    WireQueryParamMatch { name: query_param.name.clone(), value: into_value(&query_param.value) }
}

/// The wire form of one match conjunction.
pub fn into_route_match(m: &HttpRouteMatch) -> (r: WireRouteMatch)
    ensures
        r@ == m@,
{
    let path = match &m.path {
        Some(p) => Some(into_path_match(p)),
        None => None,
    };
    let mut headers: Vec<WireHeaderMatch> = Vec::new();
    let mut i: usize = 0;
    while i < m.headers.len()
        invariant
            i <= m.headers.len(),
            headers@.len() == i,
            forall|k: int| 0 <= k < i ==> headers@[k]@ == m.headers@[k]@,
        decreases m.headers.len() - i,
    {
        headers.push(into_header_match(&m.headers[i]));
        i += 1;
    }
    let mut query_params: Vec<WireQueryParamMatch> = Vec::new();
    let mut j: usize = 0;
    while j < m.query_params.len()
        invariant
            j <= m.query_params.len(),
            query_params@.len() == j,
            forall|k: int| 0 <= k < j ==> query_params@[k]@ == m.query_params@[k]@,
        decreases m.query_params.len() - j,
    {
        query_params.push(into_query_param_match(&m.query_params[j]));
        j += 1;
    }
    let method = match &m.method {
        Some(mm) => Some(mm.as_str().to_owned()),
        None => None,
    };
    let r = WireRouteMatch { path, headers, query_params, method };
    proof {
        assert(r@ =~~= m@);
    }
    r
}

/// Encode one named route against the record's authorizations.
pub fn to_http_route(
    name: &str,
    route: &HttpRoute,
    srv: &InboundServer,
    cluster_networks: &Vec<IpNet>,
) -> (r: WireHttpRoute)
    ensures
        r@ == encode_route(name@, route@, srv@.authorizations, cluster_networks@),
{
    let metadata = Labels {
        group: "gateway.networking.k8s.io".to_owned(),
        kind: "HTTPRoute".to_owned(),
        name: name.to_owned(),
    };
    let mut hosts: Vec<Hostname> = Vec::new();
    let mut i: usize = 0;
    while i < route.hostnames.len()
        invariant
            i <= route.hostnames.len(),
            hosts@.len() == i,
            forall|k: int| 0 <= k < i ==> hosts@[k]@ == route.hostnames@[k]@,
        decreases route.hostnames.len() - i,
    {
        hosts.push(into_host_match(&route.hostnames[i]));
        i += 1;
    }
    let authorizations = to_authz_list(&srv.authorizations, cluster_networks);
    let mut matches: Vec<WireRouteMatch> = Vec::new();
    let mut j: usize = 0;
    while j < route.matches.len()
        invariant
            j <= route.matches.len(),
            matches@.len() == j,
            forall|k: int| 0 <= k < j ==> matches@[k]@ == route.matches@[k]@,
        decreases route.matches.len() - j,
    {
        matches.push(into_route_match(&route.matches[j]));
        j += 1;
    }
    let mut rules: Vec<WireRule> = Vec::new();
    rules.push(WireRule { matches, filters: Vec::new() });
    let r = WireHttpRoute { metadata, hosts, authorizations, rules };
    proof {
        assert(r@ =~~= encode_route(name@, route@, srv@.authorizations, cluster_networks@));
    }
    r
}

/// Encode a record's whole route list, in record order.
fn to_route_list(srv: &InboundServer, cluster_networks: &Vec<IpNet>) -> (r: Vec<WireHttpRoute>)
    ensures
        r@.map_values(|x: WireHttpRoute| x@) == encode_routes(
            srv@.http_routes,
            srv@.authorizations,
            cluster_networks@,
        ),
{
    let ghost target = encode_routes(srv@.http_routes, srv@.authorizations, cluster_networks@);
    let mut out: Vec<WireHttpRoute> = Vec::new();
    let mut i: usize = 0;
    while i < srv.http_routes.len()
        invariant
            i <= srv.http_routes.len(),
            out@.len() == i,
            target == encode_routes(srv@.http_routes, srv@.authorizations, cluster_networks@),
            target.len() == srv.http_routes@.len(),
            forall|k: int| 0 <= k < i ==> out@[k]@ == target[k],
        decreases srv.http_routes.len() - i,
    {
        let pair = &srv.http_routes[i];
        out.push(to_http_route(pair.0.as_str(), &pair.1, srv, cluster_networks));
        i += 1;
    }
    proof {
        assert(out@.map_values(|x: WireHttpRoute| x@) =~= target);
    }
    out
}

/// Encode one policy record: protocol (with routes where the protocol
/// carries them), authorizations and labels.
pub fn to_server(srv: &InboundServer, cluster_networks: &Vec<IpNet>) -> (r: WireServer)
    ensures
        r@ == encode_server(srv@, cluster_networks@),
{
    let protocol = match &srv.protocol {
        ProxyProtocol::Detect { timeout } => WireProtocol::Detect {
            timeout: *timeout,
            http_routes: to_route_list(srv, cluster_networks),
        },
        ProxyProtocol::Http1 => WireProtocol::Http1 {
            routes: to_route_list(srv, cluster_networks),
        },
        ProxyProtocol::Http2 => WireProtocol::Http2 {
            routes: to_route_list(srv, cluster_networks),
        },
        ProxyProtocol::Grpc => WireProtocol::Grpc,
        ProxyProtocol::Opaque => WireProtocol::Opaque,
        ProxyProtocol::Tls => WireProtocol::Tls,
    };
    let authorizations = to_authz_list(&srv.authorizations, cluster_networks);
    let labels = server_ref_labels(&srv.reference);
    let r = WireServer { protocol, authorizations, labels };
    proof {
        assert(r@ =~~= encode_server(srv@, cluster_networks@));
    }
    r
}

/// Partitioning a TLS-authenticated identity set loses nothing: the exact
/// names and the suffix patterns together count the whole input, and each
/// side keeps input order by construction.
pub proof fn lemma_identity_partition(ids: Seq<IdentityMatchSpec>)
    ensures
        exact_identities(ids).len() + suffix_identities(ids).len() == ids.len(),
    decreases ids.len(),
{
    reveal(Seq::filter);
    if ids.len() == 0 {
    } else {
        lemma_identity_partition(ids.drop_last());
        assert(ids =~= ids.drop_last().push(ids.last()));
        lemma_filter_push(ids.drop_last(), ids.last());
    }
}

/// Filtering a sequence extended by one element keeps the old result and
/// appends the element exactly when it passes.
proof fn lemma_filter_push(s: Seq<IdentityMatchSpec>, e: IdentityMatchSpec)
    ensures
        s.push(e).filter(|i: IdentityMatchSpec| i is Exact) == if e is Exact {
            s.filter(|i: IdentityMatchSpec| i is Exact).push(e)
        } else {
            s.filter(|i: IdentityMatchSpec| i is Exact)
        },
        s.push(e).filter(|i: IdentityMatchSpec| i is Suffix) == if e is Suffix {
            s.filter(|i: IdentityMatchSpec| i is Suffix).push(e)
        } else {
            s.filter(|i: IdentityMatchSpec| i is Suffix)
        },
{
    reveal(Seq::filter);
    assert(s.push(e).drop_last() =~= s);
    assert(s.push(e).last() == e);
    if e is Exact {
        assert(s.push(e).filter(|i: IdentityMatchSpec| i is Exact) =~= s.filter(
            |i: IdentityMatchSpec| i is Exact,
        ).push(e));
    } else {
        assert(s.push(e).filter(|i: IdentityMatchSpec| i is Exact) =~= s.filter(
            |i: IdentityMatchSpec| i is Exact,
        ));
    }
    if e is Suffix {
        assert(s.push(e).filter(|i: IdentityMatchSpec| i is Suffix) =~= s.filter(
            |i: IdentityMatchSpec| i is Suffix,
        ).push(e));
    } else {
        assert(s.push(e).filter(|i: IdentityMatchSpec| i is Suffix) =~= s.filter(
            |i: IdentityMatchSpec| i is Suffix,
        ));
    }
}

} // verus!
