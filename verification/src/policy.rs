//! The resolved policy record for one workload port, as the reconciler
//! produces it and the encoder consumes it.

use vstd::prelude::*;
use crate::route::{HttpRoute, HttpRouteSpec};
use crate::strings::seq_view;

verus! {

/// An IP network in CIDR form: address and prefix length.
#[derive(Debug, Clone, Copy, PartialEq, Eq, Structural)]
pub enum IpNet {
    V4 { addr: u32, prefix_len: u8 },
    V6 { addr: u128, prefix_len: u8 },
}

/// A network grant: addresses inside `net` but in none of `except`.
#[derive(Debug, Clone, PartialEq)]
pub struct NetworkMatch {
    pub net: IpNet,
    pub except: Vec<IpNet>,
}

/// Mathematical form of a [`NetworkMatch`].
#[verifier::ext_equal]
pub struct NetworkMatchSpec {
    pub net: IpNet,
    pub except: Seq<IpNet>,
}

impl View for NetworkMatch {
    type V = NetworkMatchSpec;

    open spec fn view(&self) -> NetworkMatchSpec {
        NetworkMatchSpec { net: self.net, except: self.except@ }
    }
}

/// An identity a client may present over mesh TLS: a full name, or every
/// name under a suffix given as its labels.
#[derive(Debug, Clone, PartialEq)]
pub enum IdentityMatch {
    Exact(String),
    Suffix(Vec<String>),
}

/// Mathematical form of an [`IdentityMatch`].
#[verifier::ext_equal]
pub enum IdentityMatchSpec {
    Exact(Seq<char>),
    Suffix(Seq<Seq<char>>),
}

impl View for IdentityMatch {
    type V = IdentityMatchSpec;

    open spec fn view(&self) -> IdentityMatchSpec {
        match self {
            IdentityMatch::Exact(name) => IdentityMatchSpec::Exact(name@),
            IdentityMatch::Suffix(parts) => IdentityMatchSpec::Suffix(seq_view(parts@)),
        }
    }
}

/// How a client must authenticate.
#[derive(Debug, Clone, PartialEq)]
pub enum ClientAuthentication {
    /// No transport security asked.
    Unauthenticated,
    /// TLS required, identity not checked.
    TlsUnauthenticated,
    /// TLS required and the client identity must match one of the listed
    /// identities.
    TlsAuthenticated(Vec<IdentityMatch>),
}

/// Mathematical form of a [`ClientAuthentication`].
#[verifier::ext_equal]
pub enum ClientAuthenticationSpec {
    Unauthenticated,
    TlsUnauthenticated,
    TlsAuthenticated(Seq<IdentityMatchSpec>),
}

impl View for ClientAuthentication {
    type V = ClientAuthenticationSpec;

    open spec fn view(&self) -> ClientAuthenticationSpec {
        match self {
            ClientAuthentication::Unauthenticated => ClientAuthenticationSpec::Unauthenticated,
            ClientAuthentication::TlsUnauthenticated => ClientAuthenticationSpec::TlsUnauthenticated,
            ClientAuthentication::TlsAuthenticated(ids) => ClientAuthenticationSpec::TlsAuthenticated(
                ids@.map_values(|i: IdentityMatch| i@),
            ),
        }
    }
}

/// One authorization: the networks it grants and the authentication it
/// demands.
#[derive(Debug, Clone, PartialEq)]
pub struct ClientAuthorization {
    pub networks: Vec<NetworkMatch>,
    pub authentication: ClientAuthentication,
}

/// Mathematical form of a [`ClientAuthorization`].
#[verifier::ext_equal]
pub struct ClientAuthorizationSpec {
    pub networks: Seq<NetworkMatchSpec>,
    pub authentication: ClientAuthenticationSpec,
}

impl View for ClientAuthorization {
    type V = ClientAuthorizationSpec;

    open spec fn view(&self) -> ClientAuthorizationSpec {
        ClientAuthorizationSpec {
            networks: self.networks@.map_values(|n: NetworkMatch| n@),
            authentication: self.authentication@,
        }
    }
}

/// What a server's policy is named after: a default policy, or a named
/// server resource.
#[derive(Debug, Clone, PartialEq)]
pub enum ServerRef {
    Default(String),
    Server(String),
}

/// Mathematical form of a [`ServerRef`].
#[verifier::ext_equal]
pub enum ServerRefSpec {
    Default(Seq<char>),
    Server(Seq<char>),
}

impl View for ServerRef {
    type V = ServerRefSpec;

    open spec fn view(&self) -> ServerRefSpec {
        match self {
            ServerRef::Default(name) => ServerRefSpec::Default(name@),
            ServerRef::Server(name) => ServerRefSpec::Server(name@),
        }
    }
}

/// What an authorization is named after.
#[derive(Debug, Clone, PartialEq)]
pub enum AuthorizationRef {
    Default(String),
    ServerAuthorization(String),
    AuthorizationPolicy(String),
}

/// Mathematical form of an [`AuthorizationRef`].
#[verifier::ext_equal]
pub enum AuthorizationRefSpec {
    Default(Seq<char>),
    ServerAuthorization(Seq<char>),
    AuthorizationPolicy(Seq<char>),
}

impl View for AuthorizationRef {
    type V = AuthorizationRefSpec;

    open spec fn view(&self) -> AuthorizationRefSpec {
        match self {
            AuthorizationRef::Default(name) => AuthorizationRefSpec::Default(name@),
            AuthorizationRef::ServerAuthorization(name) => AuthorizationRefSpec::ServerAuthorization(
                name@,
            ),
            AuthorizationRef::AuthorizationPolicy(name) => AuthorizationRefSpec::AuthorizationPolicy(
                name@,
            ),
        }
    }
}

/// A span of time: whole seconds and a nanosecond remainder.
#[derive(Debug, Clone, Copy, PartialEq, Eq, Structural)]
pub struct Duration {
    pub secs: u64,
    pub nanos: u32,
}

/// The protocol a server's port speaks; only `Detect`, `Http1` and `Http2`
/// carry routes when encoded.
#[derive(Debug, Clone, Copy, PartialEq, Eq, Structural)]
pub enum ProxyProtocol {
    Detect { timeout: Duration },
    Http1,
    Http2,
    Grpc,
    Opaque,
    Tls,
}

/// The resolved policy record for one workload port. The two mappings are
/// held as sequences of pairs in a fixed order.
#[derive(Debug, Clone, PartialEq)]
pub struct InboundServer {
    pub reference: ServerRef,
    pub protocol: ProxyProtocol,
    pub authorizations: Vec<(AuthorizationRef, ClientAuthorization)>,
    pub http_routes: Vec<(String, HttpRoute)>,
}

/// Mathematical form of an [`InboundServer`].
#[verifier::ext_equal]
pub struct InboundServerSpec {
    pub reference: ServerRefSpec,
    pub protocol: ProxyProtocol,
    pub authorizations: Seq<(AuthorizationRefSpec, ClientAuthorizationSpec)>,
    pub http_routes: Seq<(Seq<char>, HttpRouteSpec)>,
}

impl View for InboundServer {
    type V = InboundServerSpec;

    open spec fn view(&self) -> InboundServerSpec {
        InboundServerSpec {
            reference: self.reference@,
            protocol: self.protocol,
            authorizations: self.authorizations@.map_values(
                |p: (AuthorizationRef, ClientAuthorization)| (p.0@, p.1@),
            ),
            http_routes: self.http_routes@.map_values(|p: (String, HttpRoute)| (p.0@, p.1@)),
        }
    }
}

} // verus!
