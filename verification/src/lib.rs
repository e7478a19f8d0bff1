//! Resolution and distribution core of an inbound-policy control plane.
//!
//! The crate covers the match-rule data model (hostnames and path, header,
//! query-parameter and method matchers), the translator that turns an
//! externally defined route resource into that model, the encoder that maps a
//! resolved policy record onto the outbound wire format, and the decision
//! logic of the server that streams encoded records to clients.

pub mod encode;
pub mod method;
pub mod pattern;
pub mod policy;
pub mod route;
pub mod server;
pub mod strings;
pub mod translate;
