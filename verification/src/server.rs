//! The streaming server's decision logic: request validation, the mapping
//! from store answers to replies, and the step function of an open watch.
//!
//! The asynchronous shell around this logic only performs what these
//! functions decide: it validates the target, asks the policy store, and for
//! a watch it races the next store event against the shutdown signal and
//! feeds whichever wins into [`watch_step`].

use vstd::prelude::*;
use crate::encode::{encode_server, to_server, WireServer};
use crate::policy::{InboundServer, IpNet};
use crate::strings::{find_char, lemma_find_char};

verus! {

/// Why a request fails: the first two report a malformed target (an
/// invalid-argument to the caller), the third a target with no policy yet,
/// the last a store failure.
#[derive(Debug, Clone, PartialEq)]
pub enum Status {
    /// The workload is not `namespace:name` with both halves non-empty; the
    /// given workload rides along.
    InvalidWorkload(String),
    /// The port is outside `1..=65535`; the given port rides along.
    InvalidPort(u32),
    /// Valid target, but no policy indexed for it.
    NotFound,
    /// The store failed; its message rides along.
    Internal(String),
}

/// Mathematical form of a [`Status`].
#[verifier::ext_equal]
pub enum StatusSpec {
    InvalidWorkload(Seq<char>),
    InvalidPort(u32),
    NotFound,
    Internal(Seq<char>),
}

impl View for Status {
    type V = StatusSpec;

    open spec fn view(&self) -> StatusSpec {
        match self {
            Status::InvalidWorkload(w) => StatusSpec::InvalidWorkload(w@),
            Status::InvalidPort(p) => StatusSpec::InvalidPort(*p),
            Status::NotFound => StatusSpec::NotFound,
            Status::Internal(m) => StatusSpec::Internal(m@),
        }
    }
}

/// A validated target: namespace, workload name and port.
#[derive(Debug, Clone, PartialEq)]
pub struct Target {
    pub namespace: String,
    pub name: String,
    pub port: u16,
}

/// Mathematical form of a [`Target`].
#[verifier::ext_equal]
pub struct TargetSpec {
    pub namespace: Seq<char>,
    pub name: Seq<char>,
    pub port: u16,
}

impl View for Target {
    type V = TargetSpec;

    open spec fn view(&self) -> TargetSpec {
        TargetSpec { namespace: self.namespace@, name: self.name@, port: self.port }
    }
}

/// Whether a workload string is well-formed: its first colon splits it into
/// two non-empty halves.
pub open spec fn valid_workload(w: Seq<char>) -> bool {
    let i = find_char(w, ':');
    0 < i && i < w.len() - 1
}

/// The namespace half of a well-formed workload string.
pub open spec fn workload_namespace(w: Seq<char>) -> Seq<char> {
    w.take(find_char(w, ':'))
}

/// The name half of a well-formed workload string.
pub open spec fn workload_name(w: Seq<char>) -> Seq<char> {
    w.skip(find_char(w, ':') + 1)
}

/// Whether a port number is in range.
pub open spec fn valid_port(port: u32) -> bool {
    1 <= port <= 65535
}

/// Validate a request's target. A malformed workload is reported first, then
/// an out-of-range port; a valid pair parses into its parts.
pub fn check_target(workload: &str, port: u32) -> (r: Result<Target, Status>)
    ensures
        valid_workload(workload@) && valid_port(port) ==> (r matches Ok(t) && t@ == (TargetSpec {
            namespace: workload_namespace(workload@),
            name: workload_name(workload@),
            port: port as u16,
        })),
        !valid_workload(workload@) ==> (r matches Err(e) && e@ == StatusSpec::InvalidWorkload(
            workload@,
        )),
        valid_workload(workload@) && !valid_port(port) ==> (r matches Err(e) && e@
            == StatusSpec::InvalidPort(port)),
{
    let n = workload.unicode_len();
    let split = crate::strings::find_in_str(workload, ':');
    let i = match split {
        Some(i) => i,
        None => {
            return Err(Status::InvalidWorkload(workload.to_owned()));
        },
    };
    proof {
        lemma_find_char(workload@, ':');
    }
    if i == 0 || i + 1 >= n {
        return Err(Status::InvalidWorkload(workload.to_owned()));
    }
    if port == 0 || port > 65535 {
        return Err(Status::InvalidPort(port));
    }
    let namespace = workload.substring_char(0, i).to_owned();
    let name = workload.substring_char(i + 1, n).to_owned();
    let t = Target { namespace, name, port: port as u16 };
    proof {
        assert(t@ =~= TargetSpec {
            namespace: workload_namespace(workload@),
            name: workload_name(workload@),
            port: port as u16,
        });
    }
    Ok(t)
}

/// What the policy store answered a point lookup: the record, a miss, or a
/// failure with its message.
#[derive(Debug, Clone, PartialEq)]
pub enum Lookup {
    Found(InboundServer),
    Unknown,
    Failed(String),
}

/// Decide `get`'s reply from the store's answer: a found record is encoded,
/// a miss is not-found, a store failure is internal.
pub fn get_response(lookup: &Lookup, cluster_networks: &Vec<IpNet>) -> (r: Result<
    WireServer,
    Status,
>)
    ensures
        match lookup {
            Lookup::Found(srv) => r matches Ok(w) && w@ == encode_server(srv@, cluster_networks@),
            Lookup::Unknown => r matches Err(e) && e@ == StatusSpec::NotFound,
            Lookup::Failed(msg) => r matches Err(e) && e@ == StatusSpec::Internal(msg@),
        },
{
    match lookup {
        Lookup::Found(srv) => Ok(to_server(srv, cluster_networks)),
        Lookup::Unknown => Err(Status::NotFound),
        Lookup::Failed(msg) => Err(Status::Internal(msg.clone())),
    }
}

/// What the policy store answered a subscription request.
#[derive(Debug, Clone, PartialEq)]
pub enum Subscription {
    Subscribed,
    Unknown,
    Failed(String),
}

/// Decide whether a watch opens: a standing subscription does, a miss is
/// not-found, a store failure is internal. No retry happens here; a caller
/// that was told not-found subscribes again itself.
pub fn watch_response(subscription: &Subscription) -> (r: Result<(), Status>)
    ensures
        match subscription {
            Subscription::Subscribed => r is Ok,
            Subscription::Unknown => r matches Err(e) && e@ == StatusSpec::NotFound,
            Subscription::Failed(msg) => r matches Err(e) && e@ == StatusSpec::Internal(msg@),
        },
{
    match subscription {
        Subscription::Subscribed => Ok(()),
        Subscription::Unknown => Err(Status::NotFound),
        Subscription::Failed(msg) => Err(Status::Internal(msg.clone())),
    }
}

/// What reaches an open watch next: a policy change, the end of the store's
/// stream, or the process-wide shutdown signal.
#[derive(Debug, Clone, PartialEq)]
pub enum WatchEvent {
    Update(InboundServer),
    UpstreamClosed,
    ShutdownSignaled,
}

/// What the watch does with it: emit one encoded record, or close quietly.
#[derive(Debug, Clone, PartialEq)]
pub enum WatchStep {
    Emit(WireServer),
    Close,
}

/// One step of an open watch: each store update is emitted encoded, in store
/// order; the stream closes quietly, never with an error, when the store's
/// stream ends or shutdown begins.
pub fn watch_step(event: &WatchEvent, cluster_networks: &Vec<IpNet>) -> (r: WatchStep)
    ensures
        match event {
            WatchEvent::Update(srv) => r matches WatchStep::Emit(w) && w@ == encode_server(
                srv@,
                cluster_networks@,
            ),
            WatchEvent::UpstreamClosed => r == WatchStep::Close,
            WatchEvent::ShutdownSignaled => r == WatchStep::Close,
        },
{
    match event {
        WatchEvent::Update(srv) => WatchStep::Emit(to_server(srv, cluster_networks)),
        WatchEvent::UpstreamClosed => WatchStep::Close,
        WatchEvent::ShutdownSignaled => WatchStep::Close,
    }
}

} // verus!
