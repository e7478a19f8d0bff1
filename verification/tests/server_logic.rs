//! Tests of the server's decision logic: target validation boundaries and
//! the get/watch reply mappings.

use inbound_policy::encode::to_server;
use inbound_policy::policy::{InboundServer, IpNet, ProxyProtocol, ServerRef};
use inbound_policy::server::{
    check_target, get_response, watch_response, watch_step, Lookup, Status, Subscription,
    WatchEvent, WatchStep,
};

fn cluster() -> Vec<IpNet> {
    vec![IpNet::V4 { addr: 0x0a000000, prefix_len: 8 }]
}

fn record() -> InboundServer {
    InboundServer {
        reference: ServerRef::Server("srv".to_string()),
        protocol: ProxyProtocol::Opaque,
        authorizations: vec![],
        http_routes: vec![],
    }
}

#[test]
fn workload_without_colon_is_invalid() {
    assert_eq!(
        check_target("nsfoo", 80),
        Err(Status::InvalidWorkload("nsfoo".to_string()))
    );
}

#[test]
fn workload_with_empty_namespace_is_invalid() {
    assert_eq!(
        check_target(":foo", 80),
        Err(Status::InvalidWorkload(":foo".to_string()))
    );
}

#[test]
fn workload_with_empty_name_is_invalid() {
    assert_eq!(check_target("ns:", 80), Err(Status::InvalidWorkload("ns:".to_string())));
}

#[test]
fn port_zero_is_invalid() {
    assert_eq!(check_target("ns:pod", 0), Err(Status::InvalidPort(0)));
}

#[test]
fn port_above_range_is_invalid() {
    assert_eq!(check_target("ns:pod", 65536), Err(Status::InvalidPort(65536)));
}

#[test]
fn port_at_upper_boundary_is_valid() {
    let t = check_target("ns:pod", 65535).expect("target must parse");
    assert_eq!(t.namespace, "ns");
    assert_eq!(t.name, "pod");
    assert_eq!(t.port, 65535);
}

#[test]
fn workload_splits_at_first_colon() {
    let t = check_target("ns:pod:extra", 80).expect("target must parse");
    assert_eq!(t.namespace, "ns");
    assert_eq!(t.name, "pod:extra");
    assert_eq!(t.port, 80);
}

#[test]
fn get_maps_store_answers() {
    let nets = cluster();
    let found = get_response(&Lookup::Found(record()), &nets).expect("found must encode");
    assert_eq!(found, to_server(&record(), &nets));
    assert_eq!(get_response(&Lookup::Unknown, &nets), Err(Status::NotFound));
    assert_eq!(
        get_response(&Lookup::Failed("boom".to_string()), &nets),
        Err(Status::Internal("boom".to_string()))
    );
}

#[test]
fn watch_on_unknown_target_fails_not_found_then_streams_once_known() {
    let nets = cluster();
    // first subscription attempt: the target is not indexed yet
    assert_eq!(watch_response(&Subscription::Unknown), Err(Status::NotFound));
    // the policy appears; a later watch call subscribes
    assert_eq!(watch_response(&Subscription::Subscribed), Ok(()));
    // and the open stream emits each update, encoded, over one connection
    let step = watch_step(&WatchEvent::Update(record()), &nets);
    assert_eq!(step, WatchStep::Emit(to_server(&record(), &nets)));
}

#[test]
fn watch_fails_internal_on_store_failure() {
    assert_eq!(
        watch_response(&Subscription::Failed("boom".to_string())),
        Err(Status::Internal("boom".to_string()))
    );
}

#[test]
fn watch_closes_quietly_on_upstream_end_and_on_shutdown() {
    let nets = cluster();
    assert_eq!(watch_step(&WatchEvent::UpstreamClosed, &nets), WatchStep::Close);
    assert_eq!(watch_step(&WatchEvent::ShutdownSignaled, &nets), WatchStep::Close);
}
