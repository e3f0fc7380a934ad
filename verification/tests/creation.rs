use openstack::error::{Error, ErrorKind};
use openstack::net::Ipv4;
use openstack::new_server::{
    convert_networks, set_pair, CreateStep, NewServer, PendingCreate, PendingResolve, ServerNIC,
    Slot,
};
use openstack::protocol::{
    Flavor, RefKind, Request, ServerCreate, ServerData, ServerNetwork, ServerPowerState,
    ServerStatus, Timestamp,
};
use openstack::waiters::ServerCreationWaiter;
use openstack::refs::ResourceRef;

fn unverified(value: &str) -> ResourceRef {
    ResourceRef::new(value.to_string())
}

fn verified(value: &str) -> ResourceRef {
    ResourceRef::new_verified(value.to_string())
}

fn expect_resolve(step: CreateStep) -> PendingResolve {
    match step {
        CreateStep::Resolve(pending) => pending,
        CreateStep::Submit(_) => panic!("a lookup was due"),
    }
}

fn expect_submit(step: CreateStep) -> PendingCreate {
    match step {
        CreateStep::Submit(pending) => pending,
        CreateStep::Resolve(_) => panic!("the creation was due"),
    }
}

fn resolve(kind: RefKind, value: &str) -> Request {
    Request::Resolve { kind, value: value.to_string() }
}

#[test]
fn references_know_whether_they_are_verified() {
    assert!(!unverified("m1.small").is_verified());
    assert!(verified("fl-1").is_verified());
    assert_eq!(unverified("m1.small").value(), "m1.small");
}

#[test]
fn new_server_starts_bare() {
    let server = NewServer::new("web".to_string(), unverified("m1.small"));
    assert_eq!(server.name, "web");
    assert_eq!(server.flavor, unverified("m1.small"));
    assert_eq!(server.image, None);
    assert_eq!(server.keypair, None);
    assert!(server.metadata.is_empty());
    assert!(server.networks.is_empty());
    assert_eq!(server.find_slot(), Some(Slot::Flavor));
}

#[test]
fn builders_add_in_order() {
    let mut server = NewServer::new("web".to_string(), verified("fl-1"));
    server.add_fixed_ip(Ipv4::new(10, 0, 0, 5));
    server.add_network(unverified("private"));
    server.add_port(verified("port-1"));
    server.add_nic(ServerNIC::WithFixedIp(Ipv4::new(10, 0, 0, 6)));
    server.set_image(unverified("cirros"));
    server.set_keypair(verified("ops"));
    assert_eq!(
        server.networks,
        vec![
            ServerNIC::WithFixedIp(Ipv4::new(10, 0, 0, 5)),
            ServerNIC::FromNetwork(unverified("private")),
            ServerNIC::WithPort(verified("port-1")),
            ServerNIC::WithFixedIp(Ipv4::new(10, 0, 0, 6)),
        ]
    );
    assert_eq!(server.image, Some(unverified("cirros")));
    assert_eq!(server.keypair, Some(verified("ops")));
    let same = NewServer::new("web".to_string(), verified("fl-1"))
        .with_fixed_ip(Ipv4::new(10, 0, 0, 5))
        .with_network(unverified("private"))
        .with_port(verified("port-1"))
        .with_fixed_ip(Ipv4::new(10, 0, 0, 6))
        .with_image(unverified("cirros"))
        .with_keypair(verified("ops"));
    assert_eq!(same, server);
}

#[test]
fn metadata_keeps_each_key_once() {
    let server = NewServer::new("web".to_string(), verified("fl-1"))
        .with_metadata("role".to_string(), "web".to_string())
        .with_metadata("tier".to_string(), "front".to_string())
        .with_metadata("role".to_string(), "db".to_string());
    assert_eq!(
        server.metadata,
        vec![("role".to_string(), "db".to_string()), ("tier".to_string(), "front".to_string())]
    );
    let mut pairs = vec![
        ("a".to_string(), "1".to_string()),
        ("b".to_string(), "2".to_string()),
        ("a".to_string(), "3".to_string()),
    ];
    set_pair(&mut pairs, "a".to_string(), "9".to_string());
    assert_eq!(
        pairs,
        vec![
            ("a".to_string(), "9".to_string()),
            ("b".to_string(), "2".to_string()),
            ("a".to_string(), "3".to_string()),
        ]
    );
}

#[test]
fn networks_convert_one_for_one() {
    let nics = vec![
        ServerNIC::FromNetwork(verified("net-1")),
        ServerNIC::WithFixedIp(Ipv4::new(192, 168, 1, 4)),
        ServerNIC::WithPort(verified("port-1")),
    ];
    assert_eq!(
        convert_networks(&nics),
        vec![
            ServerNetwork::Network { uuid: "net-1".to_string() },
            ServerNetwork::FixedIp { fixed_ip: Ipv4::new(192, 168, 1, 4) },
            ServerNetwork::Port { port: "port-1".to_string() },
        ]
    );
    assert!(convert_networks(&Vec::new()).is_empty());
}

#[test]
fn verified_references_need_no_lookup() {
    let server = NewServer::new("web".to_string(), verified("fl-1"))
        .with_image(verified("img-1"))
        .with_network(verified("net-1"));
    assert_eq!(server.find_slot(), None);
    let pending = expect_submit(server.create());
    assert_eq!(
        pending.request(),
        Request::CreateServer {
            body: ServerCreate {
                flavor_ref: "fl-1".to_string(),
                image_ref: Some("img-1".to_string()),
                key_name: None,
                metadata: vec![],
                name: "web".to_string(),
                networks: vec![ServerNetwork::Network { uuid: "net-1".to_string() }],
            }
        }
    );
}

#[test]
fn references_are_resolved_in_order_before_the_creation() {
    let server = NewServer::new("web".to_string(), unverified("m1.small"))
        .with_image(unverified("cirros"))
        .with_keypair(unverified("ops"))
        .with_network(verified("net-0"))
        .with_network(unverified("private"))
        .with_fixed_ip(Ipv4::new(10, 1, 1, 1))
        .with_port(unverified("uplink"))
        .with_metadata("role".to_string(), "web".to_string());
    let pending = expect_resolve(server.create());
    assert_eq!(pending.request(), resolve(RefKind::Flavor, "m1.small"));
    let pending = expect_resolve(pending.answer(Ok("fl-1".to_string())).unwrap());
    assert_eq!(pending.request(), resolve(RefKind::Image, "cirros"));
    let pending = expect_resolve(pending.answer(Ok("img-1".to_string())).unwrap());
    assert_eq!(pending.request(), resolve(RefKind::KeyPair, "ops"));
    let pending = expect_resolve(pending.answer(Ok("ops-key".to_string())).unwrap());
    assert_eq!(pending.request(), resolve(RefKind::Network, "private"));
    let pending = expect_resolve(pending.answer(Ok("net-1".to_string())).unwrap());
    assert_eq!(pending.request(), resolve(RefKind::Port, "uplink"));
    let pending = expect_submit(pending.answer(Ok("port-1".to_string())).unwrap());
    assert_eq!(
        pending.request(),
        Request::CreateServer {
            body: ServerCreate {
                flavor_ref: "fl-1".to_string(),
                image_ref: Some("img-1".to_string()),
                key_name: Some("ops-key".to_string()),
                metadata: vec![("role".to_string(), "web".to_string())],
                name: "web".to_string(),
                networks: vec![
                    ServerNetwork::Network { uuid: "net-0".to_string() },
                    ServerNetwork::Network { uuid: "net-1".to_string() },
                    ServerNetwork::FixedIp { fixed_ip: Ipv4::new(10, 1, 1, 1) },
                    ServerNetwork::Port { port: "port-1".to_string() },
                ],
            }
        }
    );
    let load = pending.created(Ok("s-1".to_string())).unwrap();
    assert_eq!(load.request(), Request::GetServer { id: "s-1".to_string() });
}

#[test]
fn failed_lookup_ends_the_creation() {
    let server = NewServer::new("web".to_string(), verified("fl-1")).with_image(unverified("x"));
    let pending = expect_resolve(server.create());
    let failure = Error::new(ErrorKind::TooManyItems, "two images named x".to_string());
    match pending.answer(Err(failure.clone())) {
        Err(e) => assert_eq!(e, failure),
        Ok(_) => panic!("the creation went on after a failed lookup"),
    }
}

#[test]
fn failed_creation_is_handed_on() {
    let server = NewServer::new("web".to_string(), verified("fl-1"));
    let pending = expect_submit(server.create());
    let failure = Error::new(ErrorKind::Conflict, "quota exceeded".to_string());
    assert_eq!(pending.created(Err(failure.clone())), Err(failure));
}

#[test]
fn failed_load_of_the_new_server_is_handed_on() {
    let server = NewServer::new("web".to_string(), verified("fl-1"));
    let load = expect_submit(server.create()).created(Ok("s-1".to_string())).unwrap();
    let failure = Error::new(ErrorKind::ResourceNotFound, "no such server".to_string());
    assert_eq!(load.loaded(Err(failure.clone())), Err(failure.clone()));
    let server = NewServer::new("web".to_string(), verified("fl-1"));
    let load = expect_submit(server.create()).created(Ok("s-1".to_string())).unwrap();
    let load = load.loaded(Ok(snapshot(ServerStatus::Building))).unwrap();
    assert_eq!(load.resolved(Err(failure.clone())), Err(failure));
}

fn snapshot(status: ServerStatus) -> ServerData {
    ServerData {
        id: "s-1".to_string(),
        name: "web".to_string(),
        status,
        power_state: ServerPowerState::NoState,
        access_ipv4: None,
        access_ipv6: None,
        addresses: vec![],
        availability_zone: "nova".to_string(),
        created_at: Timestamp { seconds: 1700000000, nanos: 0, offset_seconds: 0 },
        updated_at: Timestamp { seconds: 1700000000, nanos: 0, offset_seconds: 0 },
        description: None,
        has_config_drive: false,
        flavor_id: "fl-1".to_string(),
        image_id: None,
        key_pair_name: None,
        metadata: vec![],
    }
}

#[test]
fn creation_with_a_flavor_and_no_image_resolves_with_the_sizes_of_the_flavor() {
    let server = NewServer::new("web".to_string(), unverified("m1.large"));
    let pending = expect_resolve(server.create());
    assert_eq!(pending.request(), resolve(RefKind::Flavor, "m1.large"));
    let pending = expect_submit(pending.answer(Ok("fl-1".to_string())).unwrap());
    assert_eq!(
        pending.request(),
        Request::CreateServer {
            body: ServerCreate {
                flavor_ref: "fl-1".to_string(),
                image_ref: None,
                key_name: None,
                metadata: vec![],
                name: "web".to_string(),
                networks: vec![],
            }
        }
    );
    let load = pending.created(Ok("s-1".to_string())).unwrap();
    assert_eq!(load.request(), Request::GetServer { id: "s-1".to_string() });
    let load = load.loaded(Ok(snapshot(ServerStatus::Building))).unwrap();
    assert_eq!(load.request(), Request::GetFlavor { id: "fl-1".to_string() });
    let flavor = Flavor {
        id: "fl-1".to_string(),
        name: "m1.large".to_string(),
        vcpus: 4,
        ram: 8192,
        disk: 80,
        ephemeral: 10,
        swap: 1024,
        extra_specs: vec![],
    };
    let mut waiter: ServerCreationWaiter = load.resolved(Ok(flavor)).unwrap();
    assert_eq!(waiter.refresh_request(), Request::GetServer { id: "s-1".to_string() });
    assert_eq!(waiter.poll(Ok(snapshot(ServerStatus::Building))), Ok(None));
    let created = waiter.poll(Ok(snapshot(ServerStatus::Active))).unwrap().unwrap();
    assert_eq!(created.inner, snapshot(ServerStatus::Active));
    assert!(!created.has_image());
    assert_eq!(created.flavor().original_name, "m1.large");
    assert_eq!(created.flavor().vcpu_count, 4);
    assert_eq!(created.flavor().ram_size, 8192);
    assert_eq!(created.flavor().root_size, 80);
    assert_eq!(created.flavor().ephemeral_size, 10);
    assert_eq!(created.flavor().swap_size, 1024);
}
