use openstack::error::{Error, ErrorKind};
use openstack::net::{IpAddress, Ipv4, Ipv6};
use openstack::protocol::{
    AddressType, Flavor, IdAndName, RebootType, Request, ServerAddress, ServerData, ServerFlavor,
    ServerPowerState, ServerStatus, Timestamp,
};
use openstack::server::{Server, ServerSummary};
use openstack::waiting::Refresh;

fn flavor() -> Flavor {
    Flavor {
        id: "fl-1".to_string(),
        name: "m1.small".to_string(),
        vcpus: 2,
        ram: 2048,
        disk: 20,
        ephemeral: 5,
        swap: 512,
        extra_specs: vec![("hw:cpu_policy".to_string(), "dedicated".to_string())],
    }
}

fn address(a: u8, kind: Option<AddressType>) -> ServerAddress {
    ServerAddress {
        addr: IpAddress::V4(Ipv4::new(10, 0, 0, a)),
        mac_addr: Some(format!("fa:16:3e:00:00:{:02x}", a)),
        addr_type: kind,
    }
}

fn data(id: &str, status: ServerStatus) -> ServerData {
    ServerData {
        id: id.to_string(),
        name: "web".to_string(),
        status,
        power_state: ServerPowerState::Running,
        access_ipv4: Some(Ipv4::new(203, 0, 113, 9)),
        access_ipv6: None,
        addresses: vec![(
            "private".to_string(),
            vec![address(1, Some(AddressType::Fixed)), address(2, None)],
        )],
        availability_zone: "nova".to_string(),
        created_at: Timestamp { seconds: 1500000000, nanos: 0, offset_seconds: 3600 },
        updated_at: Timestamp { seconds: 1500000100, nanos: 5, offset_seconds: 3600 },
        description: Some("front end".to_string()),
        has_config_drive: true,
        flavor_id: "fl-1".to_string(),
        image_id: None,
        key_pair_name: None,
        metadata: vec![("role".to_string(), "web".to_string())],
    }
}

#[test]
fn new_server_takes_every_size_from_the_flavor() {
    let server = Server::new(data("s-1", ServerStatus::Active), flavor());
    assert_eq!(
        *server.flavor(),
        ServerFlavor {
            ephemeral_size: 5,
            extra_specs: vec![("hw:cpu_policy".to_string(), "dedicated".to_string())],
            original_name: "m1.small".to_string(),
            ram_size: 2048,
            root_size: 20,
            swap_size: 512,
            vcpu_count: 2,
        }
    );
    assert_eq!(server.inner, data("s-1", ServerStatus::Active));
}

#[test]
fn load_fetches_the_server_and_then_its_flavor() {
    let load = Server::load("s-1".to_string());
    assert_eq!(load.request(), Request::GetServer { id: "s-1".to_string() });
    let next = load.loaded(Ok(data("s-1", ServerStatus::Building))).unwrap();
    assert_eq!(next.request(), Request::GetFlavor { id: "fl-1".to_string() });
    let server = next.resolved(Ok(flavor())).unwrap();
    assert_eq!(server, Server::new(data("s-1", ServerStatus::Building), flavor()));
    assert!(!server.has_image());
    assert_eq!(server.flavor().vcpu_count, 2);
    assert_eq!(server.flavor().ram_size, 2048);
    assert_eq!(server.flavor().root_size, 20);
    assert_eq!(server.flavor().ephemeral_size, 5);
    assert_eq!(server.flavor().swap_size, 512);
}

#[test]
fn load_hands_failures_on() {
    let gone = Error::new(ErrorKind::ResourceNotFound, "no such server".to_string());
    let e = Server::load("s-1".to_string()).loaded(Err(gone.clone())).unwrap_err();
    assert_eq!(e, gone);
    let next = Server::load("s-1".to_string()).loaded(Ok(data("s-1", ServerStatus::Active)));
    let e = next.unwrap().resolved(Err(gone.clone())).unwrap_err();
    assert_eq!(e, gone);
}

#[test]
fn getters_read_the_snapshot() {
    let server = Server::new(data("s-1", ServerStatus::ShutOff), flavor());
    assert_eq!(server.id(), "s-1");
    assert_eq!(server.name(), "web");
    assert_eq!(server.status(), ServerStatus::ShutOff);
    assert_eq!(server.power_state(), ServerPowerState::Running);
    assert_eq!(server.access_ipv4(), Some(Ipv4::new(203, 0, 113, 9)));
    assert_eq!(server.access_ipv6(), None);
    assert_eq!(server.availability_zone(), "nova");
    assert_eq!(server.created_at().seconds, 1500000000);
    assert_eq!(server.updated_at().nanos, 5);
    assert_eq!(*server.description(), Some("front end".to_string()));
    assert!(server.has_config_drive());
    assert_eq!(server.image_id(), None);
    assert_eq!(*server.key_pair_name(), None);
    assert_eq!(*server.metadata(), vec![("role".to_string(), "web".to_string())]);
    assert_eq!(server.addresses().len(), 1);
}

#[test]
fn floating_ip_is_the_first_floating_address() {
    let mut snapshot = data("s-1", ServerStatus::Active);
    let server = Server::new(snapshot.clone(), flavor());
    assert_eq!(server.floating_ip(), None);
    snapshot.addresses = vec![
        ("private".to_string(), vec![address(1, Some(AddressType::Fixed)), address(2, None)]),
        ("empty".to_string(), vec![]),
        (
            "public".to_string(),
            vec![
                address(3, Some(AddressType::Fixed)),
                address(4, Some(AddressType::Floating)),
                address(5, Some(AddressType::Floating)),
            ],
        ),
        ("other".to_string(), vec![address(6, Some(AddressType::Floating))]),
    ];
    let server = Server::new(snapshot.clone(), flavor());
    assert_eq!(server.floating_ip(), Some(IpAddress::V4(Ipv4::new(10, 0, 0, 4))));
    snapshot.addresses = vec![(
        "six".to_string(),
        vec![ServerAddress {
            addr: IpAddress::V6(Ipv6 { bits: 1 }),
            mac_addr: None,
            addr_type: Some(AddressType::Floating),
        }],
    )];
    let server = Server::new(snapshot, flavor());
    assert_eq!(server.floating_ip(), Some(IpAddress::V6(Ipv6 { bits: 1 })));
}

#[test]
fn image_of_a_server_without_image_is_not_found() {
    let server = Server::new(data("s-1", ServerStatus::Active), flavor());
    let e = server.image().unwrap_err();
    assert_eq!(e.kind(), ErrorKind::ResourceNotFound);
    assert_eq!(e.message(), "No image associated with server s-1");
}

#[test]
fn image_of_a_server_with_image_is_fetched_by_id() {
    let mut snapshot = data("s-1", ServerStatus::Active);
    snapshot.image_id = Some("img-7".to_string());
    let server = Server::new(snapshot, flavor());
    assert!(server.has_image());
    assert_eq!(server.image_id(), Some(&"img-7".to_string()));
    assert_eq!(server.image().unwrap(), Request::GetImage { id: "img-7".to_string() });
}

#[test]
fn key_pair_is_fetched_by_name_or_not_found() {
    let mut snapshot = data("s-1", ServerStatus::Active);
    let server = Server::new(snapshot.clone(), flavor());
    let e = server.key_pair().unwrap_err();
    assert_eq!(e.kind(), ErrorKind::ResourceNotFound);
    assert_eq!(e.message(), "No key pair associated with server s-1");
    snapshot.key_pair_name = Some("ops".to_string());
    let server = Server::new(snapshot, flavor());
    assert_eq!(server.key_pair().unwrap(), Request::GetKeyPair { name: "ops".to_string() });
}

#[test]
fn refresh_replaces_the_snapshot_as_a_whole() {
    let mut server = Server::new(data("s-1", ServerStatus::Building), flavor());
    let mut fresh = data("s-1", ServerStatus::Active);
    fresh.name = "renamed".to_string();
    fresh.metadata = vec![];
    fresh.description = None;
    assert_eq!(server.refresh_request(), Request::GetServer { id: "s-1".to_string() });
    assert_eq!(server.refresh(Ok(fresh.clone())), Ok(()));
    assert_eq!(server.inner, fresh);
    assert_eq!(server.flavor().original_name, "m1.small");
}

#[test]
fn failed_refresh_leaves_the_snapshot() {
    let mut server = Server::new(data("s-1", ServerStatus::Building), flavor());
    let gone = Error::new(ErrorKind::ResourceNotFound, "gone".to_string());
    assert_eq!(server.refresh(Err(gone.clone())), Err(gone));
    assert_eq!(server.inner, data("s-1", ServerStatus::Building));
}

#[test]
fn reboot_asks_for_the_action_and_waits_for_active() {
    let mut server = Server::new(data("s-1", ServerStatus::Active), flavor());
    let (request, waiter) = server.reboot(RebootType::Hard);
    assert_eq!(
        request,
        Request::ServerAction {
            id: "s-1".to_string(),
            action: "reboot".to_string(),
            args: vec![("type".to_string(), "HARD".to_string())],
        }
    );
    assert_eq!(waiter.target, ServerStatus::Active);
    let (request, _) = server.reboot(RebootType::Soft);
    match request {
        Request::ServerAction { args, .. } => {
            assert_eq!(args, vec![("type".to_string(), "SOFT".to_string())])
        }
        other => panic!("not an action: {:?}", other),
    }
}

#[test]
fn start_and_stop_ask_for_their_actions() {
    let mut server = Server::new(data("s-1", ServerStatus::ShutOff), flavor());
    let (request, waiter) = server.start();
    assert_eq!(
        request,
        Request::ServerAction { id: "s-1".to_string(), action: "os-start".to_string(), args: vec![] }
    );
    assert_eq!(waiter.target, ServerStatus::Active);
    let (request, waiter) = server.stop();
    assert_eq!(
        request,
        Request::ServerAction { id: "s-1".to_string(), action: "os-stop".to_string(), args: vec![] }
    );
    assert_eq!(waiter.target, ServerStatus::ShutOff);
}

#[test]
fn delete_asks_for_the_deletion_and_waits_two_minutes() {
    let server = Server::new(data("s-1", ServerStatus::Active), flavor());
    let (request, waiter) = server.delete();
    assert_eq!(request, Request::DeleteServer { id: "s-1".to_string() });
    assert_eq!(waiter.default_wait_timeout(), Some(120000));
    assert_eq!(waiter.default_delay(), 1000);
    assert_eq!(waiter.waiter_current_state().id(), "s-1");
}

#[test]
fn summary_gives_id_and_name() {
    let summary =
        ServerSummary { inner: IdAndName { id: "s-9".to_string(), name: "db".to_string() } };
    assert_eq!(summary.id(), "s-9");
    assert_eq!(summary.name(), "db");
    assert_eq!(summary.details().request(), Request::GetServer { id: "s-9".to_string() });
    assert_eq!(summary.delete(), Request::DeleteServer { id: "s-9".to_string() });
}
