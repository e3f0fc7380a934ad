//! The records exchanged with the compute service, and the requests that
//! can be made of it.

use vstd::prelude::*;
use crate::net::{IpAddress, Ipv4, Ipv6};
use crate::query::{text_of, text_pairs, Params, Query};

verus! {

/// The status that the service reports for a server.
#[derive(Clone, Copy, Debug, PartialEq, Eq, Structural)]
pub enum ServerStatus {
    Active,
    Building,
    Deleted,
    /// The server is broken: no awaited state will be reached from here.
    Error,
    HardRebooting,
    Migrating,
    Paused,
    Rebooting,
    Resizing,
    ShutOff,
    Suspended,
    /// Any status that this library has no name for.
    Unknown,
}

impl ServerStatus {
    /// The name of the status as the service writes it.
    pub open spec fn name(self) -> Seq<char> {
        match self {
            ServerStatus::Active => "ACTIVE"@,
            ServerStatus::Building => "BUILD"@,
            ServerStatus::Deleted => "DELETED"@,
            ServerStatus::Error => "ERROR"@,
            ServerStatus::HardRebooting => "HARD_REBOOT"@,
            ServerStatus::Migrating => "MIGRATING"@,
            ServerStatus::Paused => "PAUSED"@,
            ServerStatus::Rebooting => "REBOOT"@,
            ServerStatus::Resizing => "RESIZE"@,
            ServerStatus::ShutOff => "SHUTOFF"@,
            ServerStatus::Suspended => "SUSPENDED"@,
            ServerStatus::Unknown => "UNKNOWN"@,
        }
    }

    /// The name of the status as the service writes it.
    pub fn as_str(self) -> (s: &'static str)
        ensures
            s@ == self.name(),
    {
        match self {
            ServerStatus::Active => "ACTIVE",
            ServerStatus::Building => "BUILD",
            ServerStatus::Deleted => "DELETED",
            ServerStatus::Error => "ERROR",
            ServerStatus::HardRebooting => "HARD_REBOOT",
            ServerStatus::Migrating => "MIGRATING",
            ServerStatus::Paused => "PAUSED",
            ServerStatus::Rebooting => "REBOOT",
            ServerStatus::Resizing => "RESIZE",
            ServerStatus::ShutOff => "SHUTOFF",
            ServerStatus::Suspended => "SUSPENDED",
            ServerStatus::Unknown => "UNKNOWN",
        }
    }
}

/// The power state that the hypervisor reports for a server.
#[derive(Clone, Copy, Debug, PartialEq, Eq, Structural)]
pub enum ServerPowerState {
    NoState,
    Running,
    Paused,
    Shutdown,
    Crashed,
    Suspended,
}

/// How an address came to a server.
#[derive(Clone, Copy, Debug, PartialEq, Eq, Structural)]
pub enum AddressType {
    Fixed,
    Floating,
}

/// How a server is rebooted.
#[derive(Clone, Copy, Debug, PartialEq, Eq, Structural)]
pub enum RebootType {
    /// Power cycle.
    Hard,
    /// Ask the operating system to restart.
    Soft,
}

impl RebootType {
    /// The name of the reboot type as the service writes it.
    pub open spec fn name(self) -> Seq<char> {
        match self {
            RebootType::Hard => "HARD"@,
            RebootType::Soft => "SOFT"@,
        }
    }

    /// The name of the reboot type as the service writes it.
    pub fn as_str(self) -> (s: &'static str)
        ensures
            s@ == self.name(),
    {
        match self {
            RebootType::Hard => "HARD",
            RebootType::Soft => "SOFT",
        }
    }
}

/// A field by which a list of servers can be sorted.
#[derive(Clone, Copy, Debug, PartialEq, Eq, Structural)]
pub enum ServerSortKey {
    AvailabilityZone,
    CreatedAt,
    DisplayName,
    Host,
    KeyName,
    PowerState,
    ProjectId,
    UpdatedAt,
    UserId,
    Uuid,
    VmState,
}

impl ServerSortKey {
    /// The name of the field as the service writes it.
    pub open spec fn name(self) -> Seq<char> {
        match self {
            ServerSortKey::AvailabilityZone => "availability_zone"@,
            ServerSortKey::CreatedAt => "created_at"@,
            ServerSortKey::DisplayName => "display_name"@,
            ServerSortKey::Host => "host"@,
            ServerSortKey::KeyName => "key_name"@,
            ServerSortKey::PowerState => "power_state"@,
            ServerSortKey::ProjectId => "project_id"@,
            ServerSortKey::UpdatedAt => "updated_at"@,
            ServerSortKey::UserId => "user_id"@,
            ServerSortKey::Uuid => "uuid"@,
            ServerSortKey::VmState => "vm_state"@,
        }
    }

    /// The name of the field as the service writes it.
    pub fn as_str(self) -> (s: &'static str)
        ensures
            s@ == self.name(),
    {
        match self {
            ServerSortKey::AvailabilityZone => "availability_zone",
            ServerSortKey::CreatedAt => "created_at",
            ServerSortKey::DisplayName => "display_name",
            ServerSortKey::Host => "host",
            ServerSortKey::KeyName => "key_name",
            ServerSortKey::PowerState => "power_state",
            ServerSortKey::ProjectId => "project_id",
            ServerSortKey::UpdatedAt => "updated_at",
            ServerSortKey::UserId => "user_id",
            ServerSortKey::Uuid => "uuid",
            ServerSortKey::VmState => "vm_state",
        }
    }
}

/// A point in time with the offset of the clock that recorded it: seconds
/// since the epoch in UTC, the nanoseconds within that second, and the
/// offset east of UTC in seconds.
#[derive(Clone, Copy, Debug, PartialEq, Eq, Structural)]
pub struct Timestamp {
    pub seconds: i64,
    pub nanos: u32,
    pub offset_seconds: i32,
}

/// One address of a server.
#[derive(Clone, Debug, PartialEq, Eq)]
pub struct ServerAddress {
    pub addr: IpAddress,
    pub mac_addr: Option<String>,
    pub addr_type: Option<AddressType>,
}

/// A flavor as the service describes it.
#[derive(Clone, Debug, PartialEq, Eq)]
pub struct Flavor {
    pub id: String,
    pub name: String,
    pub vcpus: u32,
    pub ram: u64,
    pub disk: u64,
    pub ephemeral: u64,
    pub swap: u64,
    pub extra_specs: Vec<(String, String)>,
}

/// The sizes that a server has from the flavor it was created with.
#[derive(Clone, Debug, PartialEq, Eq)]
pub struct ServerFlavor {
    pub ephemeral_size: u64,
    pub extra_specs: Vec<(String, String)>,
    pub original_name: String,
    pub ram_size: u64,
    pub root_size: u64,
    pub swap_size: u64,
    pub vcpu_count: u32,
}

/// The identifier and the name of a resource.
#[derive(Clone, Debug, PartialEq, Eq)]
pub struct IdAndName {
    pub id: String,
    pub name: String,
}

/// What the service reports of one server at one moment.
#[derive(Clone, Debug, PartialEq, Eq)]
pub struct ServerData {
    pub id: String,
    pub name: String,
    pub status: ServerStatus,
    pub power_state: ServerPowerState,
    pub access_ipv4: Option<Ipv4>,
    pub access_ipv6: Option<Ipv6>,
    /// Addresses by network, in the order in which the service lists them.
    pub addresses: Vec<(String, Vec<ServerAddress>)>,
    pub availability_zone: String,
    pub created_at: Timestamp,
    pub updated_at: Timestamp,
    pub description: Option<String>,
    pub has_config_drive: bool,
    pub flavor_id: String,
    pub image_id: Option<String>,
    pub key_pair_name: Option<String>,
    pub metadata: Vec<(String, String)>,
}

/// A network attachment as the service takes it.
#[derive(Clone, Debug, PartialEq, Eq)]
pub enum ServerNetwork {
    Network { uuid: String },
    Port { port: String },
    FixedIp { fixed_ip: Ipv4 },
}

/// A network attachment with its identifiers as text.
pub enum ServerNetworkView {
    Network { uuid: Seq<char> },
    Port { port: Seq<char> },
    FixedIp { fixed_ip: Ipv4 },
}

impl View for ServerNetwork {
    type V = ServerNetworkView;

    open spec fn view(&self) -> ServerNetworkView {
        match *self {
            ServerNetwork::Network { uuid } => ServerNetworkView::Network { uuid: uuid@ },
            ServerNetwork::Port { port } => ServerNetworkView::Port { port: port@ },
            ServerNetwork::FixedIp { fixed_ip } => ServerNetworkView::FixedIp { fixed_ip },
        }
    }
}

/// The attachments of a list, each as text, in the same order.
pub open spec fn networks_view(networks: Seq<ServerNetwork>) -> Seq<ServerNetworkView> {
    Seq::new(networks.len(), |i: int| networks[i]@)
}

/// The body of a request to create a server.
#[derive(Clone, Debug, PartialEq, Eq)]
pub struct ServerCreate {
    pub flavor_ref: String,
    pub image_ref: Option<String>,
    pub key_name: Option<String>,
    pub metadata: Vec<(String, String)>,
    pub name: String,
    pub networks: Vec<ServerNetwork>,
}

/// The body of a request to create a server, as text.
pub struct ServerCreateView {
    pub flavor_ref: Seq<char>,
    pub image_ref: Option<Seq<char>>,
    pub key_name: Option<Seq<char>>,
    pub metadata: Params,
    pub name: Seq<char>,
    pub networks: Seq<ServerNetworkView>,
}

impl View for ServerCreate {
    type V = ServerCreateView;

    open spec fn view(&self) -> ServerCreateView {
        ServerCreateView {
            flavor_ref: self.flavor_ref@,
            image_ref: text_of(self.image_ref),
            key_name: text_of(self.key_name),
            metadata: text_pairs(self.metadata@),
            name: self.name@,
            networks: networks_view(self.networks@),
        }
    }
}

/// The kinds of resource that a new server can refer to.
#[derive(Clone, Copy, Debug, PartialEq, Eq, Structural)]
pub enum RefKind {
    Flavor,
    Image,
    KeyPair,
    Network,
    Port,
}

/// A request to the compute service. The caller sends it and hands the
/// answer back to the operation that asked.
#[derive(Debug, PartialEq, Eq)]
pub enum Request {
    /// Fetch the snapshot of the server with this identifier.
    GetServer { id: String },
    /// Fetch the flavor with this identifier.
    GetFlavor { id: String },
    /// Fetch the image with this identifier.
    GetImage { id: String },
    /// Fetch the key pair with this name.
    GetKeyPair { name: String },
    /// Find the identifier of the one resource of this kind that has the
    /// given identifier or name.
    Resolve { kind: RefKind, value: String },
    /// List the servers that match, by identifier and name.
    ListServers { query: Query },
    /// List the servers that match, with all their details.
    ListServersDetail { query: Query },
    /// Create a server.
    CreateServer { body: ServerCreate },
    /// Delete the server with this identifier.
    DeleteServer { id: String },
    /// Perform a named action on the server with this identifier.
    ServerAction { id: String, action: String, args: Vec<(String, String)> },
}

/// A request with every string as text.
pub enum RequestView {
    GetServer { id: Seq<char> },
    GetFlavor { id: Seq<char> },
    GetImage { id: Seq<char> },
    GetKeyPair { name: Seq<char> },
    Resolve { kind: RefKind, value: Seq<char> },
    ListServers { params: Params },
    ListServersDetail { params: Params },
    CreateServer { body: ServerCreateView },
    DeleteServer { id: Seq<char> },
    ServerAction { id: Seq<char>, action: Seq<char>, args: Params },
}

impl View for Request {
    type V = RequestView;

    open spec fn view(&self) -> RequestView {
        match *self {
            Request::GetServer { id } => RequestView::GetServer { id: id@ },
            Request::GetFlavor { id } => RequestView::GetFlavor { id: id@ },
            Request::GetImage { id } => RequestView::GetImage { id: id@ },
            Request::GetKeyPair { name } => RequestView::GetKeyPair { name: name@ },
            Request::Resolve { kind, value } => RequestView::Resolve { kind, value: value@ },
            Request::ListServers { query } => RequestView::ListServers { params: query@ },
            Request::ListServersDetail { query } => RequestView::ListServersDetail {
                params: query@,
            },
            Request::CreateServer { body } => RequestView::CreateServer { body: body@ },
            Request::DeleteServer { id } => RequestView::DeleteServer { id: id@ },
            Request::ServerAction { id, action, args } => RequestView::ServerAction {
                id: id@,
                action: action@,
                args: text_pairs(args@),
            },
        }
    }
}

} // verus!
