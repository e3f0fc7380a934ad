//! A server: the snapshot that the service reports of it, and the actions
//! that change its state.

use vstd::prelude::*;
use vstd::string::*;
use crate::error::{Error, ErrorKind};
use crate::net::{IpAddress, Ipv4, Ipv6};
use crate::protocol::{
    AddressType, Flavor, IdAndName, RebootType, Request, RequestView, ServerAddress, ServerData,
    ServerFlavor, ServerPowerState, ServerStatus, Timestamp,
};
use crate::query::text_pairs;
use crate::waiters::ServerStatusWaiter;
use crate::waiting::{DeletionWaiter, Refresh};

verus! {

/// The sizes that a server has from a flavor.
pub open spec fn flavor_sizes(flavor: Flavor) -> ServerFlavor {
    ServerFlavor {
        ephemeral_size: flavor.ephemeral,
        extra_specs: flavor.extra_specs,
        original_name: flavor.name,
        ram_size: flavor.ram,
        root_size: flavor.disk,
        swap_size: flavor.swap,
        vcpu_count: flavor.vcpus,
    }
}

/// The first floating address of a list, from the given index on.
pub open spec fn floating_in(list: Seq<ServerAddress>, from: int) -> Option<IpAddress>
    decreases list.len() - from,
{
    if from < 0 || from >= list.len() {
        None
    } else if list[from].addr_type == Some(AddressType::Floating) {
        Some(list[from].addr)
    } else {
        floating_in(list, from + 1)
    }
}

/// The first floating address among the networks from the given index on,
/// each network's addresses in their order.
pub open spec fn floating_among(networks: Seq<(String, Vec<ServerAddress>)>, from: int) -> Option<
    IpAddress,
>
    decreases networks.len() - from,
{
    if from < 0 || from >= networks.len() {
        None
    } else {
        match floating_in(networks[from].1@, 0) {
            Some(addr) => Some(addr),
            None => floating_among(networks, from + 1),
        }
    }
}

/// The timeout of a wait for a deletion, in milliseconds.
pub const DELETION_TIMEOUT: u64 = 120000;

/// The pause between two polls of a wait for a deletion, in milliseconds.
pub const DELETION_DELAY: u64 = 1000;

/// The message of a lookup on a server that has no image.
pub open spec fn no_image_text(id: Seq<char>) -> Seq<char> {
    "No image associated with server "@ + id
}

/// The message of a lookup on a server that has no key pair.
pub open spec fn no_key_pair_text(id: Seq<char>) -> Seq<char> {
    "No key pair associated with server "@ + id
}

/// A server: its latest snapshot and the sizes it has from its flavor.
#[derive(Clone, Debug, PartialEq, Eq)]
pub struct Server {
    pub inner: ServerData,
    pub flavor: ServerFlavor,
}

impl Server {
    /// The server with the given snapshot, sized by the given flavor. Every
    /// size comes from the one flavor that the caller looked up.
    pub fn new(inner: ServerData, flavor: Flavor) -> (s: Server)
        ensures
            s.inner == inner,
            s.flavor == flavor_sizes(flavor),
    {
        Server {
            inner,
            flavor: ServerFlavor {
                ephemeral_size: flavor.ephemeral,
                extra_specs: flavor.extra_specs,
                original_name: flavor.name,
                ram_size: flavor.ram,
                root_size: flavor.disk,
                swap_size: flavor.swap,
                vcpu_count: flavor.vcpus,
            },
        }
    }

    /// Begins to load the server with the given identifier.
    pub fn load(id: String) -> (l: ServerLoad)
        ensures
            l.id == id,
    {
        ServerLoad { id }
    }

    /// IPv4 address to access the server, if there is one.
    pub fn access_ipv4(&self) -> (ip: Option<Ipv4>)
        ensures
            ip == self.inner.access_ipv4,
    {
        self.inner.access_ipv4
    }

    /// IPv6 address to access the server, if there is one.
    pub fn access_ipv6(&self) -> (ip: Option<Ipv6>)
        ensures
            ip == self.inner.access_ipv6,
    {
        self.inner.access_ipv6
    }

    /// Addresses (floating and fixed) of the server, by network.
    pub fn addresses(&self) -> (a: &Vec<(String, Vec<ServerAddress>)>)
        ensures
            *a == self.inner.addresses,
    {
        &self.inner.addresses
    }

    /// Availability zone.
    pub fn availability_zone(&self) -> (z: &String)
        ensures
            *z == self.inner.availability_zone,
    {
        &self.inner.availability_zone
    }

    /// Creation date and time.
    pub fn created_at(&self) -> (t: Timestamp)
        ensures
            t == self.inner.created_at,
    {
        self.inner.created_at
    }

    /// Server description.
    pub fn description(&self) -> (d: &Option<String>)
        ensures
            *d == self.inner.description,
    {
        &self.inner.description
    }

    /// The sizes that the server has from its flavor.
    pub fn flavor(&self) -> (f: &ServerFlavor)
        ensures
            *f == self.flavor,
    {
        &self.flavor
    }

    /// The first floating address of the server, if it has one: networks
    /// in their order, and the addresses of each network in theirs.
    pub fn floating_ip(&self) -> (ip: Option<IpAddress>)
        ensures
            ip == floating_among(self.inner.addresses@, 0),
    {
        let mut i: usize = 0;
        while i < self.inner.addresses.len()
            invariant
                i <= self.inner.addresses.len(),
                floating_among(self.inner.addresses@, 0) == floating_among(
                    self.inner.addresses@,
                    i as int,
                ),
            decreases self.inner.addresses.len() - i,
        {
            let list: &Vec<ServerAddress> = &self.inner.addresses[i].1;
            let mut j: usize = 0;
            while j < list.len()
                invariant
                    i < self.inner.addresses.len(),
                    *list == self.inner.addresses@[i as int].1,
                    j <= list.len(),
                    floating_in(list@, 0) == floating_in(list@, j as int),
                    floating_among(self.inner.addresses@, 0) == floating_among(
                        self.inner.addresses@,
                        i as int,
                    ),
                decreases list.len() - j,
            {
                match list[j].addr_type {
                    Some(AddressType::Floating) => {
                        return Some(list[j].addr);
                    },
                    _ => {},
                }
                j = j + 1;
            }
            i = i + 1;
        }
        None
    }

    /// Whether the server was created with a config drive.
    pub fn has_config_drive(&self) -> (b: bool)
        ensures
            b == self.inner.has_config_drive,
    {
        self.inner.has_config_drive
    }

    /// Whether the server has an image. A server created from a volume has
    /// none.
    pub fn has_image(&self) -> (b: bool)
        ensures
            b == self.inner.image_id is Some,
    {
        self.inner.image_id.is_some()
    }

    /// Server unique ID.
    pub fn id(&self) -> (id: &String)
        ensures
            *id == self.inner.id,
    {
        &self.inner.id
    }

    /// The request that fetches the image of the server. Fails with
    /// `ResourceNotFound`, naming the server, if the server has no image.
    pub fn image(&self) -> (r: Result<Request, Error>)
        ensures
            match self.inner.image_id {
                Some(id) => r matches Ok(request) && request@ == (RequestView::GetImage {
                    id: id@,
                }),
                None => r matches Err(e) && e.kind == ErrorKind::ResourceNotFound && e.message@
                    == no_image_text(self.inner.id@),
            },
    {
        match &self.inner.image_id {
            Some(id) => Ok(Request::GetImage { id: id.clone() }),
            None => Err(
                Error::new(
                    ErrorKind::ResourceNotFound,
                    String::from_str("No image associated with server ").concat(
                        self.inner.id.as_str(),
                    ),
                ),
            ),
        }
    }

    /// The identifier of the image, if the server has one.
    pub fn image_id(&self) -> (id: Option<&String>)
        ensures
            match self.inner.image_id {
                Some(image) => id == Some(&image),
                None => id is None,
            },
    {
        match &self.inner.image_id {
            Some(image) => Some(image),
            None => None,
        }
    }

    /// The request that fetches the key pair of the server. Fails with
    /// `ResourceNotFound`, naming the server, if the server has no key
    /// pair.
    pub fn key_pair(&self) -> (r: Result<Request, Error>)
        ensures
            match self.inner.key_pair_name {
                Some(name) => r matches Ok(request) && request@ == (RequestView::GetKeyPair {
                    name: name@,
                }),
                None => r matches Err(e) && e.kind == ErrorKind::ResourceNotFound && e.message@
                    == no_key_pair_text(self.inner.id@),
            },
    {
        match &self.inner.key_pair_name {
            Some(name) => Ok(Request::GetKeyPair { name: name.clone() }),
            None => Err(
                Error::new(
                    ErrorKind::ResourceNotFound,
                    String::from_str("No key pair associated with server ").concat(
                        self.inner.id.as_str(),
                    ),
                ),
            ),
        }
    }

    /// Name of the key pair used with this server, if any.
    pub fn key_pair_name(&self) -> (n: &Option<String>)
        ensures
            *n == self.inner.key_pair_name,
    {
        &self.inner.key_pair_name
    }

    /// Server name.
    pub fn name(&self) -> (n: &String)
        ensures
            *n == self.inner.name,
    {
        &self.inner.name
    }

    /// Metadata of the server: keys and values.
    pub fn metadata(&self) -> (m: &Vec<(String, String)>)
        ensures
            *m == self.inner.metadata,
    {
        &self.inner.metadata
    }

    /// Server power state.
    pub fn power_state(&self) -> (p: ServerPowerState)
        ensures
            p == self.inner.power_state,
    {
        self.inner.power_state
    }

    /// Server status.
    pub fn status(&self) -> (s: ServerStatus)
        ensures
            s == self.inner.status,
    {
        self.inner.status
    }

    /// Last update date and time.
    pub fn updated_at(&self) -> (t: Timestamp)
        ensures
            t == self.inner.updated_at,
    {
        self.inner.updated_at
    }

    /// Deletes the server: the request to send, and the waiter to drive
    /// once the service has accepted it.
    pub fn delete(self) -> (out: (Request, DeletionWaiter<Server>))
        ensures
            out.0@ == (RequestView::DeleteServer { id: self.inner.id@ }),
            out.1 == (DeletionWaiter {
                inner: self,
                wait_timeout: DELETION_TIMEOUT,
                delay: DELETION_DELAY,
            }),
    {
        let request = Request::DeleteServer { id: self.inner.id.clone() };
        (request, DeletionWaiter::new(self, DELETION_TIMEOUT, DELETION_DELAY))
    }

    /// Reboots the server: the request to send, and the waiter that
    /// resolves when the server is active again.
    pub fn reboot<'server>(&'server mut self, reboot_type: RebootType) -> (out: (
        Request,
        ServerStatusWaiter<'server>,
    ))
        ensures
            out.0@ == (RequestView::ServerAction {
                id: old(self).inner.id@,
                action: "reboot"@,
                args: seq![("type"@, reboot_type.name())],
            }),
            out.1.target == ServerStatus::Active,
            out.1.current() == *old(self),
            *final(self) == *final(out.1.server),
    {
        let mut args: Vec<(String, String)> = Vec::new();
        args.push((String::from_str("type"), String::from_str(reboot_type.as_str())));
        assert(text_pairs(args@) =~= seq![("type"@, reboot_type.name())]);
        let request = Request::ServerAction {
            id: self.inner.id.clone(),
            action: String::from_str("reboot"),
            args,
        };
        (request, ServerStatusWaiter { server: self, target: ServerStatus::Active })
    }

    /// Starts the server: the request to send, and the waiter that resolves
    /// when the server is active.
    pub fn start<'server>(&'server mut self) -> (out: (Request, ServerStatusWaiter<'server>))
        ensures
            out.0@ == (RequestView::ServerAction {
                id: old(self).inner.id@,
                action: "os-start"@,
                args: Seq::<(Seq<char>, Seq<char>)>::empty(),
            }),
            out.1.target == ServerStatus::Active,
            out.1.current() == *old(self),
            *final(self) == *final(out.1.server),
    {
        let args: Vec<(String, String)> = Vec::new();
        assert(text_pairs(args@) =~= Seq::<(Seq<char>, Seq<char>)>::empty());
        let request = Request::ServerAction {
            id: self.inner.id.clone(),
            action: String::from_str("os-start"),
            args,
        };
        (request, ServerStatusWaiter { server: self, target: ServerStatus::Active })
    }

    /// Stops the server: the request to send, and the waiter that resolves
    /// when the server is shut off.
    pub fn stop<'server>(&'server mut self) -> (out: (Request, ServerStatusWaiter<'server>))
        ensures
            out.0@ == (RequestView::ServerAction {
                id: old(self).inner.id@,
                action: "os-stop"@,
                args: Seq::<(Seq<char>, Seq<char>)>::empty(),
            }),
            out.1.target == ServerStatus::ShutOff,
            out.1.current() == *old(self),
            *final(self) == *final(out.1.server),
    {
        let args: Vec<(String, String)> = Vec::new();
        assert(text_pairs(args@) =~= Seq::<(Seq<char>, Seq<char>)>::empty());
        let request = Request::ServerAction {
            id: self.inner.id.clone(),
            action: String::from_str("os-stop"),
            args,
        };
        (request, ServerStatusWaiter { server: self, target: ServerStatus::ShutOff })
    }
}

impl Refresh for Server {
    type Snapshot = ServerData;

    open spec fn ident(&self) -> Seq<char> {
        self.inner.id@
    }

    open spec fn refreshed(self, snapshot: ServerData) -> Server {
        Server { inner: snapshot, flavor: self.flavor }
    }

    open spec fn fetch(&self) -> RequestView {
        RequestView::GetServer { id: self.inner.id@ }
    }

    fn resource_id(&self) -> (id: String) {
        self.inner.id.clone()
    }

    fn refresh_request(&self) -> (r: Request) {
        Request::GetServer { id: self.inner.id.clone() }
    }

    /// Takes the answer to the refresh request. The snapshot is replaced as
    /// a whole, never field by field; the sizes stay.
    fn refresh(&mut self, fetched: Result<ServerData, Error>) -> (r: Result<(), Error>) {
        match fetched {
            Ok(data) => {
                self.inner = data;
                Ok(())
            },
            Err(e) => Err(e),
        }
    }
}

/// The identifier and the name of a server, as a listing without details
/// gives them.
#[derive(Clone, Debug, PartialEq, Eq)]
pub struct ServerSummary {
    pub inner: IdAndName,
}

impl ServerSummary {
    /// Server unique ID.
    pub fn id(&self) -> (id: &String)
        ensures
            *id == self.inner.id,
    {
        &self.inner.id
    }

    /// Server name.
    pub fn name(&self) -> (n: &String)
        ensures
            *n == self.inner.name,
    {
        &self.inner.name
    }

    /// Begins to load the server with all its details.
    pub fn details(&self) -> (l: ServerLoad)
        ensures
            l.id == self.inner.id,
    {
        Server::load(self.inner.id.clone())
    }

    /// The request that deletes the server.
    pub fn delete(self) -> (r: Request)
        ensures
            r@ == (RequestView::DeleteServer { id: self.inner.id@ }),
    {
        Request::DeleteServer { id: self.inner.id }
    }
}

/// A server being loaded: its snapshot is yet to be fetched.
#[derive(Debug, PartialEq, Eq)]
pub struct ServerLoad {
    pub id: String,
}

impl ServerLoad {
    /// The request that fetches the snapshot.
    pub fn request(&self) -> (r: Request)
        ensures
            r@ == (RequestView::GetServer { id: self.id@ }),
    {
        Request::GetServer { id: self.id.clone() }
    }

    /// Takes the answer to the request: with the snapshot the flavor is
    /// next, a failure ends the load.
    pub fn loaded(self, fetched: Result<ServerData, Error>) -> (r: Result<FlavorLoad, Error>)
        ensures
            match fetched {
                Ok(data) => r == Ok::<FlavorLoad, Error>(FlavorLoad { data }),
                Err(e) => r == Err::<FlavorLoad, Error>(e),
            },
    {
        match fetched {
            Ok(data) => Ok(FlavorLoad { data }),
            Err(e) => Err(e),
        }
    }
}

/// A server being loaded: its snapshot is here, its flavor is yet to be
/// fetched.
#[derive(Debug, PartialEq, Eq)]
pub struct FlavorLoad {
    pub data: ServerData,
}

impl FlavorLoad {
    /// The request that fetches the flavor of the server.
    pub fn request(&self) -> (r: Request)
        ensures
            r@ == (RequestView::GetFlavor { id: self.data.flavor_id@ }),
    {
        Request::GetFlavor { id: self.data.flavor_id.clone() }
    }

    /// Takes the answer to the request: with the flavor the server is
    /// complete, a failure ends the load.
    pub fn resolved(self, fetched: Result<Flavor, Error>) -> (r: Result<Server, Error>)
        ensures
            match fetched {
                Ok(flavor) => r == Ok::<Server, Error>(
                    Server { inner: self.data, flavor: flavor_sizes(flavor) },
                ),
                Err(e) => r == Err::<Server, Error>(e),
            },
    {
        match fetched {
            Ok(flavor) => Ok(Server::new(self.data, flavor)),
            Err(e) => Err(e),
        }
    }
}

/// The first floating address of a list is the address of an entry of the
/// list that is floating, with no floating entry before it; there is none
/// exactly if no entry from `from` on is floating.
pub proof fn lemma_floating_in(list: Seq<ServerAddress>, from: int)
    requires
        0 <= from <= list.len(),
    ensures
        match floating_in(list, from) {
            Some(addr) => exists|k: int|
                from <= k < list.len() && (#[trigger] list[k]).addr_type == Some(
                    AddressType::Floating,
                ) && list[k].addr == addr && forall|b: int|
                    from <= b < k ==> (#[trigger] list[b]).addr_type != Some(AddressType::Floating),
            None => forall|k: int|
                from <= k < list.len() ==> (#[trigger] list[k]).addr_type != Some(
                    AddressType::Floating,
                ),
        },
    decreases list.len() - from,
{
    if from < list.len() {
        if list[from].addr_type == Some(AddressType::Floating) {
        } else {
            lemma_floating_in(list, from + 1);
        }
    }
}

/// A server has no floating address exactly if none of the addresses of
/// any of its networks is floating.
pub proof fn lemma_no_floating_address(networks: Seq<(String, Vec<ServerAddress>)>, from: int)
    requires
        0 <= from <= networks.len(),
    ensures
        floating_among(networks, from) is None <==> forall|i: int, k: int|
            from <= i < networks.len() && 0 <= k < networks[i].1@.len() ==> (
            #[trigger] networks[i].1@[k]).addr_type != Some(AddressType::Floating),
    decreases networks.len() - from,
{
    if from < networks.len() {
        lemma_floating_in(networks[from].1@, 0);
        lemma_no_floating_address(networks, from + 1);
    }
}

} // verus!
