//! Creating a server: the description of the new server, and the steps
//! that lead from it to the request that creates it.
//!
//! A new server refers to a flavor and, where wanted, to an image, a key
//! pair, networks and ports. Each reference that the service has not yet
//! confirmed is resolved first, one at a time and in a fixed order; the
//! request to create the server is made only when none is left. The new
//! server is then loaded, and what comes out is the waiter for it to become
//! active.

use vstd::prelude::*;
use crate::error::Error;
use crate::net::Ipv4;
use crate::protocol::{
    networks_view, Flavor, RefKind, Request, RequestView, ServerCreate, ServerCreateView,
    ServerData, ServerNetwork, ServerNetworkView,
};
use crate::query::{copy_pairs, text_pairs};
use crate::refs::ResourceRef;
use crate::server::{flavor_sizes, FlavorLoad, Server, ServerLoad};
use crate::waiters::ServerCreationWaiter;

verus! {

/// A virtual NIC of a new server.
#[derive(Clone, Debug, PartialEq, Eq)]
pub enum ServerNIC {
    /// A NIC from the given network.
    FromNetwork(ResourceRef),
    /// A NIC with the given port.
    WithPort(ResourceRef),
    /// A NIC with the given fixed IP.
    WithFixedIp(Ipv4),
}

impl ServerNIC {
    /// Whether the NIC refers to something that is yet to be confirmed.
    pub open spec fn unresolved(self) -> bool {
        match self {
            ServerNIC::FromNetwork(network) => !network.verified,
            ServerNIC::WithPort(port) => !port.verified,
            ServerNIC::WithFixedIp(_) => false,
        }
    }

    /// What has to be looked up for an unresolved NIC.
    pub open spec fn lookup(self) -> (RefKind, Seq<char>) {
        match self {
            ServerNIC::FromNetwork(network) => (RefKind::Network, network.value@),
            ServerNIC::WithPort(port) => (RefKind::Port, port.value@),
            ServerNIC::WithFixedIp(_) => (RefKind::Network, Seq::empty()),
        }
    }

    /// Whether `after` is this NIC with its reference confirmed as `id`.
    pub open spec fn resolved_as(self, after: ServerNIC, id: String) -> bool {
        match self {
            ServerNIC::FromNetwork(_) => after == ServerNIC::FromNetwork(
                ResourceRef { value: id, verified: true },
            ),
            ServerNIC::WithPort(_) => after == ServerNIC::WithPort(
                ResourceRef { value: id, verified: true },
            ),
            ServerNIC::WithFixedIp(_) => after == self,
        }
    }

    /// The attachment that the service is asked for.
    pub open spec fn attachment(self) -> ServerNetworkView {
        match self {
            ServerNIC::FromNetwork(network) => ServerNetworkView::Network { uuid: network.value@ },
            ServerNIC::WithPort(port) => ServerNetworkView::Port { port: port.value@ },
            ServerNIC::WithFixedIp(ip) => ServerNetworkView::FixedIp { fixed_ip: ip },
        }
    }

    /// Whether the NIC refers to something that is yet to be confirmed.
    pub fn is_unresolved(&self) -> (b: bool)
        ensures
            b == self.unresolved(),
    {
        match self {
            ServerNIC::FromNetwork(network) => !network.verified,
            ServerNIC::WithPort(port) => !port.verified,
            ServerNIC::WithFixedIp(_) => false,
        }
    }
}

/// The attachments asked for by a list of NICs, in the same order.
pub open spec fn attachments(nics: Seq<ServerNIC>) -> Seq<ServerNetworkView> {
    Seq::new(nics.len(), |i: int| nics[i].attachment())
}

/// The index of the first unresolved NIC from `from` on, or the length of
/// the list if there is none.
pub open spec fn first_unresolved(nics: Seq<ServerNIC>, from: int) -> int
    decreases nics.len() - from,
{
    if from < 0 || from >= nics.len() {
        nics.len() as int
    } else if nics[from].unresolved() {
        from
    } else {
        first_unresolved(nics, from + 1)
    }
}

/// Turns the NICs of a new server into the attachments that the service
/// is asked for, one for one and in the same order.
pub fn convert_networks(networks: &Vec<ServerNIC>) -> (result: Vec<ServerNetwork>)
    ensures
        networks_view(result@) == attachments(networks@),
{
    let mut result: Vec<ServerNetwork> = Vec::with_capacity(networks.len());
    let mut i: usize = 0;
    while i < networks.len()
        invariant
            i <= networks.len(),
            result@.len() == i,
            forall|k: int| 0 <= k < i ==> (#[trigger] result@[k])@ == networks@[k].attachment(),
        decreases networks.len() - i,
    {
        let item: ServerNetwork = match &networks[i] {
            ServerNIC::FromNetwork(network) => ServerNetwork::Network {
                uuid: network.value.clone(),
            },
            ServerNIC::WithPort(port) => ServerNetwork::Port { port: port.value.clone() },
            ServerNIC::WithFixedIp(ip) => ServerNetwork::FixedIp { fixed_ip: *ip },
        };
        result.push(item);
        i = i + 1;
    }
    result
}

/// The index of the first pair with the given key from `from` on, or the
/// length of the list if there is none.
pub open spec fn find_key(pairs: Seq<(String, String)>, key: Seq<char>, from: int) -> int
    decreases pairs.len() - from,
{
    if from < 0 || from >= pairs.len() {
        pairs.len() as int
    } else if pairs[from].0@ == key {
        from
    } else {
        find_key(pairs, key, from + 1)
    }
}

/// The pairs with `value` under `key`: in place of the first pair with
/// that key, or at the end if there is none.
pub open spec fn with_pair(pairs: Seq<(String, String)>, key: String, value: String) -> Seq<
    (String, String),
> {
    let at = find_key(pairs, key@, 0);
    if at < pairs.len() {
        pairs.update(at, (key, value))
    } else {
        pairs.push((key, value))
    }
}

/// Sets `value` under `key`.
pub fn set_pair(pairs: &mut Vec<(String, String)>, key: String, value: String)
    ensures
        final(pairs)@ == with_pair(old(pairs)@, key, value),
{
    let mut i: usize = 0;
    while i < pairs.len()
        invariant
            i <= pairs.len(),
            *pairs == *old(pairs),
            find_key(pairs@, key@, 0) == find_key(pairs@, key@, i as int),
        decreases pairs.len() - i,
    {
        if pairs[i].0 == key {
            pairs[i] = (key, value);
            return ;
        }
        i = i + 1;
    }
    pairs.push((key, value));
}

/// Which reference of a new server is meant.
#[derive(Clone, Copy, Debug, PartialEq, Eq, Structural)]
pub enum Slot {
    Flavor,
    Image,
    KeyPair,
    /// The NIC at this index.
    Nic(usize),
}

/// A request to create a server.
#[derive(Clone, Debug, PartialEq, Eq)]
pub struct NewServer {
    pub flavor: ResourceRef,
    pub image: Option<ResourceRef>,
    pub keypair: Option<ResourceRef>,
    /// Keys and values; `with_metadata` keeps each key once.
    pub metadata: Vec<(String, String)>,
    pub name: String,
    pub networks: Vec<ServerNIC>,
}

impl NewServer {
    /// The reference to resolve next, if any is unresolved: the flavor,
    /// then the image, then the key pair, then the NICs in their order.
    pub open spec fn next_slot(&self) -> Option<Slot> {
        if !self.flavor.verified {
            Some(Slot::Flavor)
        } else if self.image is Some && !self.image->0.verified {
            Some(Slot::Image)
        } else if self.keypair is Some && !self.keypair->0.verified {
            Some(Slot::KeyPair)
        } else if first_unresolved(self.networks@, 0) < self.networks@.len() {
            Some(Slot::Nic(first_unresolved(self.networks@, 0) as usize))
        } else {
            None
        }
    }

    /// What has to be looked up for the reference at `slot`.
    pub open spec fn lookup_at(&self, slot: Slot) -> (RefKind, Seq<char>) {
        match slot {
            Slot::Flavor => (RefKind::Flavor, self.flavor.value@),
            Slot::Image => (RefKind::Image, self.image->0.value@),
            Slot::KeyPair => (RefKind::KeyPair, self.keypair->0.value@),
            Slot::Nic(i) => self.networks@[i as int].lookup(),
        }
    }

    /// Whether `after` is this description with the reference at `slot`
    /// confirmed as `id` and nothing else changed.
    pub open spec fn resolved_at(&self, after: NewServer, slot: Slot, id: String) -> bool {
        let confirmed = ResourceRef { value: id, verified: true };
        &&& after.name == self.name
        &&& after.metadata == self.metadata
        &&& after.flavor == (if slot == Slot::Flavor {
            confirmed
        } else {
            self.flavor
        })
        &&& after.image == (if slot == Slot::Image {
            Some(confirmed)
        } else {
            self.image
        })
        &&& after.keypair == (if slot == Slot::KeyPair {
            Some(confirmed)
        } else {
            self.keypair
        })
        &&& after.networks@.len() == self.networks@.len()
        &&& forall|k: int|
            0 <= k < self.networks@.len() ==> if slot is Nic && slot->0 == k {
                self.networks@[k].resolved_as(#[trigger] after.networks@[k], id)
            } else {
                after.networks@[k] == self.networks@[k]
            }
    }

    /// The body of the request that creates this server: each reference by
    /// the value it holds.
    pub open spec fn body(&self) -> ServerCreateView {
        ServerCreateView {
            flavor_ref: self.flavor.value@,
            image_ref: match self.image {
                Some(image) => Some(image.value@),
                None => None,
            },
            key_name: match self.keypair {
                Some(keypair) => Some(keypair.value@),
                None => None,
            },
            metadata: text_pairs(self.metadata@),
            name: self.name@,
            networks: attachments(self.networks@),
        }
    }

    /// Start creating a server.
    pub fn new(name: String, flavor: ResourceRef) -> (s: NewServer)
        ensures
            s.name == name,
            s.flavor == flavor,
            s.image is None,
            s.keypair is None,
            s.metadata@.len() == 0,
            s.networks@.len() == 0,
    {
        NewServer {
            flavor,
            image: None,
            keypair: None,
            metadata: Vec::new(),
            name,
            networks: Vec::new(),
        }
    }

    /// Finds the reference to resolve next.
    pub fn find_slot(&self) -> (slot: Option<Slot>)
        ensures
            slot == self.next_slot(),
    {
        if !self.flavor.verified {
            return Some(Slot::Flavor);
        }
        match &self.image {
            Some(image) => {
                if !image.verified {
                    return Some(Slot::Image);
                }
            },
            None => {},
        }
        match &self.keypair {
            Some(keypair) => {
                if !keypair.verified {
                    return Some(Slot::KeyPair);
                }
            },
            None => {},
        }
        let mut i: usize = 0;
        while i < self.networks.len()
            invariant
                i <= self.networks.len(),
                self.flavor.verified,
                self.image is Some ==> self.image->0.verified,
                self.keypair is Some ==> self.keypair->0.verified,
                first_unresolved(self.networks@, 0) == first_unresolved(self.networks@, i as int),
            decreases self.networks.len() - i,
        {
            if self.networks[i].is_unresolved() {
                return Some(Slot::Nic(i));
            }
            i = i + 1;
        }
        None
    }

    /// Request creation of the server: the first step towards it. Every
    /// unresolved reference is resolved before the request to create the
    /// server is made.
    pub fn create(self) -> (step: CreateStep)
        ensures
            step.is_first_of(self),
    {
        match self.find_slot() {
            Some(slot) => CreateStep::Resolve(PendingResolve { server: self, slot }),
            None => CreateStep::Submit(PendingCreate { server: self }),
        }
    }

    /// Add a virtual NIC with given fixed IP to the new server.
    pub fn add_fixed_ip(&mut self, fixed_ip: Ipv4)
        ensures
            final(self).networks@ == old(self).networks@.push(ServerNIC::WithFixedIp(fixed_ip)),
            final(self).same_but_networks(*old(self)),
    {
        self.add_nic(ServerNIC::WithFixedIp(fixed_ip));
    }

    /// Add a virtual NIC from this network to the new server.
    pub fn add_network(&mut self, network: ResourceRef)
        ensures
            final(self).networks@ == old(self).networks@.push(ServerNIC::FromNetwork(network)),
            final(self).same_but_networks(*old(self)),
    {
        self.add_nic(ServerNIC::FromNetwork(network));
    }

    /// Add a virtual NIC to the new server.
    pub fn add_nic(&mut self, nic: ServerNIC)
        ensures
            final(self).networks@ == old(self).networks@.push(nic),
            final(self).same_but_networks(*old(self)),
    {
        self.networks.push(nic);
    }

    /// Add a virtual NIC with this port to the new server.
    pub fn add_port(&mut self, port: ResourceRef)
        ensures
            final(self).networks@ == old(self).networks@.push(ServerNIC::WithPort(port)),
            final(self).same_but_networks(*old(self)),
    {
        self.add_nic(ServerNIC::WithPort(port));
    }

    /// Use this image as a source for the new server.
    pub fn set_image(&mut self, image: ResourceRef)
        ensures
            final(self).image == Some(image),
            final(self).flavor == old(self).flavor,
            final(self).keypair == old(self).keypair,
            final(self).metadata == old(self).metadata,
            final(self).name == old(self).name,
            final(self).networks == old(self).networks,
    {
        self.image = Some(image);
    }

    /// Use this key pair for the new server.
    pub fn set_keypair(&mut self, keypair: ResourceRef)
        ensures
            final(self).keypair == Some(keypair),
            final(self).flavor == old(self).flavor,
            final(self).image == old(self).image,
            final(self).metadata == old(self).metadata,
            final(self).name == old(self).name,
            final(self).networks == old(self).networks,
    {
        self.keypair = Some(keypair);
    }

    /// Whether this description equals `other` in all but its NICs.
    pub open spec fn same_but_networks(&self, other: NewServer) -> bool {
        &&& self.flavor == other.flavor
        &&& self.image == other.image
        &&& self.keypair == other.keypair
        &&& self.metadata == other.metadata
        &&& self.name == other.name
    }

    /// Add a virtual NIC with given fixed IP to the new server.
    pub fn with_fixed_ip(self, fixed_ip: Ipv4) -> (s: NewServer)
        ensures
            s.networks@ == self.networks@.push(ServerNIC::WithFixedIp(fixed_ip)),
            s.same_but_networks(self),
    {
        let mut s = self;
        s.add_fixed_ip(fixed_ip);
        s
    }

    /// Use this image as a source for the new server.
    pub fn with_image(self, image: ResourceRef) -> (s: NewServer)
        ensures
            s.image == Some(image),
            s.flavor == self.flavor,
            s.keypair == self.keypair,
            s.metadata == self.metadata,
            s.name == self.name,
            s.networks == self.networks,
    {
        let mut s = self;
        s.set_image(image);
        s
    }

    /// Use this key pair for the new server.
    pub fn with_keypair(self, keypair: ResourceRef) -> (s: NewServer)
        ensures
            s.keypair == Some(keypair),
            s.flavor == self.flavor,
            s.image == self.image,
            s.metadata == self.metadata,
            s.name == self.name,
            s.networks == self.networks,
    {
        let mut s = self;
        s.set_keypair(keypair);
        s
    }

    /// Add a virtual NIC from this network to the new server.
    pub fn with_network(self, network: ResourceRef) -> (s: NewServer)
        ensures
            s.networks@ == self.networks@.push(ServerNIC::FromNetwork(network)),
            s.same_but_networks(self),
    {
        let mut s = self;
        s.add_network(network);
        s
    }

    /// Add a virtual NIC with this port to the new server.
    pub fn with_port(self, port: ResourceRef) -> (s: NewServer)
        ensures
            s.networks@ == self.networks@.push(ServerNIC::WithPort(port)),
            s.same_but_networks(self),
    {
        let mut s = self;
        s.add_port(port);
        s
    }

    /// Add an arbitrary key/value metadata pair. A value already set under
    /// the key is replaced.
    pub fn with_metadata(self, key: String, value: String) -> (s: NewServer)
        ensures
            s.metadata@ == with_pair(self.metadata@, key, value),
            s.flavor == self.flavor,
            s.image == self.image,
            s.keypair == self.keypair,
            s.name == self.name,
            s.networks == self.networks,
    {
        let mut s = self;
        set_pair(&mut s.metadata, key, value);
        s
    }
}

/// A step on the way to a new server.
pub enum CreateStep {
    /// A reference has to be resolved first.
    Resolve(PendingResolve),
    /// Every reference is resolved: the server can be created.
    Submit(PendingCreate),
}

impl CreateStep {
    /// The new server as described at this step.
    pub open spec fn server(self) -> NewServer {
        match self {
            CreateStep::Resolve(pending) => pending.server(),
            CreateStep::Submit(pending) => pending.server(),
        }
    }

    /// Whether this is the step that creating `server` begins with: the
    /// lookup of its first unresolved reference, or the creation itself if
    /// it has none.
    pub open spec fn is_first_of(self, server: NewServer) -> bool {
        match server.next_slot() {
            Some(slot) => self matches CreateStep::Resolve(pending) && pending.server() == server
                && pending.slot() == slot,
            None => self matches CreateStep::Submit(pending) && pending.server() == server,
        }
    }
}

/// A new server with a reference that is being resolved.
pub struct PendingResolve {
    server: NewServer,
    slot: Slot,
}

impl PendingResolve {
    #[verifier::type_invariant]
    spec fn inv(self) -> bool {
        self.server.next_slot() == Some(self.slot)
    }

    /// The new server as described so far.
    pub closed spec fn server(self) -> NewServer {
        self.server
    }

    /// The reference that is being resolved.
    pub closed spec fn slot(self) -> Slot {
        self.slot
    }

    /// The request that resolves the reference: the kind of resource and
    /// the identifier or name to find. The reference is the first one of
    /// the description that is unresolved.
    pub fn request(&self) -> (r: Request)
        ensures
            self.server().next_slot() == Some(self.slot()),
            r@ == (RequestView::Resolve {
                kind: self.server().lookup_at(self.slot()).0,
                value: self.server().lookup_at(self.slot()).1,
            }),
    {
        proof {
            use_type_invariant(self);
        }
        match self.slot {
            Slot::Flavor => Request::Resolve {
                kind: RefKind::Flavor,
                value: self.server.flavor.value.clone(),
            },
            Slot::Image => match &self.server.image {
                Some(image) => Request::Resolve { kind: RefKind::Image, value: image.value.clone() },
                None => Request::Resolve { kind: RefKind::Image, value: String::new() },
            },
            Slot::KeyPair => match &self.server.keypair {
                Some(keypair) => Request::Resolve {
                    kind: RefKind::KeyPair,
                    value: keypair.value.clone(),
                },
                None => Request::Resolve { kind: RefKind::KeyPair, value: String::new() },
            },
            Slot::Nic(i) => {
                proof {
                    lemma_first_unresolved(self.server.networks@, 0);
                }
                match &self.server.networks[i] {
                    ServerNIC::FromNetwork(network) => Request::Resolve {
                        kind: RefKind::Network,
                        value: network.value.clone(),
                    },
                    ServerNIC::WithPort(port) => Request::Resolve {
                        kind: RefKind::Port,
                        value: port.value.clone(),
                    },
                    ServerNIC::WithFixedIp(_) => Request::Resolve {
                        kind: RefKind::Network,
                        value: String::new(),
                    },
                }
            },
        }
    }

    /// Takes the answer to the request. A failure ends the creation with
    /// that failure. An identifier confirms the reference, and the next
    /// step is the first one of the description so changed.
    pub fn answer(self, answer: Result<String, Error>) -> (r: Result<CreateStep, Error>)
        ensures
            match answer {
                Err(e) => r == Err::<CreateStep, Error>(e),
                Ok(id) => r matches Ok(step) && self.server().resolved_at(
                    step.server(),
                    self.slot(),
                    id,
                ) && step.is_first_of(step.server()),
            },
    {
        proof {
            use_type_invariant(&self);
        }
        match answer {
            Err(e) => Err(e),
            Ok(id) => {
                let slot = self.slot;
                let mut server = self.server;
                match slot {
                    Slot::Flavor => {
                        server.flavor = ResourceRef::new_verified(id);
                    },
                    Slot::Image => {
                        server.image = Some(ResourceRef::new_verified(id));
                    },
                    Slot::KeyPair => {
                        server.keypair = Some(ResourceRef::new_verified(id));
                    },
                    Slot::Nic(i) => {
                        proof {
                            lemma_first_unresolved(server.networks@, 0);
                        }
                        let nic: ServerNIC = match &server.networks[i] {
                            ServerNIC::FromNetwork(_) => ServerNIC::FromNetwork(
                                ResourceRef::new_verified(id),
                            ),
                            ServerNIC::WithPort(_) => ServerNIC::WithPort(
                                ResourceRef::new_verified(id),
                            ),
                            ServerNIC::WithFixedIp(ip) => ServerNIC::WithFixedIp(*ip),
                        };
                        server.networks[i] = nic;
                    },
                }
                Ok(server.create())
            },
        }
    }
}

/// Where the first unresolved NIC is: within the list and unresolved, with
/// every NIC before it resolved; or nowhere, with every NIC resolved.
pub proof fn lemma_first_unresolved(nics: Seq<ServerNIC>, from: int)
    requires
        0 <= from <= nics.len(),
    ensures
        from <= first_unresolved(nics, from) <= nics.len(),
        first_unresolved(nics, from) < nics.len() ==> nics[first_unresolved(
            nics,
            from,
        )].unresolved(),
        forall|k: int| from <= k < first_unresolved(nics, from) ==> !(#[trigger] nics[k]).unresolved(),
    decreases nics.len() - from,
{
    if from < nics.len() && !nics[from].unresolved() {
        lemma_first_unresolved(nics, from + 1);
    }
}

/// A new server whose references are all resolved.
pub struct PendingCreate {
    server: NewServer,
}

impl PendingCreate {
    #[verifier::type_invariant]
    spec fn inv(self) -> bool {
        self.server.next_slot() is None
    }

    /// The new server as described.
    pub closed spec fn server(self) -> NewServer {
        self.server
    }

    /// The request that creates the server. No reference of the
    /// description is left unresolved.
    pub fn request(&self) -> (r: Request)
        ensures
            self.server().next_slot() is None,
            r@ == (RequestView::CreateServer { body: self.server().body() }),
    {
        proof {
            use_type_invariant(self);
        }
        let image_ref: Option<String> = match &self.server.image {
            Some(image) => Some(image.value.clone()),
            None => None,
        };
        let key_name: Option<String> = match &self.server.keypair {
            Some(keypair) => Some(keypair.value.clone()),
            None => None,
        };
        let body = ServerCreate {
            flavor_ref: self.server.flavor.value.clone(),
            image_ref,
            key_name,
            metadata: copy_pairs(&self.server.metadata),
            name: self.server.name.clone(),
            networks: convert_networks(&self.server.networks),
        };
        Request::CreateServer { body }
    }

    /// Takes the answer to the request: the identifier of the new server,
    /// with which its load begins, or the failure that ends the creation.
    pub fn created(self, answer: Result<String, Error>) -> (r: Result<NewServerLoad, Error>)
        ensures
            match answer {
                Ok(id) => r == Ok::<NewServerLoad, Error>(NewServerLoad { load: ServerLoad { id } }),
                Err(e) => r == Err::<NewServerLoad, Error>(e),
            },
    {
        match answer {
            Ok(id) => Ok(NewServerLoad { load: Server::load(id) }),
            Err(e) => Err(e),
        }
    }
}

/// A new server being loaded: its snapshot is yet to be fetched.
#[derive(Debug, PartialEq, Eq)]
pub struct NewServerLoad {
    pub load: ServerLoad,
}

impl NewServerLoad {
    /// The request that fetches the snapshot.
    pub fn request(&self) -> (r: Request)
        ensures
            r@ == (RequestView::GetServer { id: self.load.id@ }),
    {
        self.load.request()
    }

    /// Takes the answer to the request: with the snapshot the flavor is
    /// next, a failure ends the creation.
    pub fn loaded(self, fetched: Result<ServerData, Error>) -> (r: Result<
        NewServerFlavorLoad,
        Error,
    >)
        ensures
            match fetched {
                Ok(data) => r == Ok::<NewServerFlavorLoad, Error>(
                    NewServerFlavorLoad { load: FlavorLoad { data } },
                ),
                Err(e) => r == Err::<NewServerFlavorLoad, Error>(e),
            },
    {
        match self.load.loaded(fetched) {
            Ok(load) => Ok(NewServerFlavorLoad { load }),
            Err(e) => Err(e),
        }
    }
}

/// A new server being loaded: its snapshot is here, its flavor is yet to
/// be fetched.
#[derive(Debug, PartialEq, Eq)]
pub struct NewServerFlavorLoad {
    pub load: FlavorLoad,
}

impl NewServerFlavorLoad {
    /// The request that fetches the flavor of the server.
    pub fn request(&self) -> (r: Request)
        ensures
            r@ == (RequestView::GetFlavor { id: self.load.data.flavor_id@ }),
    {
        self.load.request()
    }

    /// Takes the answer to the request: with the flavor the server is
    /// complete, and what is left is to wait for it to become active; a
    /// failure ends the creation.
    pub fn resolved(self, fetched: Result<Flavor, Error>) -> (r: Result<
        ServerCreationWaiter,
        Error,
    >)
        ensures
            match fetched {
                Ok(flavor) => r == Ok::<ServerCreationWaiter, Error>(
                    ServerCreationWaiter {
                        server: Server { inner: self.load.data, flavor: flavor_sizes(flavor) },
                    },
                ),
                Err(e) => r == Err::<ServerCreationWaiter, Error>(e),
            },
    {
        match self.load.resolved(fetched) {
            Ok(server) => Ok(ServerCreationWaiter::new(server)),
            Err(e) => Err(e),
        }
    }
}

} // verus!
