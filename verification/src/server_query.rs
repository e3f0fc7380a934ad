//! Queries for lists of servers.

use vstd::prelude::*;
use vstd::std_specs::convert::FromSpecImpl;
use vstd::string::*;
use crate::net::{dotted_text, Ipv4};
use crate::pagination::{
    drain, lemma_single_chunk_walk, Cursor, Drained, PendingListing, PendingOne, ResourceIterator,
    ResourceQuery, Source,
};
use crate::protocol::{Request, RequestView, ServerSortKey, ServerStatus};
use crate::query::{direction_text, paged_params, render_direction, text_of, Params, Query, Sort};
use crate::refs::ResourceRef;
use crate::server::{Server, ServerSummary};
use crate::text::decimal_text;

verus! {

/// Whether a name is one of those that page a listing.
pub open spec fn is_paging_name(name: Seq<char>) -> bool {
    name == "marker"@ || name == "limit"@
}

/// Whether any of the parameters pages a listing.
pub open spec fn names_paging(params: Params) -> bool {
    exists|i: int| 0 <= i < params.len() && is_paging_name(#[trigger] params[i].0)
}

/// The number of summaries asked for in one chunk.
pub const SUMMARY_CHUNK: usize = 100;

/// The number of detailed servers asked for in one chunk. Smaller than
/// that of summaries, since each item costs more.
pub const DETAILED_CHUNK: usize = 50;

/// A query to server list.
#[derive(Debug, PartialEq, Eq)]
pub struct ServerQuery {
    query: Query,
    can_paginate: bool,
}

/// A detailed query to server list.
///
/// Is constructed from a `ServerQuery`.
#[derive(Debug, PartialEq, Eq)]
pub struct DetailedServerQuery {
    inner: ServerQuery,
}

impl ServerQuery {
    #[verifier::type_invariant]
    spec fn inv(self) -> bool {
        self.can_paginate ==> !names_paging(self.query@)
    }

    /// The parameters that the query filters by, in the order in which
    /// they were added.
    pub closed spec fn filter(&self) -> Params {
        self.query@
    }

    /// A query that matches every server.
    pub fn new() -> (q: ServerQuery)
        ensures
            q.filter() == Seq::<(Seq<char>, Seq<char>)>::empty(),
            q.paginates(),
    {
        ServerQuery { query: Query::new(), can_paginate: true }
    }

    /// The parameters that the query filters by.
    pub fn params(&self) -> (q: &Query)
        ensures
            q@ == self.filter(),
    {
        &self.query
    }

    /// Adds a parameter that does not page the listing.
    fn filter_by(self, name: &str, value: String) -> (q: ServerQuery)
        requires
            !is_paging_name(name@),
        ensures
            q.filter() == self.filter().push((name@, value@)),
            q.paginates() == self.paginates(),
    {
        proof {
            use_type_invariant(&self);
        }
        let can_paginate: bool = self.can_paginate;
        let mut query: Query = self.query;
        query.push_str(name, value);
        ServerQuery { query, can_paginate }
    }

    /// Add marker to the request.
    ///
    /// Using this disables automatic pagination.
    pub fn with_marker(self, marker: String) -> (q: ServerQuery)
        ensures
            q.filter() == self.filter().push(("marker"@, marker@)),
            !q.paginates(),
    {
        let mut query: Query = self.query;
        query.push_str("marker", marker);
        ServerQuery { query, can_paginate: false }
    }

    /// Add limit to the request.
    ///
    /// Using this disables automatic pagination.
    pub fn with_limit(self, limit: usize) -> (q: ServerQuery)
        ensures
            q.filter() == self.filter().push(("limit"@, decimal_text(limit as nat))),
            !q.paginates(),
    {
        let mut query: Query = self.query;
        query.push_number("limit", limit as u64);
        ServerQuery { query, can_paginate: false }
    }

    /// Add sorting to the request.
    pub fn sort_by(self, sort: Sort<ServerSortKey>) -> (q: ServerQuery)
        ensures
            q.filter() == self.filter().push(
                (
                    "sort_key"@,
                    match sort {
                        Sort::Asc(key) => key.name(),
                        Sort::Desc(key) => key.name(),
                    },
                ),
            ).push(("sort_dir"@, direction_text(sort is Asc))),
            q.paginates() == self.paginates(),
    {
        let (key, ascending): (ServerSortKey, bool) = match sort {
            Sort::Asc(key) => (key, true),
            Sort::Desc(key) => (key, false),
        };
        proof {
            reveal_strlit("sort_key");
            reveal_strlit("sort_dir");
            reveal_strlit("marker");
            reveal_strlit("limit");
            assert("sort_key"@.len() == 8);
            assert("sort_dir"@.len() == 8);
        }
        let q = self.filter_by("sort_key", String::from_str(key.as_str()));
        q.filter_by("sort_dir", String::from_str(render_direction(ascending)))
    }

    /// Filter by IPv4 address that should be used to access the server.
    pub fn with_access_ip_v4(self, value: Ipv4) -> (q: ServerQuery)
        ensures
            q.filter() == self.filter().push(("access_ip_v4"@, dotted_text(value))),
            q.paginates() == self.paginates(),
    {
        proof {
            reveal_strlit("access_ip_v4");
            reveal_strlit("marker");
            reveal_strlit("limit");
            assert("access_ip_v4"@.len() == 12);
        }
        self.filter_by("access_ip_v4", value.render())
    }

    /// Filter by IPv6 address that should be used to access the server,
    /// given in the text form that the service is to match.
    pub fn with_access_ip_v6(self, value: String) -> (q: ServerQuery)
        ensures
            q.filter() == self.filter().push(("access_ipv6"@, value@)),
            q.paginates() == self.paginates(),
    {
        proof {
            reveal_strlit("access_ipv6");
            reveal_strlit("marker");
            reveal_strlit("limit");
            assert("access_ipv6"@.len() == 11);
        }
        self.filter_by("access_ipv6", value)
    }

    /// Filter by availability zone.
    pub fn with_availability_zone(self, value: String) -> (q: ServerQuery)
        ensures
            q.filter() == self.filter().push(("availability_zone"@, value@)),
            q.paginates() == self.paginates(),
    {
        proof {
            reveal_strlit("availability_zone");
            reveal_strlit("marker");
            reveal_strlit("limit");
            assert("availability_zone"@.len() == 17);
        }
        self.filter_by("availability_zone", value)
    }

    /// Filter by flavor.
    pub fn with_flavor(self, value: ResourceRef) -> (q: ServerQuery)
        ensures
            q.filter() == self.filter().push(("flavor"@, value.value@)),
            q.paginates() == self.paginates(),
    {
        proof {
            reveal_strlit("flavor");
            reveal_strlit("marker");
            reveal_strlit("limit");
            assert("marker"@[0] == 'm');
            assert("limit"@.len() == 5);
        }
        self.filter_by("flavor", value.value)
    }

    /// Filter by host name.
    pub fn with_hostname(self, value: String) -> (q: ServerQuery)
        ensures
            q.filter() == self.filter().push(("hostname"@, value@)),
            q.paginates() == self.paginates(),
    {
        proof {
            reveal_strlit("hostname");
            reveal_strlit("marker");
            reveal_strlit("limit");
            assert("hostname"@.len() == 8);
        }
        self.filter_by("hostname", value)
    }

    /// Filter by image ID.
    pub fn with_image(self, value: ResourceRef) -> (q: ServerQuery)
        ensures
            q.filter() == self.filter().push(("image"@, value.value@)),
            q.paginates() == self.paginates(),
    {
        proof {
            reveal_strlit("image");
            reveal_strlit("marker");
            reveal_strlit("limit");
            assert("limit"@[0] == 'l');
            assert("marker"@.len() == 6);
        }
        self.filter_by("image", value.value)
    }

    /// Filter by an IPv4 address.
    pub fn with_ip_v4(self, value: Ipv4) -> (q: ServerQuery)
        ensures
            q.filter() == self.filter().push(("ip"@, dotted_text(value))),
            q.paginates() == self.paginates(),
    {
        proof {
            reveal_strlit("ip");
            reveal_strlit("marker");
            reveal_strlit("limit");
            assert("ip"@.len() == 2);
        }
        self.filter_by("ip", value.render())
    }

    /// Filter by an IPv6 address, given in the text form that the service
    /// is to match.
    pub fn with_ip_v6(self, value: String) -> (q: ServerQuery)
        ensures
            q.filter() == self.filter().push(("ip6"@, value@)),
            q.paginates() == self.paginates(),
    {
        proof {
            reveal_strlit("ip6");
            reveal_strlit("marker");
            reveal_strlit("limit");
            assert("ip6"@.len() == 3);
        }
        self.filter_by("ip6", value)
    }

    /// Filter by server name (a database regular expression).
    pub fn with_name(self, value: String) -> (q: ServerQuery)
        ensures
            q.filter() == self.filter().push(("name"@, value@)),
            q.paginates() == self.paginates(),
    {
        proof {
            reveal_strlit("name");
            reveal_strlit("marker");
            reveal_strlit("limit");
            assert("name"@.len() == 4);
        }
        self.filter_by("name", value)
    }

    /// Filter by project ID (also commonly known as tenant ID).
    pub fn with_project(self, value: ResourceRef) -> (q: ServerQuery)
        ensures
            q.filter() == self.filter().push(("project_id"@, value.value@)),
            q.paginates() == self.paginates(),
    {
        proof {
            reveal_strlit("project_id");
            reveal_strlit("marker");
            reveal_strlit("limit");
            assert("project_id"@.len() == 10);
        }
        self.filter_by("project_id", value.value)
    }

    /// Filter by server status.
    pub fn with_status(self, value: ServerStatus) -> (q: ServerQuery)
        ensures
            q.filter() == self.filter().push(("status"@, value.name())),
            q.paginates() == self.paginates(),
    {
        proof {
            reveal_strlit("status");
            reveal_strlit("marker");
            reveal_strlit("limit");
            assert("marker"@[0] == 'm');
            assert("limit"@.len() == 5);
        }
        self.filter_by("status", String::from_str(value.as_str()))
    }

    /// Filter by user ID.
    pub fn with_user(self, value: ResourceRef) -> (q: ServerQuery)
        ensures
            q.filter() == self.filter().push(("user_id"@, value.value@)),
            q.paginates() == self.paginates(),
    {
        proof {
            reveal_strlit("user_id");
            reveal_strlit("marker");
            reveal_strlit("limit");
            assert("user_id"@.len() == 7);
        }
        self.filter_by("user_id", value.value)
    }

    /// This query as a detailed query.
    pub closed spec fn as_detailed(self) -> DetailedServerQuery {
        DetailedServerQuery { inner: self }
    }

    /// Convert this query into a detailed query.
    pub fn detailed(self) -> (d: DetailedServerQuery)
        ensures
            d == self.as_detailed(),
            d.summary() == self,
    {
        DetailedServerQuery { inner: self }
    }

    /// Convert this query into a walk over its results.
    ///
    /// The walk yields only `ServerSummary` objects, containing IDs and
    /// names. Use `detailed` for full `Server` objects.
    ///
    /// Nothing is asked of the service until the first item is wanted.
    pub fn into_iter(self) -> (iter: ResourceIterator<ServerQuery>)
        ensures
            iter.query() == self,
            iter.cursor() == Cursor::<ServerQuery>::fresh(
                self.paginates(),
                SUMMARY_CHUNK,
            ),
    {
        ResourceIterator::new(self)
    }

    /// Convert this query into a walk over its results in full.
    ///
    /// The walk yields full `Server` objects. If you only need IDs and
    /// names, use `into_iter` to save bandwidth.
    pub fn into_iter_detailed(self) -> (iter: ResourceIterator<DetailedServerQuery>)
        ensures
            iter.query().summary() == self,
            iter.cursor() == Cursor::<DetailedServerQuery>::fresh(
                self.paginates(),
                DETAILED_CHUNK,
            ),
    {
        self.detailed().into_iter()
    }

    /// Collects all results: the listing begins by asking for its first
    /// chunk, with nothing collected yet.
    pub fn all(self) -> (listing: PendingListing<ServerQuery>)
        ensures
            listing.query() == self,
            listing.cursor() == Cursor::<ServerQuery>::fresh(
                self.paginates(),
                SUMMARY_CHUNK,
            ),
            listing.items() == Seq::<ServerSummary>::empty(),
    {
        PendingListing::new(self)
    }

    /// Return one and exactly one result.
    ///
    /// The lookup fails with `ResourceNotFound` if the query produces no
    /// results and with `TooManyItems` if it produces more than one.
    pub fn one(self) -> (lookup: PendingOne<ServerQuery>)
        ensures
            lookup.query() == self,
    {
        PendingOne::new(self)
    }
}

impl ResourceQuery for ServerQuery {
    type Item = ServerSummary;

    open spec fn chunk_size() -> usize {
        SUMMARY_CHUNK
    }

    closed spec fn paginates(&self) -> bool {
        self.can_paginate
    }

    open spec fn marker_of(item: &ServerSummary) -> Seq<char> {
        item.inner.id@
    }

    open spec fn chunk_request_view(&self, limit: Option<usize>, marker: Option<Seq<char>>)
        -> RequestView {
        RequestView::ListServers { params: paged_params(self.filter(), limit, marker) }
    }

    fn default_limit() -> (n: usize) {
        SUMMARY_CHUNK
    }

    /// Whether the walk may ask for chunk after chunk. While it may, the
    /// filter holds neither a marker nor a limit.
    fn can_paginate(&self) -> (b: bool)
        ensures
            b ==> !names_paging(self.filter()),
    {
        proof {
            use_type_invariant(self);
        }
        self.can_paginate
    }

    fn extract_marker(&self, resource: &ServerSummary) -> (m: String) {
        resource.id().clone()
    }

    fn chunk_request(&self, limit: Option<usize>, marker: Option<String>) -> (r: Request) {
        Request::ListServers { query: self.query.with_marker_and_limit(limit, marker) }
    }
}

impl DetailedServerQuery {
    /// The query for summaries that this query was made from.
    pub closed spec fn summary(self) -> ServerQuery {
        self.inner
    }

    /// Convert this query into a walk over its results.
    ///
    /// The walk yields full `Server` objects.
    ///
    /// Nothing is asked of the service until the first item is wanted.
    pub fn into_iter(self) -> (iter: ResourceIterator<DetailedServerQuery>)
        ensures
            iter.query() == self,
            iter.cursor() == Cursor::<DetailedServerQuery>::fresh(
                self.paginates(),
                DETAILED_CHUNK,
            ),
    {
        ResourceIterator::new(self)
    }

    /// Convert this query back into a query for summaries.
    pub fn into_summary(self) -> (q: ServerQuery)
        ensures
            q == self.summary(),
    {
        self.inner
    }
}

impl From<DetailedServerQuery> for ServerQuery {
    fn from(value: DetailedServerQuery) -> (q: ServerQuery) {
        value.inner
    }
}

impl FromSpecImpl<DetailedServerQuery> for ServerQuery {
    open spec fn obeys_from_spec() -> bool {
        true
    }

    open spec fn from_spec(value: DetailedServerQuery) -> ServerQuery {
        value.summary()
    }
}

impl From<ServerQuery> for DetailedServerQuery {
    fn from(value: ServerQuery) -> (d: DetailedServerQuery) {
        value.detailed()
    }
}

impl FromSpecImpl<ServerQuery> for DetailedServerQuery {
    open spec fn obeys_from_spec() -> bool {
        true
    }

    open spec fn from_spec(value: ServerQuery) -> DetailedServerQuery {
        value.as_detailed()
    }
}

impl ResourceQuery for DetailedServerQuery {
    type Item = Server;

    open spec fn chunk_size() -> usize {
        DETAILED_CHUNK
    }

    open spec fn paginates(&self) -> bool {
        self.summary().paginates()
    }

    open spec fn marker_of(item: &Server) -> Seq<char> {
        item.inner.id@
    }

    open spec fn chunk_request_view(&self, limit: Option<usize>, marker: Option<Seq<char>>)
        -> RequestView {
        RequestView::ListServersDetail {
            params: paged_params(self.summary().filter(), limit, marker),
        }
    }

    fn default_limit() -> (n: usize) {
        DETAILED_CHUNK
    }

    fn can_paginate(&self) -> (b: bool) {
        self.inner.can_paginate()
    }

    fn extract_marker(&self, resource: &Server) -> (m: String) {
        resource.id().clone()
    }

    fn chunk_request(&self, limit: Option<usize>, marker: Option<String>) -> (r: Request) {
        Request::ListServersDetail { query: self.inner.query.with_marker_and_limit(limit, marker) }
    }
}

/// A query that names a marker or a limit of its own, as `with_marker` and
/// `with_limit` make it, is walked with one request: the request carries
/// the parameters of the query as they stand and nothing else, the walk
/// yields the chunk that comes back, and no further chunk is asked for.
pub proof fn lemma_explicit_paging_is_sent_as_given(
    query: ServerQuery,
    limit: usize,
    source: Source<ServerSummary>,
    fuel: nat,
)
    requires
        !query.paginates(),
        fuel >= 1,
    ensures
        drain(Cursor::<ServerQuery>::fresh(query.paginates(), limit), source, fuel) == Some(
            Drained { items: source(None, None), requests: seq![(None, None)] },
        ),
        query.chunk_request_view(None, None) == (RequestView::ListServers {
            params: query.filter(),
        }),
{
    lemma_single_chunk_walk::<ServerQuery>(limit, source, fuel);
}

} // verus!
