//! Paged listings: a list that the service hands out in chunks, walked
//! item by item.
//!
//! The walk is lazy: nothing is asked of the service before the first item
//! is wanted. Each chunk after the first is asked for by the marker of the
//! last item seen, and only while the chunk before it was full. A query
//! that names its own marker or limit gets exactly the one chunk it asked
//! for.

use vstd::prelude::*;
use vstd::string::*;
use crate::error::{Error, ErrorKind};
use crate::protocol::{Request, RequestView};
use crate::query::text_of;

verus! {

/// A query whose results come in chunks.
pub trait ResourceQuery: Sized {
    /// What the listing yields.
    type Item;

    /// The number of items asked for in one chunk.
    spec fn chunk_size() -> usize;

    /// Whether the walk may ask for chunk after chunk. It may not once the
    /// caller has named a marker or a limit of its own.
    spec fn paginates(&self) -> bool;

    /// The marker that asks for what follows the item.
    spec fn marker_of(item: &Self::Item) -> Seq<char>;

    /// The request for one chunk, as text.
    spec fn chunk_request_view(&self, limit: Option<usize>, marker: Option<Seq<char>>)
        -> RequestView;

    /// The number of items asked for in one chunk.
    fn default_limit() -> (n: usize)
        ensures
            n == Self::chunk_size(),
            n >= 1,
    ;

    /// Whether the walk may ask for chunk after chunk.
    fn can_paginate(&self) -> (b: bool)
        ensures
            b == self.paginates(),
    ;

    /// The marker that asks for what follows the item.
    fn extract_marker(&self, resource: &Self::Item) -> (m: String)
        ensures
            m@ == Self::marker_of(resource),
    ;

    /// The request for one chunk: at most `limit` items, after `marker`.
    fn chunk_request(&self, limit: Option<usize>, marker: Option<String>) -> (r: Request)
        ensures
            r@ == self.chunk_request_view(limit, text_of(marker)),
    ;
}

/// Where a walk stands.
pub struct Cursor<Q: ResourceQuery> {
    /// The items received and not yet yielded, the next one first.
    pub buffer: Seq<Q::Item>,
    /// The marker of the last item yielded.
    pub marker: Option<Seq<char>>,
    /// Whether a chunk has been received.
    pub fetched: bool,
    /// Whether the last chunk received held as many items as were asked
    /// for, so that more may follow.
    pub full: bool,
    /// Whether the walk may ask for chunk after chunk.
    pub paginate: bool,
    /// The number of items asked for in one chunk.
    pub limit: usize,
}

impl<Q: ResourceQuery> Cursor<Q> {
    /// The start of a walk.
    pub open spec fn fresh(paginate: bool, limit: usize) -> Cursor<Q> {
        Cursor {
            buffer: Seq::empty(),
            marker: None,
            fetched: false,
            full: false,
            paginate,
            limit,
        }
    }

    /// Whether the next item can only come from a chunk that is yet to be
    /// asked for: nothing is buffered, and either no chunk was received
    /// yet or the walk paginates and the last chunk was full.
    pub open spec fn wants_chunk(self) -> bool {
        self.buffer.len() == 0 && (!self.fetched || (self.paginate && self.full))
    }

    /// The limit that the next request carries.
    pub open spec fn asked_limit(self) -> Option<usize> {
        if self.paginate {
            Some(self.limit)
        } else {
            None
        }
    }

    /// The marker that the next request carries.
    pub open spec fn asked_marker(self) -> Option<Seq<char>> {
        if self.paginate {
            self.marker
        } else {
            None
        }
    }

    /// The walk after a chunk has come in.
    pub open spec fn supplied(self, chunk: Seq<Q::Item>) -> Cursor<Q> {
        Cursor {
            buffer: chunk,
            marker: self.marker,
            fetched: true,
            full: chunk.len() >= self.limit,
            paginate: self.paginate,
            limit: self.limit,
        }
    }

    /// The walk after the next buffered item has been yielded.
    pub open spec fn after_item(self) -> Cursor<Q> {
        Cursor {
            buffer: self.buffer.drop_first(),
            marker: Some(Q::marker_of(&self.buffer[0])),
            fetched: self.fetched,
            full: self.full,
            paginate: self.paginate,
            limit: self.limit,
        }
    }

    /// The walk after every buffered item has been yielded.
    pub open spec fn emptied(self) -> Cursor<Q> {
        if self.buffer.len() == 0 {
            self
        } else {
            Cursor {
                buffer: Seq::empty(),
                marker: Some(Q::marker_of(&self.buffer.last())),
                fetched: self.fetched,
                full: self.full,
                paginate: self.paginate,
                limit: self.limit,
            }
        }
    }
}

/// Yielding one item and then the rest is yielding them all.
pub proof fn lemma_emptied_after_item<Q: ResourceQuery>(cursor: Cursor<Q>)
    requires
        cursor.buffer.len() > 0,
    ensures
        cursor.after_item().emptied() == cursor.emptied(),
{
    if cursor.buffer.len() == 1 {
        assert(cursor.buffer.drop_first() =~= Seq::<Q::Item>::empty());
    }
}

/// Turns a list around.
pub fn reversed<T>(list: Vec<T>) -> (r: Vec<T>)
    ensures
        r@ == list@.reverse(),
{
    let ghost whole = list@;
    let mut list = list;
    let mut r: Vec<T> = Vec::new();
    while list.len() > 0
        invariant
            list@.len() + r@.len() == whole.len(),
            list@ == whole.take(list@.len() as int),
            forall|k: int| 0 <= k < r@.len() ==> r@[k] == whole[whole.len() - 1 - k],
        decreases list.len(),
    {
        match list.pop() {
            Some(item) => {
                r.push(item);
            },
            None => {},
        }
    }
    r
}

/// A lazy walk over the results of a query.
pub struct ResourceIterator<Q: ResourceQuery> {
    query: Q,
    limit: usize,
    /// The buffered items, the next one last.
    pending: Vec<Q::Item>,
    marker: Option<String>,
    fetched: bool,
    full: bool,
}

/// What a walk does when the next item is wanted.
pub enum Advance<Q: ResourceQuery> {
    /// The next item, and the walk that goes on after it.
    Item(Q::Item, ResourceIterator<Q>),
    /// A chunk has to be fetched first.
    Fetch(PendingChunk<Q>),
    /// There are no more items.
    Done,
}

impl<Q: ResourceQuery> ResourceIterator<Q> {
    /// The query that is walked.
    pub closed spec fn query(self) -> Q {
        self.query
    }

    /// Where the walk stands.
    pub closed spec fn cursor(self) -> Cursor<Q> {
        Cursor {
            buffer: self.pending@.reverse(),
            marker: text_of(self.marker),
            fetched: self.fetched,
            full: self.full,
            paginate: self.query.paginates(),
            limit: self.limit,
        }
    }

    /// A walk over the results of `query`, in chunks of its default size.
    /// Nothing is asked of the service yet.
    pub fn new(query: Q) -> (iter: ResourceIterator<Q>)
        ensures
            iter.query() == query,
            iter.cursor() == Cursor::<Q>::fresh(query.paginates(), Q::chunk_size()),
    {
        let limit: usize = Q::default_limit();
        ResourceIterator::with_chunk_size(query, limit)
    }

    /// A walk over the results of `query`, in chunks of `limit` items.
    /// Nothing is asked of the service yet.
    pub fn with_chunk_size(query: Q, limit: usize) -> (iter: ResourceIterator<Q>)
        requires
            limit >= 1,
        ensures
            iter.query() == query,
            iter.cursor() == Cursor::<Q>::fresh(query.paginates(), limit),
    {
        ResourceIterator {
            query,
            limit,
            pending: Vec::new(),
            marker: None,
            fetched: false,
            full: false,
        }
    }

    /// Wants the next item. A buffered item is yielded, and its marker
    /// kept. With nothing buffered, a chunk is asked for if none was
    /// received yet, or if the walk paginates and the last chunk was full;
    /// else the walk is over.
    pub fn advance(self) -> (step: Advance<Q>)
        ensures
            match step {
                Advance::Item(item, next) => self.cursor().buffer.len() > 0 && item
                    == self.cursor().buffer[0] && next.cursor() == self.cursor().after_item()
                    && next.query() == self.query(),
                Advance::Fetch(pending) => self.cursor().wants_chunk() && pending.cursor()
                    == self.cursor() && pending.query() == self.query(),
                Advance::Done => self.cursor().buffer.len() == 0 && !self.cursor().wants_chunk(),
            },
    {
        let ghost before = self.pending@;
        let mut iter = self;
        match iter.pending.pop() {
            Some(item) => {
                let marker: String = iter.query.extract_marker(&item);
                iter.marker = Some(marker);
                assert(iter.pending@.reverse() =~= before.reverse().drop_first());
                Advance::Item(item, iter)
            },
            None => {
                if !iter.fetched || (iter.full && iter.query.can_paginate()) {
                    Advance::Fetch(PendingChunk { iter })
                } else {
                    Advance::Done
                }
            },
        }
    }

    /// Collects what is left of the walk: the first step of it.
    pub fn collect(self) -> (step: ListingStep<Q>)
        ensures
            step.gathers(self.query(), self.cursor(), Seq::empty()),
    {
        gather(self, Vec::new())
    }
}

/// A walk that waits for a chunk.
pub struct PendingChunk<Q: ResourceQuery> {
    iter: ResourceIterator<Q>,
}

impl<Q: ResourceQuery> PendingChunk<Q> {
    #[verifier::type_invariant]
    spec fn inv(self) -> bool {
        self.iter.cursor().wants_chunk()
    }

    /// The query that is walked.
    pub closed spec fn query(self) -> Q {
        self.iter.query()
    }

    /// Where the walk stands.
    pub closed spec fn cursor(self) -> Cursor<Q> {
        self.iter.cursor()
    }

    /// The request for the chunk. A walk that paginates asks for a chunk
    /// of its size after the marker of the last item yielded; any other
    /// walk sends the query as it is.
    pub fn request(&self) -> (r: Request)
        ensures
            self.cursor().wants_chunk(),
            r@ == self.query().chunk_request_view(
                self.cursor().asked_limit(),
                self.cursor().asked_marker(),
            ),
    {
        proof {
            use_type_invariant(self);
        }
        if self.iter.query.can_paginate() {
            let marker: Option<String> = match &self.iter.marker {
                Some(m) => Some(m.clone()),
                None => None,
            };
            self.iter.query.chunk_request(Some(self.iter.limit), marker)
        } else {
            self.iter.query.chunk_request(None, None)
        }
    }

    /// Takes the answer to the request. A failure ends the walk with that
    /// failure. A chunk is buffered, in its order.
    pub fn supply(self, fetched: Result<Vec<Q::Item>, Error>) -> (r: Result<
        ResourceIterator<Q>,
        Error,
    >)
        ensures
            match fetched {
                Err(e) => r == Err::<ResourceIterator<Q>, Error>(e),
                Ok(chunk) => r matches Ok(iter) && iter.query() == self.query() && iter.cursor()
                    == self.cursor().supplied(chunk@),
            },
    {
        match fetched {
            Err(e) => Err(e),
            Ok(chunk) => {
                let mut iter = self.iter;
                iter.full = chunk.len() >= iter.limit;
                iter.fetched = true;
                let ghost items = chunk@;
                iter.pending = reversed(chunk);
                assert(iter.pending@.reverse() =~= items);
                Ok(iter)
            },
        }
    }
}

/// A step of collecting a whole listing.
pub enum ListingStep<Q: ResourceQuery> {
    /// A chunk has to be fetched first.
    Fetch(PendingListing<Q>),
    /// The listing is complete: its items, in their order.
    Finished(Vec<Q::Item>),
}

impl<Q: ResourceQuery> ListingStep<Q> {
    /// Whether this is the step reached from a walk at `cursor`, with
    /// `items` collected before: everything buffered is collected too, and
    /// then either a chunk is asked for or the listing is complete.
    pub open spec fn gathers(self, query: Q, cursor: Cursor<Q>, items: Seq<Q::Item>) -> bool {
        match self {
            ListingStep::Fetch(pending) => cursor.emptied().wants_chunk() && pending.query()
                == query && pending.cursor() == cursor.emptied() && pending.items() == items
                + cursor.buffer,
            ListingStep::Finished(all) => !cursor.emptied().wants_chunk() && all@ == items
                + cursor.buffer,
        }
    }
}

/// Collects the buffered items of a walk after `items`, up to the point
/// where a chunk is needed or the walk is over.
pub fn gather<Q: ResourceQuery>(iter: ResourceIterator<Q>, items: Vec<Q::Item>) -> (step:
    ListingStep<Q>)
    ensures
        step.gathers(iter.query(), iter.cursor(), items@),
{
    let mut walk = iter;
    let mut collected = items;
    loop
        invariant
            walk.query() == iter.query(),
            walk.cursor().emptied() == iter.cursor().emptied(),
            collected@ + walk.cursor().buffer == items@ + iter.cursor().buffer,
        decreases walk.cursor().buffer.len(),
    {
        let ghost cursor = walk.cursor();
        match walk.advance() {
            Advance::Item(item, next) => {
                proof {
                    lemma_emptied_after_item(cursor);
                }
                collected.push(item);
                walk = next;
            },
            Advance::Fetch(chunk) => {
                return ListingStep::Fetch(PendingListing { chunk, items: collected });
            },
            Advance::Done => {
                return ListingStep::Finished(collected);
            },
        }
    }
}

/// A listing being collected that waits for a chunk.
pub struct PendingListing<Q: ResourceQuery> {
    chunk: PendingChunk<Q>,
    items: Vec<Q::Item>,
}

impl<Q: ResourceQuery> PendingListing<Q> {
    /// The listing of all results of `query`: it begins by asking for the
    /// first chunk, with nothing collected yet.
    pub fn new(query: Q) -> (listing: PendingListing<Q>)
        ensures
            listing.query() == query,
            listing.cursor() == Cursor::<Q>::fresh(query.paginates(), Q::chunk_size()),
            listing.items() == Seq::<Q::Item>::empty(),
    {
        let iter = ResourceIterator::new(query);
        PendingListing { chunk: PendingChunk { iter }, items: Vec::new() }
    }

    /// The query that is walked.
    pub closed spec fn query(self) -> Q {
        self.chunk.query()
    }

    /// Where the walk stands.
    pub closed spec fn cursor(self) -> Cursor<Q> {
        self.chunk.cursor()
    }

    /// The items collected so far.
    pub closed spec fn items(self) -> Seq<Q::Item> {
        self.items@
    }

    /// The request for the chunk.
    pub fn request(&self) -> (r: Request)
        ensures
            self.cursor().wants_chunk(),
            r@ == self.query().chunk_request_view(
                self.cursor().asked_limit(),
                self.cursor().asked_marker(),
            ),
    {
        self.chunk.request()
    }

    /// Takes the answer to the request. A failure ends the listing with
    /// that failure, and nothing of what was collected is handed out. A
    /// chunk is collected, and the next step follows from it.
    pub fn supply(self, fetched: Result<Vec<Q::Item>, Error>) -> (r: Result<ListingStep<Q>, Error>)
        ensures
            match fetched {
                Err(e) => r == Err::<ListingStep<Q>, Error>(e),
                Ok(chunk) => r matches Ok(step) && step.gathers(
                    self.query(),
                    self.cursor().supplied(chunk@),
                    self.items(),
                ),
            },
    {
        match self.chunk.supply(fetched) {
            Err(e) => Err(e),
            Ok(iter) => Ok(gather(iter, self.items)),
        }
    }
}

/// The message of a lookup that found nothing.
pub open spec fn no_results_text() -> Seq<char> {
    "Query returned no results"@
}

/// The message of a lookup that found more than one item.
pub open spec fn many_results_text() -> Seq<char> {
    "Query returned more than one result"@
}

/// The number of items asked for to tell one result from several.
pub const PROBE_LIMIT: usize = 2;

/// A lookup of the one item that a query matches, waiting for its chunk.
pub struct PendingOne<Q: ResourceQuery> {
    query: Q,
}

impl<Q: ResourceQuery> PendingOne<Q> {
    /// The query that is looked up.
    pub closed spec fn query(self) -> Q {
        self.query
    }

    /// A lookup of the one item that `query` matches.
    pub fn new(query: Q) -> (one: PendingOne<Q>)
        ensures
            one.query() == query,
    {
        PendingOne { query }
    }

    /// The request for the chunk. A query that paginates asks for two
    /// items, which is enough to tell one result from several; a query
    /// with a marker or a limit of its own is sent as it is.
    pub fn request(&self) -> (r: Request)
        ensures
            r@ == self.query().chunk_request_view(
                if self.query().paginates() {
                    Some(PROBE_LIMIT)
                } else {
                    None
                },
                None,
            ),
    {
        if self.query.can_paginate() {
            self.query.chunk_request(Some(PROBE_LIMIT), None)
        } else {
            self.query.chunk_request(None, None)
        }
    }

    /// Takes the answer to the request. A failure ends the lookup with
    /// that failure. An empty chunk fails with `ResourceNotFound`, a chunk
    /// of one item gives that item, and any larger chunk fails with
    /// `TooManyItems`.
    pub fn supply(self, fetched: Result<Vec<Q::Item>, Error>) -> (r: Result<Q::Item, Error>)
        ensures
            match fetched {
                Err(e) => r == Err::<Q::Item, Error>(e),
                Ok(chunk) => if chunk@.len() == 0 {
                    r matches Err(e) && e.kind == ErrorKind::ResourceNotFound && e.message@
                        == no_results_text()
                } else if chunk@.len() == 1 {
                    r == Ok::<Q::Item, Error>(chunk@[0])
                } else {
                    r matches Err(e) && e.kind == ErrorKind::TooManyItems && e.message@
                        == many_results_text()
                },
            },
    {
        match fetched {
            Err(e) => Err(e),
            Ok(chunk) => {
                let mut chunk = chunk;
                if chunk.len() > 1 {
                    return Err(
                        Error::new(
                            ErrorKind::TooManyItems,
                            String::from_str("Query returned more than one result"),
                        ),
                    );
                }
                match chunk.pop() {
                    Some(item) => Ok(item),
                    None => Err(
                        Error::new(
                            ErrorKind::ResourceNotFound,
                            String::from_str("Query returned no results"),
                        ),
                    ),
                }
            },
        }
    }
}

/// What a walk has yielded when it is over, and what it has asked for.
pub struct Drained<T> {
    /// The items yielded, in the order in which they came.
    pub items: Seq<T>,
    /// The limit and the marker of each request made, in the order in
    /// which they were made.
    pub requests: Seq<(Option<usize>, Option<Seq<char>>)>,
}

/// What answers the requests of a walk: the chunk given for a limit and a
/// marker.
pub type Source<T> = spec_fn(Option<usize>, Option<Seq<char>>) -> Seq<T>;

/// Walks to the end from `cursor`, every request answered by `source`,
/// with at most `fuel` requests. `None` if that many requests do not get
/// to the end.
pub open spec fn drain<Q: ResourceQuery>(cursor: Cursor<Q>, source: Source<Q::Item>, fuel: nat)
    -> Option<Drained<Q::Item>>
    decreases fuel, cursor.buffer.len(),
{
    if cursor.buffer.len() > 0 {
        match drain(cursor.after_item(), source, fuel) {
            Some(rest) => Some(
                Drained { items: seq![cursor.buffer[0]] + rest.items, requests: rest.requests },
            ),
            None => None,
        }
    } else if !cursor.wants_chunk() {
        Some(Drained { items: Seq::empty(), requests: Seq::empty() })
    } else if fuel == 0 {
        None
    } else {
        match drain(
            cursor.supplied(source(cursor.asked_limit(), cursor.asked_marker())),
            source,
            (fuel - 1) as nat,
        ) {
            Some(rest) => Some(
                Drained {
                    items: rest.items,
                    requests: seq![(cursor.asked_limit(), cursor.asked_marker())] + rest.requests,
                },
            ),
            None => None,
        }
    }
}

/// The index of the first item with the given marker from `from` on, or
/// the length of the list if there is none.
pub open spec fn marker_index<Q: ResourceQuery>(all: Seq<Q::Item>, marker: Seq<char>, from: int)
    -> int
    decreases all.len() - from,
{
    if from < 0 || from >= all.len() {
        all.len() as int
    } else if Q::marker_of(&all[from]) == marker {
        from
    } else {
        marker_index::<Q>(all, marker, from + 1)
    }
}

/// The chunk that a service holding the list `all` gives for a limit and a
/// marker: what follows the item with the marker, up to the limit.
pub open spec fn served<Q: ResourceQuery>(
    all: Seq<Q::Item>,
    limit: Option<usize>,
    marker: Option<Seq<char>>,
) -> Seq<Q::Item> {
    let start = match marker {
        None => 0,
        Some(m) => if marker_index::<Q>(all, m, 0) < all.len() {
            marker_index::<Q>(all, m, 0) + 1
        } else {
            all.len() as int
        },
    };
    let rest = all.skip(start);
    match limit {
        Some(n) => if n < rest.len() {
            rest.take(n as int)
        } else {
            rest
        },
        None => rest,
    }
}

/// A service that holds the list `all`.
pub open spec fn paged_source<Q: ResourceQuery>(all: Seq<Q::Item>) -> Source<Q::Item> {
    |limit: Option<usize>, marker: Option<Seq<char>>| served::<Q>(all, limit, marker)
}

/// Whether no two items of the list have the same marker.
pub open spec fn distinct_markers<Q: ResourceQuery>(all: Seq<Q::Item>) -> bool {
    forall|i: int, j: int|
        #![trigger all[i], all[j]]
        0 <= i < j < all.len() ==> Q::marker_of(&all[i]) != Q::marker_of(&all[j])
}

/// The marker that asks for what follows the first `done` items of the
/// list: that of the last of them, and none where there is none.
pub open spec fn marker_after<Q: ResourceQuery>(all: Seq<Q::Item>, done: int) -> Option<Seq<char>> {
    if done <= 0 {
        None
    } else {
        Some(Q::marker_of(&all[done - 1]))
    }
}

/// The requests of a paginating walk over the list that has `done` items
/// behind it: one for each full chunk left and one more, each for a chunk
/// of `limit` items after the items before it.
pub open spec fn paged_requests<Q: ResourceQuery>(all: Seq<Q::Item>, done: int, limit: usize)
    -> Seq<(Option<usize>, Option<Seq<char>>)> {
    Seq::new(
        ((all.len() - done) / (limit as int) + 1) as nat,
        |j: int| (Some(limit), marker_after::<Q>(all, done + j * limit)),
    )
}

/// A paginating walk that stands between two chunks, `done` items of the
/// list behind it.
pub open spec fn between_chunks<Q: ResourceQuery>(all: Seq<Q::Item>, done: int, limit: usize)
    -> Cursor<Q> {
    Cursor {
        buffer: Seq::empty(),
        marker: marker_after::<Q>(all, done),
        fetched: done > 0,
        full: done > 0,
        paginate: true,
        limit,
    }
}

/// With distinct markers, the marker of an item is found at that item.
pub proof fn lemma_marker_index<Q: ResourceQuery>(all: Seq<Q::Item>, at: int, from: int)
    requires
        distinct_markers::<Q>(all),
        0 <= from <= at < all.len(),
    ensures
        marker_index::<Q>(all, Q::marker_of(&all[at]), from) == at,
    decreases at - from,
{
    if from < at {
        lemma_marker_index::<Q>(all, at, from + 1);
    }
}

/// Walking to the end yields what is buffered and then what the walk
/// yields once the buffer is empty, with the same requests.
pub proof fn lemma_drain_buffer<Q: ResourceQuery>(
    cursor: Cursor<Q>,
    source: Source<Q::Item>,
    fuel: nat,
)
    ensures
        drain(cursor, source, fuel) == match drain(cursor.emptied(), source, fuel) {
            Some(rest) => Some(
                Drained { items: cursor.buffer + rest.items, requests: rest.requests },
            ),
            None => None,
        },
    decreases cursor.buffer.len(),
{
    if cursor.buffer.len() > 0 {
        lemma_emptied_after_item(cursor);
        lemma_drain_buffer(cursor.after_item(), source, fuel);
        match drain(cursor.emptied(), source, fuel) {
            Some(rest) => {
                assert(seq![cursor.buffer[0]] + (cursor.buffer.drop_first() + rest.items)
                    =~= cursor.buffer + rest.items);
            },
            None => {},
        }
    }
}

/// From between two chunks, a paginating walk over a service that holds
/// `all` yields the rest of the list, with one request for each full chunk
/// left and one more.
proof fn lemma_drain_rest<Q: ResourceQuery>(all: Seq<Q::Item>, done: int, limit: usize, fuel: nat)
    requires
        limit >= 1,
        distinct_markers::<Q>(all),
        0 <= done <= all.len(),
        fuel >= (all.len() - done) / (limit as int) + 1,
    ensures
        drain(between_chunks::<Q>(all, done, limit), paged_source::<Q>(all), fuel) == Some(
            Drained { items: all.skip(done), requests: paged_requests::<Q>(all, done, limit) },
        ),
    decreases all.len() - done,
{
    let cursor = between_chunks::<Q>(all, done, limit);
    let source = paged_source::<Q>(all);
    let left = all.len() - done;
    let k = limit as int;
    if done > 0 {
        lemma_marker_index::<Q>(all, done - 1, 0);
    }
    let chunk = source(cursor.asked_limit(), cursor.asked_marker());
    let after = cursor.supplied(chunk);
    let first = (cursor.asked_limit(), cursor.asked_marker());
    assert(done + 0 * k == done) by (nonlinear_arith);
    lemma_drain_buffer(after, source, (fuel - 1) as nat);
    if left >= k {
        assert(left / k == (left - k) / k + 1) by (nonlinear_arith)
            requires
                left >= k,
                k >= 1,
        ;
        assert((left - k) / k >= 0) by (nonlinear_arith)
            requires
                left >= k,
                k >= 1,
        ;
        lemma_drain_rest::<Q>(all, done + k, limit, (fuel - 1) as nat);
        assert(chunk + all.skip(done + k) =~= all.skip(done));
        let tail = paged_requests::<Q>(all, done + k, limit);
        let whole = paged_requests::<Q>(all, done, limit);
        assert forall|j: int| 0 <= j < whole.len() implies whole[j] == (seq![first] + tail)[j] by {
            if j > 0 {
                assert(done + j * k == done + k + (j - 1) * k) by (nonlinear_arith);
            }
        }
        assert(seq![first] + tail =~= whole);
    } else {
        assert(left / k == 0) by (nonlinear_arith)
            requires
                0 <= left < k,
        ;
        assert(seq![first] + Seq::<(Option<usize>, Option<Seq<char>>)>::empty()
            =~= paged_requests::<Q>(all, done, limit));
    }
}

/// A paginating walk over a service that holds a list yields the whole
/// list, in its order. It asks for one chunk for each full chunk of the
/// list and one more: the chunk that comes back short, or empty, is what
/// ends the walk. The first request carries no marker, and each later one
/// the marker of the last item of the chunk before it.
pub proof fn lemma_paged_walk<Q: ResourceQuery>(all: Seq<Q::Item>, limit: usize, fuel: nat)
    requires
        limit >= 1,
        distinct_markers::<Q>(all),
        fuel >= all.len() / (limit as nat) + 1,
    ensures
        drain(Cursor::<Q>::fresh(true, limit), paged_source::<Q>(all), fuel) == Some(
            Drained { items: all, requests: paged_requests::<Q>(all, 0, limit) },
        ),
        paged_requests::<Q>(all, 0, limit).len() == all.len() / (limit as nat) + 1,
{
    lemma_drain_rest::<Q>(all, 0, limit, fuel);
    assert(all.skip(0) =~= all);
}

/// Where the chunk size does not divide the length of the list, a
/// paginating walk yields the whole list with as many requests as the
/// list fills chunks, the last of them short: after the short chunk
/// nothing more is asked for.
pub proof fn lemma_paged_walk_rounds_up<Q: ResourceQuery>(
    all: Seq<Q::Item>,
    limit: usize,
    fuel: nat,
)
    requires
        limit >= 1,
        distinct_markers::<Q>(all),
        all.len() % (limit as nat) != 0,
        fuel >= all.len() / (limit as nat) + 1,
    ensures
        drain(Cursor::<Q>::fresh(true, limit), paged_source::<Q>(all), fuel) matches Some(drained)
            && drained.items == all && drained.requests.len() == (all.len() + limit - 1) / (
        limit as int),
{
    lemma_paged_walk::<Q>(all, limit, fuel);
    let n = all.len() as int;
    let k = limit as int;
    assert((n + k - 1) / k == n / k + 1) by (nonlinear_arith)
        requires
            n >= 0,
            k >= 1,
            n % k != 0,
    ;
}

/// A paginating walk over a list with distinct markers never asks twice
/// by the same marker: no two of its requests carry the same one.
pub proof fn lemma_paged_walk_never_repeats<Q: ResourceQuery>(
    all: Seq<Q::Item>,
    limit: usize,
    i: int,
    j: int,
)
    requires
        limit >= 1,
        distinct_markers::<Q>(all),
        0 <= i < j < paged_requests::<Q>(all, 0, limit).len(),
    ensures
        paged_requests::<Q>(all, 0, limit)[i].1 != paged_requests::<Q>(all, 0, limit)[j].1,
{
    let n = all.len() as int;
    let k = limit as int;
    assert(i * k < j * k) by (nonlinear_arith)
        requires
            0 <= i < j,
            k >= 1,
    ;
    assert(0 <= i * k) by (nonlinear_arith)
        requires
            0 <= i,
            k >= 1,
    ;
    assert(j * k <= n) by (nonlinear_arith)
        requires
            0 <= j <= n / k,
            k >= 1,
            n >= 0,
    ;
}

/// A chunk shorter than was asked for ends the walk: once its items are
/// yielded, nothing more is asked for.
pub proof fn lemma_short_chunk_ends_walk<Q: ResourceQuery>(cursor: Cursor<Q>, chunk: Seq<Q::Item>)
    requires
        chunk.len() < cursor.limit,
    ensures
        !cursor.supplied(chunk).emptied().wants_chunk(),
{
}

/// A walk that does not paginate makes one request, which carries neither
/// limit nor marker beyond what the query holds, and yields the chunk that
/// comes back, whatever its length.
pub proof fn lemma_single_chunk_walk<Q: ResourceQuery>(
    limit: usize,
    source: Source<Q::Item>,
    fuel: nat,
)
    requires
        fuel >= 1,
    ensures
        drain(Cursor::<Q>::fresh(false, limit), source, fuel) == Some(
            Drained { items: source(None, None), requests: seq![(None, None)] },
        ),
{
    let cursor = Cursor::<Q>::fresh(false, limit);
    let chunk = source(None, None);
    let after = cursor.supplied(chunk);
    lemma_drain_buffer(after, source, (fuel - 1) as nat);
}

} // verus!
