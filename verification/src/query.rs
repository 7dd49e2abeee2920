//! A resource backed by the query cache: it shows what the cache holds for
//! its key and decides when a fetch is due.
//!
//! The resource never fetches by itself. An operation that finds a fetch due
//! counts it, notes its ticket in the cache and hands out a `FetchRequest`;
//! whoever drives the resource performs the fetch and hands the result back
//! to `complete`. Because the ticket is kept with the cache, under the key
//! that is fetched, every resource on that cache sees the fetch: a second
//! read of the key joins it. Time is handed in with each operation.
//!
//! One cache goes with one counter: the tickets of a cache are the values
//! that its counter has taken.

use crate::cache::{awaits, holds_fresh, invalidated, stored, Cached, QueryCache};
use crate::options::CacheOptions;
use vstd::prelude::*;

verus! {

/// What a resource shows: nothing yet, or the latest value.
#[derive(Debug, PartialEq, Eq)]
pub enum ResourceState<T> {
    /// No value is there yet.
    Pending,
    /// The latest value.
    Ready(T),
}

/// A fetch that is due: the key to fetch and the ticket under which the
/// result is handed back.
#[derive(Debug, PartialEq, Eq)]
pub struct FetchRequest {
    pub key: String,
    pub ticket: u32,
}

/// A request as its key and its ticket.
pub struct FetchRequestView {
    pub key: Seq<char>,
    pub ticket: int,
}

impl View for FetchRequest {
    type V = FetchRequestView;

    open spec fn view(&self) -> FetchRequestView {
        FetchRequestView { key: self.key@, ticket: self.ticket as int }
    }
}

/// The view of an optional request.
pub open spec fn request_view(request: Option<FetchRequest>) -> Option<FetchRequestView> {
    match request {
        Some(r) => Some(r@),
        None => None,
    }
}

/// Counts one fetch: the counter after it is the counter before it and one.
/// A counter at its largest value cannot count another fetch.
pub fn count_fetch(fetch_count: u32) -> (counted: u32)
    requires
        fetch_count < u32::MAX,
    ensures
        counted == fetch_count + 1,
{
    fetch_count + 1
}

/// A resource on one cache scope: its policy and the key it shows.
#[derive(Debug)]
pub struct QueryResource {
    options: CacheOptions,
    key: String,
}

/// A resource as plain values.
pub struct QueryResourceView {
    pub options: CacheOptions,
    pub key: Seq<char>,
}

impl View for QueryResource {
    type V = QueryResourceView;

    closed spec fn view(&self) -> QueryResourceView {
        QueryResourceView { options: self.options, key: self.key@ }
    }
}

/// What can happen to a resource and its cache.
pub enum QueryEvent<V> {
    /// The resource is read for `key` at `now`: on mount, on a change of
    /// key, on a plain refetch, and when a timer looks after the value.
    Read { key: Seq<char>, now: u64 },
    /// A refetch is forced.
    ForceRefetch,
    /// The fetch of `key` that went out with `ticket` has come back with
    /// `value` at `now`.
    Complete { key: Seq<char>, ticket: int, value: V, now: u64 },
}

/// A resource together with the cache it reads, the fetches under way on
/// that cache, and the counter of the fetches.
pub struct QueryState<V> {
    pub resource: QueryResourceView,
    pub cache: Map<Seq<char>, Cached<V>>,
    pub fetching: Map<Seq<char>, int>,
    pub fetch_count: int,
}

impl<V> QueryState<V> {
    /// A resource on `key` that has not read yet, on a cache with the
    /// values `cache` and the fetches `fetching` under way.
    pub open spec fn idle(
        options: CacheOptions,
        key: Seq<char>,
        cache: Map<Seq<char>, Cached<V>>,
        fetching: Map<Seq<char>, int>,
        fetch_count: int,
    ) -> QueryState<V> {
        QueryState {
            resource: QueryResourceView { options: options, key: key },
            cache: cache,
            fetching: fetching,
            fetch_count: fetch_count,
        }
    }

    /// The same cache and counter, seen by `resource`.
    pub open spec fn with_resource(self, resource: QueryResourceView) -> QueryState<V> {
        QueryState { resource: resource, ..self }
    }

    /// Whether a fetch of `key` is under way on the cache, whichever
    /// resource started it.
    pub open spec fn is_fetching(self, key: Seq<char>) -> bool {
        self.fetching.contains_key(key)
    }

    /// Whether a read of `key` at `now` is served from the cache.
    pub open spec fn is_hit(self, key: Seq<char>, now: u64) -> bool {
        holds_fresh(self.cache, key, now, &self.resource.options)
    }

    /// Whether `event` starts a fetch. A read starts one unless the cache
    /// holds a fresh value for the key or a fetch of that key is under way;
    /// a forced refetch always starts one; a result coming back never does.
    pub open spec fn emits(self, event: QueryEvent<V>) -> bool {
        match event {
            QueryEvent::Read { key, now } => !self.is_hit(key, now) && !self.is_fetching(key),
            QueryEvent::ForceRefetch => true,
            QueryEvent::Complete { .. } => false,
        }
    }

    /// The request that `event` hands out, if it starts a fetch: its ticket
    /// is the new value of the counter.
    pub open spec fn request(self, event: QueryEvent<V>) -> Option<FetchRequestView> {
        if self.emits(event) {
            Some(
                FetchRequestView {
                    key: match event {
                        QueryEvent::Read { key, .. } => key,
                        _ => self.resource.key,
                    },
                    ticket: self.fetch_count + 1,
                },
            )
        } else {
            None
        }
    }

    /// Whether a result coming back for `key` under `ticket` is the one
    /// that the cache waits for.
    pub open spec fn accepts(self, key: Seq<char>, ticket: int) -> bool {
        awaits(self.fetching, key, ticket)
    }

    /// Whether every ticket under way is one that the counter has reached.
    pub open spec fn tickets_in_order(self) -> bool {
        forall|key: Seq<char>| #[trigger]
            self.fetching.contains_key(key) ==> self.fetching[key] <= self.fetch_count
    }

    /// The state after `event`.
    ///
    /// A read moves the resource to the key; where it starts a fetch, the
    /// fetch is counted and noted under the key. A fetch under way for
    /// another key stays under way. A forced refetch invalidates the value
    /// under the key shown and notes a new fetch in place of the one under
    /// way for that key. A result that the cache waits for is stored under
    /// its own key, whatever key the resource shows by then; any other
    /// result changes nothing.
    pub open spec fn step(self, event: QueryEvent<V>) -> QueryState<V> {
        match event {
            QueryEvent::Read { key, now } => QueryState {
                resource: QueryResourceView { options: self.resource.options, key: key },
                cache: self.cache,
                fetching: if self.emits(event) {
                    self.fetching.insert(key, self.fetch_count + 1)
                } else {
                    self.fetching
                },
                fetch_count: if self.emits(event) {
                    self.fetch_count + 1
                } else {
                    self.fetch_count
                },
            },
            QueryEvent::ForceRefetch => QueryState {
                resource: self.resource,
                cache: invalidated(self.cache, self.resource.key),
                fetching: self.fetching.insert(self.resource.key, self.fetch_count + 1),
                fetch_count: self.fetch_count + 1,
            },
            QueryEvent::Complete { key, ticket, value, now } => if self.accepts(key, ticket) {
                QueryState {
                    resource: self.resource,
                    cache: self.cache.insert(key, stored(value, now)),
                    fetching: self.fetching.remove(key),
                    fetch_count: self.fetch_count,
                }
            } else {
                self
            },
        }
    }

    /// What the resource shows: the cached value for its key, fresh or not,
    /// and nothing while the cache holds none.
    pub open spec fn shown(self) -> ResourceState<V> {
        if self.cache.contains_key(self.resource.key) {
            ResourceState::Ready(self.cache[self.resource.key].value)
        } else {
            ResourceState::Pending
        }
    }

    /// The fetch that the resource is waiting for: the one under way for
    /// the key it shows, if one is.
    pub open spec fn pending(self) -> Option<FetchRequestView> {
        if self.is_fetching(self.resource.key) {
            Some(
                FetchRequestView {
                    key: self.resource.key,
                    ticket: self.fetching[self.resource.key],
                },
            )
        } else {
            None
        }
    }

    /// The state after a sequence of events, first to last.
    pub open spec fn run(self, events: Seq<QueryEvent<V>>) -> QueryState<V>
        decreases events.len(),
    {
        if events.len() == 0 {
            self
        } else {
            self.step(events.first()).run(events.drop_first())
        }
    }

    /// How many fetches a sequence of events starts.
    pub open spec fn computes(self, events: Seq<QueryEvent<V>>) -> nat
        decreases events.len(),
    {
        if events.len() == 0 {
            0
        } else {
            let rest = self.step(events.first()).computes(events.drop_first());
            if self.emits(events.first()) {
                rest + 1
            } else {
                rest
            }
        }
    }
}

/// The state that a resource, a cache and a counter make up.
pub open spec fn query_state<V>(resource: QueryResource, cache: QueryCache<V>, fetch_count: u32)
    -> QueryState<V> {
    QueryState {
        resource: resource@,
        cache: cache@,
        fetching: cache.fetching(),
        fetch_count: fetch_count as int,
    }
}

/// The state that a resource and a cache make up where the counter plays
/// no part: it is taken as zero.
pub open spec fn uncounted_state<V>(resource: QueryResource, cache: QueryCache<V>) -> QueryState<V> {
    query_state(resource, cache, 0)
}

/// The state in which a new resource on `key` finds `cache`.
pub open spec fn idle_state<V>(options: CacheOptions, key: Seq<char>, cache: QueryCache<V>, fetch_count: u32)
    -> QueryState<V> {
    QueryState::idle(options, key, cache@, cache.fetching(), fetch_count as int)
}

impl QueryResource {
    /// Subscribes to `key` under `options` and reads it at `now`. A fetch
    /// is due unless the cache holds a fresh value for `key` or a fetch of
    /// `key` is under way on the cache already, started by whichever
    /// resource.
    pub fn new<V>(
        options: CacheOptions,
        key: String,
        cache: &mut QueryCache<V>,
        fetch_count: &mut u32,
        now: u64,
    ) -> (out: (Self, Option<FetchRequest>))
        requires
            idle_state(options, key@, *old(cache), *old(fetch_count)).emits(
                QueryEvent::Read { key: key@, now },
            ) ==> *old(fetch_count) < u32::MAX,
        ensures
            ({
                let before = idle_state(options, key@, *old(cache), *old(fetch_count));
                let event = QueryEvent::Read { key: key@, now };
                &&& query_state(out.0, *final(cache), *final(fetch_count)) == before.step(event)
                &&& request_view(out.1) == before.request(event)
            }),
    {
        let mut resource = QueryResource { options, key: key.clone() };
        let request = resource.read(cache, fetch_count, key, now);
        (resource, request)
    }

    /// Reads the resource for `key` at `now`. Where the cache holds a fresh
    /// value for `key`, or a fetch of `key` is under way on the cache,
    /// nothing is fetched; else a fetch is counted, noted in the cache and
    /// its request handed out.
    pub fn read<V>(
        &mut self,
        cache: &mut QueryCache<V>,
        fetch_count: &mut u32,
        key: String,
        now: u64,
    ) -> (request: Option<FetchRequest>)
        requires
            query_state(*old(self), *old(cache), *old(fetch_count)).emits(
                QueryEvent::Read { key: key@, now },
            ) ==> *old(fetch_count) < u32::MAX,
        ensures
            ({
                let before = query_state(*old(self), *old(cache), *old(fetch_count));
                let event = QueryEvent::Read { key: key@, now };
                &&& query_state(*final(self), *final(cache), *final(fetch_count)) == before.step(
                    event,
                )
                &&& request_view(request) == before.request(event)
            }),
    {
        let fresh = cache.is_fresh(&key, now, &self.options);
        let fetching = cache.fetching_ticket(&key).is_some();
        if !fresh && !fetching {
            *fetch_count = count_fetch(*fetch_count);
            let request = FetchRequest { key: key.clone(), ticket: *fetch_count };
            cache.begin_fetch(key.clone(), *fetch_count);
            self.key = key;
            Some(request)
        } else {
            self.key = key;
            None
        }
    }

    /// Reads the resource again for the key it shows.
    pub fn refetch<V>(&mut self, cache: &mut QueryCache<V>, fetch_count: &mut u32, now: u64) -> (request:
        Option<FetchRequest>)
        requires
            query_state(*old(self), *old(cache), *old(fetch_count)).emits(
                QueryEvent::Read { key: old(self)@.key, now },
            ) ==> *old(fetch_count) < u32::MAX,
        ensures
            ({
                let before = query_state(*old(self), *old(cache), *old(fetch_count));
                let event = QueryEvent::Read { key: old(self)@.key, now };
                &&& query_state(*final(self), *final(cache), *final(fetch_count)) == before.step(
                    event,
                )
                &&& request_view(request) == before.request(event)
            }),
    {
        let key = self.key.clone();
        self.read(cache, fetch_count, key, now)
    }

    /// Invalidates what the cache holds for the key that the resource shows
    /// at this moment, and starts a fetch of it, whatever the cache held and
    /// whether or not a fetch was under way. The new fetch takes the place
    /// of one under way for that key.
    pub fn force_refetch<V>(&mut self, cache: &mut QueryCache<V>, fetch_count: &mut u32) -> (request:
        FetchRequest)
        requires
            *old(fetch_count) < u32::MAX,
        ensures
            ({
                let before = query_state(*old(self), *old(cache), *old(fetch_count));
                &&& query_state(*final(self), *final(cache), *final(fetch_count)) == before.step(
                    QueryEvent::ForceRefetch,
                )
                &&& Some(request@) == before.request(QueryEvent::ForceRefetch)
            }),
    {
        cache.invalidate(&self.key);
        *fetch_count = count_fetch(*fetch_count);
        cache.begin_fetch(self.key.clone(), *fetch_count);
        FetchRequest { key: self.key.clone(), ticket: *fetch_count }
    }

    /// Takes the result of the fetch that went out as `request`. Where that
    /// is the fetch under way for the key of the request, `value` is stored
    /// in the cache under that key, as fetched at `now`, whatever key the
    /// resource shows by now; else nothing changes. Says which.
    pub fn complete<V>(&self, cache: &mut QueryCache<V>, request: FetchRequest, value: V, now: u64) -> (accepted:
        bool)
        ensures
            ({
                let before = uncounted_state(*self, *old(cache));
                &&& accepted == before.accepts(request@.key, request@.ticket)
                &&& uncounted_state(*self, *final(cache)) == before.step(
                    QueryEvent::Complete {
                        key: request@.key,
                        ticket: request@.ticket,
                        value,
                        now,
                    },
                )
            }),
    {
        cache.complete(request.key, request.ticket, value, now)
    }

    /// What the resource shows.
    pub fn value<'a, V>(&self, cache: &'a QueryCache<V>) -> (shown: ResourceState<&'a V>)
        ensures
            shown == match uncounted_state(*self, *cache).shown() {
                ResourceState::Ready(value) => ResourceState::Ready(&value),
                ResourceState::Pending => ResourceState::Pending,
            },
    {
        match cache.get(&self.key) {
            Some(cached) => ResourceState::Ready(&cached.value),
            None => ResourceState::Pending,
        }
    }

    /// The key that the resource shows.
    pub fn key(&self) -> (key: &String)
        ensures
            key@ == self@.key,
    {
        &self.key
    }

    /// The policy of the resource.
    pub fn options(&self) -> (options: CacheOptions)
        ensures
            options == self@.options,
    {
        self.options
    }

    /// The fetch that the resource is waiting for: the one under way on
    /// the cache for the key it shows, if one is.
    pub fn pending<V>(&self, cache: &QueryCache<V>) -> (request: Option<FetchRequest>)
        ensures
            request_view(request) == uncounted_state(*self, *cache).pending(),
    {
        match cache.fetching_ticket(&self.key) {
            Some(ticket) => Some(FetchRequest { key: self.key.clone(), ticket }),
            None => None,
        }
    }
}

/// The counter of fetches rises by one for each fetch that a sequence of
/// events starts, and by nothing else: a read that the cache serves, a read
/// that joins a fetch under way and a result coming back leave it as it is.
pub proof fn lemma_count_follows_computes<V>(state: QueryState<V>, events: Seq<QueryEvent<V>>)
    ensures
        state.run(events).fetch_count == state.fetch_count + state.computes(events),
    decreases events.len(),
{
    if events.len() > 0 {
        lemma_count_follows_computes(state.step(events.first()), events.drop_first());
    }
}

/// Fetches of one key on one cache coalesce. While a fetch of `key` is
/// under way, a read of `key` starts no fetch and leaves the counter and
/// the fetches under way as they are, whichever resource reads and
/// whichever resource started the fetch.
pub proof fn lemma_read_joins_fetch_under_way<V>(
    state: QueryState<V>,
    reader: QueryResourceView,
    key: Seq<char>,
    now: u64,
)
    requires
        state.is_fetching(key),
    ensures
        ({
            let event = QueryEvent::Read { key, now };
            let after = state.with_resource(reader).step(event);
            &&& !state.with_resource(reader).emits(event)
            &&& state.with_resource(reader).request(event) is None
            &&& after.fetch_count == state.fetch_count
            &&& after.fetching == state.fetching
            &&& after.cache == state.cache
        }),
{
}

/// Two reads of one key give one fetch. Where the first read starts a
/// fetch, a second read of the key, by whichever resource and at whatever
/// time, starts none while the result is not back. Whatever the cache held
/// before, the two reads together raise the counter by one at most.
pub proof fn lemma_two_reads_one_fetch<V>(
    state: QueryState<V>,
    second_reader: QueryResourceView,
    key: Seq<char>,
    first_at: u64,
    second_at: u64,
)
    ensures
        ({
            let first = QueryEvent::Read { key, now: first_at };
            let second = QueryEvent::Read { key, now: second_at };
            let between = state.step(first).with_resource(second_reader);
            &&& state.fetch_count <= between.step(second).fetch_count <= state.fetch_count + 1
            &&& state.emits(first) ==> {
                &&& between.request(second) is None
                &&& between.step(second).fetch_count == state.fetch_count + 1
                &&& between.step(second).fetching == state.step(first).fetching
                &&& between.step(second).cache == state.cache
            }
        }),
{
}

/// Once the result of a fetch is back, every resource on its key shows it,
/// whichever resource started the fetch.
pub proof fn lemma_result_reaches_every_reader<V>(
    state: QueryState<V>,
    reader: QueryResourceView,
    key: Seq<char>,
    ticket: int,
    value: V,
    now: u64,
)
    requires
        state.accepts(key, ticket),
        reader.key == key,
    ensures
        ({
            let after = state.step(QueryEvent::Complete { key, ticket, value, now });
            &&& after.with_resource(reader).shown() == ResourceState::Ready(value)
            &&& !after.is_fetching(key)
            &&& after.fetch_count == state.fetch_count
            &&& after.with_resource(reader).is_hit(key, now) <==> {
                &&& 0 <= reader.options.stale_time()
                &&& reader.options.refetch_interval() != Some(0u64)
            }
        }),
{
}

/// No ticket is handed out twice: the ticket of a request lies above the
/// counter as it was, and so above every ticket handed out before, and it
/// is the one that the cache waits for under the key of the request
/// afterwards. A result that comes back for that key under an earlier
/// ticket is therefore never taken for the one waited for.
pub proof fn lemma_tickets_never_repeat<V>(state: QueryState<V>, event: QueryEvent<V>)
    requires
        state.tickets_in_order(),
    ensures
        state.step(event).tickets_in_order(),
        state.request(event) matches Some(request) ==> {
            &&& request.ticket == state.fetch_count + 1
            &&& state.step(event).accepts(request.key, request.ticket)
            &&& forall|earlier: int|
                earlier <= state.fetch_count ==> !state.step(event).accepts(request.key, earlier)
        },
{
}

/// A read that finds a fresh value in the cache starts no fetch and leaves
/// the counter and the cache as they are.
pub proof fn lemma_hit_costs_nothing<V>(state: QueryState<V>, key: Seq<char>, now: u64)
    requires
        state.is_hit(key, now),
    ensures
        !state.emits(QueryEvent::Read { key, now }),
        state.step(QueryEvent::Read { key, now }).fetch_count == state.fetch_count,
        state.step(QueryEvent::Read { key, now }).cache == state.cache,
        state.step(QueryEvent::Read { key, now }).fetching == state.fetching,
        state.step(QueryEvent::Read { key, now }).shown() == ResourceState::Ready(
            state.cache[key].value,
        ),
{
}

/// A forced refetch raises the counter by exactly one, whatever the cache
/// holds and whatever the time, and the value it invalidates is no longer
/// fresh at any time.
pub proof fn lemma_force_refetch_counts_once<V>(state: QueryState<V>)
    ensures
        state.emits(QueryEvent::ForceRefetch),
        state.step(QueryEvent::ForceRefetch).fetch_count == state.fetch_count + 1,
        state.step(QueryEvent::ForceRefetch).is_fetching(state.resource.key),
        forall|now: u64| !#[trigger] state.step(QueryEvent::ForceRefetch).is_hit(state.resource.key, now),
{
}

} // verus!
