use crate::api::{ApiData, ClientError};
use crate::cache::QueryCache;
use crate::options::CacheOptions;
use crate::query::{
    request_view, FetchRequest, QueryEvent, QueryResource, QueryResourceView, QueryState,
    ResourceState,
};
use core::marker::PhantomData;
use vstd::prelude::*;

verus! {

/// A cache-backed resource whose fetch gives `Result<O, ClientError>`. Of
/// the cache's operations it offers only the forced refetch.
///
/// The cache and the counter of fetches are handed in with each operation:
/// the wrapper cannot be made or used without them. Wrappers on one cache
/// share its fetches: of two that read one key, one fetches.
#[derive(Debug)]
pub struct WrapperLocalResource<O> {
    query: QueryResource,
    output: PhantomData<O>,
}

impl<O> View for WrapperLocalResource<O> {
    type V = QueryResourceView;

    closed spec fn view(&self) -> QueryResourceView {
        self.query@
    }
}

/// The state that a wrapper, its cache and its counter make up.
pub open spec fn wrapper_state<O>(
    wrapper: WrapperLocalResource<O>,
    cache: QueryCache<Result<O, ClientError>>,
    fetch_count: u32,
) -> QueryState<Result<O, ClientError>> {
    QueryState {
        resource: wrapper@,
        cache: cache@,
        fetching: cache.fetching(),
        fetch_count: fetch_count as int,
    }
}

/// The state in which a new wrapper on `key` finds `cache`.
pub open spec fn new_wrapper_state<O>(
    query_options: CacheOptions,
    key: Seq<char>,
    cache: QueryCache<Result<O, ClientError>>,
    fetch_count: u32,
) -> QueryState<Result<O, ClientError>> {
    QueryState::idle(query_options, key, cache@, cache.fetching(), fetch_count as int)
}

impl<O> WrapperLocalResource<O> {
    /// Registers a resource on `key` under `query_options` and reads it at
    /// `now`: a fetch is counted and requested unless the cache holds a
    /// fresh value for `key` or a fetch of `key` is under way on the cache
    /// already, started by this or any other wrapper.
    pub fn new(
        query_options: CacheOptions,
        key: String,
        cache: &mut QueryCache<Result<O, ClientError>>,
        fetch_count: &mut u32,
        now: u64,
    ) -> (out: (Self, Option<FetchRequest>))
        requires
            new_wrapper_state(query_options, key@, *old(cache), *old(fetch_count)).emits(
                QueryEvent::Read { key: key@, now },
            ) ==> *old(fetch_count) < u32::MAX,
        ensures
            ({
                let before = new_wrapper_state(query_options, key@, *old(cache), *old(fetch_count));
                let event = QueryEvent::Read { key: key@, now };
                &&& wrapper_state(out.0, *final(cache), *final(fetch_count)) == before.step(event)
                &&& request_view(out.1) == before.request(event)
            }),
    {
        let (query, request) = QueryResource::new(query_options, key, cache, fetch_count, now);
        (WrapperLocalResource { query, output: PhantomData }, request)
    }

    /// Forces a refetch: invalidates what the cache holds for the key that
    /// the resource shows at this moment and starts a fetch of it, in place
    /// of one under way for that key.
    pub fn force_refetch(
        &mut self,
        cache: &mut QueryCache<Result<O, ClientError>>,
        fetch_count: &mut u32,
    ) -> (request: FetchRequest)
        requires
            *old(fetch_count) < u32::MAX,
        ensures
            ({
                let before = wrapper_state(*old(self), *old(cache), *old(fetch_count));
                &&& wrapper_state(*final(self), *final(cache), *final(fetch_count)) == before.step(
                    QueryEvent::ForceRefetch,
                )
                &&& Some(request@) == before.request(QueryEvent::ForceRefetch)
            }),
    {
        self.query.force_refetch(cache, fetch_count)
    }

    /// Follows the key to `key` and reads the resource at `now`. With the
    /// key unchanged this is what a timer does when it looks after the
    /// value.
    pub fn track(
        &mut self,
        cache: &mut QueryCache<Result<O, ClientError>>,
        fetch_count: &mut u32,
        key: String,
        now: u64,
    ) -> (request: Option<FetchRequest>)
        requires
            wrapper_state(*old(self), *old(cache), *old(fetch_count)).emits(
                QueryEvent::Read { key: key@, now },
            ) ==> *old(fetch_count) < u32::MAX,
        ensures
            ({
                let before = wrapper_state(*old(self), *old(cache), *old(fetch_count));
                let event = QueryEvent::Read { key: key@, now };
                &&& wrapper_state(*final(self), *final(cache), *final(fetch_count)) == before.step(
                    event,
                )
                &&& request_view(request) == before.request(event)
            }),
    {
        self.query.read(cache, fetch_count, key, now)
    }

    /// Takes the result of the fetch that went out as `request`. Where that
    /// is the fetch under way for the key of the request, `result` is
    /// stored in the cache under that key as fetched at `now`; else nothing
    /// changes. Says which.
    pub fn complete(
        &self,
        cache: &mut QueryCache<Result<O, ClientError>>,
        request: FetchRequest,
        result: Result<O, ClientError>,
        now: u64,
    ) -> (accepted: bool)
        ensures
            ({
                let before = wrapper_state(*self, *old(cache), 0);
                &&& accepted == before.accepts(request@.key, request@.ticket)
                &&& wrapper_state(*self, *final(cache), 0) == before.step(
                    QueryEvent::Complete {
                        key: request@.key,
                        ticket: request@.ticket,
                        value: result,
                        now,
                    },
                )
            }),
    {
        self.query.complete(cache, request, result, now)
    }

    /// What the resource shows: pending, a value or an error.
    pub fn resource<'a>(&self, cache: &'a QueryCache<Result<O, ClientError>>) -> (shown:
        ResourceState<&'a Result<O, ClientError>>)
        ensures
            shown == match wrapper_state(*self, *cache, 0).shown() {
                ResourceState::Ready(result) => ResourceState::Ready(&result),
                ResourceState::Pending => ResourceState::Pending,
            },
    {
        self.query.value(cache)
    }

    /// The key that the resource shows.
    pub fn key(&self) -> (key: &String)
        ensures
            key@ == self@.key,
    {
        self.query.key()
    }

    /// The fetch that the resource is waiting for: the one under way on
    /// the cache for the key it shows, if one is.
    pub fn pending(&self, cache: &QueryCache<Result<O, ClientError>>) -> (request: Option<
        FetchRequest,
    >)
        ensures
            request_view(request) == wrapper_state(*self, *cache, 0).pending(),
    {
        self.query.pending(cache)
    }
}

/// The resource for `ApiData` on the key `id`, under the default policy.
pub fn data_resource(
    id: String,
    cache: &mut QueryCache<Result<ApiData, ClientError>>,
    fetch_count: &mut u32,
    now: u64,
) -> (out: (WrapperLocalResource<ApiData>, Option<FetchRequest>))
    requires
        new_wrapper_state(CacheOptions::new(), id@, *old(cache), *old(fetch_count)).emits(
            QueryEvent::Read { key: id@, now },
        ) ==> *old(fetch_count) < u32::MAX,
    ensures
        ({
            let before = new_wrapper_state(CacheOptions::new(), id@, *old(cache), *old(fetch_count));
            let event = QueryEvent::Read { key: id@, now };
            &&& wrapper_state(out.0, *final(cache), *final(fetch_count)) == before.step(event)
            &&& request_view(out.1) == before.request(event)
        }),
{
    WrapperLocalResource::new(CacheOptions::new(), id, cache, fetch_count, now)
}

} // verus!
