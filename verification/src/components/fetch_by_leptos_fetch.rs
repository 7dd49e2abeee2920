use crate::api::{api_data_for, get_api_data, ApiData, Client, ClientError};
use crate::cache::{stored, QueryCache};
use crate::options::CacheOptions;
use crate::query::{
    idle_state, query_state, request_view, FetchRequest, QueryEvent, QueryResource,
};
use crate::resource::{data_resource, new_wrapper_state, wrapper_state, WrapperLocalResource};
use vstd::prelude::*;

verus! {

/// The policy of the panel that fetches through the cache: a value is
/// fresh for one minute, an unused one is kept for two, and a value in use
/// is fetched again every minute.
#[verifier::when_used_as_spec(spec_panel_options)]
pub fn panel_options() -> (options: CacheOptions)
    ensures
        options == spec_panel_options(),
        options.stale_time() == 60_000,
        options.gc_time() == 120_000,
        options.refetch_interval() == Some(60_000u64),
{
    CacheOptions::new().with_stale_time(60_000).with_gc_time(120_000).with_refetch_interval(60_000)
}

/// The policy of the panel that fetches through the cache.
pub open spec fn spec_panel_options() -> CacheOptions {
    CacheOptions {
        stale_time: Some(60_000u64),
        gc_time: Some(120_000u64),
        refetch_interval: Some(60_000u64),
    }
}

/// Mounts the panel that fetches through the cache: a resource is made on
/// `selected_id` under `panel_options()` and read at `now`. `fetch_count`
/// rises by one unless the cache holds a fresh value for `selected_id` or
/// a fetch of `selected_id` is under way on the cache.
#[allow(non_snake_case)]
pub fn FetchByLeptosFetch(
    selected_id: String,
    fetch_count: &mut u32,
    cache: &mut QueryCache<ApiData>,
    now: u64,
) -> (out: (QueryResource, Option<FetchRequest>))
    requires
        idle_state(panel_options(), selected_id@, *old(cache), *old(fetch_count)).emits(
            QueryEvent::Read { key: selected_id@, now },
        ) ==> *old(fetch_count) < u32::MAX,
    ensures
        ({
            let before = idle_state(panel_options(), selected_id@, *old(cache), *old(fetch_count));
            let event = QueryEvent::Read { key: selected_id@, now };
            &&& query_state(out.0, *final(cache), *final(fetch_count)) == before.step(event)
            &&& request_view(out.1) == before.request(event)
        }),
{
    QueryResource::new(panel_options(), selected_id, cache, fetch_count, now)
}

/// Mounts the panel that fetches through the wrapped resource: the
/// resource for `ApiData` is made on `selected_id` and read at `now`.
/// `fetch_count` rises by one unless the cache holds a fresh value for
/// `selected_id` or a fetch of `selected_id` is under way on the cache.
#[allow(non_snake_case)]
pub fn FetchByLeptosFetchV2(
    selected_id: String,
    cache: &mut QueryCache<Result<ApiData, ClientError>>,
    fetch_count: &mut u32,
    now: u64,
) -> (out: (WrapperLocalResource<ApiData>, Option<FetchRequest>))
    requires
        new_wrapper_state(CacheOptions::new(), selected_id@, *old(cache), *old(fetch_count)).emits(
            QueryEvent::Read { key: selected_id@, now },
        ) ==> *old(fetch_count) < u32::MAX,
    ensures
        ({
            let before = new_wrapper_state(
                CacheOptions::new(),
                selected_id@,
                *old(cache),
                *old(fetch_count),
            );
            let event = QueryEvent::Read { key: selected_id@, now };
            &&& wrapper_state(out.0, *final(cache), *final(fetch_count)) == before.step(event)
            &&& request_view(out.1) == before.request(event)
        }),
{
    data_resource(selected_id, cache, fetch_count, now)
}

/// Lets the fetch of `key` that is under way on the cache come back at
/// `now`, with the record that the API gives for `key`. Says whether a
/// fetch of `key` was under way; if none was, nothing changes.
pub fn resolve_leptos_fetch(cache: &mut QueryCache<ApiData>, key: &String, now: u64) -> (resolved:
    bool)
    ensures
        resolved == old(cache).fetching().contains_key(key@),
        !resolved ==> final(cache)@ == old(cache)@ && final(cache).fetching() == old(
            cache,
        ).fetching(),
        resolved ==> {
            &&& final(cache)@.contains_key(key@)
            &&& final(cache)@[key@].value@ == api_data_for(key@)
            &&& final(cache)@ == old(cache)@.insert(key@, stored(final(cache)@[key@].value, now))
            &&& final(cache).fetching() == old(cache).fetching().remove(key@)
        },
{
    match cache.fetching_ticket(key) {
        Some(ticket) => {
            let data = get_api_data(key.clone());
            cache.complete(key.clone(), ticket, data, now)
        },
        None => false,
    }
}

/// Lets the fetch of `key` that is under way on the cache of the wrapped
/// panel come back at `now`, with what a client of the API gives for
/// `key`. Says whether a fetch of `key` was under way; if none was,
/// nothing changes.
pub fn resolve_leptos_fetch_v2(
    cache: &mut QueryCache<Result<ApiData, ClientError>>,
    key: &String,
    now: u64,
) -> (resolved: bool)
    ensures
        resolved == old(cache).fetching().contains_key(key@),
        !resolved ==> final(cache)@ == old(cache)@ && final(cache).fetching() == old(
            cache,
        ).fetching(),
        resolved ==> {
            &&& final(cache)@.contains_key(key@)
            &&& final(cache)@[key@].value is Ok
            &&& final(cache)@[key@].value->Ok_0@ == api_data_for(key@)
            &&& final(cache)@ == old(cache)@.insert(key@, stored(final(cache)@[key@].value, now))
            &&& final(cache).fetching() == old(cache).fetching().remove(key@)
        },
{
    match cache.fetching_ticket(key) {
        Some(ticket) => {
            let client = Client::new();
            let result = client.fetch_data(key.clone());
            cache.complete(key.clone(), ticket, result, now)
        },
        None => false,
    }
}

} // verus!
