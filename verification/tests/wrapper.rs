use leptos_fetch_demo::api::{get_api_data, ApiData, ClientError};
use leptos_fetch_demo::cache::QueryCache;
use leptos_fetch_demo::components::{
    render_data, render_result, resolve_leptos_fetch, resolve_leptos_fetch_v2, FetchByLeptosFetch,
    FetchByLeptosFetchV2, PanelView,
};
use leptos_fetch_demo::options::CacheOptions;
use leptos_fetch_demo::query::{FetchRequest, ResourceState};
use leptos_fetch_demo::resource::{data_resource, WrapperLocalResource};

fn key(text: &str) -> String {
    text.to_string()
}

fn shown(id: &str) -> PanelView {
    PanelView::Data { id: id.to_string(), name: format!("Name for {}", id) }
}

fn request(text: &str, ticket: u32) -> FetchRequest {
    FetchRequest { key: key(text), ticket }
}

#[test]
fn a_new_wrapper_fetches_unless_the_cache_is_fresh() {
    let mut cache: QueryCache<Result<u8, ClientError>> = QueryCache::new();
    let mut count = 0;
    let options = CacheOptions::new().with_stale_time(10);
    let (wrapper, started) = WrapperLocalResource::new(options, key("a"), &mut cache, &mut count, 0);
    assert_eq!(started, Some(request("a", 1)));
    assert_eq!(wrapper.resource(&cache), ResourceState::Pending);
    assert!(wrapper.complete(&mut cache, request("a", 1), Ok(5), 1));
    assert_eq!(wrapper.resource(&cache), ResourceState::Ready(&Ok(5)));
    let (again, started) = WrapperLocalResource::<u8>::new(options, key("a"), &mut cache, &mut count, 11);
    assert_eq!(started, None);
    assert_eq!(count, 1);
    assert_eq!(again.resource(&cache), ResourceState::Ready(&Ok(5)));
    let (_, started) = WrapperLocalResource::<u8>::new(options, key("a"), &mut cache, &mut count, 12);
    assert_eq!(started, Some(request("a", 2)));
}

#[test]
fn two_wrappers_on_one_cache_fetch_a_key_once() {
    let mut cache: QueryCache<Result<u8, ClientError>> = QueryCache::new();
    let mut count = 0;
    let (first, started) =
        WrapperLocalResource::<u8>::new(CacheOptions::new(), key("k"), &mut cache, &mut count, 0);
    let (second, joined) =
        WrapperLocalResource::<u8>::new(CacheOptions::new(), key("k"), &mut cache, &mut count, 5);
    assert_eq!(started, Some(request("k", 1)));
    assert_eq!(joined, None);
    assert_eq!(count, 1);
    assert_eq!(first.resource(&cache), ResourceState::Pending);
    assert_eq!(second.resource(&cache), ResourceState::Pending);
    assert_eq!(second.pending(&cache), Some(request("k", 1)));
    assert!(first.complete(&mut cache, request("k", 1), Ok(7), 9));
    assert_eq!(first.resource(&cache), ResourceState::Ready(&Ok(7)));
    assert_eq!(second.resource(&cache), ResourceState::Ready(&Ok(7)));
    assert_eq!(count, 1);
}

#[test]
fn two_wrappers_on_different_keys_fetch_each() {
    let mut cache: QueryCache<Result<u8, ClientError>> = QueryCache::new();
    let mut count = 0;
    let (_, first) =
        WrapperLocalResource::<u8>::new(CacheOptions::new(), key("a"), &mut cache, &mut count, 0);
    let (_, second) =
        WrapperLocalResource::<u8>::new(CacheOptions::new(), key("b"), &mut cache, &mut count, 0);
    assert_eq!(first, Some(request("a", 1)));
    assert_eq!(second, Some(request("b", 2)));
    assert_eq!(count, 2);
}

#[test]
fn a_wrapper_shows_an_error_that_came_back() {
    let mut cache: QueryCache<Result<u8, ClientError>> = QueryCache::new();
    let mut count = 0;
    let (wrapper, _) = WrapperLocalResource::new(CacheOptions::new(), key("a"), &mut cache, &mut count, 0);
    assert!(wrapper.complete(&mut cache, request("a", 1), Err(ClientError::NotFound), 1));
    assert_eq!(wrapper.resource(&cache), ResourceState::Ready(&Err(ClientError::NotFound)));
}

#[test]
fn a_forced_refetch_of_the_wrapper_counts_once() {
    let mut cache: QueryCache<Result<u8, ClientError>> = QueryCache::new();
    let mut count = 0;
    let (mut wrapper, _) = WrapperLocalResource::new(CacheOptions::new(), key("a"), &mut cache, &mut count, 0);
    assert!(wrapper.complete(&mut cache, request("a", 1), Ok(5), 1));
    let forced = wrapper.force_refetch(&mut cache, &mut count);
    assert_eq!(forced, request("a", 2));
    assert_eq!(count, 2);
    assert_eq!(wrapper.pending(&cache), Some(forced));
    assert!(cache.get(&key("a")).expect("kept").invalidated);
}

#[test]
fn a_forced_refetch_works_on_the_key_of_the_moment() {
    let mut cache: QueryCache<Result<u8, ClientError>> = QueryCache::new();
    let mut count = 0;
    let (mut wrapper, _) = WrapperLocalResource::new(CacheOptions::new(), key("a"), &mut cache, &mut count, 0);
    assert!(wrapper.complete(&mut cache, request("a", 1), Ok(5), 1));
    let started = wrapper.track(&mut cache, &mut count, key("b"), 2).expect("nothing cached for b");
    assert!(wrapper.complete(&mut cache, started, Ok(6), 3));
    assert_eq!(wrapper.key(), "b");
    let forced = wrapper.force_refetch(&mut cache, &mut count);
    assert_eq!(forced.key, "b");
    assert!(cache.get(&key("b")).expect("kept").invalidated);
    assert!(!cache.get(&key("a")).expect("kept").invalidated);
}

#[test]
fn tracking_the_same_key_under_the_defaults_never_fetches_again() {
    let mut cache: QueryCache<Result<u8, ClientError>> = QueryCache::new();
    let mut count = 0;
    let (mut wrapper, _) = WrapperLocalResource::new(CacheOptions::new(), key("a"), &mut cache, &mut count, 0);
    assert!(wrapper.complete(&mut cache, request("a", 1), Ok(5), 1));
    assert_eq!(wrapper.track(&mut cache, &mut count, key("a"), u64::MAX), None);
    assert_eq!(count, 1);
}

#[test]
fn data_resource_uses_the_default_policy() {
    let mut cache: QueryCache<Result<ApiData, ClientError>> = QueryCache::new();
    let mut count = 0;
    let (wrapper, started) = data_resource(key("initial_id"), &mut cache, &mut count, 0);
    assert_eq!(started, Some(request("initial_id", 1)));
    assert!(resolve_leptos_fetch_v2(&mut cache, &key("initial_id"), 10));
    assert!(!resolve_leptos_fetch_v2(&mut cache, &key("initial_id"), 11));
    assert_eq!(cache.get(&key("initial_id")).expect("stored").updated_at, 10);
    let (_, started) = data_resource(key("initial_id"), &mut cache, &mut count, u64::MAX);
    assert_eq!(started, None);
    assert_eq!(count, 1);
    assert_eq!(render_result(wrapper.resource(&cache)), shown("initial_id"));
}

#[test]
fn the_wrapped_panel_mounts_like_the_data_resource() {
    let mut cache: QueryCache<Result<ApiData, ClientError>> = QueryCache::new();
    let mut count = 4;
    let (panel, started) = FetchByLeptosFetchV2(key("third_id"), &mut cache, &mut count, 0);
    assert_eq!(started, Some(request("third_id", 5)));
    assert_eq!(render_result(panel.resource(&cache)), PanelView::Loading);
    assert!(!resolve_leptos_fetch_v2(&mut cache, &key("second_id"), 1));
    assert!(resolve_leptos_fetch_v2(&mut cache, &key("third_id"), 1));
    assert_eq!(render_result(panel.resource(&cache)), shown("third_id"));
}

#[test]
fn the_cache_backed_panel_is_fresh_for_one_minute() {
    let mut cache: QueryCache<ApiData> = QueryCache::new();
    let mut count = 0;
    let (mut panel, started) = FetchByLeptosFetch(key("initial_id"), &mut count, &mut cache, 0);
    assert_eq!(started, Some(request("initial_id", 1)));
    assert_eq!(render_data(panel.value(&cache)), PanelView::Loading);
    assert!(resolve_leptos_fetch(&mut cache, &key("initial_id"), 1_000));
    assert_eq!(render_data(panel.value(&cache)), shown("initial_id"));
    assert_eq!(panel.refetch(&mut cache, &mut count, 60_999), None);
    assert_eq!(panel.refetch(&mut cache, &mut count, 61_000), Some(request("initial_id", 2)));
    assert_eq!(render_data(panel.value(&cache)), shown("initial_id"));
}

#[test]
fn rendering_tells_pending_success_and_error_apart() {
    let data = get_api_data(key("second_id"));
    assert_eq!(render_data(ResourceState::Pending), PanelView::Loading);
    assert_eq!(render_data(ResourceState::Ready(&data)), shown("second_id"));
    assert_eq!(render_result(ResourceState::Pending), PanelView::Loading);
    assert_eq!(render_result(ResourceState::Ready(&Ok(data))), shown("second_id"));
    assert_eq!(render_result(ResourceState::Ready(&Err(ClientError::NotFound))), PanelView::Error);
    assert_eq!(
        render_result(ResourceState::Ready(&Err(ClientError::InternalError))),
        PanelView::Error
    );
}
