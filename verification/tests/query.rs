use leptos_fetch_demo::cache::QueryCache;
use leptos_fetch_demo::options::CacheOptions;
use leptos_fetch_demo::query::{count_fetch, FetchRequest, QueryResource, ResourceState};

fn key(text: &str) -> String {
    text.to_string()
}

fn request(text: &str, ticket: u32) -> FetchRequest {
    FetchRequest { key: key(text), ticket }
}

fn minute() -> CacheOptions {
    CacheOptions::new().with_stale_time(60_000)
}

#[test]
fn a_new_resource_on_an_empty_cache_fetches() {
    let mut cache: QueryCache<u32> = QueryCache::new();
    let mut count = 0;
    let (resource, started) = QueryResource::new(minute(), key("a"), &mut cache, &mut count, 5);
    assert_eq!(count, 1);
    assert_eq!(started, Some(request("a", 1)));
    assert_eq!(resource.key(), "a");
    assert_eq!(resource.pending(&cache), Some(request("a", 1)));
    assert_eq!(cache.fetching_ticket(&key("a")), Some(1));
    assert_eq!(resource.options(), minute());
    assert_eq!(resource.value(&cache), ResourceState::Pending);
}

#[test]
fn a_new_resource_on_a_fresh_value_does_not_fetch() {
    let mut cache: QueryCache<u32> = QueryCache::new();
    cache.insert(key("a"), 7, 0);
    let mut count = 3;
    let (resource, started) = QueryResource::new(minute(), key("a"), &mut cache, &mut count, 60_000);
    assert_eq!(count, 3);
    assert_eq!(started, None);
    assert_eq!(resource.pending(&cache), None);
    assert_eq!(resource.value(&cache), ResourceState::Ready(&7));
}

#[test]
fn a_new_resource_on_a_stale_value_shows_it_and_fetches() {
    let mut cache: QueryCache<u32> = QueryCache::new();
    cache.insert(key("a"), 7, 0);
    let mut count = 3;
    let (resource, started) = QueryResource::new(minute(), key("a"), &mut cache, &mut count, 60_001);
    assert_eq!(count, 4);
    assert_eq!(started, Some(request("a", 4)));
    assert_eq!(resource.value(&cache), ResourceState::Ready(&7));
}

#[test]
fn two_resources_on_one_cache_share_a_fetch() {
    let mut cache: QueryCache<u32> = QueryCache::new();
    let mut count = 0;
    let (first, started) = QueryResource::new(minute(), key("a"), &mut cache, &mut count, 0);
    let (second, joined) = QueryResource::new(minute(), key("a"), &mut cache, &mut count, 1);
    assert_eq!(started, Some(request("a", 1)));
    assert_eq!(joined, None);
    assert_eq!(count, 1);
    assert_eq!(first.pending(&cache), Some(request("a", 1)));
    assert_eq!(second.pending(&cache), Some(request("a", 1)));
    assert!(second.complete(&mut cache, request("a", 1), 42, 2));
    assert_eq!(first.value(&cache), ResourceState::Ready(&42));
    assert_eq!(second.value(&cache), ResourceState::Ready(&42));
    assert_eq!(first.pending(&cache), None);
    assert_eq!(second.pending(&cache), None);
}

#[test]
fn a_read_by_another_resource_joins_a_forced_refetch() {
    let mut cache: QueryCache<u32> = QueryCache::new();
    cache.insert(key("a"), 7, 0);
    let mut count = 0;
    let (mut first, _) = QueryResource::new(minute(), key("a"), &mut cache, &mut count, 0);
    let forced = first.force_refetch(&mut cache, &mut count);
    let (second, joined) = QueryResource::new(minute(), key("a"), &mut cache, &mut count, 1);
    assert_eq!(forced, request("a", 1));
    assert_eq!(joined, None);
    assert_eq!(count, 1);
    assert_eq!(second.value(&cache), ResourceState::Ready(&7));
}

#[test]
fn complete_stores_the_value_and_ends_the_wait() {
    let mut cache: QueryCache<u32> = QueryCache::new();
    let mut count = 0;
    let (resource, started) = QueryResource::new(minute(), key("a"), &mut cache, &mut count, 5);
    let started = started.expect("nothing cached");
    assert!(resource.complete(&mut cache, started, 42, 9));
    assert_eq!(resource.pending(&cache), None);
    assert_eq!(resource.value(&cache), ResourceState::Ready(&42));
    let cached = cache.get(&key("a")).expect("stored");
    assert_eq!(cached.updated_at, 9);
    assert!(!cached.invalidated);
    assert_eq!(count, 1);
}

#[test]
fn complete_under_another_ticket_or_key_changes_nothing() {
    let mut cache: QueryCache<u32> = QueryCache::new();
    let mut count = 0;
    let (resource, _) = QueryResource::new(minute(), key("a"), &mut cache, &mut count, 5);
    assert!(!resource.complete(&mut cache, request("a", 2), 42, 9));
    assert!(!resource.complete(&mut cache, request("b", 1), 42, 9));
    assert_eq!(resource.pending(&cache), Some(request("a", 1)));
    assert!(!cache.contains_key(&key("a")));
    assert!(!cache.contains_key(&key("b")));
    assert!(resource.complete(&mut cache, request("a", 1), 43, 10));
    assert!(!resource.complete(&mut cache, request("a", 1), 44, 11));
    assert_eq!(resource.value(&cache), ResourceState::Ready(&43));
}

#[test]
fn refetch_within_the_stale_time_is_served_from_the_cache() {
    let mut cache: QueryCache<u32> = QueryCache::new();
    let mut count = 0;
    let (mut resource, _) = QueryResource::new(minute(), key("a"), &mut cache, &mut count, 0);
    assert!(resource.complete(&mut cache, request("a", 1), 42, 100));
    assert_eq!(resource.refetch(&mut cache, &mut count, 200), None);
    assert_eq!(resource.refetch(&mut cache, &mut count, 60_100), None);
    assert_eq!(count, 1);
    assert_eq!(resource.refetch(&mut cache, &mut count, 60_101), Some(request("a", 2)));
    assert_eq!(count, 2);
}

#[test]
fn a_read_joins_the_fetch_that_is_under_way() {
    let mut cache: QueryCache<u32> = QueryCache::new();
    let mut count = 0;
    let (mut resource, _) = QueryResource::new(minute(), key("a"), &mut cache, &mut count, 0);
    assert_eq!(resource.refetch(&mut cache, &mut count, 1), None);
    assert_eq!(resource.read(&mut cache, &mut count, key("a"), 2), None);
    assert_eq!(count, 1);
    assert_eq!(resource.pending(&cache), Some(request("a", 1)));
}

#[test]
fn a_result_is_stored_under_the_key_of_its_request() {
    let mut cache: QueryCache<u32> = QueryCache::new();
    let mut count = 0;
    let (mut resource, _) = QueryResource::new(minute(), key("a"), &mut cache, &mut count, 0);
    let started = resource.read(&mut cache, &mut count, key("b"), 1);
    assert_eq!(started, Some(request("b", 2)));
    assert_eq!(resource.key(), "b");
    assert_eq!(cache.fetching_ticket(&key("a")), Some(1));
    assert!(resource.complete(&mut cache, request("a", 1), 10, 2));
    assert_eq!(cache.get(&key("a")).expect("stored under its own key").value, 10);
    assert!(!cache.contains_key(&key("b")));
    assert_eq!(resource.value(&cache), ResourceState::Pending);
    assert!(resource.complete(&mut cache, request("b", 2), 20, 3));
    assert_eq!(resource.value(&cache), ResourceState::Ready(&20));
    assert_eq!(resource.read(&mut cache, &mut count, key("a"), 4), None);
    assert_eq!(resource.value(&cache), ResourceState::Ready(&10));
    assert_eq!(count, 2);
}

#[test]
fn going_back_to_a_key_joins_the_fetch_left_behind() {
    let mut cache: QueryCache<u32> = QueryCache::new();
    let mut count = 0;
    let (mut resource, _) = QueryResource::new(minute(), key("a"), &mut cache, &mut count, 0);
    assert_eq!(resource.read(&mut cache, &mut count, key("b"), 1), Some(request("b", 2)));
    assert_eq!(resource.read(&mut cache, &mut count, key("a"), 2), None);
    assert_eq!(resource.pending(&cache), Some(request("a", 1)));
    assert_eq!(count, 2);
}

#[test]
fn a_change_to_a_key_with_a_fresh_value_fetches_nothing() {
    let mut cache: QueryCache<u32> = QueryCache::new();
    cache.insert(key("b"), 8, 0);
    let mut count = 0;
    let (mut resource, _) = QueryResource::new(minute(), key("a"), &mut cache, &mut count, 0);
    assert_eq!(resource.read(&mut cache, &mut count, key("b"), 1), None);
    assert_eq!(count, 1);
    assert_eq!(resource.pending(&cache), None);
    assert_eq!(resource.value(&cache), ResourceState::Ready(&8));
}

#[test]
fn force_refetch_counts_once_whatever_the_cache_holds() {
    let mut cache: QueryCache<u32> = QueryCache::new();
    let mut count = 0;
    let (mut resource, _) = QueryResource::new(minute(), key("a"), &mut cache, &mut count, 0);
    let forced = resource.force_refetch(&mut cache, &mut count);
    assert_eq!(forced, request("a", 2));
    assert_eq!(count, 2);
    assert!(!resource.complete(&mut cache, request("a", 1), 10, 1));
    assert!(resource.complete(&mut cache, request("a", 2), 20, 2));
    let forced = resource.force_refetch(&mut cache, &mut count);
    assert_eq!(forced, request("a", 3));
    assert_eq!(count, 3);
    let cached = cache.get(&key("a")).expect("kept while the fetch is under way");
    assert!(cached.invalidated);
    assert_eq!(cached.value, 20);
    assert_eq!(resource.value(&cache), ResourceState::Ready(&20));
    assert!(resource.complete(&mut cache, request("a", 3), 30, 4));
    assert!(!cache.get(&key("a")).expect("stored").invalidated);
    assert_eq!(resource.value(&cache), ResourceState::Ready(&30));
}

#[test]
fn force_refetch_invalidates_the_key_shown_at_that_moment() {
    let mut cache: QueryCache<u32> = QueryCache::new();
    cache.insert(key("a"), 1, 0);
    cache.insert(key("b"), 2, 0);
    let mut count = 0;
    let (mut resource, _) = QueryResource::new(minute(), key("a"), &mut cache, &mut count, 0);
    assert_eq!(resource.read(&mut cache, &mut count, key("b"), 1), None);
    let forced = resource.force_refetch(&mut cache, &mut count);
    assert_eq!(forced.key, "b");
    assert!(cache.get(&key("b")).expect("kept").invalidated);
    assert!(!cache.get(&key("a")).expect("kept").invalidated);
}

#[test]
fn the_counter_follows_the_fetches_of_a_sequence_of_key_changes() {
    let mut cache: QueryCache<u32> = QueryCache::new();
    let mut count = 0;
    let mut started = 0;
    let (mut resource, first) = QueryResource::new(minute(), key("a"), &mut cache, &mut count, 0);
    let mut now = 0;
    let mut pending = first;
    for next in ["b", "a", "b", "c", "a", "c", "c"] {
        if let Some(under_way) = pending.take() {
            started += 1;
            assert!(resource.complete(&mut cache, under_way, 0, now));
        }
        now += 1_000;
        pending = resource.read(&mut cache, &mut count, key(next), now);
    }
    if pending.is_some() {
        started += 1;
    }
    assert_eq!(count, started);
    assert_eq!(count, 3);
}

#[test]
fn count_fetch_adds_one() {
    assert_eq!(count_fetch(0), 1);
    assert_eq!(count_fetch(41), 42);
    assert_eq!(count_fetch(u32::MAX - 1), u32::MAX);
}

#[test]
fn tickets_rise_with_every_fetch() {
    let mut cache: QueryCache<u32> = QueryCache::new();
    let mut count = 0;
    let (mut resource, first) = QueryResource::new(minute(), key("a"), &mut cache, &mut count, 0);
    let second = resource.force_refetch(&mut cache, &mut count);
    let third = resource.force_refetch(&mut cache, &mut count);
    let first = first.expect("nothing cached");
    assert!(first.ticket < second.ticket && second.ticket < third.ticket);
    assert!(!resource.complete(&mut cache, first, 1, 1));
    assert!(!resource.complete(&mut cache, second, 2, 2));
    assert!(resource.complete(&mut cache, third, 3, 3));
    assert_eq!(resource.value(&cache), ResourceState::Ready(&3));
}
