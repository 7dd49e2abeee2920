use leptos_fetch_demo::components::PanelView;
use leptos_fetch_demo::example_app;
use leptos_fetch_demo::query::FetchRequest;
use leptos_fetch_demo::shell::{
    total_fetch_count, use_count_for_fetch, AppShell, Panel, PanelRequests,
};

const PANELS: [Panel; 3] = [Panel::LocalResource, Panel::LeptosFetch, Panel::LeptosFetchV2];

fn shown(id: &str) -> Option<PanelView> {
    Some(PanelView::Data { id: id.to_string(), name: format!("Name for {}", id) })
}

fn request(id: &str, ticket: u32) -> Option<FetchRequest> {
    Some(FetchRequest { key: id.to_string(), ticket })
}

#[test]
fn the_application_starts_with_nothing_mounted() {
    let shell = example_app();
    assert_eq!(shell.selected_id(), "initial_id");
    assert_eq!(shell.total_count(), 0);
    for panel in PANELS {
        assert!(!shell.is_mounted(panel));
        assert!(!shell.is_fetching(panel));
        assert_eq!(shell.fetch_count(panel), 0);
        assert_eq!(shell.render(panel), None);
    }
    assert_eq!(use_count_for_fetch(), (false, 0));
}

#[test]
fn plain_panel_fetches_on_mount_refetch_and_key_change() {
    let mut shell = example_app();
    assert_eq!(shell.toggle_mount(Panel::LocalResource, 0), request("initial_id", 1));
    assert_eq!(shell.render(Panel::LocalResource), Some(PanelView::Loading));
    shell.settle(1);
    assert_eq!(shell.render(Panel::LocalResource), shown("initial_id"));
    assert_eq!(shell.fetch_count(Panel::LocalResource), 1);

    assert_eq!(shell.refetch(Panel::LocalResource, 2), request("initial_id", 2));
    shell.settle(3);
    assert_eq!(shell.fetch_count(Panel::LocalResource), 2);
    assert_eq!(shell.render(Panel::LocalResource), shown("initial_id"));

    let requests = shell.select_id("second_id".to_string(), 4);
    assert_eq!(
        requests,
        PanelRequests {
            local_resource: request("second_id", 3),
            leptos_fetch: None,
            leptos_fetch_v2: None,
        }
    );
    shell.settle(5);
    assert_eq!(shell.fetch_count(Panel::LocalResource), 3);
    assert_eq!(shell.render(Panel::LocalResource), shown("second_id"));
    assert_eq!(shell.total_count(), 3);
}

#[test]
fn cached_panel_refetch_hits_the_cache_and_force_refetch_does_not() {
    let mut shell = example_app();
    assert_eq!(shell.toggle_mount(Panel::LeptosFetch, 0), request("initial_id", 1));
    assert!(shell.resolve(Panel::LeptosFetch, 100));
    assert_eq!(shell.refetch(Panel::LeptosFetch, 1_000), None);
    assert_eq!(shell.refetch(Panel::LeptosFetch, 2_000), None);
    assert_eq!(shell.fetch_count(Panel::LeptosFetch), 1);
    assert_eq!(shell.force_refetch(Panel::LeptosFetch), request("initial_id", 2));
    assert_eq!(shell.fetch_count(Panel::LeptosFetch), 2);
    assert_eq!(shell.render(Panel::LeptosFetch), shown("initial_id"));
    assert!(shell.resolve(Panel::LeptosFetch, 3_000));
    assert_eq!(shell.refetch(Panel::LeptosFetch, 4_000), None);
    assert_eq!(shell.fetch_count(Panel::LeptosFetch), 2);
}

#[test]
fn wrapped_panel_force_refetch_counts_once_each_time() {
    let mut shell = example_app();
    assert_eq!(shell.toggle_mount(Panel::LeptosFetchV2, 0), request("initial_id", 1));
    assert_eq!(shell.force_refetch(Panel::LeptosFetchV2), request("initial_id", 2));
    shell.settle(10);
    assert_eq!(shell.force_refetch(Panel::LeptosFetchV2), request("initial_id", 3));
    assert_eq!(shell.force_refetch(Panel::LeptosFetchV2), request("initial_id", 4));
    assert_eq!(shell.fetch_count(Panel::LeptosFetchV2), 4);
    assert_eq!(shell.fetch_count(Panel::LeptosFetch), 0);
    assert_eq!(shell.fetch_count(Panel::LocalResource), 0);
    assert_eq!(shell.total_count(), 4);
}

#[test]
fn buttons_that_a_panel_lacks_do_nothing() {
    let mut shell = example_app();
    for panel in PANELS {
        shell.toggle_mount(panel, 0);
    }
    shell.settle(1);
    assert_eq!(shell.refetch(Panel::LeptosFetchV2, 2), None);
    assert_eq!(shell.force_refetch(Panel::LocalResource), None);
    assert_eq!(shell.total_count(), 3);
    for panel in PANELS {
        assert!(!shell.is_fetching(panel));
    }
}

#[test]
fn buttons_of_an_unmounted_panel_do_nothing() {
    let mut shell = example_app();
    for panel in PANELS {
        assert_eq!(shell.refetch(panel, 0), None);
        assert_eq!(shell.force_refetch(panel), None);
        assert!(!shell.resolve(panel, 0));
        assert!(!shell.is_mounted(panel));
    }
    assert_eq!(shell.total_count(), 0);
}

#[test]
fn remounting_the_plain_panel_always_fetches() {
    let mut shell = example_app();
    shell.toggle_mount(Panel::LocalResource, 0);
    shell.settle(1);
    assert_eq!(shell.toggle_mount(Panel::LocalResource, 2), None);
    assert!(!shell.is_mounted(Panel::LocalResource));
    assert_eq!(shell.fetch_count(Panel::LocalResource), 1);
    assert_eq!(shell.toggle_mount(Panel::LocalResource, 3), request("initial_id", 2));
    assert_eq!(shell.fetch_count(Panel::LocalResource), 2);
}

#[test]
fn remounting_a_cached_panel_reuses_a_fresh_value() {
    let mut shell = example_app();
    shell.toggle_mount(Panel::LeptosFetch, 0);
    shell.toggle_mount(Panel::LeptosFetchV2, 0);
    shell.settle(1_000);
    shell.toggle_mount(Panel::LeptosFetch, 2_000);
    shell.toggle_mount(Panel::LeptosFetchV2, 2_000);
    assert_eq!(shell.render(Panel::LeptosFetch), None);
    assert_eq!(shell.toggle_mount(Panel::LeptosFetch, 60_999), None);
    assert_eq!(shell.toggle_mount(Panel::LeptosFetchV2, 60_999), None);
    assert_eq!(shell.fetch_count(Panel::LeptosFetch), 1);
    assert_eq!(shell.fetch_count(Panel::LeptosFetchV2), 1);
    assert_eq!(shell.render(Panel::LeptosFetch), shown("initial_id"));
    assert_eq!(shell.render(Panel::LeptosFetchV2), shown("initial_id"));
}

#[test]
fn remounting_a_cached_panel_on_a_stale_value_fetches() {
    let mut shell = example_app();
    shell.toggle_mount(Panel::LeptosFetch, 0);
    shell.settle(1_000);
    shell.toggle_mount(Panel::LeptosFetch, 2_000);
    assert_eq!(shell.toggle_mount(Panel::LeptosFetch, 61_000), request("initial_id", 2));
    assert_eq!(shell.render(Panel::LeptosFetch), shown("initial_id"));
    assert_eq!(shell.fetch_count(Panel::LeptosFetch), 2);
}

#[test]
fn unmounting_the_plain_panel_gives_up_its_fetch() {
    let mut shell = example_app();
    shell.toggle_mount(Panel::LocalResource, 0);
    assert!(shell.is_fetching(Panel::LocalResource));
    shell.toggle_mount(Panel::LocalResource, 1);
    assert!(!shell.is_fetching(Panel::LocalResource));
    assert!(!shell.resolve(Panel::LocalResource, 2));
    assert_eq!(shell.toggle_mount(Panel::LocalResource, 3), request("initial_id", 2));
}

#[test]
fn a_fetch_under_way_outlives_a_cached_panel() {
    for panel in [Panel::LeptosFetch, Panel::LeptosFetchV2] {
        let mut shell = example_app();
        assert_eq!(shell.toggle_mount(panel, 0), request("initial_id", 1));
        assert!(shell.is_fetching(panel));
        assert_eq!(shell.toggle_mount(panel, 1), None);
        assert!(shell.is_fetching(panel));
        assert_eq!(shell.render(panel), None);
        assert_eq!(shell.toggle_mount(panel, 2), None);
        assert_eq!(shell.fetch_count(panel), 1);
        assert_eq!(shell.render(panel), Some(PanelView::Loading));
        assert!(shell.resolve(panel, 3));
        assert!(!shell.is_fetching(panel));
        assert_eq!(shell.render(panel), shown("initial_id"));
        assert_eq!(shell.fetch_count(panel), 1);
    }
}

#[test]
fn a_result_that_comes_back_to_an_unmounted_panel_is_kept_for_it() {
    for panel in [Panel::LeptosFetch, Panel::LeptosFetchV2] {
        let mut shell = example_app();
        shell.toggle_mount(panel, 0);
        shell.toggle_mount(panel, 1);
        assert!(shell.resolve(panel, 2));
        assert_eq!(shell.render(panel), None);
        assert_eq!(shell.toggle_mount(panel, 3), None);
        assert_eq!(shell.render(panel), shown("initial_id"));
        assert_eq!(shell.fetch_count(panel), 1);
    }
}

#[test]
fn a_fetch_for_a_key_left_behind_stays_under_way() {
    let mut shell = example_app();
    shell.toggle_mount(Panel::LeptosFetch, 0);
    let requests = shell.select_id("second_id".to_string(), 1);
    assert_eq!(requests.leptos_fetch, request("second_id", 2));
    shell.settle(2);
    assert_eq!(shell.render(Panel::LeptosFetch), shown("second_id"));
    let requests = shell.select_id("initial_id".to_string(), 3);
    assert_eq!(requests.leptos_fetch, None);
    assert!(shell.is_fetching(Panel::LeptosFetch));
    assert_eq!(shell.render(Panel::LeptosFetch), Some(PanelView::Loading));
    shell.settle(4);
    assert_eq!(shell.render(Panel::LeptosFetch), shown("initial_id"));
    assert_eq!(shell.fetch_count(Panel::LeptosFetch), 2);
}

#[test]
fn a_key_change_reaches_the_mounted_panels_only() {
    let mut shell = example_app();
    shell.toggle_mount(Panel::LocalResource, 0);
    shell.toggle_mount(Panel::LeptosFetch, 0);
    shell.settle(1);
    let requests = shell.select_id("second_id".to_string(), 2);
    assert_eq!(
        requests,
        PanelRequests {
            local_resource: request("second_id", 2),
            leptos_fetch: request("second_id", 2),
            leptos_fetch_v2: None,
        }
    );
    assert_eq!(shell.selected_id(), "second_id");
    assert_eq!(shell.render(Panel::LocalResource), Some(PanelView::Loading));
    assert_eq!(shell.render(Panel::LeptosFetch), Some(PanelView::Loading));
    assert_eq!(shell.render(Panel::LeptosFetchV2), None);
    assert_eq!(shell.fetch_count(Panel::LeptosFetchV2), 0);
    shell.settle(3);
    assert_eq!(shell.render(Panel::LocalResource), shown("second_id"));
    assert_eq!(shell.render(Panel::LeptosFetch), shown("second_id"));
    assert_eq!(shell.toggle_mount(Panel::LeptosFetchV2, 4), request("second_id", 1));
    shell.settle(5);
    assert_eq!(shell.render(Panel::LeptosFetchV2), shown("second_id"));
}

#[test]
fn going_back_to_a_key_within_the_stale_time_costs_nothing() {
    let mut shell = example_app();
    shell.toggle_mount(Panel::LocalResource, 0);
    shell.toggle_mount(Panel::LeptosFetch, 0);
    shell.toggle_mount(Panel::LeptosFetchV2, 0);
    shell.settle(0);
    shell.select_id("second_id".to_string(), 1_000);
    shell.settle(1_000);
    let requests = shell.select_id("initial_id".to_string(), 2_000);
    assert_eq!(
        requests,
        PanelRequests {
            local_resource: request("initial_id", 3),
            leptos_fetch: None,
            leptos_fetch_v2: None,
        }
    );
    assert_eq!(shell.render(Panel::LeptosFetch), shown("initial_id"));
    assert_eq!(shell.render(Panel::LeptosFetchV2), shown("initial_id"));
    assert_eq!(shell.fetch_count(Panel::LocalResource), 3);
    assert_eq!(shell.fetch_count(Panel::LeptosFetch), 2);
    assert_eq!(shell.fetch_count(Panel::LeptosFetchV2), 2);
    assert_eq!(shell.total_count(), 7);
}

#[test]
fn the_clock_refetches_in_the_background_once_the_interval_is_over() {
    let mut shell = example_app();
    shell.toggle_mount(Panel::LeptosFetch, 0);
    shell.toggle_mount(Panel::LeptosFetchV2, 0);
    shell.settle(0);
    let quiet = PanelRequests { local_resource: None, leptos_fetch: None, leptos_fetch_v2: None };
    assert_eq!(shell.tick(59_999), quiet);
    let requests = shell.tick(60_000);
    assert_eq!(
        requests,
        PanelRequests {
            local_resource: None,
            leptos_fetch: request("initial_id", 2),
            leptos_fetch_v2: None,
        }
    );
    assert_eq!(shell.render(Panel::LeptosFetch), shown("initial_id"));
    assert_eq!(shell.tick(60_001), quiet);
    shell.settle(60_002);
    assert_eq!(shell.tick(120_001), quiet);
    assert_eq!(shell.fetch_count(Panel::LeptosFetch), 2);
    assert_eq!(shell.fetch_count(Panel::LeptosFetchV2), 1);
}

#[test]
fn the_clock_drops_unused_values_that_have_expired() {
    let mut shell = example_app();
    shell.toggle_mount(Panel::LeptosFetchV2, 0);
    shell.settle(0);
    shell.select_id("second_id".to_string(), 1_000);
    shell.settle(1_000);
    shell.tick(300_000);
    assert_eq!(shell.select_id("initial_id".to_string(), 300_001).leptos_fetch_v2, request("initial_id", 3));
    shell.settle(300_001);
    shell.tick(300_999);
    assert_eq!(shell.select_id("second_id".to_string(), 300_999).leptos_fetch_v2, None);
    assert_eq!(shell.fetch_count(Panel::LeptosFetchV2), 3);
}

#[test]
fn the_clock_spares_the_value_of_a_mounted_panel() {
    let mut shell = example_app();
    shell.toggle_mount(Panel::LeptosFetchV2, 0);
    shell.settle(0);
    assert_eq!(shell.tick(u64::MAX).leptos_fetch_v2, None);
    assert_eq!(shell.render(Panel::LeptosFetchV2), shown("initial_id"));
    assert_eq!(shell.fetch_count(Panel::LeptosFetchV2), 1);
}

#[test]
fn settling_twice_changes_nothing_more() {
    let mut shell = AppShell::new();
    for panel in PANELS {
        shell.toggle_mount(panel, 0);
    }
    shell.settle(1);
    let total = shell.total_count();
    shell.settle(2);
    assert_eq!(shell.total_count(), total);
    for panel in PANELS {
        assert!(!shell.resolve(panel, 3));
        assert_eq!(shell.render(panel), shown("initial_id"));
    }
}

#[test]
fn the_total_is_the_sum_of_the_three_counters() {
    assert_eq!(total_fetch_count(0, 0, 0), 0);
    assert_eq!(total_fetch_count(1, 2, 3), 6);
    assert_eq!(total_fetch_count(u32::MAX, u32::MAX, u32::MAX), 3 * (u32::MAX as u64));
}
