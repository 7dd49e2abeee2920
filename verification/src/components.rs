//! The three fetch panels: what each does when it is mounted, and how each
//! renders what its resource shows.

mod fetch_by_leptos_fetch;
mod fetch_by_local_resource;
mod render;

pub use fetch_by_leptos_fetch::{
    panel_options, resolve_leptos_fetch, resolve_leptos_fetch_v2, spec_panel_options,
    FetchByLeptosFetch, FetchByLeptosFetchV2,
};
pub use fetch_by_local_resource::{
    lemma_local_count_follows_runs, lemma_local_run_supersedes, local_state,
    resolve_local_resource, FetchByLocalResource, LocalEvent, LocalResource, LocalResourceView,
    LocalState,
};
pub use render::{
    data_view, render_data, render_result, rendered_data, rendered_result, PanelView, PanelViewSpec,
};
