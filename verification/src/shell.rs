//! The application shell: the key that all panels share, the three panels
//! with their mount state, the counters of their fetches, and the caches
//! that outlive a panel.
//!
//! The shell owns the counters and the caches, so that both survive when a
//! panel is unmounted and mounted again. A fetch that a cache-backed panel
//! has started is under way on its cache, so it too outlives the panel: an
//! unmounted panel displays nothing, but the result is stored when it comes
//! back, and a panel mounted in the meantime joins the fetch. Every
//! operation is one event of the user interface or of the clock; the time
//! is handed in.

use crate::api::{api_data_for, ApiData, ClientError};
use crate::cache::{collected, holds_fresh, stored, Cached, QueryCache};
use crate::components::{
    data_view, panel_options, render_data, render_result, rendered_data, rendered_result,
    resolve_leptos_fetch, resolve_leptos_fetch_v2, resolve_local_resource, FetchByLeptosFetch,
    FetchByLeptosFetchV2, FetchByLocalResource, LocalEvent, LocalResource, LocalResourceView,
    LocalState, PanelView, PanelViewSpec,
};
use crate::options::CacheOptions;
use crate::query::{
    request_view, FetchRequest, FetchRequestView, QueryEvent, QueryResource, QueryResourceView,
    QueryState,
};
use crate::resource::WrapperLocalResource;
use vstd::prelude::*;

verus! {

/// The three panels.
#[derive(Clone, Copy, Debug, PartialEq, Eq, Structural)]
pub enum Panel {
    /// The panel that fetches through a plain resource, without a cache.
    LocalResource,
    /// The panel that fetches through the cache.
    LeptosFetch,
    /// The panel that fetches through the wrapped cache-backed resource.
    LeptosFetchV2,
}

/// The fetches that one event has started, by panel.
#[derive(Debug, PartialEq, Eq)]
pub struct PanelRequests {
    pub local_resource: Option<FetchRequest>,
    pub leptos_fetch: Option<FetchRequest>,
    pub leptos_fetch_v2: Option<FetchRequest>,
}

/// `PanelRequests` over views.
pub struct PanelRequestsView {
    pub local_resource: Option<FetchRequestView>,
    pub leptos_fetch: Option<FetchRequestView>,
    pub leptos_fetch_v2: Option<FetchRequestView>,
}

impl PanelRequestsView {
    /// The request of `panel`, if it has one.
    pub open spec fn of(self, panel: Panel) -> Option<FetchRequestView> {
        match panel {
            Panel::LocalResource => self.local_resource,
            Panel::LeptosFetch => self.leptos_fetch,
            Panel::LeptosFetchV2 => self.leptos_fetch_v2,
        }
    }
}

impl View for PanelRequests {
    type V = PanelRequestsView;

    open spec fn view(&self) -> PanelRequestsView {
        PanelRequestsView {
            local_resource: request_view(self.local_resource),
            leptos_fetch: request_view(self.leptos_fetch),
            leptos_fetch_v2: request_view(self.leptos_fetch_v2),
        }
    }
}

/// The shell. A panel is mounted exactly while the shell holds its state.
#[derive(Debug)]
pub struct AppShell {
    selected_id: String,
    fetch_count_lr: u32,
    fetch_count_lf: u32,
    fetch_count_lf2: u32,
    panel_lr: Option<LocalResource<ApiData>>,
    panel_lf: Option<QueryResource>,
    panel_lf2: Option<WrapperLocalResource<ApiData>>,
    cache_lf: QueryCache<ApiData>,
    cache_lf2: QueryCache<Result<ApiData, ClientError>>,
}

/// The shell as plain values.
pub struct AppShellView {
    pub selected_id: Seq<char>,
    pub fetch_count_lr: int,
    pub fetch_count_lf: int,
    pub fetch_count_lf2: int,
    pub panel_lr: Option<LocalResourceView<ApiData>>,
    pub panel_lf: Option<QueryResourceView>,
    pub panel_lf2: Option<QueryResourceView>,
    pub cache_lf: Map<Seq<char>, Cached<ApiData>>,
    pub cache_lf2: Map<Seq<char>, Cached<Result<ApiData, ClientError>>>,
    pub fetching_lf: Map<Seq<char>, int>,
    pub fetching_lf2: Map<Seq<char>, int>,
}

impl View for AppShell {
    type V = AppShellView;

    closed spec fn view(&self) -> AppShellView {
        AppShellView {
            selected_id: self.selected_id@,
            fetch_count_lr: self.fetch_count_lr as int,
            fetch_count_lf: self.fetch_count_lf as int,
            fetch_count_lf2: self.fetch_count_lf2 as int,
            panel_lr: match self.panel_lr {
                Some(panel) => Some(panel@),
                None => None,
            },
            panel_lf: match self.panel_lf {
                Some(panel) => Some(panel@),
                None => None,
            },
            panel_lf2: match self.panel_lf2 {
                Some(panel) => Some(panel@),
                None => None,
            },
            cache_lf: self.cache_lf@,
            cache_lf2: self.cache_lf2@,
            fetching_lf: self.cache_lf.fetching(),
            fetching_lf2: self.cache_lf2.fetching(),
        }
    }
}

impl AppShellView {
    /// The shell at the start: the key is "initial_id", no panel is
    /// mounted, every counter is zero, the caches are empty and no fetch
    /// is under way.
    pub open spec fn initial() -> AppShellView {
        AppShellView {
            selected_id: "initial_id"@,
            fetch_count_lr: 0,
            fetch_count_lf: 0,
            fetch_count_lf2: 0,
            panel_lr: None,
            panel_lf: None,
            panel_lf2: None,
            cache_lf: Map::empty(),
            cache_lf2: Map::empty(),
            fetching_lf: Map::empty(),
            fetching_lf2: Map::empty(),
        }
    }

    /// Whether `panel` is mounted.
    pub open spec fn is_mounted(self, panel: Panel) -> bool {
        match panel {
            Panel::LocalResource => self.panel_lr is Some,
            Panel::LeptosFetch => self.panel_lf is Some,
            Panel::LeptosFetchV2 => self.panel_lf2 is Some,
        }
    }

    /// The counter of the fetches of `panel`.
    pub open spec fn fetch_count(self, panel: Panel) -> int {
        match panel {
            Panel::LocalResource => self.fetch_count_lr,
            Panel::LeptosFetch => self.fetch_count_lf,
            Panel::LeptosFetchV2 => self.fetch_count_lf2,
        }
    }

    /// The sum of the three counters.
    pub open spec fn total_count(self) -> int {
        self.fetch_count_lr + self.fetch_count_lf + self.fetch_count_lf2
    }

    /// The key that `panel` is on, if it is mounted.
    pub open spec fn panel_key(self, panel: Panel) -> Option<Seq<char>> {
        match panel {
            Panel::LocalResource => match self.panel_lr {
                Some(p) => Some(p.key),
                None => None,
            },
            Panel::LeptosFetch => match self.panel_lf {
                Some(p) => Some(p.key),
                None => None,
            },
            Panel::LeptosFetchV2 => match self.panel_lf2 {
                Some(p) => Some(p.key),
                None => None,
            },
        }
    }

    /// The plain panel with its counter. Meant for a mounted panel.
    pub open spec fn local(self) -> LocalState<ApiData> {
        LocalState { resource: self.panel_lr->0, fetch_count: self.fetch_count_lr }
    }

    /// The cache-backed panel with its cache and counter. Meant for a
    /// mounted panel.
    pub open spec fn query(self) -> QueryState<ApiData> {
        QueryState {
            resource: self.panel_lf->0,
            cache: self.cache_lf,
            fetching: self.fetching_lf,
            fetch_count: self.fetch_count_lf,
        }
    }

    /// The wrapped panel with its cache and counter. Meant for a mounted
    /// panel.
    pub open spec fn wrapped(self) -> QueryState<Result<ApiData, ClientError>> {
        QueryState {
            resource: self.panel_lf2->0,
            cache: self.cache_lf2,
            fetching: self.fetching_lf2,
            fetch_count: self.fetch_count_lf2,
        }
    }

    /// The shell with the plain panel mounted in `state`.
    pub open spec fn set_local(self, state: LocalState<ApiData>) -> AppShellView {
        AppShellView {
            panel_lr: Some(state.resource),
            fetch_count_lr: state.fetch_count,
            ..self
        }
    }

    /// The shell with the cache-backed panel mounted in `state`.
    pub open spec fn set_query(self, state: QueryState<ApiData>) -> AppShellView {
        AppShellView {
            panel_lf: Some(state.resource),
            cache_lf: state.cache,
            fetching_lf: state.fetching,
            fetch_count_lf: state.fetch_count,
            ..self
        }
    }

    /// The shell with the wrapped panel mounted in `state`.
    pub open spec fn set_wrapped(self, state: QueryState<Result<ApiData, ClientError>>)
        -> AppShellView {
        AppShellView {
            panel_lf2: Some(state.resource),
            cache_lf2: state.cache,
            fetching_lf2: state.fetching,
            fetch_count_lf2: state.fetch_count,
            ..self
        }
    }

    /// The shell after `event` has reached the plain panel. An unmounted
    /// panel takes no event.
    pub open spec fn local_event(self, event: LocalEvent<ApiData>) -> AppShellView {
        if self.panel_lr is Some {
            self.set_local(self.local().step(event))
        } else {
            self
        }
    }

    /// The shell after `event` has reached the cache-backed panel.
    pub open spec fn query_event(self, event: QueryEvent<ApiData>) -> AppShellView {
        if self.panel_lf is Some {
            self.set_query(self.query().step(event))
        } else {
            self
        }
    }

    /// The shell after `event` has reached the wrapped panel.
    pub open spec fn wrapped_event(self, event: QueryEvent<Result<ApiData, ClientError>>)
        -> AppShellView {
        if self.panel_lf2 is Some {
            self.set_wrapped(self.wrapped().step(event))
        } else {
            self
        }
    }

    /// The request that `event` makes the plain panel hand out.
    pub open spec fn local_request(self, event: LocalEvent<ApiData>) -> Option<FetchRequestView> {
        if self.panel_lr is Some {
            self.local().request(event)
        } else {
            None
        }
    }

    /// The request that `event` makes the cache-backed panel hand out.
    pub open spec fn query_request(self, event: QueryEvent<ApiData>) -> Option<FetchRequestView> {
        if self.panel_lf is Some {
            self.query().request(event)
        } else {
            None
        }
    }

    /// The request that `event` makes the wrapped panel hand out.
    pub open spec fn wrapped_request(self, event: QueryEvent<Result<ApiData, ClientError>>)
        -> Option<FetchRequestView> {
        if self.panel_lf2 is Some {
            self.wrapped().request(event)
        } else {
            None
        }
    }

    /// The state in which the plain panel starts when it is mounted.
    pub open spec fn fresh_local(self) -> LocalState<ApiData> {
        LocalState::idle(self.selected_id, self.fetch_count_lr)
    }

    /// The state in which the cache-backed panel starts when it is mounted.
    pub open spec fn fresh_query(self) -> QueryState<ApiData> {
        QueryState::idle(
            panel_options(),
            self.selected_id,
            self.cache_lf,
            self.fetching_lf,
            self.fetch_count_lf,
        )
    }

    /// The state in which the wrapped panel starts when it is mounted.
    pub open spec fn fresh_wrapped(self) -> QueryState<Result<ApiData, ClientError>> {
        QueryState::idle(
            CacheOptions::new(),
            self.selected_id,
            self.cache_lf2,
            self.fetching_lf2,
            self.fetch_count_lf2,
        )
    }

    /// The shell after `panel` has been unmounted: its state is gone; its
    /// counter and its cache stay, and so does a fetch under way on the
    /// cache. A fetch under way in the plain panel is given up with it.
    pub open spec fn unmounted(self, panel: Panel) -> AppShellView {
        match panel {
            Panel::LocalResource => AppShellView { panel_lr: None, ..self },
            Panel::LeptosFetch => AppShellView { panel_lf: None, ..self },
            Panel::LeptosFetchV2 => AppShellView { panel_lf2: None, ..self },
        }
    }

    /// The shell after `panel` has been mounted at `now`: the panel takes
    /// the selected key. The plain panel fetches at once; a cache-backed
    /// panel reads its cache first, and joins a fetch of the key that is
    /// under way on it.
    pub open spec fn mounted(self, panel: Panel, now: u64) -> AppShellView {
        match panel {
            Panel::LocalResource => self.set_local(
                self.fresh_local().step(LocalEvent::Run { key: self.selected_id }),
            ),
            Panel::LeptosFetch => self.set_query(
                self.fresh_query().step(QueryEvent::Read { key: self.selected_id, now }),
            ),
            Panel::LeptosFetchV2 => self.set_wrapped(
                self.fresh_wrapped().step(QueryEvent::Read { key: self.selected_id, now }),
            ),
        }
    }

    /// The request that mounting `panel` at `now` hands out.
    pub open spec fn mount_request(self, panel: Panel, now: u64) -> Option<FetchRequestView> {
        match panel {
            Panel::LocalResource => self.fresh_local().request(
                LocalEvent::Run { key: self.selected_id },
            ),
            Panel::LeptosFetch => self.fresh_query().request(
                QueryEvent::Read { key: self.selected_id, now },
            ),
            Panel::LeptosFetchV2 => self.fresh_wrapped().request(
                QueryEvent::Read { key: self.selected_id, now },
            ),
        }
    }

    /// The shell after the mount button of `panel` has been clicked.
    pub open spec fn toggled(self, panel: Panel, now: u64) -> AppShellView {
        if self.is_mounted(panel) {
            self.unmounted(panel)
        } else {
            self.mounted(panel, now)
        }
    }

    /// The request that a click on the mount button of `panel` hands out.
    pub open spec fn toggle_request(self, panel: Panel, now: u64) -> Option<FetchRequestView> {
        if self.is_mounted(panel) {
            None
        } else {
            self.mount_request(panel, now)
        }
    }

    /// The shell with `id` as the selected key and nothing else changed.
    pub open spec fn with_selected(self, id: Seq<char>) -> AppShellView {
        AppShellView { selected_id: id, ..self }
    }

    /// The shell after `id` has been selected at `now`: every mounted panel
    /// follows to `id`, the plain panel by a fetch, a cache-backed panel
    /// by a read.
    pub open spec fn selected(self, id: Seq<char>, now: u64) -> AppShellView {
        self.with_selected(id).local_event(LocalEvent::Run { key: id }).query_event(
            QueryEvent::Read { key: id, now },
        ).wrapped_event(QueryEvent::Read { key: id, now })
    }

    /// The requests that selecting `id` at `now` hands out.
    pub open spec fn select_requests(self, id: Seq<char>, now: u64) -> PanelRequestsView {
        PanelRequestsView {
            local_resource: self.local_request(LocalEvent::Run { key: id }),
            leptos_fetch: self.query_request(QueryEvent::Read { key: id, now }),
            leptos_fetch_v2: self.wrapped_request(QueryEvent::Read { key: id, now }),
        }
    }

    /// The shell after the refetch button of `panel` has been clicked at
    /// `now`. The plain panel fetches; the cache-backed panel reads its
    /// cache; the wrapped panel has no such button.
    pub open spec fn refetched(self, panel: Panel, now: u64) -> AppShellView {
        match panel {
            Panel::LocalResource => self.local_event(LocalEvent::Run { key: self.selected_id }),
            Panel::LeptosFetch => self.query_event(
                QueryEvent::Read { key: self.selected_id, now },
            ),
            Panel::LeptosFetchV2 => self,
        }
    }

    /// The request that a click on the refetch button of `panel` hands out.
    pub open spec fn refetch_request(self, panel: Panel, now: u64) -> Option<FetchRequestView> {
        match panel {
            Panel::LocalResource => self.local_request(LocalEvent::Run { key: self.selected_id }),
            Panel::LeptosFetch => self.query_request(
                QueryEvent::Read { key: self.selected_id, now },
            ),
            Panel::LeptosFetchV2 => None,
        }
    }

    /// The shell after the force-refetch button of `panel` has been
    /// clicked. The plain panel has no such button.
    pub open spec fn force_refetched(self, panel: Panel) -> AppShellView {
        match panel {
            Panel::LocalResource => self,
            Panel::LeptosFetch => self.query_event(QueryEvent::ForceRefetch),
            Panel::LeptosFetchV2 => self.wrapped_event(QueryEvent::ForceRefetch),
        }
    }

    /// The request that a click on the force-refetch button of `panel`
    /// hands out.
    pub open spec fn force_refetch_request(self, panel: Panel) -> Option<FetchRequestView> {
        match panel {
            Panel::LocalResource => None,
            Panel::LeptosFetch => self.query_request(QueryEvent::ForceRefetch),
            Panel::LeptosFetchV2 => self.wrapped_request(QueryEvent::ForceRefetch),
        }
    }

    /// The shell after garbage collection at `now`: each cache drops what
    /// has expired under the policy of its panel, but for the key that the
    /// mounted panel is on.
    pub open spec fn swept(self, now: u64) -> AppShellView {
        AppShellView {
            cache_lf: collected(
                self.cache_lf,
                now,
                &panel_options(),
                self.panel_key(Panel::LeptosFetch),
            ),
            cache_lf2: collected(
                self.cache_lf2,
                now,
                &CacheOptions::new(),
                self.panel_key(Panel::LeptosFetchV2),
            ),
            ..self
        }
    }

    /// The shell after the clock has been looked at, at `now`: garbage is
    /// collected, and each mounted cache-backed panel reads its cache, so
    /// that a value that is no longer fresh is fetched again in the
    /// background.
    pub open spec fn ticked(self, now: u64) -> AppShellView {
        self.swept(now).query_event(QueryEvent::Read { key: self.selected_id, now }).wrapped_event(
            QueryEvent::Read { key: self.selected_id, now },
        )
    }

    /// The requests that a look at the clock at `now` hands out.
    pub open spec fn tick_requests(self, now: u64) -> PanelRequestsView {
        PanelRequestsView {
            local_resource: None,
            leptos_fetch: self.swept(now).query_request(
                QueryEvent::Read { key: self.selected_id, now },
            ),
            leptos_fetch_v2: self.swept(now).wrapped_request(
                QueryEvent::Read { key: self.selected_id, now },
            ),
        }
    }

    /// Whether a fetch for `panel` is under way: in the plain panel itself,
    /// which must be mounted for that; for a cache-backed panel on its
    /// cache, for the selected key, whether or not the panel is mounted.
    pub open spec fn is_fetching(self, panel: Panel) -> bool {
        match panel {
            Panel::LocalResource => self.panel_lr is Some && self.panel_lr->0.in_flight is Some,
            Panel::LeptosFetch => self.fetching_lf.contains_key(self.selected_id),
            Panel::LeptosFetchV2 => self.fetching_lf2.contains_key(self.selected_id),
        }
    }

    /// Whether `after` is this shell once the fetch under way for `panel`
    /// has come back at `now` with the record for the selected key. For a
    /// cache-backed panel the record is stored in its cache under the
    /// selected key and the fetch is over.
    pub open spec fn resolves_to(self, panel: Panel, now: u64, after: AppShellView) -> bool {
        match panel {
            Panel::LocalResource => {
                &&& after.panel_lr is Some
                &&& after.panel_lr->0.value matches Some(data)
                &&& data@ == api_data_for(self.selected_id)
                &&& after == self.local_event(
                    LocalEvent::Complete { ticket: self.panel_lr->0.in_flight->0, value: data },
                )
            },
            Panel::LeptosFetch => {
                &&& after.cache_lf.contains_key(self.selected_id)
                &&& after.cache_lf[self.selected_id].value@ == api_data_for(self.selected_id)
                &&& after == AppShellView {
                    cache_lf: self.cache_lf.insert(
                        self.selected_id,
                        stored(after.cache_lf[self.selected_id].value, now),
                    ),
                    fetching_lf: self.fetching_lf.remove(self.selected_id),
                    ..self
                }
            },
            Panel::LeptosFetchV2 => {
                &&& after.cache_lf2.contains_key(self.selected_id)
                &&& after.cache_lf2[self.selected_id].value matches Ok(data)
                &&& data@ == api_data_for(self.selected_id)
                &&& after == AppShellView {
                    cache_lf2: self.cache_lf2.insert(
                        self.selected_id,
                        stored(after.cache_lf2[self.selected_id].value, now),
                    ),
                    fetching_lf2: self.fetching_lf2.remove(self.selected_id),
                    ..self
                }
            },
        }
    }

    /// Whether `after` is this shell once `panel` has been given the chance
    /// to have its fetch come back at `now`: a panel that was waiting for
    /// none leaves the shell as it is.
    pub open spec fn resolved(self, panel: Panel, now: u64, after: AppShellView) -> bool {
        if self.is_fetching(panel) {
            self.resolves_to(panel, now, after)
        } else {
            after == self
        }
    }

    /// Whether `after` is this shell once every panel has been given the
    /// chance to have its fetch come back at `now`. The three panels do not
    /// touch each other's state.
    pub open spec fn settles_to(self, now: u64, after: AppShellView) -> bool {
        &&& after.selected_id == self.selected_id
        &&& after.fetch_count_lr == self.fetch_count_lr
        &&& after.fetch_count_lf == self.fetch_count_lf
        &&& after.fetch_count_lf2 == self.fetch_count_lf2
        &&& after.panel_lf == self.panel_lf
        &&& after.panel_lf2 == self.panel_lf2
        &&& self.resolved(
            Panel::LocalResource,
            now,
            AppShellView { panel_lr: after.panel_lr, ..self },
        )
        &&& self.resolved(
            Panel::LeptosFetch,
            now,
            AppShellView { cache_lf: after.cache_lf, fetching_lf: after.fetching_lf, ..self },
        )
        &&& self.resolved(
            Panel::LeptosFetchV2,
            now,
            AppShellView { cache_lf2: after.cache_lf2, fetching_lf2: after.fetching_lf2, ..self },
        )
    }

    /// What `panel` displays, if it is mounted.
    pub open spec fn shown(self, panel: Panel) -> Option<PanelViewSpec> {
        if self.is_mounted(panel) {
            Some(
                match panel {
                    Panel::LocalResource => rendered_data(self.local().shown()),
                    Panel::LeptosFetch => rendered_data(self.query().shown()),
                    Panel::LeptosFetchV2 => rendered_result(self.wrapped().shown()),
                },
            )
        } else {
            None
        }
    }

    /// What the shell keeps true of itself: every mounted panel is on the
    /// selected key and under its own policy; a panel has a value to show
    /// unless a fetch for it is under way, the plain panel the record for
    /// its key, a cache-backed panel what its cache holds for its key; what
    /// a cache holds under a key is the record for that key; and every
    /// ticket under way on a cache is one that its counter has reached.
    pub open spec fn well_formed(self) -> bool {
        &&& self.panel_lr matches Some(p) ==> {
            &&& p.key == self.selected_id
            &&& p.in_flight is None ==> p.value is Some && p.value->0@ == api_data_for(p.key)
        }
        &&& self.panel_lf matches Some(p) ==> {
            &&& p.key == self.selected_id
            &&& p.options == panel_options()
            &&& self.cache_lf.contains_key(p.key) || self.fetching_lf.contains_key(p.key)
        }
        &&& self.panel_lf2 matches Some(p) ==> {
            &&& p.key == self.selected_id
            &&& p.options == CacheOptions::new()
            &&& self.cache_lf2.contains_key(p.key) || self.fetching_lf2.contains_key(p.key)
        }
        &&& forall|key: Seq<char>| #[trigger]
            self.cache_lf.contains_key(key) ==> self.cache_lf[key].value@ == api_data_for(key)
        &&& forall|key: Seq<char>| #[trigger]
            self.cache_lf2.contains_key(key) ==> self.cache_lf2[key].value is Ok
                && self.cache_lf2[key].value->Ok_0@ == api_data_for(key)
        &&& forall|key: Seq<char>| #[trigger]
            self.fetching_lf.contains_key(key) ==> self.fetching_lf[key] <= self.fetch_count_lf
        &&& forall|key: Seq<char>| #[trigger]
            self.fetching_lf2.contains_key(key) ==> self.fetching_lf2[key] <= self.fetch_count_lf2
    }
}

/// The mount flag and the counter with which the shell starts a panel: not
/// mounted, nothing fetched.
pub fn use_count_for_fetch() -> (out: (bool, u32))
    ensures
        out == (false, 0u32),
{
    (false, 0)
}

/// The sum of the three counters. It cannot overflow: each is below 2^32.
pub fn total_fetch_count(local_resource: u32, leptos_fetch: u32, leptos_fetch_v2: u32) -> (total: u64)
    ensures
        total == local_resource + leptos_fetch + leptos_fetch_v2,
{
    local_resource as u64 + leptos_fetch as u64 + leptos_fetch_v2 as u64
}

impl AppShell {
    /// The shell at the start.
    pub fn new() -> (shell: Self)
        ensures
            shell@ == AppShellView::initial(),
            shell@.well_formed(),
    {
        let (_, fetch_count_lr) = use_count_for_fetch();
        let (_, fetch_count_lf) = use_count_for_fetch();
        let (_, fetch_count_lf2) = use_count_for_fetch();
        AppShell {
            selected_id: "initial_id".to_owned(),
            fetch_count_lr,
            fetch_count_lf,
            fetch_count_lf2,
            panel_lr: None,
            panel_lf: None,
            panel_lf2: None,
            cache_lf: QueryCache::new(),
            cache_lf2: QueryCache::new(),
        }
    }

    /// The key that is selected.
    pub fn selected_id(&self) -> (id: &String)
        ensures
            id@ == self@.selected_id,
    {
        &self.selected_id
    }

    /// Whether `panel` is mounted.
    pub fn is_mounted(&self, panel: Panel) -> (mounted: bool)
        ensures
            mounted == self@.is_mounted(panel),
    {
        match panel {
            Panel::LocalResource => self.panel_lr.is_some(),
            Panel::LeptosFetch => self.panel_lf.is_some(),
            Panel::LeptosFetchV2 => self.panel_lf2.is_some(),
        }
    }

    /// The counter of the fetches of `panel`.
    pub fn fetch_count(&self, panel: Panel) -> (count: u32)
        ensures
            count == self@.fetch_count(panel),
    {
        match panel {
            Panel::LocalResource => self.fetch_count_lr,
            Panel::LeptosFetch => self.fetch_count_lf,
            Panel::LeptosFetchV2 => self.fetch_count_lf2,
        }
    }

    /// The sum of the three counters.
    pub fn total_count(&self) -> (total: u64)
        ensures
            total == self@.total_count(),
    {
        total_fetch_count(self.fetch_count_lr, self.fetch_count_lf, self.fetch_count_lf2)
    }

    /// Whether a fetch for `panel` is under way.
    pub fn is_fetching(&self, panel: Panel) -> (fetching: bool)
        ensures
            fetching == self@.is_fetching(panel),
    {
        match panel {
            Panel::LocalResource => match &self.panel_lr {
                Some(p) => p.pending().is_some(),
                None => false,
            },
            Panel::LeptosFetch => self.cache_lf.fetching_ticket(&self.selected_id).is_some(),
            Panel::LeptosFetchV2 => self.cache_lf2.fetching_ticket(&self.selected_id).is_some(),
        }
    }

    /// A click on the mount button of `panel` at `now`: a mounted panel is
    /// unmounted, an unmounted one is mounted on the selected key. The
    /// counter and the cache of the panel outlive it. Unmounting the plain
    /// panel gives up the fetch it was waiting for. Unmounting a
    /// cache-backed panel does not: the fetch stays under way on the cache,
    /// and mounting the panel again before the result is back joins it
    /// without counting a second fetch.
    pub fn toggle_mount(&mut self, panel: Panel, now: u64) -> (request: Option<FetchRequest>)
        requires
            old(self)@.well_formed(),
            old(self)@.toggle_request(panel, now) is Some ==> old(self)@.fetch_count(panel)
                < u32::MAX,
        ensures
            final(self)@ == old(self)@.toggled(panel, now),
            request_view(request) == old(self)@.toggle_request(panel, now),
            final(self)@.well_formed(),
    {
        match panel {
            Panel::LocalResource => match self.panel_lr.take() {
                Some(_) => None,
                None => {
                    let (mounted, request) = FetchByLocalResource(
                        self.selected_id.clone(),
                        &mut self.fetch_count_lr,
                    );
                    self.panel_lr = Some(mounted);
                    Some(request)
                },
            },
            Panel::LeptosFetch => match self.panel_lf.take() {
                Some(_) => None,
                None => {
                    let (mounted, request) = FetchByLeptosFetch(
                        self.selected_id.clone(),
                        &mut self.fetch_count_lf,
                        &mut self.cache_lf,
                        now,
                    );
                    self.panel_lf = Some(mounted);
                    request
                },
            },
            Panel::LeptosFetchV2 => match self.panel_lf2.take() {
                Some(_) => None,
                None => {
                    let (mounted, request) = FetchByLeptosFetchV2(
                        self.selected_id.clone(),
                        &mut self.cache_lf2,
                        &mut self.fetch_count_lf2,
                        now,
                    );
                    self.panel_lf2 = Some(mounted);
                    request
                },
            },
        }
    }

    /// The key selector changes to `id` at `now`: every mounted panel
    /// follows; an unmounted panel is not touched and takes the key when
    /// it is next mounted.
    pub fn select_id(&mut self, id: String, now: u64) -> (requests: PanelRequests)
        requires
            old(self)@.well_formed(),
            old(self)@.select_requests(id@, now).local_resource is Some
                ==> old(self)@.fetch_count_lr < u32::MAX,
            old(self)@.select_requests(id@, now).leptos_fetch is Some ==> old(self)@.fetch_count_lf
                < u32::MAX,
            old(self)@.select_requests(id@, now).leptos_fetch_v2 is Some
                ==> old(self)@.fetch_count_lf2 < u32::MAX,
        ensures
            final(self)@ == old(self)@.selected(id@, now),
            requests@ == old(self)@.select_requests(id@, now),
            final(self)@.well_formed(),
    {
        let local_resource = match self.panel_lr.take() {
            Some(mut p) => {
                let request = p.run(&mut self.fetch_count_lr, id.clone());
                self.panel_lr = Some(p);
                Some(request)
            },
            None => None,
        };
        let leptos_fetch = match self.panel_lf.take() {
            Some(mut p) => {
                let request = p.read(
                    &mut self.cache_lf,
                    &mut self.fetch_count_lf,
                    id.clone(),
                    now,
                );
                self.panel_lf = Some(p);
                request
            },
            None => None,
        };
        let leptos_fetch_v2 = match self.panel_lf2.take() {
            Some(mut p) => {
                let request = p.track(
                    &mut self.cache_lf2,
                    &mut self.fetch_count_lf2,
                    id.clone(),
                    now,
                );
                self.panel_lf2 = Some(p);
                request
            },
            None => None,
        };
        self.selected_id = id;
        PanelRequests { local_resource, leptos_fetch, leptos_fetch_v2 }
    }

    /// A click on the refetch button of `panel` at `now`. The plain panel
    /// fetches again, whatever it holds. The cache-backed panel reads its
    /// cache and fetches only if that holds no fresh value. The wrapped
    /// panel has no such button, and neither has a panel that is not
    /// mounted: nothing happens.
    pub fn refetch(&mut self, panel: Panel, now: u64) -> (request: Option<FetchRequest>)
        requires
            old(self)@.well_formed(),
            old(self)@.refetch_request(panel, now) is Some ==> old(self)@.fetch_count(panel)
                < u32::MAX,
        ensures
            final(self)@ == old(self)@.refetched(panel, now),
            request_view(request) == old(self)@.refetch_request(panel, now),
            final(self)@.well_formed(),
    {
        match panel {
            Panel::LocalResource => match self.panel_lr.take() {
                Some(mut p) => {
                    let request = p.refetch(&mut self.fetch_count_lr);
                    self.panel_lr = Some(p);
                    Some(request)
                },
                None => None,
            },
            Panel::LeptosFetch => match self.panel_lf.take() {
                Some(mut p) => {
                    let request = p.refetch(&mut self.cache_lf, &mut self.fetch_count_lf, now);
                    self.panel_lf = Some(p);
                    request
                },
                None => None,
            },
            Panel::LeptosFetchV2 => None,
        }
    }

    /// A click on the force-refetch button of `panel`: what the cache
    /// holds for the selected key is invalidated and a fetch is started,
    /// so the counter rises by exactly one. The plain panel has no such
    /// button, and neither has a panel that is not mounted: nothing
    /// happens.
    pub fn force_refetch(&mut self, panel: Panel) -> (request: Option<FetchRequest>)
        requires
            old(self)@.well_formed(),
            old(self)@.force_refetch_request(panel) is Some ==> old(self)@.fetch_count(panel)
                < u32::MAX,
        ensures
            final(self)@ == old(self)@.force_refetched(panel),
            request_view(request) == old(self)@.force_refetch_request(panel),
            final(self)@.well_formed(),
    {
        match panel {
            Panel::LocalResource => None,
            Panel::LeptosFetch => match self.panel_lf.take() {
                Some(mut p) => {
                    let request = p.force_refetch(&mut self.cache_lf, &mut self.fetch_count_lf);
                    self.panel_lf = Some(p);
                    Some(request)
                },
                None => None,
            },
            Panel::LeptosFetchV2 => match self.panel_lf2.take() {
                Some(mut p) => {
                    let request = p.force_refetch(&mut self.cache_lf2, &mut self.fetch_count_lf2);
                    self.panel_lf2 = Some(p);
                    Some(request)
                },
                None => None,
            },
        }
    }

    /// A look at the clock at `now`: each cache drops what has expired and
    /// is not in use, and each mounted cache-backed panel reads its cache,
    /// which starts a fetch in the background where the value is no longer
    /// fresh.
    pub fn tick(&mut self, now: u64) -> (requests: PanelRequests)
        requires
            old(self)@.well_formed(),
            old(self)@.tick_requests(now).leptos_fetch is Some ==> old(self)@.fetch_count_lf
                < u32::MAX,
            old(self)@.tick_requests(now).leptos_fetch_v2 is Some ==> old(self)@.fetch_count_lf2
                < u32::MAX,
        ensures
            final(self)@ == old(self)@.ticked(now),
            requests@ == old(self)@.tick_requests(now),
            final(self)@.well_formed(),
    {
        let leptos_fetch = match self.panel_lf.take() {
            Some(mut p) => {
                self.cache_lf.collect_garbage(now, &panel_options(), Some(p.key()));
                let request = p.refetch(&mut self.cache_lf, &mut self.fetch_count_lf, now);
                self.panel_lf = Some(p);
                request
            },
            None => {
                self.cache_lf.collect_garbage(now, &panel_options(), None);
                None
            },
        };
        let leptos_fetch_v2 = match self.panel_lf2.take() {
            Some(mut p) => {
                self.cache_lf2.collect_garbage(now, &CacheOptions::new(), Some(p.key()));
                let key = p.key().clone();
                let request = p.track(&mut self.cache_lf2, &mut self.fetch_count_lf2, key, now);
                self.panel_lf2 = Some(p);
                request
            },
            None => {
                self.cache_lf2.collect_garbage(now, &CacheOptions::new(), None);
                None
            },
        };
        PanelRequests { local_resource: None, leptos_fetch, leptos_fetch_v2 }
    }

    /// Lets the fetch under way for `panel` come back at `now`, with the
    /// record that the API gives for the selected key. For a cache-backed
    /// panel that is the fetch of the selected key on its cache, whether
    /// or not the panel is mounted. Says whether such a fetch was under
    /// way; if none was, nothing changes.
    pub fn resolve(&mut self, panel: Panel, now: u64) -> (resolved: bool)
        requires
            old(self)@.well_formed(),
        ensures
            resolved == old(self)@.is_fetching(panel),
            old(self)@.resolved(panel, now, final(self)@),
            final(self)@.well_formed(),
    {
        match panel {
            Panel::LocalResource => match self.panel_lr.take() {
                Some(mut p) => {
                    let resolved = resolve_local_resource(&mut p);
                    self.panel_lr = Some(p);
                    resolved
                },
                None => false,
            },
            Panel::LeptosFetch => resolve_leptos_fetch(&mut self.cache_lf, &self.selected_id, now),
            Panel::LeptosFetchV2 => resolve_leptos_fetch_v2(
                &mut self.cache_lf2,
                &self.selected_id,
                now,
            ),
        }
    }

    /// Lets every fetch that is under way for a panel come back at `now`.
    /// After that none is under way for the selected key, the counters are
    /// as they were, and every mounted panel displays the record for the
    /// selected key.
    pub fn settle(&mut self, now: u64)
        requires
            old(self)@.well_formed(),
        ensures
            old(self)@.settles_to(now, final(self)@),
            final(self)@.well_formed(),
            forall|panel: Panel| final(self)@.is_mounted(panel) == old(self)@.is_mounted(panel),
            forall|panel: Panel| !final(self)@.is_fetching(panel),
            forall|panel: Panel| #[trigger]
                final(self)@.is_mounted(panel) ==> final(self)@.shown(panel) == Some(
                    data_view(api_data_for(final(self)@.selected_id)),
                ),
    {
        self.resolve(Panel::LocalResource, now);
        self.resolve(Panel::LeptosFetch, now);
        self.resolve(Panel::LeptosFetchV2, now);
    }

    /// What `panel` displays, if it is mounted.
    pub fn render(&self, panel: Panel) -> (view: Option<PanelView>)
        ensures
            match view {
                Some(v) => Some(v@),
                None => None,
            } == self@.shown(panel),
    {
        match panel {
            Panel::LocalResource => match &self.panel_lr {
                Some(p) => Some(render_data(p.get())),
                None => None,
            },
            Panel::LeptosFetch => match &self.panel_lf {
                Some(p) => Some(render_data(p.value(&self.cache_lf))),
                None => None,
            },
            Panel::LeptosFetchV2 => match &self.panel_lf2 {
                Some(p) => Some(render_result(p.resource(&self.cache_lf2))),
                None => None,
            },
        }
    }
}

} // verus!

verus! {

/// No event lowers a counter: after a click on a mount button, a change of
/// the key, a click on either refetch button or a look at the clock, each
/// counter is what it was or one more.
pub proof fn lemma_counters_only_rise(shell: AppShellView, panel: Panel, id: Seq<char>, now: u64)
    ensures
        forall|counted: Panel|
            #![trigger shell.toggled(panel, now).fetch_count(counted)]
            shell.fetch_count(counted) <= shell.toggled(panel, now).fetch_count(counted)
                <= shell.fetch_count(counted) + 1,
        forall|counted: Panel|
            #![trigger shell.selected(id, now).fetch_count(counted)]
            shell.fetch_count(counted) <= shell.selected(id, now).fetch_count(counted)
                <= shell.fetch_count(counted) + 1,
        forall|counted: Panel|
            #![trigger shell.refetched(panel, now).fetch_count(counted)]
            shell.fetch_count(counted) <= shell.refetched(panel, now).fetch_count(counted)
                <= shell.fetch_count(counted) + 1,
        forall|counted: Panel|
            #![trigger shell.force_refetched(panel).fetch_count(counted)]
            shell.fetch_count(counted) <= shell.force_refetched(panel).fetch_count(counted)
                <= shell.fetch_count(counted) + 1,
        forall|counted: Panel|
            #![trigger shell.ticked(now).fetch_count(counted)]
            shell.fetch_count(counted) <= shell.ticked(now).fetch_count(counted)
                <= shell.fetch_count(counted) + 1,
{
}

/// Every event keeps the shell well formed: a click on a mount button, a
/// change of the key, a click on either refetch button, a look at the
/// clock, and a fetch coming back.
pub proof fn lemma_events_keep_the_shell_well_formed(
    shell: AppShellView,
    panel: Panel,
    id: Seq<char>,
    now: u64,
    after: AppShellView,
)
    requires
        shell.well_formed(),
    ensures
        shell.toggled(panel, now).well_formed(),
        shell.selected(id, now).well_formed(),
        shell.refetched(panel, now).well_formed(),
        shell.force_refetched(panel).well_formed(),
        shell.ticked(now).well_formed(),
        shell.resolved(panel, now, after) ==> after.well_formed(),
        shell.settles_to(now, after) ==> after.well_formed(),
{
}

/// A counter rises exactly when a request is handed out: the counter of a
/// panel after a click on one of its buttons is one more than before if the
/// click started a fetch, and unchanged if it did not; the counters of the
/// other panels do not move.
pub proof fn lemma_count_follows_requests(shell: AppShellView, panel: Panel, other: Panel, now: u64)
    requires
        other != panel,
    ensures
        shell.toggled(panel, now).fetch_count(panel) == shell.fetch_count(panel) + if shell.toggle_request(
            panel,
            now,
        ) is Some {
            1int
        } else {
            0int
        },
        shell.refetched(panel, now).fetch_count(panel) == shell.fetch_count(panel)
            + if shell.refetch_request(panel, now) is Some {
            1int
        } else {
            0int
        },
        shell.force_refetched(panel).fetch_count(panel) == shell.fetch_count(panel)
            + if shell.force_refetch_request(panel) is Some {
            1int
        } else {
            0int
        },
        shell.toggled(panel, now).fetch_count(other) == shell.fetch_count(other),
        shell.refetched(panel, now).fetch_count(other) == shell.fetch_count(other),
        shell.force_refetched(panel).fetch_count(other) == shell.fetch_count(other),
{
}

/// The same holds of the events that reach all panels at once: after a
/// change of the key and after a look at the clock, the counter of each
/// panel is one more than before if the event started a fetch for that
/// panel, and unchanged if it did not.
pub proof fn lemma_count_follows_shared_requests(
    shell: AppShellView,
    panel: Panel,
    id: Seq<char>,
    now: u64,
)
    ensures
        shell.selected(id, now).fetch_count(panel) == shell.fetch_count(panel)
            + if shell.select_requests(id, now).of(panel) is Some {
            1int
        } else {
            0int
        },
        shell.ticked(now).fetch_count(panel) == shell.fetch_count(panel) + if shell.tick_requests(
            now,
        ).of(panel) is Some {
            1int
        } else {
            0int
        },
{
}

/// Unmounting the plain panel and mounting it again always fetches: its
/// counter ends one higher, whatever the times and whatever it held.
pub proof fn lemma_remount_without_cache_fetches(shell: AppShellView, unmount_at: u64, mount_at: u64)
    requires
        shell.is_mounted(Panel::LocalResource),
    ensures
        ({
            let panel = Panel::LocalResource;
            let after = shell.toggled(panel, unmount_at).toggled(panel, mount_at);
            &&& after.is_mounted(panel)
            &&& after.panel_key(panel) == Some(shell.selected_id)
            &&& after.fetch_count(panel) == shell.fetch_count(panel) + 1
            &&& shell.toggled(panel, unmount_at).toggle_request(panel, mount_at) is Some
        }),
{
}

/// Unmounting a cache-backed panel and mounting it again on the same key
/// reuses what the cache holds if that is still fresh at the time of the
/// mount: no fetch is started, the counter stays, and the panel displays
/// the cached record at once. If the cache holds no fresh value but a fetch
/// of the key is under way on it, the panel joins that fetch: again no
/// fetch is started and the counter stays. Otherwise one fetch is started
/// and the counter ends one higher.
pub proof fn lemma_remount_with_cache_reuses_fresh(
    shell: AppShellView,
    panel: Panel,
    unmount_at: u64,
    mount_at: u64,
)
    requires
        shell.well_formed(),
        panel != Panel::LocalResource,
        shell.is_mounted(panel),
    ensures
        ({
            let after = shell.toggled(panel, unmount_at).toggled(panel, mount_at);
            let request = shell.toggled(panel, unmount_at).toggle_request(panel, mount_at);
            let fresh = match panel {
                Panel::LeptosFetch => holds_fresh(
                    shell.cache_lf,
                    shell.selected_id,
                    mount_at,
                    &panel_options(),
                ),
                _ => holds_fresh(
                    shell.cache_lf2,
                    shell.selected_id,
                    mount_at,
                    &CacheOptions::new(),
                ),
            };
            &&& after.is_mounted(panel)
            &&& after.panel_key(panel) == Some(shell.selected_id)
            &&& after.cache_lf == shell.cache_lf
            &&& after.cache_lf2 == shell.cache_lf2
            &&& fresh ==> {
                &&& request is None
                &&& after.fetch_count(panel) == shell.fetch_count(panel)
                &&& after.shown(panel) == Some(data_view(api_data_for(shell.selected_id)))
            }
            &&& !fresh && shell.is_fetching(panel) ==> {
                &&& request is None
                &&& after.fetch_count(panel) == shell.fetch_count(panel)
                &&& after.is_fetching(panel)
            }
            &&& !fresh && !shell.is_fetching(panel) ==> {
                &&& request is Some
                &&& after.fetch_count(panel) == shell.fetch_count(panel) + 1
            }
        }),
{
}

/// A fetch that a cache-backed panel has started outlives the panel. From
/// a shell with the panel unmounted and no fresh value for the selected
/// key: mounting the panel, unmounting it and mounting it again before the
/// result is back counts one fetch, not two; and when the result comes
/// back, with the panel mounted or not, it is stored under the selected
/// key.
pub proof fn lemma_fetch_outlives_its_panel(
    shell: AppShellView,
    panel: Panel,
    mount_at: u64,
    unmount_at: u64,
    remount_at: u64,
)
    requires
        shell.well_formed(),
        panel != Panel::LocalResource,
        !shell.is_mounted(panel),
        shell.toggle_request(panel, mount_at) is Some,
    ensures
        ({
            let mounted = shell.toggled(panel, mount_at);
            let unmounted = mounted.toggled(panel, unmount_at);
            let remounted = unmounted.toggled(panel, remount_at);
            &&& mounted.fetch_count(panel) == shell.fetch_count(panel) + 1
            &&& unmounted.is_fetching(panel)
            &&& unmounted.toggle_request(panel, remount_at) is None
            &&& remounted.fetch_count(panel) == shell.fetch_count(panel) + 1
            &&& remounted.is_fetching(panel)
        }),
{
}

/// A forced refetch on a mounted cache-backed panel raises the counter of
/// that panel by exactly one, whether or not the cache held a fresh value
/// and whether or not a fetch was under way, and leaves the other counters
/// alone. What the cache held for the key is no longer fresh at any time,
/// and a fetch of the key is under way afterwards.
pub proof fn lemma_force_refetch_always_counts_once(shell: AppShellView, panel: Panel)
    requires
        panel != Panel::LocalResource,
        shell.is_mounted(panel),
    ensures
        ({
            let after = shell.force_refetched(panel);
            &&& shell.force_refetch_request(panel) is Some
            &&& after.fetch_count(panel) == shell.fetch_count(panel) + 1
            &&& after.total_count() == shell.total_count() + 1
            &&& panel == Panel::LeptosFetch ==> after.query().is_fetching(shell.panel_lf->0.key)
                && forall|now: u64| !#[trigger] after.query().is_hit(shell.panel_lf->0.key, now)
            &&& panel == Panel::LeptosFetchV2 ==> after.wrapped().is_fetching(
                shell.panel_lf2->0.key,
            ) && forall|now: u64| !#[trigger] after.wrapped().is_hit(shell.panel_lf2->0.key, now)
        }),
{
}

/// A change of the key reaches every mounted panel and no other: each
/// mounted panel is on the new key afterwards and displays either the
/// placeholder or the record for the new key, never one for another key;
/// an unmounted panel stays unmounted with its counter unchanged, and takes
/// the new key when it is mounted.
pub proof fn lemma_selection_reaches_mounted_panels(
    shell: AppShellView,
    id: Seq<char>,
    now: u64,
    panel: Panel,
    mount_at: u64,
)
    requires
        shell.well_formed(),
    ensures
        ({
            let after = shell.selected(id, now);
            &&& after.selected_id == id
            &&& after.well_formed()
            &&& after.is_mounted(panel) == shell.is_mounted(panel)
            &&& shell.is_mounted(panel) ==> {
                &&& after.panel_key(panel) == Some(id)
                &&& after.shown(panel) == Some(PanelViewSpec::Loading) || after.shown(panel)
                    == Some(data_view(api_data_for(id)))
            }
            &&& !shell.is_mounted(panel) ==> {
                &&& after.fetch_count(panel) == shell.fetch_count(panel)
                &&& after.shown(panel) is None
                &&& after.toggled(panel, mount_at).panel_key(panel) == Some(id)
            }
        }),
{
}

/// The shell never displays an error: the API that it fetches from holds a
/// record for every key. A mounted panel displays the placeholder or the
/// record for the selected key.
pub proof fn lemma_shell_shows_placeholder_or_selected_record(shell: AppShellView, panel: Panel)
    requires
        shell.well_formed(),
        shell.is_mounted(panel),
    ensures
        shell.shown(panel) == Some(PanelViewSpec::Loading) || shell.shown(panel) == Some(
            data_view(api_data_for(shell.selected_id)),
        ),
        shell.shown(panel) != Some(PanelViewSpec::Error),
        !shell.is_fetching(panel) ==> shell.shown(panel) == Some(
            data_view(api_data_for(shell.selected_id)),
        ),
{
}

/// Once the fetches that a change of the key has started have come back,
/// every mounted panel displays the record for the new key.
pub proof fn lemma_selection_settles_on_new_key(
    shell: AppShellView,
    id: Seq<char>,
    now: u64,
    settled_at: u64,
    settled: AppShellView,
    panel: Panel,
)
    requires
        shell.well_formed(),
        shell.selected(id, now).settles_to(settled_at, settled),
        shell.is_mounted(panel),
    ensures
        settled.is_mounted(panel),
        settled.shown(panel) == Some(data_view(api_data_for(id))),
        settled.fetch_count(panel) == shell.selected(id, now).fetch_count(panel),
{
    lemma_selection_reaches_mounted_panels(shell, id, now, panel, 0);
}

} // verus!
