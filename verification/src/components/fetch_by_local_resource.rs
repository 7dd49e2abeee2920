use crate::api::{api_data_for, get_api_data, ApiData};
use crate::query::{count_fetch, request_view, FetchRequest, FetchRequestView, ResourceState};
use vstd::prelude::*;

verus! {

/// A resource without a cache: every run of it is a fetch. It holds the
/// key it was last run for, the value that last came back, and the ticket
/// of the fetch it is waiting for.
#[derive(Debug)]
pub struct LocalResource<T> {
    key: String,
    value: Option<T>,
    in_flight: Option<u32>,
}

/// A `LocalResource` as plain values.
pub struct LocalResourceView<T> {
    pub key: Seq<char>,
    pub value: Option<T>,
    pub in_flight: Option<int>,
}

impl<T> View for LocalResource<T> {
    type V = LocalResourceView<T>;

    closed spec fn view(&self) -> LocalResourceView<T> {
        LocalResourceView {
            key: self.key@,
            value: self.value,
            in_flight: match self.in_flight {
                Some(ticket) => Some(ticket as int),
                None => None,
            },
        }
    }
}

/// What can happen to a resource without a cache.
pub enum LocalEvent<T> {
    /// The resource is run for `key`: on mount, on a change of key, and on
    /// a refetch.
    Run { key: Seq<char> },
    /// The fetch with `ticket` has come back with `value`.
    Complete { ticket: int, value: T },
}

/// A resource without a cache together with the counter of its fetches.
pub struct LocalState<T> {
    pub resource: LocalResourceView<T>,
    pub fetch_count: int,
}

impl<T> LocalState<T> {
    /// A resource on `key` that has not run yet.
    pub open spec fn idle(key: Seq<char>, fetch_count: int) -> LocalState<T> {
        LocalState {
            resource: LocalResourceView { key: key, value: None, in_flight: None },
            fetch_count: fetch_count,
        }
    }

    /// Whether `event` starts a fetch: every run does.
    pub open spec fn emits(self, event: LocalEvent<T>) -> bool {
        event is Run
    }

    /// The request that `event` hands out, if it starts a fetch.
    pub open spec fn request(self, event: LocalEvent<T>) -> Option<FetchRequestView> {
        match event {
            LocalEvent::Run { key } => Some(
                FetchRequestView { key: key, ticket: self.fetch_count + 1 },
            ),
            LocalEvent::Complete { .. } => None,
        }
    }

    /// Whether a result coming back under `ticket` is the one waited for.
    pub open spec fn accepts(self, ticket: int) -> bool {
        self.resource.in_flight == Some(ticket)
    }

    /// Whether the ticket waited for, if any, is one that the counter has
    /// reached.
    pub open spec fn tickets_in_order(self) -> bool {
        self.resource.in_flight matches Some(ticket) ==> ticket <= self.fetch_count
    }

    /// The state after `event`. A run supersedes the fetch under way; a
    /// result coming back under another ticket than the one waited for
    /// changes nothing.
    pub open spec fn step(self, event: LocalEvent<T>) -> LocalState<T> {
        match event {
            LocalEvent::Run { key } => LocalState {
                resource: LocalResourceView {
                    key: key,
                    value: self.resource.value,
                    in_flight: Some(self.fetch_count + 1),
                },
                fetch_count: self.fetch_count + 1,
            },
            LocalEvent::Complete { ticket, value } => if self.accepts(ticket) {
                LocalState {
                    resource: LocalResourceView {
                        key: self.resource.key,
                        value: Some(value),
                        in_flight: None,
                    },
                    fetch_count: self.fetch_count,
                }
            } else {
                self
            },
        }
    }

    /// What the resource shows: nothing while a fetch is under way, else
    /// the value that last came back.
    pub open spec fn shown(self) -> ResourceState<T> {
        match (self.resource.in_flight, self.resource.value) {
            (None, Some(value)) => ResourceState::Ready(value),
            _ => ResourceState::Pending,
        }
    }

    /// The state after a sequence of events, first to last.
    pub open spec fn run(self, events: Seq<LocalEvent<T>>) -> LocalState<T>
        decreases events.len(),
    {
        if events.len() == 0 {
            self
        } else {
            self.step(events.first()).run(events.drop_first())
        }
    }

    /// How many of a sequence of events are runs.
    pub open spec fn computes(self, events: Seq<LocalEvent<T>>) -> nat
        decreases events.len(),
    {
        if events.len() == 0 {
            0
        } else {
            let rest = self.step(events.first()).computes(events.drop_first());
            if self.emits(events.first()) {
                rest + 1
            } else {
                rest
            }
        }
    }
}

/// The state that a resource and a counter make up.
pub open spec fn local_state<T>(resource: LocalResource<T>, fetch_count: u32) -> LocalState<T> {
    LocalState { resource: resource@, fetch_count: fetch_count as int }
}

impl<T> LocalResource<T> {
    /// Makes a resource on `key` and runs it for the first time.
    pub fn new(key: String, fetch_count: &mut u32) -> (out: (Self, FetchRequest))
        requires
            *old(fetch_count) < u32::MAX,
        ensures
            ({
                let before = LocalState::<T>::idle(key@, *old(fetch_count) as int);
                let event = LocalEvent::Run { key: key@ };
                &&& local_state(out.0, *final(fetch_count)) == before.step(event)
                &&& Some(out.1@) == before.request(event)
            }),
    {
        let mut resource = LocalResource { key: key.clone(), value: None, in_flight: None };
        let request = resource.run(fetch_count, key);
        (resource, request)
    }

    /// Runs the resource for `key`: counts a fetch and hands out its
    /// request, whatever the resource holds.
    pub fn run(&mut self, fetch_count: &mut u32, key: String) -> (request: FetchRequest)
        requires
            *old(fetch_count) < u32::MAX,
        ensures
            ({
                let before = local_state(*old(self), *old(fetch_count));
                let event = LocalEvent::Run { key: key@ };
                &&& local_state(*final(self), *final(fetch_count)) == before.step(event)
                &&& Some(request@) == before.request(event)
            }),
    {
        *fetch_count = count_fetch(*fetch_count);
        let request = FetchRequest { key: key.clone(), ticket: *fetch_count };
        self.key = key;
        self.in_flight = Some(*fetch_count);
        request
    }

    /// Runs the resource again for the key it has.
    pub fn refetch(&mut self, fetch_count: &mut u32) -> (request: FetchRequest)
        requires
            *old(fetch_count) < u32::MAX,
        ensures
            ({
                let before = local_state(*old(self), *old(fetch_count));
                let event = LocalEvent::Run { key: old(self)@.key };
                &&& local_state(*final(self), *final(fetch_count)) == before.step(event)
                &&& Some(request@) == before.request(event)
            }),
    {
        let key = self.key.clone();
        self.run(fetch_count, key)
    }

    /// Takes the result of the fetch with `ticket`. Where that is the fetch
    /// waited for, `value` becomes the value of the resource; else nothing
    /// changes. Says which.
    pub fn complete(&mut self, ticket: u32, value: T) -> (accepted: bool)
        ensures
            ({
                let before = local_state(*old(self), 0);
                &&& accepted == before.accepts(ticket as int)
                &&& local_state(*final(self), 0) == before.step(
                    LocalEvent::Complete { ticket: ticket as int, value },
                )
            }),
    {
        match self.in_flight {
            Some(waiting) => {
                if waiting == ticket {
                    self.value = Some(value);
                    self.in_flight = None;
                    return true;
                }
            },
            None => {},
        }
        false
    }

    /// What the resource shows.
    pub fn get(&self) -> (shown: ResourceState<&T>)
        ensures
            shown == match local_state(*self, 0).shown() {
                ResourceState::Ready(value) => ResourceState::Ready(&value),
                ResourceState::Pending => ResourceState::Pending,
            },
    {
        if self.in_flight.is_some() {
            return ResourceState::Pending;
        }
        match &self.value {
            Some(value) => ResourceState::Ready(value),
            None => ResourceState::Pending,
        }
    }

    /// The key that the resource was last run for.
    pub fn key(&self) -> (key: &String)
        ensures
            key@ == self@.key,
    {
        &self.key
    }

    /// The fetch that the resource is waiting for, if any.
    pub fn pending(&self) -> (request: Option<FetchRequest>)
        ensures
            request_view(request) == match self@.in_flight {
                Some(ticket) => Some(FetchRequestView { key: self@.key, ticket }),
                None => None,
            },
    {
        match self.in_flight {
            Some(ticket) => Some(FetchRequest { key: self.key.clone(), ticket }),
            None => None,
        }
    }
}

/// Mounts the panel that fetches through a plain resource: the resource is
/// made on `selected_id` and run at once, so `fetch_count` rises by one.
#[allow(non_snake_case)]
pub fn FetchByLocalResource(selected_id: String, fetch_count: &mut u32) -> (out: (
    LocalResource<ApiData>,
    FetchRequest,
))
    requires
        *old(fetch_count) < u32::MAX,
    ensures
        ({
            let before = LocalState::<ApiData>::idle(selected_id@, *old(fetch_count) as int);
            let event = LocalEvent::Run { key: selected_id@ };
            &&& local_state(out.0, *final(fetch_count)) == before.step(event)
            &&& Some(out.1@) == before.request(event)
        }),
{
    LocalResource::new(selected_id, fetch_count)
}

/// Lets the fetch that the panel is waiting for come back, with the record
/// that the API gives for the panel's key. Says whether a fetch was under
/// way; if none was, nothing changes.
pub fn resolve_local_resource(panel: &mut LocalResource<ApiData>) -> (resolved: bool)
    ensures
        resolved == (old(panel)@.in_flight is Some),
        !resolved ==> *final(panel) == *old(panel),
        resolved ==> {
            &&& final(panel)@.key == old(panel)@.key
            &&& final(panel)@.in_flight is None
            &&& final(panel)@.value is Some
            &&& final(panel)@.value->0@ == api_data_for(old(panel)@.key)
        },
{
    match panel.pending() {
        Some(request) => {
            let data = get_api_data(request.key);
            panel.complete(request.ticket, data)
        },
        None => false,
    }
}

/// A run supersedes the fetch under way for good: its ticket lies above
/// every ticket handed out before, so that only the result of the latest
/// run is ever taken.
pub proof fn lemma_local_run_supersedes<T>(state: LocalState<T>, key: Seq<char>)
    requires
        state.tickets_in_order(),
    ensures
        ({
            let after = state.step(LocalEvent::Run { key });
            &&& after.tickets_in_order()
            &&& after.accepts(state.fetch_count + 1)
            &&& forall|earlier: int| earlier <= state.fetch_count ==> !after.accepts(earlier)
            &&& after.shown() is Pending
        }),
{
}

/// The counter of a resource without a cache rises by one for each run in a
/// sequence of events, and by nothing else.
pub proof fn lemma_local_count_follows_runs<T>(state: LocalState<T>, events: Seq<LocalEvent<T>>)
    ensures
        state.run(events).fetch_count == state.fetch_count + state.computes(events),
    decreases events.len(),
{
    if events.len() > 0 {
        lemma_local_count_follows_runs(state.step(events.first()), events.drop_first());
    }
}

} // verus!
