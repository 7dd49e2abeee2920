//! A fetch-and-cache demo as explicit state: a mock API, a query cache with
//! a staleness policy, three fetch panels, and the shell that owns their
//! counters and caches.
//!
//! Nothing here reads a clock or waits: time is handed in, and a fetch that
//! is due is handed out as a request and handed back when it is done.

pub mod api;
pub mod cache;
pub mod components;
pub mod options;
pub mod query;
pub mod resource;
pub mod shell;

use crate::shell::{AppShell, AppShellView};
use vstd::prelude::*;

verus! {

/// Starts the application: the key is "initial_id", no panel is mounted and
/// nothing has been fetched.
pub fn example_app() -> (shell: AppShell)
    ensures
        shell@ == AppShellView::initial(),
        shell@.well_formed(),
{
    AppShell::new()
}

} // verus!
