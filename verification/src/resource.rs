//! A wrapper around the cache-backed resource with one uniform contract:
//! the value it shows, and a forced refetch.

mod wrapper_local_resource;

pub use wrapper_local_resource::{
    data_resource, new_wrapper_state, wrapper_state, WrapperLocalResource,
};
