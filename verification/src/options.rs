//! Cache policy: how long a cached value stays fresh, how long an unused one
//! is kept, and how often a value in use is fetched again.
//!
//! `CacheOptions` holds, in whole milliseconds, what
//! `leptos_fetch::QueryOptions` holds as durations, and its builders follow
//! the same rules, so that an application can hand the policy on unchanged.

use vstd::prelude::*;

verus! {

/// The stale time of options on which none was set: never stale.
pub const DEFAULT_STALE_TIME: u64 = 0xffff_ffff_ffff_ffff;

/// The garbage-collection time of options on which none was set: five
/// minutes.
pub const DEFAULT_GC_TIME: u64 = 300_000;

/// The policy of one cache scope: what was set of it, in milliseconds.
#[derive(Clone, Copy, Debug, PartialEq, Eq)]
pub struct CacheOptions {
    /// The time after which a cached value counts as stale, if one was set.
    pub stale_time: Option<u64>,
    /// The time after which an unused cached value may be dropped, if one
    /// was set.
    pub gc_time: Option<u64>,
    /// The interval after which a value in use is fetched again, if one was
    /// set.
    pub refetch_interval: Option<u64>,
}

impl CacheOptions {
    /// A stale time that was set does not exceed a garbage-collection time
    /// that was set. The builders keep it so.
    pub open spec fn well_formed(&self) -> bool {
        (self.stale_time is Some && self.gc_time is Some) ==> self.stale_time->0
            <= self.gc_time->0
    }

    /// Options on which nothing was set.
    pub open spec fn spec_new() -> CacheOptions {
        CacheOptions { stale_time: None, gc_time: None, refetch_interval: None }
    }

    /// The options with the stale time set to `stale_time`, or to the
    /// garbage-collection time where one was set and `stale_time` exceeds
    /// it.
    pub open spec fn spec_with_stale_time(self, stale_time: u64) -> CacheOptions {
        CacheOptions {
            stale_time: Some(
                match self.gc_time {
                    Some(gc) => if stale_time > gc {
                        gc
                    } else {
                        stale_time
                    },
                    None => stale_time,
                },
            ),
            gc_time: self.gc_time,
            refetch_interval: self.refetch_interval,
        }
    }

    /// The options with the garbage-collection time set to `gc_time`; but
    /// where a stale time was set and exceeds `gc_time`, the stale time is
    /// lowered to `gc_time` instead and the garbage-collection time stays
    /// as it was.
    pub open spec fn spec_with_gc_time(self, gc_time: u64) -> CacheOptions {
        if self.stale_time is Some && self.stale_time->0 > gc_time {
            CacheOptions {
                stale_time: Some(gc_time),
                gc_time: self.gc_time,
                refetch_interval: self.refetch_interval,
            }
        } else {
            CacheOptions {
                stale_time: self.stale_time,
                gc_time: Some(gc_time),
                refetch_interval: self.refetch_interval,
            }
        }
    }

    /// The options with the refetch interval set to `refetch_interval`.
    pub open spec fn spec_with_refetch_interval(self, refetch_interval: u64) -> CacheOptions {
        CacheOptions {
            stale_time: self.stale_time,
            gc_time: self.gc_time,
            refetch_interval: Some(refetch_interval),
        }
    }

    /// The time after which a cached value counts as stale: what was set,
    /// or never.
    pub open spec fn spec_stale_time(&self) -> u64 {
        match self.stale_time {
            Some(time) => time,
            None => DEFAULT_STALE_TIME,
        }
    }

    /// The time after which an unused cached value may be dropped: what was
    /// set, or five minutes.
    pub open spec fn spec_gc_time(&self) -> u64 {
        match self.gc_time {
            Some(time) => time,
            None => DEFAULT_GC_TIME,
        }
    }

    /// The interval after which a cached value in use is fetched again, if
    /// there is one.
    pub open spec fn spec_refetch_interval(&self) -> Option<u64> {
        self.refetch_interval
    }

    /// Options on which nothing was set.
    #[verifier::when_used_as_spec(spec_new)]
    pub fn new() -> (options: Self)
        ensures
            options == Self::spec_new(),
            options.well_formed(),
    {
        CacheOptions { stale_time: None, gc_time: None, refetch_interval: None }
    }

    /// Sets the stale time. Where a garbage-collection time was set and
    /// `stale_time` exceeds it, the stale time becomes that time instead.
    #[verifier::when_used_as_spec(spec_with_stale_time)]
    pub fn with_stale_time(self, stale_time: u64) -> (options: Self)
        ensures
            options == self.spec_with_stale_time(stale_time),
            options.well_formed(),
    {
        let stale_time = match self.gc_time {
            Some(gc) => if stale_time > gc {
                gc
            } else {
                stale_time
            },
            None => stale_time,
        };
        CacheOptions {
            stale_time: Some(stale_time),
            gc_time: self.gc_time,
            refetch_interval: self.refetch_interval,
        }
    }

    /// Sets the garbage-collection time. Where a stale time was set and
    /// exceeds `gc_time`, the stale time is lowered to `gc_time` and the
    /// garbage-collection time stays as it was.
    #[verifier::when_used_as_spec(spec_with_gc_time)]
    pub fn with_gc_time(self, gc_time: u64) -> (options: Self)
        ensures
            options == self.spec_with_gc_time(gc_time),
            self.well_formed() ==> options.well_formed(),
    {
        match self.stale_time {
            Some(stale) => {
                if stale > gc_time {
                    return CacheOptions {
                        stale_time: Some(gc_time),
                        gc_time: self.gc_time,
                        refetch_interval: self.refetch_interval,
                    };
                }
            },
            None => {},
        }
        CacheOptions {
            stale_time: self.stale_time,
            gc_time: Some(gc_time),
            refetch_interval: self.refetch_interval,
        }
    }

    /// Sets the refetch interval.
    #[verifier::when_used_as_spec(spec_with_refetch_interval)]
    pub fn with_refetch_interval(self, refetch_interval: u64) -> (options: Self)
        ensures
            options == self.spec_with_refetch_interval(refetch_interval),
            self.well_formed() ==> options.well_formed(),
    {
        CacheOptions {
            stale_time: self.stale_time,
            gc_time: self.gc_time,
            refetch_interval: Some(refetch_interval),
        }
    }

    /// The time after which a cached value counts as stale.
    #[verifier::when_used_as_spec(spec_stale_time)]
    pub fn stale_time(&self) -> (time: u64)
        ensures
            time == self.spec_stale_time(),
    {
        match self.stale_time {
            Some(time) => time,
            None => DEFAULT_STALE_TIME,
        }
    }

    /// The time after which an unused cached value may be dropped.
    #[verifier::when_used_as_spec(spec_gc_time)]
    pub fn gc_time(&self) -> (time: u64)
        ensures
            time == self.spec_gc_time(),
    {
        match self.gc_time {
            Some(time) => time,
            None => DEFAULT_GC_TIME,
        }
    }

    /// The interval after which a cached value in use is fetched again.
    #[verifier::when_used_as_spec(spec_refetch_interval)]
    pub fn refetch_interval(&self) -> (interval: Option<u64>)
        ensures
            interval == self.spec_refetch_interval(),
    {
        self.refetch_interval
    }
}

impl Default for CacheOptions {
    fn default() -> (options: Self)
        ensures
            options == CacheOptions::new(),
    {
        CacheOptions::new()
    }
}

} // verus!
