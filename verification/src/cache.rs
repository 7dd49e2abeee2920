//! The query cache of one scope: for each key the value that was last
//! fetched, when it was stored, and whether it has been invalidated since;
//! and for each key of which a fetch is under way, the ticket of that fetch.
//!
//! The fetch under way is kept with the cache, not with whoever started it,
//! so that every reader of a key finds it and none fetches the key a
//! second time.
//!
//! Time is a count of milliseconds that the caller hands in with each
//! operation; the cache never reads a clock.

use crate::options::CacheOptions;
use vstd::prelude::*;

verus! {

/// A cached value, the time at which it was stored and the mark that an
/// invalidation leaves on it.
#[derive(Debug)]
pub struct Cached<V> {
    pub value: V,
    pub updated_at: u64,
    pub invalidated: bool,
}

impl<V> Cached<V> {
    /// The time that has passed at `now` since the value was stored; zero
    /// where `now` lies before that.
    pub open spec fn spec_age(&self, now: u64) -> u64 {
        if now >= self.updated_at {
            (now - self.updated_at) as u64
        } else {
            0
        }
    }

    /// A value is fresh while it has not been invalidated, its age is within
    /// the stale time, and the refetch interval, where there is one, has not
    /// run out.
    pub open spec fn spec_is_fresh(&self, now: u64, options: &CacheOptions) -> bool {
        &&& !self.invalidated
        &&& self.spec_age(now) <= options.stale_time()
        &&& match options.refetch_interval() {
            Some(interval) => self.spec_age(now) < interval,
            None => true,
        }
    }

    /// A value has expired once its age has reached the garbage-collection
    /// time.
    pub open spec fn spec_is_expired(&self, now: u64, options: &CacheOptions) -> bool {
        self.spec_age(now) >= options.gc_time()
    }

    /// The time that has passed at `now` since the value was stored.
    #[verifier::when_used_as_spec(spec_age)]
    pub fn age(&self, now: u64) -> (age: u64)
        ensures
            age == self.spec_age(now),
    {
        if now >= self.updated_at {
            now - self.updated_at
        } else {
            0
        }
    }

    /// Whether the value is fresh at `now` under `options`.
    #[verifier::when_used_as_spec(spec_is_fresh)]
    pub fn is_fresh(&self, now: u64, options: &CacheOptions) -> (fresh: bool)
        ensures
            fresh == self.spec_is_fresh(now, options),
    {
        let age = self.age(now);
        let within_interval = match options.refetch_interval() {
            Some(interval) => age < interval,
            None => true,
        };
        !self.invalidated && age <= options.stale_time() && within_interval
    }

    /// Whether the value has expired at `now` under `options`.
    #[verifier::when_used_as_spec(spec_is_expired)]
    pub fn is_expired(&self, now: u64, options: &CacheOptions) -> (expired: bool)
        ensures
            expired == self.spec_is_expired(now, options),
    {
        self.age(now) >= options.gc_time()
    }
}

/// Whether `cache` holds a fresh value for `key` at `now` under `options`.
pub open spec fn holds_fresh<V>(
    cache: Map<Seq<char>, Cached<V>>,
    key: Seq<char>,
    now: u64,
    options: &CacheOptions,
) -> bool {
    cache.contains_key(key) && cache[key].is_fresh(now, options)
}

/// What the cache holds for `key` once `value` has been stored at `now`.
pub open spec fn stored<V>(value: V, now: u64) -> Cached<V> {
    Cached { value: value, updated_at: now, invalidated: false }
}

/// The cache after an invalidation of `key`: the entry, if there is one,
/// carries the mark; nothing else changes.
pub open spec fn invalidated<V>(cache: Map<Seq<char>, Cached<V>>, key: Seq<char>) -> Map<
    Seq<char>,
    Cached<V>,
> {
    if cache.contains_key(key) {
        cache.insert(
            key,
            Cached {
                value: cache[key].value,
                updated_at: cache[key].updated_at,
                invalidated: true,
            },
        )
    } else {
        cache
    }
}

/// Whether garbage collection at `now` keeps the entry under `key`: it does
/// if the key is in use or the value has not expired.
pub open spec fn survives<V>(
    cache: Map<Seq<char>, Cached<V>>,
    key: Seq<char>,
    now: u64,
    options: &CacheOptions,
    active: Option<Seq<char>>,
) -> bool {
    cache.contains_key(key) && (active == Some(key) || !cache[key].is_expired(now, options))
}

/// The cache after garbage collection at `now`.
pub open spec fn collected<V>(
    cache: Map<Seq<char>, Cached<V>>,
    now: u64,
    options: &CacheOptions,
    active: Option<Seq<char>>,
) -> Map<Seq<char>, Cached<V>> {
    Map::new(|key: Seq<char>| survives(cache, key, now, options, active), |key: Seq<char>| cache[key])
}

/// Whether the fetch of `key` that is under way carries `ticket`.
pub open spec fn awaits(fetching: Map<Seq<char>, int>, key: Seq<char>, ticket: int) -> bool {
    fetching.contains_key(key) && fetching[key] == ticket
}

#[derive(Debug)]
struct Slot<T> {
    key: String,
    item: T,
}

spec fn distinct_keys<T>(slots: Seq<Slot<T>>) -> bool {
    forall|i: int, j: int| 0 <= i < j < slots.len() ==> slots[i].key@ != slots[j].key@
}

spec fn is_position<T>(slots: Seq<Slot<T>>, key: Seq<char>, i: int) -> bool {
    0 <= i < slots.len() && slots[i].key@ == key
}

spec fn position<T>(slots: Seq<Slot<T>>, key: Seq<char>) -> int {
    choose|i: int| is_position(slots, key, i)
}

spec fn contents<T>(slots: Seq<Slot<T>>) -> Map<Seq<char>, T> {
    Map::new(
        |key: Seq<char>| exists|i: int| is_position(slots, key, i),
        |key: Seq<char>| slots[position(slots, key)].item,
    )
}

proof fn lemma_slot<T>(slots: Seq<Slot<T>>, i: int)
    requires
        distinct_keys(slots),
        0 <= i < slots.len(),
    ensures
        contents(slots).contains_key(slots[i].key@),
        contents(slots)[slots[i].key@] == slots[i].item,
{
    let key = slots[i].key@;
    assert(is_position(slots, key, i));
    let p = position(slots, key);
    assert(is_position(slots, key, p));
    assert(p == i);
}

proof fn lemma_absent<T>(slots: Seq<Slot<T>>, key: Seq<char>)
    requires
        forall|i: int| 0 <= i < slots.len() ==> slots[i].key@ != key,
    ensures
        !contents(slots).contains_key(key),
{
    assert forall|i: int| !is_position(slots, key, i) by {}
}

proof fn lemma_push<T>(slots: Seq<Slot<T>>, slot: Slot<T>)
    requires
        distinct_keys(slots),
        !contents(slots).contains_key(slot.key@),
    ensures
        distinct_keys(slots.push(slot)),
        contents(slots.push(slot)) == contents(slots).insert(slot.key@, slot.item),
{
    let after = slots.push(slot);
    assert forall|i: int| 0 <= i < slots.len() implies slots[i].key@ != slot.key@ by {
        assert(is_position(slots, slots[i].key@, i));
    }
    assert(distinct_keys(after));
    assert forall|key: Seq<char>|
        contents(after).contains_key(key) <==> #[trigger] contents(slots).insert(
            slot.key@,
            slot.item,
        ).contains_key(key) by {
        if contents(after).contains_key(key) {
            let i = choose|i: int| is_position(after, key, i);
            if i < slots.len() {
                assert(is_position(slots, key, i));
            }
        }
        if contents(slots).contains_key(key) {
            let i = choose|i: int| is_position(slots, key, i);
            assert(is_position(after, key, i));
        }
        if key == slot.key@ {
            assert(is_position(after, key, slots.len() as int));
        }
    }
    assert forall|key: Seq<char>| contents(after).contains_key(key) implies contents(after)[key]
        == contents(slots).insert(slot.key@, slot.item)[key] by {
        let i = choose|i: int| is_position(after, key, i);
        lemma_slot(after, i);
        if i < slots.len() {
            lemma_slot(slots, i);
        }
    }
    assert(contents(after) =~= contents(slots).insert(slot.key@, slot.item));
}

proof fn lemma_update<T>(slots: Seq<Slot<T>>, i: int, slot: Slot<T>)
    requires
        distinct_keys(slots),
        0 <= i < slots.len(),
        slot.key@ == slots[i].key@,
    ensures
        distinct_keys(slots.update(i, slot)),
        contents(slots.update(i, slot)) == contents(slots).insert(slot.key@, slot.item),
{
    let after = slots.update(i, slot);
    assert(distinct_keys(after));
    assert forall|key: Seq<char>|
        contents(after).contains_key(key) <==> #[trigger] contents(slots).insert(
            slot.key@,
            slot.item,
        ).contains_key(key) by {
        if contents(after).contains_key(key) {
            let j = choose|j: int| is_position(after, key, j);
            assert(is_position(slots, key, j));
        }
        if contents(slots).contains_key(key) {
            let j = choose|j: int| is_position(slots, key, j);
            assert(is_position(after, key, j));
        }
        if key == slot.key@ {
            assert(is_position(after, key, i));
        }
    }
    assert forall|key: Seq<char>| contents(after).contains_key(key) implies contents(after)[key]
        == contents(slots).insert(slot.key@, slot.item)[key] by {
        let j = choose|j: int| is_position(after, key, j);
        lemma_slot(after, j);
        lemma_slot(slots, j);
    }
    assert(contents(after) =~= contents(slots).insert(slot.key@, slot.item));
}

proof fn lemma_remove<T>(slots: Seq<Slot<T>>, i: int)
    requires
        distinct_keys(slots),
        0 <= i < slots.len(),
    ensures
        distinct_keys(slots.remove(i)),
        contents(slots.remove(i)) == contents(slots).remove(slots[i].key@),
{
    let after = slots.remove(i);
    let removed = slots[i].key@;
    assert forall|a: int, b: int| 0 <= a < b < after.len() implies after[a].key@
        != after[b].key@ by {
        let a0 = if a < i { a } else { a + 1 };
        let b0 = if b < i { b } else { b + 1 };
        assert(after[a] == slots[a0]);
        assert(after[b] == slots[b0]);
    }
    assert forall|key: Seq<char>|
        contents(after).contains_key(key) <==> #[trigger] contents(slots).remove(
            removed,
        ).contains_key(key) by {
        if contents(after).contains_key(key) {
            let j = choose|j: int| is_position(after, key, j);
            let j0 = if j < i { j } else { j + 1 };
            assert(after[j] == slots[j0]);
            assert(is_position(slots, key, j0));
        }
        if contents(slots).contains_key(key) && key != removed {
            let j = choose|j: int| is_position(slots, key, j);
            let j1 = if j < i { j } else { j - 1 };
            assert(after[j1] == slots[j]);
            assert(is_position(after, key, j1));
        }
    }
    assert forall|key: Seq<char>| contents(after).contains_key(key) implies contents(after)[key]
        == contents(slots).remove(removed)[key] by {
        let j = choose|j: int| is_position(after, key, j);
        let j0 = if j < i { j } else { j + 1 };
        assert(after[j] == slots[j0]);
        lemma_slot(after, j);
        lemma_slot(slots, j0);
    }
    assert(contents(after) =~= contents(slots).remove(removed));
}

/// The cached values of one scope, by key, and the tickets of the fetches
/// under way, by key. No key occurs twice in either.
#[derive(Debug)]
pub struct QueryCache<V> {
    slots: Vec<Slot<Cached<V>>>,
    tickets: Vec<Slot<u32>>,
}

impl<V> View for QueryCache<V> {
    type V = Map<Seq<char>, Cached<V>>;

    closed spec fn view(&self) -> Map<Seq<char>, Cached<V>> {
        contents(self.slots@)
    }
}

spec fn as_ints(tickets: Map<Seq<char>, u32>) -> Map<Seq<char>, int> {
    Map::new(|key: Seq<char>| tickets.contains_key(key), |key: Seq<char>| tickets[key] as int)
}

fn find_slot<T>(slots: &Vec<Slot<T>>, key: &String) -> (found: Option<usize>)
    requires
        distinct_keys(slots@),
    ensures
        match found {
            Some(i) => i < slots@.len() && slots@[i as int].key@ == key@ && contents(
                slots@,
            ).contains_key(key@) && contents(slots@)[key@] == slots@[i as int].item,
            None => !contents(slots@).contains_key(key@),
        },
{
    let mut i: usize = 0;
    while i < slots.len()
        invariant
            i <= slots@.len(),
            distinct_keys(slots@),
            forall|j: int| 0 <= j < i ==> slots@[j].key@ != key@,
        decreases slots@.len() - i,
    {
        if slots[i].key == *key {
            proof {
                lemma_slot(slots@, i as int);
            }
            return Some(i);
        }
        i += 1;
    }
    proof {
        lemma_absent(slots@, key@);
    }
    None
}

impl<V> QueryCache<V> {
    #[verifier::type_invariant]
    spec fn well_formed(self) -> bool {
        distinct_keys(self.slots@) && distinct_keys(self.tickets@)
    }

    /// The fetches under way: for each key that is being fetched, the
    /// ticket of its fetch. One key has at most one.
    pub closed spec fn fetching(&self) -> Map<Seq<char>, int> {
        as_ints(contents(self.tickets@))
    }

    /// An empty cache with no fetch under way.
    pub fn new() -> (cache: Self)
        ensures
            cache@ == Map::<Seq<char>, Cached<V>>::empty(),
            cache.fetching() == Map::<Seq<char>, int>::empty(),
    {
        let cache = QueryCache { slots: Vec::new(), tickets: Vec::new() };
        proof {
            lemma_absent_all(cache.slots@);
            lemma_absent_all(cache.tickets@);
            assert(cache.fetching() =~= Map::<Seq<char>, int>::empty());
        }
        cache
    }

    /// What the cache holds for `key`, if anything.
    pub fn get(&self, key: &String) -> (found: Option<&Cached<V>>)
        ensures
            match found {
                Some(cached) => self@.contains_key(key@) && *cached == self@[key@],
                None => !self@.contains_key(key@),
            },
    {
        proof {
            use_type_invariant(self);
        }
        match find_slot(&self.slots, key) {
            Some(i) => Some(&self.slots[i].item),
            None => None,
        }
    }

    /// Whether the cache holds a value for `key`.
    pub fn contains_key(&self, key: &String) -> (held: bool)
        ensures
            held == self@.contains_key(key@),
    {
        self.get(key).is_some()
    }

    /// Whether the cache holds a value for `key` that is fresh at `now`
    /// under `options`.
    pub fn is_fresh(&self, key: &String, now: u64, options: &CacheOptions) -> (fresh: bool)
        ensures
            fresh == holds_fresh(self@, key@, now, options),
    {
        match self.get(key) {
            Some(cached) => cached.is_fresh(now, options),
            None => false,
        }
    }

    /// The ticket of the fetch of `key` that is under way, if one is.
    pub fn fetching_ticket(&self, key: &String) -> (ticket: Option<u32>)
        ensures
            match ticket {
                Some(t) => awaits(self.fetching(), key@, t as int),
                None => !self.fetching().contains_key(key@),
            },
    {
        proof {
            use_type_invariant(self);
        }
        match find_slot(&self.tickets, key) {
            Some(i) => Some(self.tickets[i].item),
            None => None,
        }
    }

    /// Notes that a fetch of `key` is under way with `ticket`, in place of
    /// the fetch of `key` that was under way, if one was. The values stay
    /// as they are.
    pub fn begin_fetch(&mut self, key: String, ticket: u32)
        ensures
            final(self).fetching() == old(self).fetching().insert(key@, ticket as int),
            final(self)@ == old(self)@,
    {
        proof {
            use_type_invariant(&*self);
        }
        let slot = Slot { key, item: ticket };
        let found = find_slot(&self.tickets, &slot.key);
        let mut tickets = self.take_tickets();
        match found {
            Some(i) => {
                proof {
                    lemma_update(tickets@, i as int, slot);
                }
                tickets.set(i, slot);
            },
            None => {
                proof {
                    lemma_push(tickets@, slot);
                }
                tickets.push(slot);
            },
        }
        self.tickets = tickets;
        proof {
            assert(self.fetching() =~= old(self).fetching().insert(slot.key@, ticket as int));
        }
    }

    /// Takes the result of the fetch of `key` that went out with `ticket`.
    /// Where that fetch is the one under way for `key`, `value` is stored
    /// under `key` as fetched at `now` and the fetch is over; where another
    /// fetch of `key` has taken its place, or none is under way, nothing
    /// changes. Says which.
    pub fn complete(&mut self, key: String, ticket: u32, value: V, now: u64) -> (accepted: bool)
        ensures
            accepted == awaits(old(self).fetching(), key@, ticket as int),
            accepted ==> final(self)@ == old(self)@.insert(key@, stored(value, now))
                && final(self).fetching() == old(self).fetching().remove(key@),
            !accepted ==> final(self)@ == old(self)@ && final(self).fetching() == old(
                self,
            ).fetching(),
    {
        proof {
            use_type_invariant(&*self);
        }
        match find_slot(&self.tickets, &key) {
            Some(i) => {
                if self.tickets[i].item == ticket {
                    let mut tickets = self.take_tickets();
                    proof {
                        lemma_remove(tickets@, i as int);
                    }
                    tickets.remove(i);
                    self.tickets = tickets;
                    proof {
                        assert(self.fetching() =~= old(self).fetching().remove(key@));
                    }
                    self.insert(key, value, now);
                    true
                } else {
                    false
                }
            },
            None => false,
        }
    }

    /// Stores `value` under `key` as fetched at `now`, in place of what was
    /// there. The stored value carries no invalidation mark. The fetches
    /// under way stay as they are.
    pub fn insert(&mut self, key: String, value: V, now: u64)
        ensures
            final(self)@ == old(self)@.insert(key@, stored(value, now)),
            final(self).fetching() == old(self).fetching(),
    {
        proof {
            use_type_invariant(&*self);
        }
        let slot = Slot { key, item: Cached { value, updated_at: now, invalidated: false } };
        let found = find_slot(&self.slots, &slot.key);
        let mut slots = self.take_slots();
        match found {
            Some(i) => {
                proof {
                    lemma_update(slots@, i as int, slot);
                }
                slots.set(i, slot);
            },
            None => {
                proof {
                    lemma_push(slots@, slot);
                }
                slots.push(slot);
            },
        }
        self.slots = slots;
    }

    /// Marks the value under `key` as invalidated, so that it no longer
    /// counts as fresh. Says whether there was such a value. The fetches
    /// under way stay as they are.
    pub fn invalidate(&mut self, key: &String) -> (found: bool)
        ensures
            found == old(self)@.contains_key(key@),
            final(self)@ == invalidated(old(self)@, key@),
            final(self).fetching() == old(self).fetching(),
    {
        proof {
            use_type_invariant(&*self);
        }
        match find_slot(&self.slots, key) {
            Some(i) => {
                let mut slots = self.take_slots();
                let ghost before = slots@;
                slots[i].item.invalidated = true;
                proof {
                    assert(slots@ == before.update(i as int, slots@[i as int]));
                    lemma_update(before, i as int, slots@[i as int]);
                }
                self.slots = slots;
                true
            },
            None => false,
        }
    }

    /// Drops every value that has expired at `now` under `options`, but for
    /// the one under `active`, the key that is in use. The fetches under
    /// way stay as they are.
    pub fn collect_garbage(&mut self, now: u64, options: &CacheOptions, active: Option<&String>)
        ensures
            final(self)@ == collected(
                old(self)@,
                now,
                options,
                match active {
                    Some(key) => Some(key@),
                    None => None,
                },
            ),
            final(self).fetching() == old(self).fetching(),
    {
        proof {
            use_type_invariant(&*self);
        }
        let ghost in_use: Option<Seq<char>> = match active {
            Some(key) => Some(key@),
            None => None,
        };
        let ghost before = self@;
        let mut slots = self.take_slots();
        let mut i: usize = 0;
        while i < slots.len()
            invariant
                i <= slots@.len(),
                distinct_keys(slots@),
                in_use == match active {
                    Some(key) => Some(key@),
                    None => None,
                },
                forall|j: int|
                    0 <= j < i ==> survives(before, #[trigger] slots@[j].key@, now, options, in_use),
                forall|key: Seq<char>| #[trigger]
                    contents(slots@).contains_key(key) ==> before.contains_key(key) && contents(
                        slots@,
                    )[key] == before[key],
                forall|key: Seq<char>|
                    survives(before, key, now, options, in_use) ==> #[trigger] contents(
                        slots@,
                    ).contains_key(key),
            decreases slots@.len() - i,
        {
            let in_active = match active {
                Some(key) => slots[i].key == *key,
                None => false,
            };
            proof {
                lemma_slot(slots@, i as int);
            }
            if !in_active && slots[i].item.is_expired(now, options) {
                proof {
                    lemma_remove(slots@, i as int);
                }
                slots.remove(i);
            } else {
                i += 1;
            }
        }
        proof {
            assert forall|key: Seq<char>| contents(slots@).contains_key(key) implies survives(
                before,
                key,
                now,
                options,
                in_use,
            ) by {
                let j = choose|j: int| is_position(slots@, key, j);
                assert(slots@[j].key@ == key);
            }
            assert(contents(slots@) =~= collected(before, now, options, in_use));
        }
        self.slots = slots;
    }

    /// Moves the slots out and leaves none behind.
    fn take_slots(&mut self) -> (slots: Vec<Slot<Cached<V>>>)
        ensures
            slots == old(self).slots,
            final(self).slots@.len() == 0,
            final(self).tickets == old(self).tickets,
    {
        proof {
            use_type_invariant(&*self);
        }
        let mut slots = Vec::new();
        core::mem::swap(&mut self.slots, &mut slots);
        slots
    }

    /// Moves the tickets out and leaves none behind.
    fn take_tickets(&mut self) -> (tickets: Vec<Slot<u32>>)
        ensures
            tickets == old(self).tickets,
            final(self).tickets@.len() == 0,
            final(self).slots == old(self).slots,
    {
        proof {
            use_type_invariant(&*self);
        }
        let mut tickets = Vec::new();
        core::mem::swap(&mut self.tickets, &mut tickets);
        tickets
    }
}

proof fn lemma_absent_all<T>(slots: Seq<Slot<T>>)
    requires
        slots.len() == 0,
    ensures
        contents(slots) == Map::<Seq<char>, T>::empty(),
{
    assert forall|key: Seq<char>| !contents(slots).contains_key(key) by {
        lemma_absent(slots, key);
    }
    assert(contents(slots) =~= Map::<Seq<char>, T>::empty());
}

} // verus!
