//! The idempotency coordinator: callers that share a key are coalesced. The
//! first becomes the owner of the action, the others wait for its result,
//! and later ones within the time to live get the cached value.
//!
//! The store is the state behind one lock. Times are nanoseconds on a clock
//! of the caller's choosing; a waiter is whatever the caller resolves a
//! pending call with (the sending half of a one-shot channel, say).

use crate::string_map::StringMap;
use vstd::prelude::*;

verus! {

/// An owner that has not completed within this many nanoseconds is taken to
/// be gone, and its entry is dropped.
pub const IN_FLIGHT_MAX_AGE: u64 = 60_000_000_000;

/// What the store keeps for one key.
pub enum Entry<V, W> {
    InFlight { started_at: u64, waiters: Vec<W> },
    Done { expires_at: u128, value: V },
}

/// What `begin` tells its caller.
pub enum Begin<V> {
    /// The caller runs the action and must call `complete`.
    Owner,
    /// The action has run: here is its value.
    Done(V),
    /// The action is running: the caller's waiter was registered.
    Wait,
}

/// What `complete` hands back: the waiters to resolve, in the order in which
/// they registered, and the result that each of them gets.
pub struct Completion<V, W> {
    pub waiters: Vec<W>,
    pub result: Result<V, String>,
}

/// The mathematical value of an entry.
pub enum EntryModel<V, W> {
    InFlight { started_at: u64, waiters: Seq<W> },
    Done { expires_at: int, value: V },
}

/// The answer of `begin`, without the cloning.
pub enum BeginOutcome<V> {
    Owner,
    Done(V),
    Wait,
}

pub type StoreModel<V, W> = Map<Seq<char>, EntryModel<V, W>>;

pub open spec fn entry_model<V, W>(entry: Entry<V, W>) -> EntryModel<V, W> {
    match entry {
        Entry::InFlight { started_at, waiters } => EntryModel::InFlight {
            started_at,
            waiters: waiters@,
        },
        Entry::Done { expires_at, value } => EntryModel::Done {
            expires_at: expires_at as int,
            value,
        },
    }
}

/// The time that has passed at `now` since `since`; none, if `since` is later.
pub open spec fn elapsed(now: u64, since: u64) -> int {
    if now >= since {
        now - since
    } else {
        0
    }
}

/// Whether an entry is kept at time `now`: a value until it expires, a
/// running action while it is younger than the bound.
pub open spec fn entry_is_live<V, W>(entry: EntryModel<V, W>, now: u64) -> bool {
    match entry {
        EntryModel::Done { expires_at, .. } => expires_at > now,
        EntryModel::InFlight { started_at, .. } => elapsed(now, started_at) < IN_FLIGHT_MAX_AGE,
    }
}

/// The store without the entries that are no longer live at `now`.
pub open spec fn purged<V, W>(m: StoreModel<V, W>, now: u64) -> StoreModel<V, W> {
    Map::new(|k: Seq<char>| m.contains_key(k) && entry_is_live(m[k], now), |k: Seq<char>| m[k])
}

/// What `begin(key)` answers at time `now`.
pub open spec fn begin_outcome<V, W>(m: StoreModel<V, W>, key: Seq<char>, now: u64)
    -> BeginOutcome<V> {
    let live = purged(m, now);
    if !live.contains_key(key) {
        BeginOutcome::Owner
    } else {
        match live[key] {
            EntryModel::Done { value, .. } => BeginOutcome::Done(value),
            EntryModel::InFlight { .. } => BeginOutcome::Wait,
        }
    }
}

/// The store after `begin(key)` at time `now` by a caller that brought `waiter`.
pub open spec fn after_begin<V, W>(m: StoreModel<V, W>, key: Seq<char>, now: u64, waiter: W)
    -> StoreModel<V, W> {
    let live = purged(m, now);
    if !live.contains_key(key) {
        live.insert(key, EntryModel::InFlight { started_at: now, waiters: Seq::empty() })
    } else {
        match live[key] {
            EntryModel::Done { .. } => live,
            EntryModel::InFlight { started_at, waiters } => live.insert(
                key,
                EntryModel::InFlight { started_at, waiters: waiters.push(waiter) },
            ),
        }
    }
}

/// The waiters that `complete(key)` resolves.
pub open spec fn completion_waiters<V, W>(m: StoreModel<V, W>, key: Seq<char>) -> Seq<W> {
    if m.contains_key(key) {
        match m[key] {
            EntryModel::InFlight { waiters, .. } => waiters,
            EntryModel::Done { .. } => Seq::empty(),
        }
    } else {
        Seq::empty()
    }
}

/// The store once the entry of `key` is replaced by what a completion
/// leaves: a value that expires `ttl` after `now` on success, nothing on
/// failure.
pub open spec fn installed<V, W>(
    m: StoreModel<V, W>,
    key: Seq<char>,
    value: Option<V>,
    now: u64,
    ttl: u64,
) -> StoreModel<V, W> {
    match value {
        Some(v) => m.remove(key).insert(key, EntryModel::Done { expires_at: now + ttl, value: v }),
        None => m.remove(key),
    }
}

/// The store after `complete(key, result)` at time `now`, where `value` is
/// the value of a success. Beyond `max_entries` entries the store is swept.
pub open spec fn after_complete<V, W>(
    m: StoreModel<V, W>,
    key: Seq<char>,
    value: Option<V>,
    now: u64,
    ttl: u64,
    max_entries: usize,
) -> StoreModel<V, W> {
    let next = installed(m, key, value, now, ttl);
    if next.dom().len() > max_entries {
        purged(next, now)
    } else {
        next
    }
}

/// The value of a success, if `result` is one.
pub open spec fn success_value<V>(result: Result<V, String>) -> Option<V> {
    match result {
        Ok(v) => Some(v),
        Err(_) => None,
    }
}

/// Whether `copy` is what cloning `result` gives.
pub open spec fn result_cloned<V: Clone>(result: Result<V, String>, copy: Result<V, String>)
    -> bool {
    match (result, copy) {
        (Ok(a), Ok(b)) => cloned(a, b),
        (Err(a), Err(b)) => a@ == b@,
        _ => false,
    }
}

pub struct IdempotencyStore<V, W> {
    entries: StringMap<Entry<V, W>>,
    ttl: u64,
    max_entries: usize,
}

impl<V, W> View for IdempotencyStore<V, W> {
    type V = StoreModel<V, W>;

    closed spec fn view(&self) -> StoreModel<V, W> {
        Map::new(
            |k: Seq<char>| self.entries@.contains_key(k),
            |k: Seq<char>| entry_model(self.entries@[k]),
        )
    }
}

fn is_live<V, W>(entry: &Entry<V, W>, now: u64) -> (r: bool)
    ensures
        r == entry_is_live(entry_model(*entry), now),
{
    match entry {
        Entry::Done { expires_at, .. } => *expires_at > now as u128,
        Entry::InFlight { started_at, .. } => {
            let age: u64 = if now >= *started_at {
                now - *started_at
            } else {
                0
            };
            age < IN_FLIGHT_MAX_AGE
        },
    }
}

impl<V: Clone, W> IdempotencyStore<V, W> {
    /// The time to live of a cached value, in nanoseconds.
    pub closed spec fn ttl(&self) -> u64 {
        self.ttl
    }

    /// The number of entries beyond which the store is swept.
    pub closed spec fn max_entries(&self) -> usize {
        self.max_entries
    }

    pub fn new(ttl: u64, max_entries: usize) -> (out: Self)
        ensures
            out@ == Map::<Seq<char>, EntryModel<V, W>>::empty(),
            out.ttl() == ttl,
            out.max_entries() == max_entries,
    {
        let out = IdempotencyStore { entries: StringMap::new(), ttl, max_entries };
        assert(out@ =~= Map::<Seq<char>, EntryModel<V, W>>::empty());
        out
    }

    /// The number of keys that the store holds.
    pub fn len(&self) -> (n: usize)
        ensures
            self@.dom().finite(),
            n == self@.dom().len(),
    {
        let n = self.entries.len();
        assert(self@.dom() =~= self.entries@.dom());
        n
    }

    /// Drops every entry that is no longer live at `now`.
    pub fn purge_expired(&mut self, now: u64)
        ensures
            final(self)@ == purged(old(self)@, now),
            final(self).ttl() == old(self).ttl(),
            final(self).max_entries() == old(self).max_entries(),
    {
        let mut kept: StringMap<Entry<V, W>> = StringMap::new();
        let ghost before = self.entries@;
        loop
            invariant
                self.ttl == old(self).ttl,
                self.max_entries == old(self).max_entries,
                before == old(self).entries@,
                forall|k: Seq<char>| #[trigger]
                    self.entries@.contains_key(k) ==> before.contains_key(k) && self.entries@[k]
                        == before[k],
                forall|k: Seq<char>| #[trigger]
                    kept@.contains_key(k) <==> before.contains_key(k) && !self.entries@.contains_key(
                        k,
                    ) && entry_is_live(entry_model(before[k]), now),
                forall|k: Seq<char>| #[trigger] kept@.contains_key(k) ==> kept@[k] == before[k],
            ensures
                self.entries@ == Map::<Seq<char>, Entry<V, W>>::empty(),
            decreases self.entries@.dom().len(),
        {
            let _size: usize = self.entries.len();
            match self.entries.take_any() {
                Some((key, entry)) => {
                    if is_live(&entry, now) {
                        kept.insert(key, entry);
                    }
                },
                None => {
                    break ;
                },
            }
        }
        self.entries = kept;
        assert(self@ =~= purged(old(self)@, now));
    }

    /// Begins the action of `key` at time `now`. The caller becomes its
    /// owner, gets the cached value, or has `waiter` registered behind the
    /// owner. Entries that are no longer live are dropped first.
    pub fn begin(&mut self, key: String, now: u64, waiter: W) -> (r: Begin<V>)
        ensures
            final(self)@ == after_begin(old(self)@, key@, now, waiter),
            final(self).ttl() == old(self).ttl(),
            final(self).max_entries() == old(self).max_entries(),
            match begin_outcome(old(self)@, key@, now) {
                BeginOutcome::Owner => r is Owner,
                BeginOutcome::Wait => r is Wait,
                BeginOutcome::Done(value) => r is Done && cloned(value, r->Done_0),
            },
    {
        self.purge_expired(now);
        let ghost live = self@;
        match self.entries.remove(&key) {
            Some(Entry::InFlight { started_at, waiters }) => {
                let mut waiters = waiters;
                waiters.push(waiter);
                self.entries.insert(key, Entry::InFlight { started_at, waiters });
                assert(self@ =~= after_begin(old(self)@, key@, now, waiter));
                Begin::Wait
            },
            Some(Entry::Done { expires_at, value }) => {
                let copy = value.clone();
                self.entries.insert(key, Entry::Done { expires_at, value });
                assert(self@ =~= live);
                Begin::Done(copy)
            },
            None => {
                self.entries.insert(
                    key,
                    Entry::InFlight { started_at: now, waiters: Vec::new() },
                );
                assert(self@ =~= after_begin(old(self)@, key@, now, waiter));
                if self.len() > self.max_entries {
                    let ghost grown = self@;
                    self.purge_expired(now);
                    assert(self@ =~= grown);
                }
                Begin::Owner
            },
        }
    }

    /// Completes the action of `key` at time `now` with `result`. A success
    /// is cached for the time to live; a failure is not. The waiters behind
    /// the owner come back with the result that each of them is to get.
    pub fn complete(&mut self, key: String, result: Result<V, String>, now: u64) -> (r: Completion<
        V,
        W,
    >)
        ensures
            final(self)@ == after_complete(
                old(self)@,
                key@,
                success_value(result),
                now,
                old(self).ttl(),
                old(self).max_entries(),
            ),
            final(self).ttl() == old(self).ttl(),
            final(self).max_entries() == old(self).max_entries(),
            r.waiters@ == completion_waiters(old(self)@, key@),
            result_cloned(result, r.result),
    {
        let waiters: Vec<W> = match self.entries.remove(&key) {
            Some(Entry::InFlight { waiters, .. }) => waiters,
            _ => Vec::new(),
        };
        let outcome: Result<V, String> = match result {
            Ok(value) => {
                let copy = value.clone();
                let expires_at: u128 = now as u128 + self.ttl as u128;
                self.entries.insert(key, Entry::Done { expires_at, value });
                Ok(copy)
            },
            Err(message) => Err(message),
        };
        assert(self@ =~= installed(old(self)@, key@, success_value(result), now, self.ttl));
        if self.len() > self.max_entries {
            self.purge_expired(now);
        }
        Completion { waiters, result: outcome }
    }
}


/// The store after a run of `begin(key)` calls, each made at the time and
/// with the waiter that `calls` gives for it.
pub open spec fn after_begins<V, W>(m: StoreModel<V, W>, key: Seq<char>, calls: Seq<(u64, W)>)
    -> StoreModel<V, W>
    decreases calls.len(),
{
    if calls.len() == 0 {
        m
    } else {
        after_begin(after_begins(m, key, calls.drop_last()), key, calls.last().0, calls.last().1)
    }
}

/// The waiters that a run of calls brought, in order.
pub open spec fn waiters_of<W>(calls: Seq<(u64, W)>) -> Seq<W> {
    Seq::new(calls.len(), |i: int| calls[i].1)
}

/// While the owner of `key` is younger than the bound, every further
/// `begin(key)` adds its waiter behind the ones that are there.
pub proof fn lemma_waiters_accumulate<V, W>(
    m: StoreModel<V, W>,
    key: Seq<char>,
    started_at: u64,
    waiting: Seq<W>,
    calls: Seq<(u64, W)>,
)
    requires
        m.contains_key(key),
        m[key] == (EntryModel::<V, W>::InFlight { started_at, waiters: waiting }),
        forall|i: int|
            0 <= i < calls.len() ==> elapsed((#[trigger] calls[i]).0, started_at)
                < IN_FLIGHT_MAX_AGE,
    ensures
        after_begins(m, key, calls).contains_key(key),
        after_begins(m, key, calls)[key] == (EntryModel::<V, W>::InFlight {
            started_at,
            waiters: waiting + waiters_of(calls),
        }),
        forall|i: int|
            0 <= i < calls.len() ==> begin_outcome(
                after_begins(m, key, calls.take(i)),
                key,
                (#[trigger] calls[i]).0,
            ) is Wait,
    decreases calls.len(),
{
    if calls.len() == 0 {
        assert(waiting + waiters_of(calls) =~= waiting);
    } else {
        let front = calls.drop_last();
        assert forall|i: int| 0 <= i < front.len() implies elapsed(
            (#[trigger] front[i]).0,
            started_at,
        ) < IN_FLIGHT_MAX_AGE by {
            assert(front[i] == calls[i]);
        }
        lemma_waiters_accumulate(m, key, started_at, waiting, front);
        let before = after_begins(m, key, front);
        let last = calls.last();
        assert(elapsed(calls[calls.len() - 1].0, started_at) < IN_FLIGHT_MAX_AGE);
        assert(purged(before, last.0).contains_key(key));
        assert((waiting + waiters_of(front)).push(last.1) =~= waiting + waiters_of(calls));
        assert forall|i: int| 0 <= i < calls.len() implies begin_outcome(
            after_begins(m, key, calls.take(i)),
            key,
            (#[trigger] calls[i]).0,
        ) is Wait by {
            if i < front.len() {
                assert(front[i] == calls[i]);
                assert(front.take(i) =~= calls.take(i));
            } else {
                assert(calls.take(i) =~= front);
            }
        }
    }
}

/// Of the callers that begin the action of one key before it completes,
/// exactly the first is the owner and all the others wait, as long as they
/// call before the owner counts as gone; the completion then resolves
/// exactly their waiters, in the order of their calls, with its one result.
pub proof fn lemma_one_owner_then_waiters<V, W>(
    m: StoreModel<V, W>,
    key: Seq<char>,
    start: u64,
    first: W,
    calls: Seq<(u64, W)>,
)
    requires
        begin_outcome(m, key, start) is Owner,
        forall|i: int|
            0 <= i < calls.len() ==> elapsed((#[trigger] calls[i]).0, start) < IN_FLIGHT_MAX_AGE,
    ensures
        forall|i: int|
            0 <= i < calls.len() ==> begin_outcome(
                after_begins(after_begin(m, key, start, first), key, calls.take(i)),
                key,
                (#[trigger] calls[i]).0,
            ) is Wait,
        completion_waiters(after_begins(after_begin(m, key, start, first), key, calls), key)
            == waiters_of(calls),
{
    let owned = after_begin(m, key, start, first);
    lemma_waiters_accumulate(owned, key, start, Seq::<W>::empty(), calls);
    assert(Seq::<W>::empty() + waiters_of(calls) =~= waiters_of(calls));
}

/// After a success, a later `begin` of the same key within the time to live
/// gets the value, and no new owner is made.
pub proof fn lemma_success_is_cached<V, W>(
    m: StoreModel<V, W>,
    key: Seq<char>,
    value: V,
    now: u64,
    ttl: u64,
    max_entries: usize,
    later: u64,
    waiter: W,
)
    requires
        now <= later < now + ttl,
    ensures
        begin_outcome(after_complete(m, key, Some(value), now, ttl, max_entries), key, later)
            == BeginOutcome::Done(value),
        after_begin(after_complete(m, key, Some(value), now, ttl, max_entries), key, later, waiter)
            == purged(after_complete(m, key, Some(value), now, ttl, max_entries), later),
{
    let next = installed(m, key, Some(value), now, ttl);
    assert(next.contains_key(key));
    let done = after_complete(m, key, Some(value), now, ttl, max_entries);
    assert(done.contains_key(key));
    assert(purged(done, later).contains_key(key));
}

/// After a failure, the next `begin` of the same key makes a new owner:
/// failures are not cached.
pub proof fn lemma_failure_is_not_cached<V, W>(
    m: StoreModel<V, W>,
    key: Seq<char>,
    now: u64,
    ttl: u64,
    max_entries: usize,
    later: u64,
)
    ensures
        !after_complete(m, key, None, now, ttl, max_entries).contains_key(key),
        begin_outcome(after_complete(m, key, None, now, ttl, max_entries), key, later) is Owner,
{
}

/// An owner that has not completed within the bound is dropped, with the
/// waiters behind it, and the next `begin` of its key makes a new owner.
pub proof fn lemma_abandoned_owner_is_replaced<V, W>(
    m: StoreModel<V, W>,
    key: Seq<char>,
    now: u64,
    waiter: W,
)
    requires
        m.contains_key(key),
        m[key] is InFlight,
        elapsed(now, m[key]->started_at) >= IN_FLIGHT_MAX_AGE,
    ensures
        !purged(m, now).contains_key(key),
        begin_outcome(m, key, now) is Owner,
        after_begin(m, key, now, waiter)[key] == (EntryModel::<V, W>::InFlight {
            started_at: now,
            waiters: Seq::empty(),
        }),
{
}

/// A completion takes the waiters with it: each of them is handed out
/// once, and a second completion of the same key finds none.
pub proof fn lemma_waiters_are_resolved_once<V, W>(
    m: StoreModel<V, W>,
    key: Seq<char>,
    value: Option<V>,
    now: u64,
    ttl: u64,
    max_entries: usize,
)
    ensures
        completion_waiters(after_complete(m, key, value, now, ttl, max_entries), key)
            == Seq::<W>::empty(),
{
}

} // verus!
