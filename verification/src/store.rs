//! The counters of all the identities that a limiter has seen.

use vstd::prelude::*;
use vstd::hash_map::StringHashMap;
use crate::counter::{Counter, CounterModel};
use crate::error::RateLimitError;
use crate::rate::{Rate, RateModel};

verus! {

/// The counter under which a request of `key` at `now` is counted: the one
/// the store holds for `key`, or a fresh one if it holds none.
pub open spec fn lookup(
    counters: Map<Seq<char>, CounterModel>,
    key: Seq<char>,
    rate: RateModel,
    now: nat,
) -> CounterModel {
    if counters.contains_key(key) {
        counters[key]
    } else {
        CounterModel::fresh(rate, now)
    }
}

/// A request of `key` at `now` is admitted.
pub open spec fn admits(
    counters: Map<Seq<char>, CounterModel>,
    key: Seq<char>,
    rate: RateModel,
    now: nat,
) -> bool {
    lookup(counters, key, rate, now).admits(rate, now)
}

/// The counters after a request of `key` at `now`, admitted or not. Only the
/// counter of `key` is touched.
pub open spec fn step(
    counters: Map<Seq<char>, CounterModel>,
    key: Seq<char>,
    rate: RateModel,
    now: nat,
) -> Map<Seq<char>, CounterModel> {
    counters.insert(key, lookup(counters, key, rate, now).step(rate, now))
}

/// `verdict` is the answer to a request at `now` that is counted under
/// `counter`: admission if a unit is left after renewal, else a rejection
/// that tells how long the window still runs.
pub open spec fn judged(
    counter: CounterModel,
    rate: RateModel,
    now: nat,
    verdict: Result<(), RateLimitError>,
) -> bool {
    match verdict {
        Ok(()) => counter.admits(rate, now),
        Err(RateLimitError::QuotaExceeded { retry_after }) => {
            &&& !counter.admits(rate, now)
            &&& retry_after == counter.wait(rate, now)
        },
        Err(RateLimitError::MissingCredential) => false,
    }
}

/// Every counter holds no more than the quota allows.
pub open spec fn all_within(counters: Map<Seq<char>, CounterModel>, rate: RateModel) -> bool {
    forall|key: Seq<char>| counters.contains_key(key) ==> (#[trigger] counters[key]).within(rate)
}

/// A map from identity to counter. An identity has at most one counter, which
/// is made when the identity is first seen and kept from then on.
pub struct RateStore {
    counters: StringHashMap<Counter>,
}

impl View for RateStore {
    type V = Map<Seq<char>, CounterModel>;

    closed spec fn view(&self) -> Map<Seq<char>, CounterModel> {
        self.counters@.map_values(|counter: Counter| counter@)
    }
}

impl RateStore {
    /// A store that has seen no identity.
    pub fn new() -> (store: Self)
        ensures
            store@ == Map::<Seq<char>, CounterModel>::empty(),
    {
        let store = RateStore { counters: StringHashMap::new() };
        assert(store@ =~= Map::<Seq<char>, CounterModel>::empty());
        store
    }

    /// The counter of `key`, if the store has seen that identity.
    pub fn get(&self, key: &str) -> (counter: Option<Counter>)
        ensures
            counter is Some <==> self@.contains_key(key@),
            counter matches Some(c) ==> c@ == self@[key@],
    {
        match self.counters.get(key) {
            Some(counter) => Some(*counter),
            None => None,
        }
    }

    /// The counter of `key`. If the store holds none, a fresh one is made for
    /// it, with the whole quota and a window that begins at `now`.
    pub fn get_or_create(&mut self, key: &str, rate: &Rate, now: u128) -> (counter: Counter)
        ensures
            counter@ == lookup(old(self)@, key@, rate@, now as nat),
            final(self)@ == old(self)@.insert(key@, counter@),
    {
        let found = self.get(key);
        let counter = match found {
            Some(counter) => counter,
            None => Counter::new(rate, now),
        };
        if found.is_none() {
            self.counters.insert(String::from_str(key), counter);
        }
        assert(self@ =~= old(self)@.insert(key@, counter@));
        counter
    }

    /// Serves one request of `key` at `now`. The counter of `key` is looked
    /// up or made, renewed if its window has run out, and charged one unit if
    /// it has one; all of it in this one exclusive access to the store.
    pub fn serve(&mut self, key: &str, rate: &Rate, now: u128) -> (verdict: Result<
        (),
        RateLimitError,
    >)
        ensures
            final(self)@ == step(old(self)@, key@, rate@, now as nat),
            judged(lookup(old(self)@, key@, rate@, now as nat), rate@, now as nat, verdict),
            all_within(old(self)@, rate@) ==> all_within(final(self)@, rate@),
    {
        let mut counter = self.get_or_create(key, rate, now);
        let ghost before = counter@;
        let ghost found = self@;
        let wait: u128 = counter.wait(rate, now);
        let admitted = counter.serve(rate, now);
        self.counters.insert(String::from_str(key), counter);
        assert(self@ =~= found.insert(key@, counter@));
        assert(self@ =~= step(old(self)@, key@, rate@, now as nat));
        proof {
            if all_within(old(self)@, rate@) {
                assert(before.within(rate@));
                assert forall|k: Seq<char>| self@.contains_key(k) implies (#[trigger] self@[k]).within(
                    rate@,
                ) by {
                    if k != key@ {
                        assert(old(self)@.contains_key(k));
                    }
                }
            }
        }
        if admitted {
            Ok(())
        } else {
            Err(RateLimitError::QuotaExceeded { retry_after: wait })
        }
    }

    /// Forgets every identity.
    pub fn clear(&mut self)
        ensures
            final(self)@ == Map::<Seq<char>, CounterModel>::empty(),
    {
        self.counters.clear();
        assert(self@ =~= Map::<Seq<char>, CounterModel>::empty());
    }
}

} // verus!
