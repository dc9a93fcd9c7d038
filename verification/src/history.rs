//! Sequences of requests, and what holds of every one of them.
//!
//! The limiter serves each request in one exclusive access to its counters,
//! so the requests of any number of concurrent callers take effect in some
//! order. A history is such an order: the identity and the clock reading of
//! each request, one after the other.

use vstd::prelude::*;
use crate::counter::CounterModel;
use crate::identity::{identity_key, separator, Method};
use crate::rate::RateModel;
use crate::store::{admits, all_within, lookup, step};

verus! {

/// One request in a history: the identity it is counted under and the
/// reading of the clock when it is served.
pub struct Arrival {
    pub key: Seq<char>,
    pub now: nat,
}

/// The counters after all the requests of `history` have been served in
/// order.
pub open spec fn run(
    counters: Map<Seq<char>, CounterModel>,
    rate: RateModel,
    history: Seq<Arrival>,
) -> Map<Seq<char>, CounterModel>
    decreases history.len(),
{
    if history.len() == 0 {
        counters
    } else {
        run(step(counters, history[0].key, rate, history[0].now), rate, history.drop_first())
    }
}

/// The start of the window that a request of `key` at `now` is counted in.
pub open spec fn window_of(
    counters: Map<Seq<char>, CounterModel>,
    key: Seq<char>,
    rate: RateModel,
    now: nat,
) -> nat {
    lookup(counters, key, rate, now).renew(rate, now).window_start
}

/// The number of requests of `history` that are admitted for `key` in the
/// window that starts at `window`.
pub open spec fn admissions(
    counters: Map<Seq<char>, CounterModel>,
    rate: RateModel,
    history: Seq<Arrival>,
    key: Seq<char>,
    window: nat,
) -> nat
    decreases history.len(),
{
    if history.len() == 0 {
        0
    } else {
        let first = history[0];
        let here: nat = if first.key == key && admits(counters, key, rate, first.now) && window_of(
            counters,
            key,
            rate,
            first.now,
        ) == window {
            1
        } else {
            0
        };
        here + admissions(
            step(counters, first.key, rate, first.now),
            rate,
            history.drop_first(),
            key,
            window,
        )
    }
}

/// The number of requests of `history` that are admitted for `key`, in
/// whatever window.
pub open spec fn admitted(
    counters: Map<Seq<char>, CounterModel>,
    rate: RateModel,
    history: Seq<Arrival>,
    key: Seq<char>,
) -> nat
    decreases history.len(),
{
    if history.len() == 0 {
        0
    } else {
        let first = history[0];
        let here: nat = if first.key == key && admits(counters, key, rate, first.now) {
            1
        } else {
            0
        };
        here + admitted(step(counters, first.key, rate, first.now), rate, history.drop_first(), key)
    }
}

/// What `key` may still be granted in the window that starts at `window`:
/// what its counter holds if that is its current window, the whole quota if
/// the window is yet to come, nothing if it is past.
pub open spec fn allowance(
    counters: Map<Seq<char>, CounterModel>,
    rate: RateModel,
    key: Seq<char>,
    window: nat,
) -> nat {
    if counters.contains_key(key) {
        let counter = counters[key];
        if window == counter.window_start {
            counter.remaining
        } else if window > counter.window_start {
            rate.count
        } else {
            0
        }
    } else {
        rate.count
    }
}

/// No request raises what an identity may still be granted in a window, and
/// a request that is admitted in that window lowers it by one.
proof fn lemma_step_spends_allowance(
    counters: Map<Seq<char>, CounterModel>,
    rate: RateModel,
    arrival: Arrival,
    key: Seq<char>,
    window: nat,
)
    requires
        rate.valid(),
        all_within(counters, rate),
    ensures
        all_within(step(counters, arrival.key, rate, arrival.now), rate),
        allowance(step(counters, arrival.key, rate, arrival.now), rate, key, window) + (if arrival.key
            == key && admits(counters, key, rate, arrival.now) && window_of(
            counters,
            key,
            rate,
            arrival.now,
        ) == window {
            1nat
        } else {
            0nat
        }) <= allowance(counters, rate, key, window),
{
    let found = lookup(counters, arrival.key, rate, arrival.now);
    let after = step(counters, arrival.key, rate, arrival.now);
    assert(found.within(rate));
    assert forall|k: Seq<char>| after.contains_key(k) implies (#[trigger] after[k]).within(rate) by {
        if k != arrival.key {
            assert(counters.contains_key(k));
        }
    }
    if arrival.key == key {
        if found.expired(rate, arrival.now) {
            let window_len = rate.window as int;
            let elapsed = found.elapsed(arrival.now) as int;
            vstd::arithmetic::div_mod::lemma_mod_bound(elapsed, window_len);
            assert(found.renew(rate, arrival.now).window_start > found.window_start);
        }
    }
}

/// No double spending. Whatever the requests, whatever their order and
/// whenever they come, an identity is admitted at most as often in one
/// window as the quota allows.
pub proof fn lemma_no_double_spend(
    counters: Map<Seq<char>, CounterModel>,
    rate: RateModel,
    history: Seq<Arrival>,
    key: Seq<char>,
    window: nat,
)
    requires
        rate.valid(),
        all_within(counters, rate),
    ensures
        admissions(counters, rate, history, key, window) <= allowance(counters, rate, key, window),
        admissions(counters, rate, history, key, window) <= rate.count,
        all_within(run(counters, rate, history), rate),
    decreases history.len(),
{
    if counters.contains_key(key) {
        assert(counters[key].within(rate));
    }
    if history.len() > 0 {
        let first = history[0];
        lemma_step_spends_allowance(counters, rate, first, key, window);
        lemma_no_double_spend(
            step(counters, first.key, rate, first.now),
            rate,
            history.drop_first(),
            key,
            window,
        );
    }
}

/// The number of requests of `history` that are made for `key`.
pub open spec fn requests(history: Seq<Arrival>, key: Seq<char>) -> nat
    decreases history.len(),
{
    if history.len() == 0 {
        0
    } else {
        let here: nat = if history[0].key == key {
            1
        } else {
            0
        };
        here + requests(history.drop_first(), key)
    }
}

/// Every request that `history` makes for `key` comes while the window of
/// `counter` still runs.
pub open spec fn in_window(
    counter: CounterModel,
    rate: RateModel,
    history: Seq<Arrival>,
    key: Seq<char>,
) -> bool {
    forall|i: int|
        0 <= i < history.len() && (#[trigger] history[i]).key == key ==> !counter.expired(
            rate,
            history[i].now,
        )
}

/// Identities do not share a counter. A request changes the counter of its
/// own identity and of no other, so it decides nothing about the requests of
/// another identity.
pub proof fn lemma_identities_are_independent(
    counters: Map<Seq<char>, CounterModel>,
    rate: RateModel,
    arrival: Arrival,
    other: Seq<char>,
    now: nat,
)
    requires
        arrival.key != other,
    ensures
        step(counters, arrival.key, rate, arrival.now).contains_key(other)
            == counters.contains_key(other),
        lookup(step(counters, arrival.key, rate, arrival.now), other, rate, now) == lookup(
            counters,
            other,
            rate,
            now,
        ),
        admits(step(counters, arrival.key, rate, arrival.now), other, rate, now) == admits(
            counters,
            other,
            rate,
            now,
        ),
{
}

/// A history that makes no request for `key` leaves that identity as it
/// was: its counter is neither made nor changed, and nothing is admitted for
/// it.
pub proof fn lemma_others_leave_identity_alone(
    counters: Map<Seq<char>, CounterModel>,
    rate: RateModel,
    history: Seq<Arrival>,
    key: Seq<char>,
)
    requires
        requests(history, key) == 0,
    ensures
        run(counters, rate, history).contains_key(key) == counters.contains_key(key),
        counters.contains_key(key) ==> run(counters, rate, history)[key] == counters[key],
        admitted(counters, rate, history, key) == 0,
    decreases history.len(),
{
    if history.len() > 0 {
        let first = history[0];
        lemma_others_leave_identity_alone(
            step(counters, first.key, rate, first.now),
            rate,
            history.drop_first(),
            key,
        );
    }
}

/// Each resource has a quota of its own. Updates of two resources under one
/// credential are counted under two identities, and neither of them is the
/// identity under which the other requests of that credential are counted.
pub proof fn lemma_resources_have_own_identity(
    credential: Seq<char>,
    path: Seq<char>,
    other_path: Seq<char>,
    method: Method,
)
    ensures
        path != other_path ==> identity_key(Method::Put, credential, path) != identity_key(
            Method::Put,
            credential,
            other_path,
        ),
        method != Method::Put ==> identity_key(Method::Put, credential, path) != identity_key(
            method,
            credential,
            other_path,
        ),
{
    let key = identity_key(Method::Put, credential, path);
    let other_key = identity_key(Method::Put, credential, other_path);
    let prefix = credential.len() + separator().len();
    assert(key.len() == prefix + path.len());
    if key == other_key {
        assert(key.subrange(prefix as int, key.len() as int) =~= path);
        assert(other_key.subrange(prefix as int, other_key.len() as int) =~= other_path);
    }
}

/// Within one window an identity is admitted exactly as often as its counter
/// has units, and no oftener: of the requests made for it while the window
/// runs, in whatever order and among whatever requests of others, the first
/// ones are admitted until the counter is spent, and the rest are turned
/// away.
pub proof fn lemma_window_admits_what_is_left(
    counters: Map<Seq<char>, CounterModel>,
    rate: RateModel,
    history: Seq<Arrival>,
    key: Seq<char>,
)
    requires
        counters.contains_key(key),
        in_window(counters[key], rate, history, key),
    ensures
        admitted(counters, rate, history, key) == if requests(history, key)
            <= counters[key].remaining {
            requests(history, key)
        } else {
            counters[key].remaining
        },
        run(counters, rate, history).contains_key(key),
        run(counters, rate, history)[key] == (CounterModel {
            remaining: (counters[key].remaining - admitted(counters, rate, history, key)) as nat,
            window_start: counters[key].window_start,
        }),
    decreases history.len(),
{
    if history.len() > 0 {
        let first = history[0];
        let rest = history.drop_first();
        let after = step(counters, first.key, rate, first.now);
        assert(first.key == key ==> !counters[key].expired(rate, first.now));
        assert forall|i: int| 0 <= i < rest.len() && (#[trigger] rest[i]).key == key implies !after[key].expired(
            rate,
            rest[i].now,
        ) by {
            assert(rest[i] == history[i + 1]);
        }
        lemma_window_admits_what_is_left(after, rate, rest, key);
    }
}

/// Asking again does not help. Once an identity has spent its quota, every
/// further request it makes while the window runs is turned away, and none
/// of them changes its counter: it stays at zero and never goes below.
pub proof fn lemma_spent_quota_stays_spent(
    counters: Map<Seq<char>, CounterModel>,
    rate: RateModel,
    history: Seq<Arrival>,
    key: Seq<char>,
)
    requires
        counters.contains_key(key),
        counters[key].remaining == 0,
        in_window(counters[key], rate, history, key),
    ensures
        admitted(counters, rate, history, key) == 0,
        run(counters, rate, history).contains_key(key),
        run(counters, rate, history)[key] == counters[key],
{
    lemma_window_admits_what_is_left(counters, rate, history, key);
}

} // verus!
