//! What holds of the limiter whatever the requests and whenever they come.
//!
//! Requests are served one at a time, each in one exclusive access to the
//! counters, so any number of concurrent requests amounts to some sequence of
//! them. The laws below speak of every such sequence.

use vstd::prelude::*;
use vstd::arithmetic::div_mod::{lemma_fundamental_div_mod, lemma_mod_bound, lemma_mod_multiples_basic};
use crate::counter::CounterModel;
use crate::rate::RateModel;

verus! {

/// A refill is whole. A counter whose window has run out is renewed to
/// exactly the quota, whatever it held before; the request that finds it so
/// is admitted and leaves one unit less than the quota.
pub proof fn lemma_refill_is_whole(counter: CounterModel, rate: RateModel, now: nat)
    requires
        rate.valid(),
        counter.expired(rate, now),
    ensures
        counter.renew(rate, now).remaining == rate.count,
        counter.admits(rate, now),
        counter.step(rate, now).remaining == rate.count - 1,
{
}

/// Windows lie on a fixed grid. The window that replaces one that has run
/// out begins a whole number of window lengths after it, begins later than
/// it, and holds `now`.
pub proof fn lemma_windows_are_aligned(counter: CounterModel, rate: RateModel, now: nat)
    requires
        rate.valid(),
        counter.expired(rate, now),
    ensures
        counter.renew(rate, now).window_start > counter.window_start,
        (counter.renew(rate, now).window_start - counter.window_start) % (rate.window as int) == 0,
        counter.renew(rate, now).window_start <= now < counter.renew(rate, now).window_start
            + rate.window,
        !counter.renew(rate, now).expired(rate, now),
{
    let window = rate.window as int;
    let elapsed = counter.elapsed(now) as int;
    lemma_mod_bound(elapsed, window);
    lemma_fundamental_div_mod(elapsed, window);
    lemma_mod_multiples_basic(elapsed / window, window);
    assert(elapsed - elapsed % window == (elapsed / window) * window) by (nonlinear_arith)
        requires
            elapsed == window * (elapsed / window) + elapsed % window,
    ;
}

/// A window that still runs is left alone: the request finds the counter as
/// the last one left it.
pub proof fn lemma_running_window_is_kept(counter: CounterModel, rate: RateModel, now: nat)
    requires
        !counter.expired(rate, now),
    ensures
        counter.renew(rate, now) == counter,
        counter.admits(rate, now) <==> counter.remaining > 0,
{
}

/// The counter never holds more than the quota: a fresh one holds exactly
/// the quota, and no request raises one above it.
pub proof fn lemma_quota_bounds_counter(counter: CounterModel, rate: RateModel, now: nat)
    requires
        counter.within(rate),
    ensures
        CounterModel::fresh(rate, now).within(rate),
        counter.renew(rate, now).within(rate),
        counter.step(rate, now).within(rate),
{
}

/// Between two renewals the counter only goes down, by one for a request
/// that is admitted and not at all for one that is turned away.
pub proof fn lemma_counter_only_decreases(counter: CounterModel, rate: RateModel, now: nat)
    requires
        !counter.expired(rate, now),
    ensures
        counter.step(rate, now).window_start == counter.window_start,
        counter.admits(rate, now) ==> counter.step(rate, now).remaining == counter.remaining - 1,
        !counter.admits(rate, now) ==> counter.step(rate, now) == counter,
{
}

/// A spent quota stays spent. While the window runs, a counter at zero turns
/// the request away and is not changed by it, so it never goes below zero
/// however often it is asked.
pub proof fn lemma_spent_counter_rejects(counter: CounterModel, rate: RateModel, now: nat)
    requires
        counter.remaining == 0,
        !counter.expired(rate, now),
    ensures
        !counter.admits(rate, now),
        counter.step(rate, now) == counter,
        counter.wait(rate, now) + counter.elapsed(now) == rate.window,
{
}

/// A rejection tells when to come back. A request that is turned away at
/// `now` is told the time that the window still runs; any request made later
/// than the end of that window is admitted.
pub proof fn lemma_retry_after_window(
    counter: CounterModel,
    rate: RateModel,
    now: nat,
    later: nat,
)
    requires
        rate.valid(),
        !counter.admits(rate, now),
        later > counter.window_start + rate.window,
    ensures
        !counter.expired(rate, now),
        now >= counter.window_start ==> now + counter.wait(rate, now) == counter.window_start
            + rate.window,
        counter.step(rate, now).admits(rate, later),
{
}

} // verus!
