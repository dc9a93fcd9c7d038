//! The state kept for one identity, and the fixed-window policy that governs
//! it.

use vstd::prelude::*;
use crate::rate::{Rate, RateModel};

verus! {

/// A counter as a mathematical value: the requests still to be admitted in
/// the current window, and the reading of the clock at which that window
/// began.
pub struct CounterModel {
    pub remaining: nat,
    pub window_start: nat,
}

impl CounterModel {
    /// The counter of an identity first seen at `now`: a full quota, in a
    /// window that begins at `now`.
    pub open spec fn fresh(rate: RateModel, now: nat) -> CounterModel {
        CounterModel { remaining: rate.count, window_start: now }
    }

    /// The counter holds no more than the quota allows.
    pub open spec fn within(self, rate: RateModel) -> bool {
        self.remaining <= rate.count
    }

    /// The time from the start of the window to `now`. A reading that lies
    /// before the start counts as the start itself.
    pub open spec fn elapsed(self, now: nat) -> nat {
        if now >= self.window_start {
            (now - self.window_start) as nat
        } else {
            0
        }
    }

    /// The window has run out at `now`: more than its whole length has
    /// passed since it began.
    pub open spec fn expired(self, rate: RateModel, now: nat) -> bool {
        self.elapsed(now) > rate.window
    }

    /// The counter as a request at `now` finds it. A window that has run out
    /// is replaced by the window of the same grid that holds `now`, with the
    /// whole quota; a window that still runs is left alone.
    pub open spec fn renew(self, rate: RateModel, now: nat) -> CounterModel {
        if self.expired(rate, now) {
            CounterModel {
                remaining: rate.count,
                window_start: (now - self.elapsed(now) % rate.window) as nat,
            }
        } else {
            self
        }
    }

    /// One unit is taken if there is one; an empty counter stays as it is.
    pub open spec fn consume(self) -> CounterModel {
        if self.remaining > 0 {
            CounterModel { remaining: (self.remaining - 1) as nat, window_start: self.window_start }
        } else {
            self
        }
    }

    /// A request at `now` is admitted.
    pub open spec fn admits(self, rate: RateModel, now: nat) -> bool {
        self.renew(rate, now).remaining > 0
    }

    /// The counter after a request at `now`, admitted or not.
    pub open spec fn step(self, rate: RateModel, now: nat) -> CounterModel {
        self.renew(rate, now).consume()
    }

    /// The time from `now` to the end of the window; zero once the window has
    /// run out.
    pub open spec fn wait(self, rate: RateModel, now: nat) -> nat {
        if self.expired(rate, now) {
            0
        } else {
            (rate.window - self.elapsed(now)) as nat
        }
    }
}

/// The requests that one identity may still make in its current window.
#[derive(Clone, Copy, Debug)]
pub struct Counter {
    remaining: usize,
    window_start: u128,
}

impl View for Counter {
    type V = CounterModel;

    closed spec fn view(&self) -> CounterModel {
        CounterModel { remaining: self.remaining as nat, window_start: self.window_start as nat }
    }
}

impl Counter {
    /// The counter of an identity first seen at `now`.
    pub fn new(rate: &Rate, now: u128) -> (counter: Self)
        ensures
            counter@ == CounterModel::fresh(rate@, now as nat),
            counter@.within(rate@),
    {
        Counter { remaining: rate.num(), window_start: now }
    }

    /// The requests still to be admitted in the current window.
    pub fn remaining(&self) -> (n: usize)
        ensures
            n == self@.remaining,
    {
        self.remaining
    }

    /// The reading of the clock at which the current window began.
    pub fn window_start(&self) -> (t: u128)
        ensures
            t == self@.window_start,
    {
        self.window_start
    }

    /// Starts a new window with the whole quota if the current one has run
    /// out at `now`.
    pub fn renew(&mut self, rate: &Rate, now: u128)
        ensures
            final(self)@ == old(self)@.renew(rate@, now as nat),
            old(self)@.expired(rate@, now as nat) ==> final(self)@.remaining == rate@.count,
            old(self)@.within(rate@) ==> final(self)@.within(rate@),
    {
        let per: u128 = rate.per();
        let elapsed: u128 = if now >= self.window_start {
            now - self.window_start
        } else {
            0
        };
        if elapsed > per {
            let over: u128 = elapsed % per;
            self.remaining = rate.num();
            self.window_start = now - over;
        }
    }

    /// Takes one unit if there is one, and says whether it did.
    pub fn try_consume(&mut self) -> (taken: bool)
        ensures
            taken == (old(self)@.remaining > 0),
            final(self)@ == old(self)@.consume(),
    {
        if self.remaining > 0 {
            self.remaining = self.remaining - 1;
            true
        } else {
            false
        }
    }

    /// Serves one request at `now`: renews the window if it has run out, then
    /// takes one unit if there is one. Returns whether the request is
    /// admitted.
    pub fn serve(&mut self, rate: &Rate, now: u128) -> (admitted: bool)
        ensures
            admitted == old(self)@.admits(rate@, now as nat),
            final(self)@ == old(self)@.step(rate@, now as nat),
            old(self)@.within(rate@) ==> final(self)@.within(rate@),
    {
        self.renew(rate, now);
        self.try_consume()
    }

    /// The nanoseconds from `now` to the end of the current window; zero once
    /// the window has run out.
    pub fn wait(&self, rate: &Rate, now: u128) -> (nanos: u128)
        ensures
            nanos == self@.wait(rate@, now as nat),
    {
        let per: u128 = rate.per();
        let elapsed: u128 = if now >= self.window_start {
            now - self.window_start
        } else {
            0
        };
        if elapsed > per {
            0
        } else {
            per - elapsed
        }
    }
}

} // verus!
