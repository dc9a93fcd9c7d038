//! The limiter: one quota, the counters it governs, and the decision it takes
//! on each request.

use vstd::prelude::*;
use tokio::time::Instant;
use crate::clock::{instant_now, nanos_since};
use crate::counter::CounterModel;
use crate::error::RateLimitError;
use crate::identity::{RequestHead, RequestModel};
use crate::rate::{Rate, RateModel};
use crate::store::{admits, all_within, judged, lookup, step, RateStore};

verus! {

/// A limiter as a mathematical value: its quota and the counter of every
/// identity it has seen.
pub struct LimiterModel {
    pub rate: RateModel,
    pub counters: Map<Seq<char>, CounterModel>,
}

/// `after` and `verdict` are what a limiter in state `before` makes of the
/// request `req` at `now`.
///
/// A request without a credential is turned away and leaves the limiter as
/// it was. Any other request is counted under its identity: the counter of
/// that identity, and no other, moves by one step, and the request is
/// admitted if and only if that counter admits it.
pub open spec fn served(
    before: LimiterModel,
    req: RequestModel,
    now: nat,
    after: LimiterModel,
    verdict: Result<(), RateLimitError>,
) -> bool {
    &&& after.rate == before.rate
    &&& match req.identity() {
        None => {
            &&& after.counters == before.counters
            &&& verdict == Err::<(), RateLimitError>(RateLimitError::MissingCredential)
        },
        Some(key) => {
            &&& after.counters == step(before.counters, key, before.rate, now)
            &&& judged(lookup(before.counters, key, before.rate, now), before.rate, now, verdict)
        },
    }
}

/// The verdict is the counter's. A request is admitted if and only if it has
/// an identity and the counter of that identity admits it; the counters of
/// all other identities are as they were.
pub proof fn lemma_verdict_follows_counter(
    before: LimiterModel,
    req: RequestModel,
    now: nat,
    after: LimiterModel,
    verdict: Result<(), RateLimitError>,
    other: Seq<char>,
)
    requires
        served(before, req, now, after, verdict),
        req.identity() != Some(other),
    ensures
        verdict is Ok <==> req.identity() is Some && admits(
            before.counters,
            req.identity().unwrap(),
            before.rate,
            now,
        ),
        verdict == Err::<(), RateLimitError>(RateLimitError::MissingCredential)
            <==> req.credential is None,
        after.counters.contains_key(other) == before.counters.contains_key(other),
        before.counters.contains_key(other) ==> after.counters[other] == before.counters[other],
{
}

/// A quota together with the store it is to govern, before any request is
/// served.
pub struct TokenRateLimitLayer {
    state: RateStore,
    rate: Rate,
}

impl View for TokenRateLimitLayer {
    type V = LimiterModel;

    closed spec fn view(&self) -> LimiterModel {
        LimiterModel { rate: self.rate@, counters: self.state@ }
    }
}

impl TokenRateLimitLayer {
    /// A quota of `num` requests in every `per` nanoseconds, over the
    /// counters in `state`.
    pub fn new(state: RateStore, num: usize, per: u128) -> (layer: Self)
        requires
            num > 0,
            per > 0,
        ensures
            layer@.rate == (RateModel { count: num as nat, window: per as nat }),
            layer@.counters == state@,
    {
        TokenRateLimitLayer { state, rate: Rate::new(num, per) }
    }

    /// The limiter that enforces this quota. Its clock starts with this call.
    pub fn layer(self) -> (limiter: TokenRateLimit)
        ensures
            limiter@ == self@,
            limiter@.rate.valid(),
    {
        TokenRateLimit::new(self.state, self.rate)
    }
}

/// The limiter. It owns the counters, so every request is served in one
/// exclusive access: looking the counter up, renewing it, testing it and
/// charging it cannot be interleaved with another request.
pub struct TokenRateLimit {
    state: RateStore,
    rate: Rate,
    origin: Instant,
}

impl View for TokenRateLimit {
    type V = LimiterModel;

    closed spec fn view(&self) -> LimiterModel {
        LimiterModel { rate: self.rate@, counters: self.state@ }
    }
}

impl TokenRateLimit {
    /// A limiter that enforces `rate` over the counters in `state`. The
    /// moment of this call is the origin of the limiter's clock.
    pub fn new(state: RateStore, rate: Rate) -> (limiter: Self)
        ensures
            limiter@ == (LimiterModel { rate: rate@, counters: state@ }),
            limiter@.rate.valid(),
    {
        proof {
            use_type_invariant(&rate);
            rate.lemma_positive_is_valid();
        }
        TokenRateLimit { state, rate, origin: instant_now() }
    }

    /// The quota that this limiter enforces.
    pub fn rate(&self) -> (rate: Rate)
        ensures
            rate@ == self@.rate,
            rate@.valid(),
    {
        proof {
            use_type_invariant(&self.rate);
            self.rate.lemma_positive_is_valid();
        }
        self.rate
    }

    /// The counters of the identities seen so far.
    pub fn state(&self) -> (state: &RateStore)
        ensures
            state@ == self@.counters,
    {
        &self.state
    }

    /// Decides on a request that arrives `now` nanoseconds after the origin
    /// of the clock. `Ok` means that the request goes on to the handler; an
    /// error is the answer to the client, and the handler is not called.
    pub fn call_at(&mut self, req: &RequestHead, now: u128) -> (verdict: Result<
        (),
        RateLimitError,
    >)
        ensures
            served(old(self)@, req@, now as nat, final(self)@, verdict),
            all_within(old(self)@.counters, old(self)@.rate) ==> all_within(
                final(self)@.counters,
                final(self)@.rate,
            ),
    {
        match req.identity() {
            None => Err(RateLimitError::MissingCredential),
            Some(key) => self.state.serve(key.as_str(), &self.rate, now),
        }
    }

    /// Decides on a request that arrives now, by the limiter's own clock.
    /// Whatever the clock reads, the outcome is that of [`Self::call_at`] at
    /// some reading; a request without a credential is turned away at any.
    pub fn call(&mut self, req: &RequestHead) -> (verdict: Result<(), RateLimitError>)
        ensures
            exists|now: u128| served(old(self)@, req@, now as nat, final(self)@, verdict),
            all_within(old(self)@.counters, old(self)@.rate) ==> all_within(
                final(self)@.counters,
                final(self)@.rate,
            ),
    {
        let now: u128 = nanos_since(&self.origin);
        let verdict = self.call_at(req, now);
        assert(served(old(self)@, req@, now as nat, self@, verdict));
        verdict
    }

    /// Forgets every identity. The quota stays.
    pub fn reset(&mut self)
        ensures
            final(self)@ == (LimiterModel {
                rate: old(self)@.rate,
                counters: Map::<Seq<char>, CounterModel>::empty(),
            }),
    {
        self.state.clear();
    }
}

} // verus!
