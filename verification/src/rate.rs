//! The quota: how many requests an identity may make in one window.

use vstd::prelude::*;

verus! {

/// A quota as a mathematical value: `count` requests in every `window`
/// nanoseconds.
pub struct RateModel {
    pub count: nat,
    pub window: nat,
}

impl RateModel {
    /// A quota admits at least one request and its window has a length.
    pub open spec fn valid(self) -> bool {
        self.count > 0 && self.window > 0
    }
}

/// An immutable quota. Every value of this type is valid: both the count and
/// the window are positive.
#[derive(Clone, Copy, Debug)]
pub struct Rate {
    num: usize,
    per: u128,
}

impl View for Rate {
    type V = RateModel;

    closed spec fn view(&self) -> RateModel {
        RateModel { count: self.num as nat, window: self.per as nat }
    }
}

impl Rate {
    #[verifier::type_invariant]
    pub(crate) closed spec fn positive(self) -> bool {
        self.num > 0 && self.per > 0
    }

    /// What the type guarantees of every quota, said of its view.
    pub(crate) proof fn lemma_positive_is_valid(self)
        requires
            self.positive(),
        ensures
            self@.valid(),
    {
    }

    /// A quota of `num` requests in every `per` nanoseconds.
    pub fn new(num: usize, per: u128) -> (rate: Self)
        requires
            num > 0,
            per > 0,
        ensures
            rate@ == (RateModel { count: num as nat, window: per as nat }),
            rate@.valid(),
    {
        Rate { num, per }
    }

    /// The quota of `num` requests in every `per` nanoseconds, or `None` when
    /// either number is zero.
    pub fn try_new(num: usize, per: u128) -> (rate: Option<Self>)
        ensures
            rate is Some <==> num > 0 && per > 0,
            rate matches Some(r) ==> r@ == (RateModel { count: num as nat, window: per as nat }),
    {
        if num > 0 && per > 0 {
            Some(Rate::new(num, per))
        } else {
            None
        }
    }

    /// The number of requests admitted in one window.
    pub fn num(&self) -> (n: usize)
        ensures
            n == self@.count,
            self@.valid(),
    {
        proof {
            use_type_invariant(self);
        }
        self.num
    }

    /// The length of the window in nanoseconds.
    pub fn per(&self) -> (p: u128)
        ensures
            p == self@.window,
            self@.valid(),
    {
        proof {
            use_type_invariant(self);
        }
        self.per
    }
}

} // verus!
