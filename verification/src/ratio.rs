//! Exact rational results.
//!
//! The derived metrics are ratios of integers, not decimals, so they are
//! returned as a numerator/denominator pair. The denominator is kept
//! positive; beyond that no normalization is performed, and contracts pin the
//! value down by cross-multiplication (`rat_is`).

use vstd::prelude::*;

verus! {

/// The mathematical content of a `Ratio`: the rational `num / den`.
#[verifier::ext_equal]
pub struct RatioView {
    pub num: int,
    pub den: int,
}

/// `q` stands for the rational `num / den`: the denominators are positive-or
/// sign-corrected, and the cross products agree.
pub open spec fn rat_is(q: RatioView, num: int, den: int) -> bool {
    q.den > 0 && q.num * den == num * q.den
}

/// An exact rational with a positive denominator.
#[derive(Clone, Copy, Debug)]
pub struct Ratio {
    num: i128,
    den: i128,
}

impl View for Ratio {
    type V = RatioView;

    closed spec fn view(&self) -> RatioView {
        RatioView { num: self.num as int, den: self.den as int }
    }
}

impl Ratio {
    #[verifier::type_invariant]
    spec fn positive_den(self) -> bool {
        self.den > 0
    }

    /// The numerator, as stored.
    pub fn num(&self) -> (r: i128)
        ensures
            r as int == self@.num,
    {
        self.num
    }

    /// The denominator; always positive.
    pub fn den(&self) -> (r: i128)
        ensures
            r as int == self@.den,
            r > 0,
    {
        proof {
            use_type_invariant(self);
        }
        self.den
    }

    /// Builds the ratio `num / den`, flipping both signs if `den` is
    /// negative so that the stored denominator stays positive.
    pub(crate) fn make(num: i128, den: i128) -> (r: Ratio)
        requires
            den != 0,
            num != i128::MIN,
            den != i128::MIN,
        ensures
            rat_is(r@, num as int, den as int),
    {
        if den < 0 {
            proof {
                assert((-num) * (den as int) == num * (-den as int)) by (nonlinear_arith);
            }
            Ratio { num: -num, den: -den }
        } else {
            Ratio { num, den }
        }
    }
}

} // verus!
