//! The growth factor of the delay, as a ratio of two positive integers.

use vstd::prelude::*;

verus! {

/// The ratio `numerator / denominator` of two natural numbers.
pub struct Ratio {
    pub numerator: nat,
    pub denominator: nat,
}

impl Ratio {
    /// Both parts are positive.
    pub open spec fn is_positive(self) -> bool {
        self.numerator > 0 && self.denominator > 0
    }

    /// The ratio is one or more, so scaling never shrinks.
    pub open spec fn at_least_one(self) -> bool {
        0 < self.denominator <= self.numerator
    }

    /// `amount` times the ratio, rounded down.
    pub open spec fn scale(self, amount: nat) -> nat {
        (amount * self.numerator / self.denominator) as nat
    }
}

/// The factor by which the delay grows from one attempt to the next.
///
/// It is held as `numerator / denominator`; both are positive for every
/// value of this type.
#[derive(Clone, Copy, Debug, PartialEq, Eq)]
pub struct Multiplier {
    numerator: u32,
    denominator: u32,
}

impl View for Multiplier {
    type V = Ratio;

    closed spec fn view(&self) -> Ratio {
        Ratio { numerator: self.numerator as nat, denominator: self.denominator as nat }
    }
}

impl Multiplier {
    #[verifier::type_invariant]
    spec fn positive(self) -> bool {
        self.numerator > 0 && self.denominator > 0
    }

    /// The factor `numerator / denominator`, or `None` where one of the two
    /// is zero.
    pub fn new(numerator: u32, denominator: u32) -> (made: Option<Multiplier>)
        ensures
            made is Some <==> numerator > 0 && denominator > 0,
            made matches Some(m) ==> m@ == (Ratio {
                numerator: numerator as nat,
                denominator: denominator as nat,
            }),
    {
        if numerator > 0 && denominator > 0 {
            Some(Multiplier { numerator, denominator })
        } else {
            None
        }
    }

    /// The factor two, which doubles the delay at every step.
    pub fn doubling() -> (made: Multiplier)
        ensures
            made@ == (Ratio { numerator: 2, denominator: 1 }),
    {
        Multiplier { numerator: 2, denominator: 1 }
    }

    pub fn numerator(&self) -> (n: u32)
        ensures
            n == self@.numerator,
            n > 0,
    {
        proof {
            use_type_invariant(self);
        }
        self.numerator
    }

    pub fn denominator(&self) -> (d: u32)
        ensures
            d == self@.denominator,
            d > 0,
    {
        proof {
            use_type_invariant(self);
        }
        self.denominator
    }
}

/// Scaling by a ratio of one or more never shrinks.
pub proof fn lemma_scale_grows(ratio: Ratio, amount: nat)
    requires
        ratio.at_least_one(),
    ensures
        ratio.scale(amount) >= amount,
{
    let n = ratio.numerator as int;
    let d = ratio.denominator as int;
    let a = amount as int;
    assert(a * n >= a * d) by (nonlinear_arith)
        requires
            a >= 0,
            n >= d,
            d > 0,
    ;
    assert((a * n) / d >= a) by (nonlinear_arith)
        requires
            a * n >= a * d,
            d > 0,
    ;
}

} // verus!
