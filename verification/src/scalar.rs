use vstd::prelude::*;

verus! {

/// The arithmetic of prices, volumes and indicator values.
///
/// The engine assumes no algebraic law of these operations: sums are not
/// reassociated and comparisons are not taken to be total, so that an
/// implementation may round, saturate, or hold values that compare with
/// nothing. Each executable method returns what the specification function
/// of the same name stands for; the engine's contracts are stated over
/// those functions.
pub trait Scalar: Sized + Copy {
    /// The value that stands for a count of items.
    spec fn from_count_spec(n: usize) -> Self;

    /// The value nearest to the fraction `num / den`.
    spec fn from_ratio_spec(num: i64, den: i64) -> Self;

    /// The least step above one that the arithmetic resolves.
    spec fn epsilon_spec() -> Self;

    /// A value that nothing exceeds.
    spec fn infinity_spec() -> Self;

    /// A value that exceeds nothing.
    spec fn neg_infinity_spec() -> Self;

    /// The least finite value.
    spec fn lowest_spec() -> Self;

    /// The greatest finite value.
    spec fn highest_spec() -> Self;

    spec fn plus_spec(self, rhs: Self) -> Self;

    spec fn minus_spec(self, rhs: Self) -> Self;

    spec fn times_spec(self, rhs: Self) -> Self;

    spec fn over_spec(self, rhs: Self) -> Self;

    spec fn negated_spec(self) -> Self;

    spec fn magnitude_spec(self) -> Self;

    spec fn root_spec(self) -> Self;

    spec fn ln_spec(self) -> Self;

    spec fn log10_spec(self) -> Self;

    spec fn larger_spec(self, rhs: Self) -> Self;

    spec fn smaller_spec(self, rhs: Self) -> Self;

    spec fn below_spec(self, rhs: Self) -> bool;

    spec fn at_most_spec(self, rhs: Self) -> bool;

    spec fn same_spec(self, rhs: Self) -> bool;

    #[verifier::when_used_as_spec(from_count_spec)]
    fn from_count(n: usize) -> (r: Self)
        ensures
            r == Self::from_count_spec(n),
    ;

    #[verifier::when_used_as_spec(from_ratio_spec)]
    fn from_ratio(num: i64, den: i64) -> (r: Self)
        ensures
            r == Self::from_ratio_spec(num, den),
    ;

    #[verifier::when_used_as_spec(epsilon_spec)]
    fn epsilon() -> (r: Self)
        ensures
            r == Self::epsilon_spec(),
    ;

    #[verifier::when_used_as_spec(infinity_spec)]
    fn infinity() -> (r: Self)
        ensures
            r == Self::infinity_spec(),
    ;

    #[verifier::when_used_as_spec(neg_infinity_spec)]
    fn neg_infinity() -> (r: Self)
        ensures
            r == Self::neg_infinity_spec(),
    ;

    #[verifier::when_used_as_spec(lowest_spec)]
    fn lowest() -> (r: Self)
        ensures
            r == Self::lowest_spec(),
    ;

    #[verifier::when_used_as_spec(highest_spec)]
    fn highest() -> (r: Self)
        ensures
            r == Self::highest_spec(),
    ;

    /// `self + rhs`.
    #[verifier::when_used_as_spec(plus_spec)]
    fn plus(self, rhs: Self) -> (r: Self)
        ensures
            r == self.plus_spec(rhs),
    ;

    /// `self - rhs`.
    #[verifier::when_used_as_spec(minus_spec)]
    fn minus(self, rhs: Self) -> (r: Self)
        ensures
            r == self.minus_spec(rhs),
    ;

    /// `self * rhs`.
    #[verifier::when_used_as_spec(times_spec)]
    fn times(self, rhs: Self) -> (r: Self)
        ensures
            r == self.times_spec(rhs),
    ;

    /// `self / rhs`; total, whatever `rhs` is.
    #[verifier::when_used_as_spec(over_spec)]
    fn over(self, rhs: Self) -> (r: Self)
        ensures
            r == self.over_spec(rhs),
    ;

    /// `-self`.
    #[verifier::when_used_as_spec(negated_spec)]
    fn negated(self) -> (r: Self)
        ensures
            r == self.negated_spec(),
    ;

    /// `|self|`.
    #[verifier::when_used_as_spec(magnitude_spec)]
    fn magnitude(self) -> (r: Self)
        ensures
            r == self.magnitude_spec(),
    ;

    /// The square root.
    #[verifier::when_used_as_spec(root_spec)]
    fn root(self) -> (r: Self)
        ensures
            r == self.root_spec(),
    ;

    /// The natural logarithm.
    #[verifier::when_used_as_spec(ln_spec)]
    fn ln(self) -> (r: Self)
        ensures
            r == self.ln_spec(),
    ;

    /// The logarithm to base ten.
    #[verifier::when_used_as_spec(log10_spec)]
    fn log10(self) -> (r: Self)
        ensures
            r == self.log10_spec(),
    ;

    /// The greater of the two, as the arithmetic defines it.
    #[verifier::when_used_as_spec(larger_spec)]
    fn larger(self, rhs: Self) -> (r: Self)
        ensures
            r == self.larger_spec(rhs),
    ;

    /// The lesser of the two, as the arithmetic defines it.
    #[verifier::when_used_as_spec(smaller_spec)]
    fn smaller(self, rhs: Self) -> (r: Self)
        ensures
            r == self.smaller_spec(rhs),
    ;

    /// `self < rhs`.
    #[verifier::when_used_as_spec(below_spec)]
    fn below(self, rhs: Self) -> (r: bool)
        ensures
            r == self.below_spec(rhs),
    ;

    /// `self <= rhs`.
    #[verifier::when_used_as_spec(at_most_spec)]
    fn at_most(self, rhs: Self) -> (r: bool)
        ensures
            r == self.at_most_spec(rhs),
    ;

    /// `self == rhs`, as the arithmetic defines it.
    #[verifier::when_used_as_spec(same_spec)]
    fn same(self, rhs: Self) -> (r: bool)
        ensures
            r == self.same_spec(rhs),
    ;
}

/// The whole number `n` as a value.
pub open spec fn whole_spec<V: Scalar>(n: i64) -> V {
    V::from_ratio(n, 1)
}

/// The whole number `n` as a value.
#[verifier::when_used_as_spec(whole_spec)]
pub fn whole<V: Scalar>(n: i64) -> (r: V)
    ensures
        r == whole_spec::<V>(n),
{
    V::from_ratio(n, 1)
}

/// `x` held between `lo` and `hi`: `lo` where `x` is below it, `hi` where
/// `x` is above it, else `x` itself.
pub open spec fn clamp_spec<V: Scalar>(x: V, lo: V, hi: V) -> V {
    if x.below(lo) {
        lo
    } else if hi.below(x) {
        hi
    } else {
        x
    }
}

/// `x` held between `lo` and `hi`.
#[verifier::when_used_as_spec(clamp_spec)]
pub fn clamp<V: Scalar>(x: V, lo: V, hi: V) -> (r: V)
    ensures
        r == clamp_spec(x, lo, hi),
{
    if x.below(lo) {
        lo
    } else if hi.below(x) {
        hi
    } else {
        x
    }
}

/// Whether `|x|` is below the arithmetic's epsilon: the test for a range
/// too small to divide by.
pub open spec fn negligible_spec<V: Scalar>(x: V) -> bool {
    x.magnitude().below(V::epsilon())
}

/// Whether `|x|` is below the arithmetic's epsilon.
#[verifier::when_used_as_spec(negligible_spec)]
pub fn negligible<V: Scalar>(x: V) -> (r: bool)
    ensures
        r == negligible_spec(x),
{
    x.magnitude().below(V::epsilon())
}

} // verus!
