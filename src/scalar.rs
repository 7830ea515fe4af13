use vstd::prelude::*;

verus! {

/// The arithmetic that the tick computation asks of a number type: comparisons, the
/// four operations, rounding, square root, logarithm, power and conversions to and
/// from counts.
///
/// Each executable method returns the value of the spec function of the same name
/// with a `spec_` prefix. Nothing more is assumed of a number type: the spec functions
/// are left abstract, so every result proved about the computation holds for every
/// implementation, in particular for IEEE `f32` and `f64`.
///
/// The spec functions are closed and stand for an unknown value by default, so that an
/// implementation written outside verified code compiles without them; for a generic
/// number type Verus knows nothing of them but what the methods' contracts say. An
/// implementation in verified code gives each the operation that its method computes.
pub trait Scalar: Sized + Copy {
    closed spec fn spec_equals(self, other: Self) -> bool {
        arbitrary()
    }

    closed spec fn spec_less_than(self, other: Self) -> bool {
        arbitrary()
    }

    closed spec fn spec_is_zero(self) -> bool {
        arbitrary()
    }

    closed spec fn spec_is_finite(self) -> bool {
        arbitrary()
    }

    closed spec fn spec_plus(self, other: Self) -> Self {
        arbitrary()
    }

    closed spec fn spec_minus(self, other: Self) -> Self {
        arbitrary()
    }

    closed spec fn spec_times(self, other: Self) -> Self {
        arbitrary()
    }

    closed spec fn spec_divided_by(self, other: Self) -> Self {
        arbitrary()
    }

    closed spec fn spec_negated(self) -> Self {
        arbitrary()
    }

    closed spec fn spec_floor(self) -> Self {
        arbitrary()
    }

    closed spec fn spec_ceil(self) -> Self {
        arbitrary()
    }

    closed spec fn spec_sqrt(self) -> Self {
        arbitrary()
    }

    closed spec fn spec_ln(self) -> Self {
        arbitrary()
    }

    closed spec fn spec_powf(self, exponent: Self) -> Self {
        arbitrary()
    }

    closed spec fn spec_ln_10() -> Self {
        arbitrary()
    }

    closed spec fn spec_from_usize(n: usize) -> Self {
        arbitrary()
    }

    closed spec fn spec_to_usize(self) -> Option<usize> {
        arbitrary()
    }

    /// `self == other` (false where either is not a number).
    fn equals(self, other: Self) -> (r: bool)
        ensures
            r == self.spec_equals(other),
    ;

    /// `self < other` (false where either is not a number).
    fn less_than(self, other: Self) -> (r: bool)
        ensures
            r == self.spec_less_than(other),
    ;

    fn is_zero(self) -> (r: bool)
        ensures
            r == self.spec_is_zero(),
    ;

    /// Neither infinite nor not a number.
    fn is_finite(self) -> (r: bool)
        ensures
            r == self.spec_is_finite(),
    ;

    fn plus(self, other: Self) -> (r: Self)
        ensures
            r == self.spec_plus(other),
    ;

    fn minus(self, other: Self) -> (r: Self)
        ensures
            r == self.spec_minus(other),
    ;

    fn times(self, other: Self) -> (r: Self)
        ensures
            r == self.spec_times(other),
    ;

    fn divided_by(self, other: Self) -> (r: Self)
        ensures
            r == self.spec_divided_by(other),
    ;

    fn negated(self) -> (r: Self)
        ensures
            r == self.spec_negated(),
    ;

    fn floor(self) -> (r: Self)
        ensures
            r == self.spec_floor(),
    ;

    fn ceil(self) -> (r: Self)
        ensures
            r == self.spec_ceil(),
    ;

    fn sqrt(self) -> (r: Self)
        ensures
            r == self.spec_sqrt(),
    ;

    /// The natural logarithm.
    fn ln(self) -> (r: Self)
        ensures
            r == self.spec_ln(),
    ;

    /// `self` raised to the power `exponent`.
    fn powf(self, exponent: Self) -> (r: Self)
        ensures
            r == self.spec_powf(exponent),
    ;

    /// The natural logarithm of ten.
    fn ln_10() -> (r: Self)
        ensures
            r == Self::spec_ln_10(),
    ;

    /// The number nearest to `n`.
    fn from_usize(n: usize) -> (r: Self)
        ensures
            r == Self::spec_from_usize(n),
    ;

    /// The count that `self` stands for, or `None` where it stands for none (negative
    /// beyond rounding, too large, not a number).
    fn to_usize(self) -> (r: Option<usize>)
        ensures
            r == self.spec_to_usize(),
    ;
}

/// `a >= b`, from the two comparisons of the trait: `b < a` or `a == b`.
pub open spec fn spec_at_least<T: Scalar>(a: T, b: T) -> bool {
    b.spec_less_than(a) || a.spec_equals(b)
}

/// `a >= b`, as [`spec_at_least`] states it.
pub fn at_least<T: Scalar>(a: T, b: T) -> (r: bool)
    ensures
        r == spec_at_least(a, b),
{
    b.less_than(a) || a.equals(b)
}

} // verus!
