use crate::scalar::{at_least, spec_at_least, Scalar};
use vstd::prelude::*;

verus! {

/// The spacing between consecutive ticks, tagged by how it is applied.
///
/// `Direct(step)`: tick `k` stands at `k * step`. `Inverted(scale)`: tick `k` stands at
/// `k / scale`. Small spacings are held inverted, as a large scale to divide by, which
/// loses less precision than a small step to multiply by.
#[derive(Clone, Copy, Debug)]
pub enum Increment<T> {
    Direct(T),
    Inverted(T),
}

impl<T: Scalar> Increment<T> {
    /// The step or the scale, whichever the tag holds.
    pub open spec fn magnitude(self) -> T {
        match self {
            Increment::Direct(step) => step,
            Increment::Inverted(scale) => scale,
        }
    }

    /// Ticks can be laid out with this increment: it is neither zero nor infinite nor
    /// not a number.
    pub open spec fn spec_is_usable(self) -> bool {
        !self.magnitude().spec_is_zero() && self.magnitude().spec_is_finite()
    }

    pub fn is_usable(self) -> (r: bool)
        ensures
            r == self.spec_is_usable(),
    {
        let m = match self {
            Increment::Direct(step) => step,
            Increment::Inverted(scale) => scale,
        };
        !m.is_zero() && m.is_finite()
    }
}

/// The nice mantissa for a normalised error: 10, 5, 2 or 1, whichever owns `error` on a
/// logarithmic scale (the thresholds are the square roots of 50, 10 and 2).
pub open spec fn spec_nice_factor<T: Scalar>(error: T) -> T {
    if spec_at_least(error, T::spec_from_usize(50).spec_sqrt()) {
        T::spec_from_usize(10)
    } else if spec_at_least(error, T::spec_from_usize(10).spec_sqrt()) {
        T::spec_from_usize(5)
    } else if spec_at_least(error, T::spec_from_usize(2).spec_sqrt()) {
        T::spec_from_usize(2)
    } else {
        T::spec_from_usize(1)
    }
}

/// The increment for ticks over `[start, stop]` with about `count` intervals.
///
/// With `raw = (stop - start) / count`, `power = floor(ln(raw) / ln(10))` and
/// `v` the nice factor of `raw / 10^power`: `Direct(v * 10^power)` where `power >= 0`,
/// and `Inverted(10^(-power) / v)` otherwise.
pub open spec fn spec_tick_increment<T: Scalar>(start: T, stop: T, count: usize) -> Increment<T> {
    let ten = T::spec_from_usize(10);
    let raw = stop.spec_minus(start).spec_divided_by(T::spec_from_usize(count));
    let power = raw.spec_ln().spec_divided_by(T::spec_ln_10()).spec_floor();
    let v = spec_nice_factor(raw.spec_divided_by(ten.spec_powf(power)));
    if spec_at_least(power, T::spec_from_usize(0)) {
        Increment::Direct(v.spec_times(ten.spec_powf(power)))
    } else {
        Increment::Inverted(ten.spec_powf(power.spec_negated()).spec_divided_by(v))
    }
}

/// The nice factor of `error`, as [`spec_nice_factor`] states it.
pub fn nice_factor<T: Scalar>(error: T) -> (r: T)
    ensures
        r == spec_nice_factor(error),
{
    if at_least(error, T::from_usize(50).sqrt()) {
        T::from_usize(10)
    } else if at_least(error, T::from_usize(10).sqrt()) {
        T::from_usize(5)
    } else if at_least(error, T::from_usize(2).sqrt()) {
        T::from_usize(2)
    } else {
        T::from_usize(1)
    }
}

/// Chooses the increment for ticks over `[start, stop]`, where the caller has put
/// `start <= stop`, with about `count` intervals. It does not check its input: the
/// caller tests the result with [`Increment::is_usable`]. With IEEE 754 numbers a zero
/// count or range, or an endpoint that is not finite, yields a zero, infinite or
/// not-a-number magnitude there.
pub fn tick_increment<T: Scalar>(start: T, stop: T, count: usize) -> (r: Increment<T>)
    ensures
        r == spec_tick_increment(start, stop, count),
{
    let ten = T::from_usize(10);
    let raw = stop.minus(start).divided_by(T::from_usize(count));
    let power = raw.ln().divided_by(T::ln_10()).floor();
    let v = nice_factor(raw.divided_by(ten.powf(power)));
    if at_least(power, T::from_usize(0)) {
        Increment::Direct(v.times(ten.powf(power)))
    } else {
        Increment::Inverted(ten.powf(power.negated()).divided_by(v))
    }
}

} // verus!
