use crate::increment::{spec_tick_increment, tick_increment, Increment};
use crate::scalar::Scalar;
use vstd::prelude::*;

verus! {

/// The indices of the first and the last tick over `[start, stop]` for `inc`.
///
/// For a direct step: `ceil(start / step)` and `floor(stop / step)`, the multiples of
/// the step inside the interval. For an inverted scale: `floor(start * scale)` and
/// `ceil(stop * scale)`, which reach out to the nearest multiples on either side.
pub open spec fn spec_index_bounds<T: Scalar>(inc: Increment<T>, start: T, stop: T) -> (T, T) {
    match inc {
        Increment::Direct(step) => (
            start.spec_divided_by(step).spec_ceil(),
            stop.spec_divided_by(step).spec_floor(),
        ),
        Increment::Inverted(scale) => (
            start.spec_times(scale).spec_floor(),
            stop.spec_times(scale).spec_ceil(),
        ),
    }
}

/// The number of ticks from index `first` to index `last`: `ceil(last - first + 1)` as
/// a count, where it is one.
pub open spec fn spec_tick_count<T: Scalar>(first: T, last: T) -> Option<usize> {
    last.spec_minus(first).spec_plus(T::spec_from_usize(1)).spec_ceil().spec_to_usize()
}

/// The tick `i` places after index `first`: `(first + i) * step`, or `(first + i) / scale`.
pub open spec fn spec_tick_at<T: Scalar>(inc: Increment<T>, first: T, i: int) -> T {
    let k = first.spec_plus(T::spec_from_usize(i as usize));
    match inc {
        Increment::Direct(step) => k.spec_times(step),
        Increment::Inverted(scale) => k.spec_divided_by(scale),
    }
}

/// The ticks over `[start, stop]`, in ascending order of index, for a caller that has
/// put `start <= stop`. Empty where the increment is not usable or the number of ticks
/// is not a count.
pub open spec fn spec_ascending_ticks<T: Scalar>(start: T, stop: T, count: usize) -> Seq<T> {
    let inc = spec_tick_increment(start, stop, count);
    if !inc.spec_is_usable() {
        Seq::empty()
    } else {
        let (first, last) = spec_index_bounds(inc, start, stop);
        match spec_tick_count(first, last) {
            None => Seq::empty(),
            Some(n) => Seq::new(n as nat, |i: int| spec_tick_at(inc, first, i)),
        }
    }
}

/// The ticks for `start`, `stop` and `count`.
///
/// Where `start == stop` and `count > 0`, the one tick `start`. Otherwise the ticks over
/// the interval with its endpoints in ascending order, reversed where `stop < start`.
pub open spec fn spec_ticks<T: Scalar>(start: T, stop: T, count: usize) -> Seq<T> {
    if start.spec_equals(stop) && count > 0 {
        seq![start]
    } else if stop.spec_less_than(start) {
        spec_ascending_ticks(stop, start, count).reverse()
    } else {
        spec_ascending_ticks(start, stop, count)
    }
}

/// The ticks from index `first` on, `n` of them, for `inc`.
fn lay_out<T: Scalar>(inc: Increment<T>, first: T, n: usize) -> (r: Vec<T>)
    ensures
        r@ == Seq::new(n as nat, |i: int| spec_tick_at(inc, first, i)),
{
    let mut r: Vec<T> = Vec::new();
    let mut i: usize = 0;
    while i < n
        invariant
            i <= n,
            r@.len() == i,
            forall|j: int| 0 <= j < i ==> r@[j] == spec_tick_at(inc, first, j),
        decreases n - i,
    {
        let k = first.plus(T::from_usize(i));
        let t = match inc {
            Increment::Direct(step) => k.times(step),
            Increment::Inverted(scale) => k.divided_by(scale),
        };
        r.push(t);
        i = i + 1;
    }
    assert(r@ =~= Seq::new(n as nat, |i: int| spec_tick_at(inc, first, i)));
    r
}

/// The ticks over `[start, stop]` for a caller that has put `start <= stop`.
fn ascending_ticks<T: Scalar>(start: T, stop: T, count: usize) -> (r: Vec<T>)
    ensures
        r@ == spec_ascending_ticks(start, stop, count),
{
    let inc = tick_increment(start, stop, count);
    if !inc.is_usable() {
        return Vec::new();
    }
    let (first, last) = match inc {
        Increment::Direct(step) => (start.divided_by(step).ceil(), stop.divided_by(step).floor()),
        Increment::Inverted(scale) => (start.times(scale).floor(), stop.times(scale).ceil()),
    };
    match last.minus(first).plus(T::from_usize(1)).ceil().to_usize() {
        None => Vec::new(),
        Some(n) => lay_out(inc, first, n),
    }
}

/// The elements of `v` in reverse order.
fn reversed<T: Copy>(v: Vec<T>) -> (r: Vec<T>)
    ensures
        r@ == v@.reverse(),
{
    let mut r: Vec<T> = Vec::new();
    let mut i: usize = v.len();
    while i > 0
        invariant
            i <= v.len(),
            r@.len() == v.len() - i,
            forall|j: int| 0 <= j < r@.len() ==> r@[j] == v@[v.len() - 1 - j],
        decreases i,
    {
        i = i - 1;
        r.push(v[i]);
    }
    assert(r@ =~= v@.reverse());
    r
}

/// Nicely rounded values between `start` and `stop`, about `count + 1` of them, for
/// axis labels and grid lines.
///
/// The values are the multiples of an increment of 1, 2 or 5 times a power of ten (see
/// [`tick_increment`]), in the direction from `start` to `stop`. Where `start == stop`
/// and `count > 0` the result is `[start]`. Otherwise it is empty where the increment is
/// zero, infinite or not a number (for IEEE 754 numbers: `count == 0`, or an endpoint
/// that is not finite), or where the number of ticks is not a count.
///
/// The number of ticks is taken as it comes: a huge `count` over a wide interval asks
/// for as many values.
pub fn ticks<T: Scalar>(start: T, stop: T, count: usize) -> (r: Vec<T>)
    ensures
        r@ == spec_ticks(start, stop, count),
{
    if start.equals(stop) && count > 0 {
        return vec![start];
    }
    if stop.less_than(start) {
        reversed(ascending_ticks(stop, start, count))
    } else {
        ascending_ticks(start, stop, count)
    }
}

/// Equal endpoints give the one tick: where `start == start` (every value but not a
/// number) and `count > 0`, the ticks from `start` to `start` are `[start]`.
pub proof fn lemma_equal_endpoints<T: Scalar>(start: T, count: usize)
    requires
        start.spec_equals(start),
        count > 0,
    ensures
        spec_ticks(start, start, count) == seq![start],
{
}

/// Swapping the endpoints reverses the ticks: where `start < stop`, compared in a strict
/// order (so neither `stop < start` nor `start == stop` either way round), the ticks
/// from `stop` to `start` are those from `start` to `stop` in reverse order, for every
/// `count`.
pub proof fn lemma_swapped_endpoints<T: Scalar>(start: T, stop: T, count: usize)
    requires
        start.spec_less_than(stop),
        !stop.spec_less_than(start),
        !start.spec_equals(stop),
        !stop.spec_equals(start),
    ensures
        spec_ticks(stop, start, count) == spec_ticks(start, stop, count).reverse(),
{
}

/// The ticks depend on the arguments alone: two results that [`ticks`] may return for
/// the same `start`, `stop` and `count` are equal.
pub proof fn lemma_same_arguments_same_ticks<T: Scalar>(
    start: T,
    stop: T,
    count: usize,
    first: Seq<T>,
    second: Seq<T>,
)
    requires
        first == spec_ticks(start, stop, count),
        second == spec_ticks(start, stop, count),
    ensures
        first == second,
{
}

} // verus!
