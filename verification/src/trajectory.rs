//! Paths: a body's place sampled at evenly spaced instants.

use crate::body::{Orbitor, SolarSystemObject};
use crate::point::Point3D;
use crate::units::{Length, Time};
use vstd::prelude::*;

verus! {

/// The instant of sample `x` of a path from `start` to `end` in
/// `num_points` equal steps: `start` plus `x` of those steps, rounded
/// towards `start` to a nanosecond. A path of no steps has the one sample at
/// `start`.
pub open spec fn sample_instant(start: Time, end: Time, num_points: int, x: int) -> Time {
    if num_points <= 0 {
        start
    } else {
        let span = end.nanoseconds - start.nanoseconds;
        let advance = if span >= 0 {
            (x * span) / num_points
        } else {
            -((x * (-span)) / num_points)
        };
        Time { nanoseconds: (start.nanoseconds + advance) as i128 }
    }
}

/// The first sample of a path is taken at its start and the last at its
/// end, and every sample between the two.
pub proof fn lemma_samples_span(start: Time, end: Time, num_points: int, x: int)
    requires
        num_points >= 1,
        0 <= x <= num_points,
    ensures
        sample_instant(start, end, num_points, 0) == start,
        sample_instant(start, end, num_points, num_points).nanoseconds == end.nanoseconds,
        start.nanoseconds <= end.nanoseconds ==> start.nanoseconds <= sample_instant(
            start,
            end,
            num_points,
            x,
        ).nanoseconds <= end.nanoseconds,
        start.nanoseconds >= end.nanoseconds ==> start.nanoseconds >= sample_instant(
            start,
            end,
            num_points,
            x,
        ).nanoseconds >= end.nanoseconds,
{
    let span = end.nanoseconds - start.nanoseconds;
    let size = if span >= 0 {
        span
    } else {
        -span
    };
    lemma_share(size, num_points, x);
    lemma_share(size, num_points, 0);
    lemma_share(size, num_points, num_points);
}

/// `x` parts in `n` of a non-negative amount lie between nothing and all of
/// it, and are nothing for no part and all of it for every part.
proof fn lemma_share(size: int, n: int, x: int)
    requires
        size >= 0,
        n >= 1,
        0 <= x <= n,
    ensures
        0 <= (x * size) / n <= size,
        0 <= x * size <= n * size,
        x == 0 ==> (x * size) / n == 0,
        x == n ==> (x * size) / n == size,
{
    assert(0 <= x * size <= n * size) by (nonlinear_arith)
        requires
            size >= 0,
            0 <= x <= n,
    ;
    vstd::arithmetic::div_mod::lemma_fundamental_div_mod(x * size, n);
    vstd::arithmetic::div_mod::lemma_mod_bound(x * size, n);
    let q = (x * size) / n;
    assert(q >= 0) by (nonlinear_arith)
        requires
            n * q + (x * size) % n == x * size,
            0 <= (x * size) % n < n,
            x * size >= 0,
            n >= 1,
    ;
    assert(q <= size) by (nonlinear_arith)
        requires
            n * q + (x * size) % n == x * size,
            0 <= (x * size) % n < n,
            x * size <= n * size,
            n >= 1,
    ;
    if x == 0 {
        assert(x * size == 0) by (nonlinear_arith)
            requires
                x == 0,
        ;
    }
    if x == n {
        vstd::arithmetic::div_mod::lemma_div_multiples_vanish(size, n);
        assert(x * size == n * size) by (nonlinear_arith)
            requires
                x == n,
        ;
    }
}

/// Computes `sample_instant`.
fn sample_time(start: Time, end: Time, num_points: i32, x: i32) -> (t: Time)
    requires
        0 <= x <= num_points,
        num_points >= 1 ==> -i128::MAX <= num_points * (end.nanoseconds - start.nanoseconds) <= i128::MAX,
    ensures
        t == sample_instant(start, end, num_points as int, x as int),
{
    if num_points == 0 {
        return start;
    }
    let ghost gap: int = end.nanoseconds - start.nanoseconds;
    assert(-i128::MAX <= gap <= i128::MAX) by (nonlinear_arith)
        requires
            num_points >= 1,
            -i128::MAX <= num_points * gap <= i128::MAX,
    ;
    let span: i128 = end.nanoseconds - start.nanoseconds;
    let n: i128 = num_points as i128;
    if span >= 0 {
        proof {
            lemma_share(span as int, n as int, x as int);
        }
        let advance: i128 = ((x as i128) * span) / n;
        Time { nanoseconds: start.nanoseconds + advance }
    } else {
        let size: i128 = -span;
        proof {
            lemma_share(size as int, n as int, x as int);
            assert(n * size == -(num_points * gap)) by (nonlinear_arith)
                requires
                    n == num_points,
                    size == -gap,
            ;
        }
        let advance: i128 = ((x as i128) * size) / n;
        Time { nanoseconds: start.nanoseconds - advance }
    }
}

impl SolarSystemObject {
    /// Whether `p` can be the body's place at `time` as seen from `other`:
    /// what `minus` makes of a place of the body and a place of `other`.
    pub open spec fn located_from<
        P,
        S: Fn(Point3D<Length>) -> P,
        O: Fn(&Orbitor, Time, P) -> P,
        M: Fn(P, P) -> P,
    >(&self, other: &SolarSystemObject, time: Time, place: &S, offset: &O, minus: &M, p: P) -> bool {
        exists|here: P, there: P|
            #![trigger call_ensures(*minus, (here, there), p)]
            self.located(time, place, offset, here) && other.located(time, place, offset, there) && call_ensures(
                *minus,
                (here, there),
                p,
            )
    }

    /// The body's path from `start_time` to `end_time`: its place at the
    /// `num_points + 1` instants that `sample_instant` gives, each resolved
    /// on its own. A negative `num_points` gives an empty path.
    pub fn trajectory<P, S: Fn(Point3D<Length>) -> P, O: Fn(&Orbitor, Time, P) -> P>(
        &self,
        start_time: Time,
        end_time: Time,
        num_points: i32,
        place: &S,
        offset: &O,
    ) -> (path: Vec<P>)
        requires
            forall|at: Point3D<Length>| call_requires(*place, (at,)),
            forall|o: &Orbitor, t: Time, q: P| call_requires(*offset, (o, t, q)),
            num_points >= 1 ==> -i128::MAX <= num_points * (end_time.nanoseconds - start_time.nanoseconds)
                <= i128::MAX,
        ensures
            num_points < 0 ==> path@.len() == 0,
            num_points >= 0 ==> path@.len() == num_points + 1,
            forall|x: int|
                0 <= x < path@.len() ==> self.located(
                    sample_instant(start_time, end_time, num_points as int, x),
                    place,
                    offset,
                    #[trigger] path@[x],
                ),
    {
        let mut output: Vec<P> = Vec::new();
        let mut x: i64 = 0;
        while x <= num_points as i64
            invariant
                0 <= x,
                num_points >= 0 ==> x <= num_points + 1,
                num_points < 0 ==> x == 0,
                output@.len() == x,
                forall|at: Point3D<Length>| call_requires(*place, (at,)),
                forall|o: &Orbitor, t: Time, q: P| call_requires(*offset, (o, t, q)),
                num_points >= 1 ==> -i128::MAX <= num_points * (end_time.nanoseconds - start_time.nanoseconds)
                    <= i128::MAX,
                forall|k: int|
                    0 <= k < x ==> self.located(
                        sample_instant(start_time, end_time, num_points as int, k),
                        place,
                        offset,
                        #[trigger] output@[k],
                    ),
            decreases num_points + 1 - x,
        {
            let time = sample_time(start_time, end_time, num_points, x as i32);
            let here = self.xyz(time, place, offset);
            output.push(here);
            x += 1;
        }
        output
    }

    /// The body's path as seen from `other`: at each of the instants of
    /// `trajectory`, what `minus` makes of the body's place and the place of
    /// `other` at that instant.
    pub fn trajectory_relative<
        P,
        S: Fn(Point3D<Length>) -> P,
        O: Fn(&Orbitor, Time, P) -> P,
        M: Fn(P, P) -> P,
    >(
        &self,
        other: &SolarSystemObject,
        start_time: Time,
        end_time: Time,
        num_points: i32,
        place: &S,
        offset: &O,
        minus: &M,
    ) -> (path: Vec<P>)
        requires
            forall|at: Point3D<Length>| call_requires(*place, (at,)),
            forall|o: &Orbitor, t: Time, q: P| call_requires(*offset, (o, t, q)),
            forall|a: P, b: P| call_requires(*minus, (a, b)),
            num_points >= 1 ==> -i128::MAX <= num_points * (end_time.nanoseconds - start_time.nanoseconds)
                <= i128::MAX,
        ensures
            num_points < 0 ==> path@.len() == 0,
            num_points >= 0 ==> path@.len() == num_points + 1,
            forall|x: int|
                0 <= x < path@.len() ==> self.located_from(
                    other,
                    sample_instant(start_time, end_time, num_points as int, x),
                    place,
                    offset,
                    minus,
                    #[trigger] path@[x],
                ),
    {
        let mut output: Vec<P> = Vec::new();
        let mut x: i64 = 0;
        while x <= num_points as i64
            invariant
                0 <= x,
                num_points >= 0 ==> x <= num_points + 1,
                num_points < 0 ==> x == 0,
                output@.len() == x,
                forall|at: Point3D<Length>| call_requires(*place, (at,)),
                forall|o: &Orbitor, t: Time, q: P| call_requires(*offset, (o, t, q)),
                forall|a: P, b: P| call_requires(*minus, (a, b)),
                num_points >= 1 ==> -i128::MAX <= num_points * (end_time.nanoseconds - start_time.nanoseconds)
                    <= i128::MAX,
                forall|k: int|
                    0 <= k < x ==> self.located_from(
                        other,
                        sample_instant(start_time, end_time, num_points as int, k),
                        place,
                        offset,
                        minus,
                        #[trigger] output@[k],
                    ),
            decreases num_points + 1 - x,
        {
            let time = sample_time(start_time, end_time, num_points, x as i32);
            let here = self.xyz(time, place, offset);
            let there = other.xyz(time, place, offset);
            let apart = minus(here, there);
            output.push(apart);
            x += 1;
        }
        output
    }
}

} // verus!
