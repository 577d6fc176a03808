//! The scan for the moment a bearing enters an arc.
//!
//! The scan steps a day at a time until the bearing is seen inside the arc,
//! then a second at a time through the day before, and gives the first
//! second seen inside. It is bounded by a window counted in days from the
//! periods of the two bodies. It finds an entry to the second, not the
//! earliest instant of all: a bearing that enters and leaves the arc
//! between two daily samples is passed over.
//!
//! The bearing is taken from the places of the two bodies in the drawing
//! plane, which the caller's functions work out: `place` and `offset` as
//! for any position, and `bearing_of` for the direction from one place to
//! another. What the scan promises is stated over whatever those functions
//! give back.

use crate::body::{lemma_located_repeatable, Orbitor, SolarSystemObject};
use crate::point::{Point2D, Point3D};
use crate::units::{Angle, Length, Time, NANOS_PER_DAY, NANOS_PER_SECOND, SECONDS_PER_DAY};
use vstd::prelude::*;

verus! {

/// The period taken for a body that has none, in nanoseconds: one second.
pub const DEFAULT_PERIOD: i128 = 1_000_000_000;

/// What a product of two periods, in nanoseconds each, is divided by to
/// count days: the nanoseconds in a second, squared, times the seconds in a
/// day.
pub const WINDOW_DIVISOR: i128 = 86_400_000_000_000_000_000_000;

/// What a scan watches: the bearing of `target` seen from `observer`,
/// worked out by the three functions, against the arc from `start` up to,
/// not including, `end`.
pub struct Watch<S, O, A> {
    pub target: SolarSystemObject,
    pub observer: SolarSystemObject,
    pub start: Angle,
    pub end: Angle,
    pub place: S,
    pub offset: O,
    pub bearing_of: A,
}

/// The watch for the bearing of `target` seen from `observer`, against the
/// arc from `start` up to, not including, `end`.
pub open spec fn watch_of<S, O, A>(
    target: &SolarSystemObject,
    observer: &SolarSystemObject,
    start: Angle,
    end: Angle,
    place: &S,
    offset: &O,
    bearing_of: &A,
) -> Watch<S, O, A> {
    Watch {
        target: *target,
        observer: *observer,
        start,
        end,
        place: *place,
        offset: *offset,
        bearing_of: *bearing_of,
    }
}

/// The instant `days` whole days after `start`.
pub open spec fn day_instant(start: Time, days: int) -> Time {
    Time { nanoseconds: (start.nanoseconds + days * NANOS_PER_DAY) as i128 }
}

/// The instant `days` whole days and `seconds` whole seconds after `start`.
pub open spec fn second_instant(start: Time, days: int, seconds: int) -> Time {
    Time { nanoseconds: (start.nanoseconds + days * NANOS_PER_DAY + seconds * NANOS_PER_SECOND) as i128 }
}

/// The length of the scan in whole days: the product of the two periods,
/// each in seconds, read as a number of seconds and rounded towards zero to
/// days, no further from zero than a 32-bit integer reaches.
pub open spec fn scan_window(period: Time, other_period: Time) -> int {
    let product = period.nanoseconds * other_period.nanoseconds;
    let days = if product >= 0 {
        product / (WINDOW_DIVISOR as int)
    } else {
        -((-product) / (WINDOW_DIVISOR as int))
    };
    if days > i32::MAX {
        i32::MAX as int
    } else if days < i32::MIN {
        i32::MIN as int
    } else {
        days
    }
}

/// Whether a sample of the watched bearing at `time` can fall inside the
/// arc.
pub open spec fn seen_inside<
    C,
    S: Fn(Point3D<Length>) -> Point3D<C>,
    O: Fn(&Orbitor, Time, Point3D<C>) -> Point3D<C>,
    A: Fn(Point2D<C>, Point2D<C>) -> Angle,
>(watch: Watch<S, O, A>, time: Time) -> bool {
    exists|bearing: Angle| #[trigger]
        watch.target.bears(&watch.observer, time, &watch.place, &watch.offset, &watch.bearing_of, bearing)
            && bearing.within(watch.start, watch.end)
}

/// Whether a sample of the watched bearing at `time` can fall outside the
/// arc.
pub open spec fn seen_outside<
    C,
    S: Fn(Point3D<Length>) -> Point3D<C>,
    O: Fn(&Orbitor, Time, Point3D<C>) -> Point3D<C>,
    A: Fn(Point2D<C>, Point2D<C>) -> Angle,
>(watch: Watch<S, O, A>, time: Time) -> bool {
    exists|bearing: Angle| #[trigger]
        watch.target.bears(&watch.observer, time, &watch.place, &watch.offset, &watch.bearing_of, bearing)
            && !bearing.within(watch.start, watch.end)
}

/// Whether `found` is second `second` of the day before day `day`, seen
/// inside the arc after every earlier second of that day was seen outside.
pub open spec fn refined_to_second<
    C,
    S: Fn(Point3D<Length>) -> Point3D<C>,
    O: Fn(&Orbitor, Time, Point3D<C>) -> Point3D<C>,
    A: Fn(Point2D<C>, Point2D<C>) -> Angle,
>(watch: Watch<S, O, A>, start_time: Time, day: int, second: int, found: Time) -> bool {
    &&& 0 <= second < SECONDS_PER_DAY
    &&& found == second_instant(start_time, day - 1, second)
    &&& seen_inside(watch, found)
    &&& forall|earlier: int|
        0 <= earlier < second ==> seen_outside(watch, #[trigger] second_instant(start_time, day - 1, earlier))
}

/// Whether `found` is day `day` itself, every second of the day before
/// having been seen outside the arc.
pub open spec fn left_at_day<
    C,
    S: Fn(Point3D<Length>) -> Point3D<C>,
    O: Fn(&Orbitor, Time, Point3D<C>) -> Point3D<C>,
    A: Fn(Point2D<C>, Point2D<C>) -> Angle,
>(watch: Watch<S, O, A>, start_time: Time, day: int, found: Time) -> bool {
    &&& found == day_instant(start_time, day)
    &&& forall|second: int|
        0 <= second < SECONDS_PER_DAY ==> seen_outside(
            watch,
            #[trigger] second_instant(start_time, day - 1, second),
        )
}

/// Whether `found` refines the entry seen on day `day`. On day zero there
/// is nothing before the start to refine by, and `found` is the start.
/// Later, `found` is the first second of the day before at which the bearing
/// was seen inside the arc; or, where every second of that day was seen
/// outside, the day-level instant itself.
pub open spec fn refines_day<
    C,
    S: Fn(Point3D<Length>) -> Point3D<C>,
    O: Fn(&Orbitor, Time, Point3D<C>) -> Point3D<C>,
    A: Fn(Point2D<C>, Point2D<C>) -> Angle,
>(watch: Watch<S, O, A>, start_time: Time, day: int, found: Time) -> bool {
    if day == 0 {
        found == start_time
    } else {
        ||| exists|second: int| #[trigger] refined_to_second(watch, start_time, day, second, found)
        ||| left_at_day(watch, start_time, day, found)
    }
}

/// Whether the scan of days `0..=max_days` enters the arc on day `day` and
/// gives `found`: that day was seen inside the arc, every day before it
/// outside, and `found` is an instant that refines the day.
pub open spec fn entered_on<
    C,
    S: Fn(Point3D<Length>) -> Point3D<C>,
    O: Fn(&Orbitor, Time, Point3D<C>) -> Point3D<C>,
    A: Fn(Point2D<C>, Point2D<C>) -> Angle,
>(watch: Watch<S, O, A>, start_time: Time, max_days: int, day: int, found: Option<Time>) -> bool {
    &&& found is Some
    &&& 0 <= day <= max_days
    &&& seen_inside(watch, day_instant(start_time, day))
    &&& forall|earlier: int| 0 <= earlier < day ==> seen_outside(watch, #[trigger] day_instant(start_time, earlier))
    &&& refines_day(watch, start_time, day, found->0)
}

/// Whether `found` is what the scan of days `0..=max_days` from
/// `start_time` gives. `None` means that every day of the scan was seen
/// outside the arc; no day at all where `max_days` is negative. `Some` means
/// that the scan entered the arc on some day, as `entered_on` says.
pub open spec fn first_entry<
    C,
    S: Fn(Point3D<Length>) -> Point3D<C>,
    O: Fn(&Orbitor, Time, Point3D<C>) -> Point3D<C>,
    A: Fn(Point2D<C>, Point2D<C>) -> Angle,
>(watch: Watch<S, O, A>, start_time: Time, max_days: int, found: Option<Time>) -> bool {
    match found {
        None => forall|day: int| 0 <= day <= max_days ==> seen_outside(watch, #[trigger] day_instant(start_time, day)),
        Some(_) => exists|day: int| #[trigger] entered_on(watch, start_time, max_days, day, found),
    }
}

/// Whether each of the three functions of the watch gives one result for
/// each input.
pub open spec fn single_valued<
    C,
    S: Fn(Point3D<Length>) -> Point3D<C>,
    O: Fn(&Orbitor, Time, Point3D<C>) -> Point3D<C>,
    A: Fn(Point2D<C>, Point2D<C>) -> Angle,
>(watch: Watch<S, O, A>) -> bool {
    &&& forall|at: Point3D<Length>, a: Point3D<C>, b: Point3D<C>|
        call_ensures(watch.place, (at,), a) && call_ensures(watch.place, (at,), b) ==> a == b
    &&& forall|o: &Orbitor, t: Time, q: Point3D<C>, a: Point3D<C>, b: Point3D<C>|
        call_ensures(watch.offset, (o, t, q), a) && call_ensures(watch.offset, (o, t, q), b) ==> a == b
    &&& forall|here: Point2D<C>, there: Point2D<C>, a: Angle, b: Angle|
        call_ensures(watch.bearing_of, (here, there), a) && call_ensures(watch.bearing_of, (here, there), b) ==> a
            == b
}

/// Scans days `0..=max_days` from `start_time` for the first on which the
/// bearing of `target` seen from `observer` lies in the arc from `start` up
/// to, not including, `end`, then the seconds of the day before it for the
/// first that does. The three functions are those of
/// `SolarSystemObject::angle`.
pub fn first_entry_within<
    C,
    S: Fn(Point3D<Length>) -> Point3D<C>,
    O: Fn(&Orbitor, Time, Point3D<C>) -> Point3D<C>,
    A: Fn(Point2D<C>, Point2D<C>) -> Angle,
>(
    target: &SolarSystemObject,
    observer: &SolarSystemObject,
    start: Angle,
    end: Angle,
    start_time: Time,
    max_days: i32,
    place: &S,
    offset: &O,
    bearing_of: &A,
) -> (found: Option<Time>)
    requires
        forall|at: Point3D<Length>| call_requires(*place, (at,)),
        forall|o: &Orbitor, t: Time, q: Point3D<C>| call_requires(*offset, (o, t, q)),
        forall|a: Point2D<C>, b: Point2D<C>| call_requires(*bearing_of, (a, b)),
        max_days >= 0 ==> start_time.nanoseconds + max_days * NANOS_PER_DAY <= i128::MAX,
    ensures
        first_entry(
            watch_of(target, observer, start, end, place, offset, bearing_of),
            start_time,
            max_days as int,
            found,
        ),
{
    let ghost watch = watch_of(target, observer, start, end, place, offset, bearing_of);
    let mut day: i64 = 0;
    while day <= max_days as i64
        invariant
            0 <= day,
            max_days >= 0 ==> day <= max_days + 1,
            forall|at: Point3D<Length>| call_requires(*place, (at,)),
            forall|o: &Orbitor, t: Time, q: Point3D<C>| call_requires(*offset, (o, t, q)),
            forall|a: Point2D<C>, b: Point2D<C>| call_requires(*bearing_of, (a, b)),
            max_days >= 0 ==> start_time.nanoseconds + max_days * NANOS_PER_DAY <= i128::MAX,
            watch == watch_of(target, observer, start, end, place, offset, bearing_of),
            forall|earlier: int| 0 <= earlier < day ==> seen_outside(watch, #[trigger] day_instant(start_time, earlier)),
        decreases max_days + 1 - day,
    {
        assert(0 <= day * NANOS_PER_DAY <= max_days * NANOS_PER_DAY) by (nonlinear_arith)
            requires
                0 <= day <= max_days,
        ;
        let time = Time { nanoseconds: start_time.nanoseconds + (day as i128) * NANOS_PER_DAY };
        assert(time == day_instant(start_time, day as int));
        let bearing = target.angle(observer, time, place, offset, bearing_of);
        assert(watch.target.bears(&watch.observer, time, &watch.place, &watch.offset, &watch.bearing_of, bearing));
        if bearing.is_within(start, end) {
            assert(seen_inside(watch, day_instant(start_time, day as int)));
            if day > 0 {
                let previous: i128 = start_time.nanoseconds + ((day - 1) as i128) * NANOS_PER_DAY;
                let mut second: i64 = 0;
                while second < SECONDS_PER_DAY
                    invariant
                        0 <= second <= SECONDS_PER_DAY,
                        0 < day <= max_days,
                        previous == start_time.nanoseconds + (day - 1) * NANOS_PER_DAY,
                        previous + NANOS_PER_DAY <= i128::MAX,
                        forall|at: Point3D<Length>| call_requires(*place, (at,)),
                        forall|o: &Orbitor, t: Time, q: Point3D<C>| call_requires(*offset, (o, t, q)),
                        forall|a: Point2D<C>, b: Point2D<C>| call_requires(*bearing_of, (a, b)),
                        watch == watch_of(target, observer, start, end, place, offset, bearing_of),
                        seen_inside(watch, day_instant(start_time, day as int)),
                        forall|earlier: int|
                            0 <= earlier < day ==> seen_outside(watch, #[trigger] day_instant(start_time, earlier)),
                        forall|earlier: int|
                            0 <= earlier < second ==> seen_outside(
                                watch,
                                #[trigger] second_instant(start_time, day - 1, earlier),
                            ),
                    decreases SECONDS_PER_DAY - second,
                {
                    let small_time = Time { nanoseconds: previous + (second as i128) * NANOS_PER_SECOND };
                    assert(small_time == second_instant(start_time, day - 1, second as int));
                    let small_bearing = target.angle(observer, small_time, place, offset, bearing_of);
                    assert(watch.target.bears(
                        &watch.observer,
                        small_time,
                        &watch.place,
                        &watch.offset,
                        &watch.bearing_of,
                        small_bearing,
                    ));
                    if small_bearing.is_within(start, end) {
                        assert(refined_to_second(watch, start_time, day as int, second as int, small_time));
                        assert(entered_on(watch, start_time, max_days as int, day as int, Some(small_time)));
                        return Some(small_time);
                    }
                    second += 1;
                }
            }
            assert(entered_on(watch, start_time, max_days as int, day as int, Some(time)));
            return Some(time);
        }
        day += 1;
    }
    None
}

/// Computes `scan_window`.
pub fn scan_window_days(period: Time, other_period: Time) -> (days: i32)
    ensures
        days == scan_window(period, other_period),
{
    let a: i128 = period.nanoseconds;
    let b: i128 = other_period.nanoseconds;
    match a.checked_mul(b) {
        Some(product) => {
            if product >= 0 {
                let days: i128 = product / WINDOW_DIVISOR;
                if days > i32::MAX as i128 {
                    i32::MAX
                } else {
                    days as i32
                }
            } else if product == i128::MIN {
                i32::MIN
            } else {
                let days: i128 = (-product) / WINDOW_DIVISOR;
                if days > i32::MAX as i128 {
                    i32::MIN
                } else {
                    (-days) as i32
                }
            }
        },
        None => {
            proof {
                lemma_large_product_saturates(a as int, b as int);
            }
            if (a > 0) == (b > 0) {
                i32::MAX
            } else {
                i32::MIN
            }
        },
    }
}

impl SolarSystemObject {
    /// Whether `period` can be the period that the scan takes for the body:
    /// what `two_body` gives for its orbit, or, for a body that has no
    /// period, one second.
    pub open spec fn scan_period<F: Fn(&Orbitor) -> Time>(&self, two_body: &F, period: Time) -> bool {
        match self {
            SolarSystemObject::Static { .. } => period.nanoseconds == DEFAULT_PERIOD,
            SolarSystemObject::Orbit { o, .. } => call_ensures(*two_body, (o,), period),
        }
    }

    /// Whether `found` is what the scan for the bearing of `other`, seen from
    /// this body, gives: the outcome that `first_entry` describes of a scan
    /// of `scan_window` days, for periods that `scan_period` allows of the
    /// two bodies.
    pub open spec fn entry_found<
        C,
        F: Fn(&Orbitor) -> Time,
        S: Fn(Point3D<Length>) -> Point3D<C>,
        O: Fn(&Orbitor, Time, Point3D<C>) -> Point3D<C>,
        A: Fn(Point2D<C>, Point2D<C>) -> Angle,
    >(
        &self,
        other: &SolarSystemObject,
        angle_start: Angle,
        angle_end: Angle,
        start_time: Time,
        two_body: &F,
        place: &S,
        offset: &O,
        bearing_of: &A,
        found: Option<Time>,
    ) -> bool {
        exists|period: Time, other_period: Time|
            #![trigger self.scan_period(two_body, period), other.scan_period(two_body, other_period)]
            self.scan_period(two_body, period) && other.scan_period(two_body, other_period) && first_entry(
                watch_of(other, self, angle_start, angle_end, place, offset, bearing_of),
                start_time,
                scan_window(period, other_period),
                found,
            )
    }

    /// The next time, from `start_time` on, at which the bearing of `other`
    /// seen from this body lies in the arc from `angle_start` up to, not
    /// including, `angle_end`; `None` if the scan ends without one.
    ///
    /// The scan covers `scan_window` days, counted from the periods of this
    /// body and of `other`. `two_body` gives the period of one orbit's
    /// two-body motion; `place`, `offset` and `bearing_of` are those of
    /// `angle`.
    pub fn next_time_angle_in_range<
        C,
        F: Fn(&Orbitor) -> Time,
        S: Fn(Point3D<Length>) -> Point3D<C>,
        O: Fn(&Orbitor, Time, Point3D<C>) -> Point3D<C>,
        A: Fn(Point2D<C>, Point2D<C>) -> Angle,
    >(
        &self,
        other: &SolarSystemObject,
        angle_start: Angle,
        angle_end: Angle,
        start_time: Time,
        two_body: &F,
        place: &S,
        offset: &O,
        bearing_of: &A,
    ) -> (found: Option<Time>)
        requires
            self is Orbit ==> call_requires(*two_body, (&self->o,)),
            other is Orbit ==> call_requires(*two_body, (&other->o,)),
            forall|at: Point3D<Length>| call_requires(*place, (at,)),
            forall|o: &Orbitor, t: Time, q: Point3D<C>| call_requires(*offset, (o, t, q)),
            forall|a: Point2D<C>, b: Point2D<C>| call_requires(*bearing_of, (a, b)),
            start_time.nanoseconds + i32::MAX * NANOS_PER_DAY <= i128::MAX,
        ensures
            self.entry_found(other, angle_start, angle_end, start_time, two_body, place, offset, bearing_of, found),
            found matches Some(time) ==> start_time.nanoseconds <= time.nanoseconds <= start_time.nanoseconds
                + i32::MAX * NANOS_PER_DAY,
    {
        let t1 = match self.orbital_period(start_time, two_body) {
            Some(period) => period,
            None => Time { nanoseconds: DEFAULT_PERIOD },
        };
        let t2 = match other.orbital_period(start_time, two_body) {
            Some(period) => period,
            None => Time { nanoseconds: DEFAULT_PERIOD },
        };
        let max_days = scan_window_days(t1, t2);
        assert(max_days * NANOS_PER_DAY <= i32::MAX * NANOS_PER_DAY) by (nonlinear_arith)
            requires
                max_days <= i32::MAX,
        ;
        let found = first_entry_within(
            other,
            self,
            angle_start,
            angle_end,
            start_time,
            max_days,
            place,
            offset,
            bearing_of,
        );
        assert(self.scan_period(two_body, t1) && other.scan_period(two_body, t2));
        proof {
            if let Some(time) = found {
                lemma_entry_bounds(
                    watch_of(other, self, angle_start, angle_end, place, offset, bearing_of),
                    start_time,
                    max_days as int,
                    time,
                );
            }
        }
        found
    }
}

/// An entry that the scan finds lies between its start and its last day.
pub proof fn lemma_entry_bounds<
    C,
    S: Fn(Point3D<Length>) -> Point3D<C>,
    O: Fn(&Orbitor, Time, Point3D<C>) -> Point3D<C>,
    A: Fn(Point2D<C>, Point2D<C>) -> Angle,
>(watch: Watch<S, O, A>, start_time: Time, max_days: int, time: Time)
    requires
        first_entry(watch, start_time, max_days, Some(time)),
        start_time.nanoseconds + max_days * NANOS_PER_DAY <= i128::MAX,
    ensures
        max_days >= 0,
        start_time.nanoseconds <= time.nanoseconds <= start_time.nanoseconds + max_days * NANOS_PER_DAY,
{
    let day = choose|day: int| #[trigger] entered_on(watch, start_time, max_days, day, Some(time));
    assert(0 <= day * NANOS_PER_DAY <= max_days * NANOS_PER_DAY) by (nonlinear_arith)
        requires
            0 <= day <= max_days,
    ;
    if day > 0 {
        assert((day - 1) * NANOS_PER_DAY == day * NANOS_PER_DAY - NANOS_PER_DAY) by (nonlinear_arith);
        assert(0 <= (day - 1) * NANOS_PER_DAY) by (nonlinear_arith)
            requires
                day >= 1,
        ;
        if !left_at_day(watch, start_time, day, time) {
            let second = choose|second: int| #[trigger] refined_to_second(watch, start_time, day, second, time);
            assert(0 <= second * NANOS_PER_SECOND < NANOS_PER_DAY) by (nonlinear_arith)
                requires
                    0 <= second < 86_400,
            ;
        }
    }
}

/// Asked again, a body is seen in the same direction: where the three
/// functions give one result for each input, one body has one bearing from
/// another at each time.
pub proof fn lemma_bears_repeatable<
    C,
    S: Fn(Point3D<Length>) -> Point3D<C>,
    O: Fn(&Orbitor, Time, Point3D<C>) -> Point3D<C>,
    A: Fn(Point2D<C>, Point2D<C>) -> Angle,
>(watch: Watch<S, O, A>, time: Time, first: Angle, second: Angle)
    requires
        single_valued(watch),
        watch.target.bears(&watch.observer, time, &watch.place, &watch.offset, &watch.bearing_of, first),
        watch.target.bears(&watch.observer, time, &watch.place, &watch.offset, &watch.bearing_of, second),
    ensures
        first == second,
{
    let target = &watch.target;
    let observer = &watch.observer;
    let place = &watch.place;
    let offset = &watch.offset;
    let bearing_of = &watch.bearing_of;
    let (here1, there1, raw1) = choose|here: Point2D<C>, there: Point2D<C>, raw: Angle|
        #![trigger call_ensures(*bearing_of, (here, there), raw)]
        target.projected(time, place, offset, here) && observer.projected(time, place, offset, there)
            && call_ensures(*bearing_of, (here, there), raw) && first == raw.normalized();
    let (here2, there2, raw2) = choose|here: Point2D<C>, there: Point2D<C>, raw: Angle|
        #![trigger call_ensures(*bearing_of, (here, there), raw)]
        target.projected(time, place, offset, here) && observer.projected(time, place, offset, there)
            && call_ensures(*bearing_of, (here, there), raw) && second == raw.normalized();
    lemma_projected_repeatable(target, time, place, offset, here1, here2);
    lemma_projected_repeatable(observer, time, place, offset, there1, there2);
}

/// Where `place` and `offset` give one result for each input, a body has
/// one place in the drawing plane at each time.
proof fn lemma_projected_repeatable<
    C,
    S: Fn(Point3D<Length>) -> Point3D<C>,
    O: Fn(&Orbitor, Time, Point3D<C>) -> Point3D<C>,
>(body: &SolarSystemObject, time: Time, place: &S, offset: &O, first: Point2D<C>, second: Point2D<C>)
    requires
        forall|at: Point3D<Length>, a: Point3D<C>, b: Point3D<C>|
            call_ensures(*place, (at,), a) && call_ensures(*place, (at,), b) ==> a == b,
        forall|o: &Orbitor, t: Time, q: Point3D<C>, a: Point3D<C>, b: Point3D<C>|
            call_ensures(*offset, (o, t, q), a) && call_ensures(*offset, (o, t, q), b) ==> a == b,
        body.projected(time, place, offset, first),
        body.projected(time, place, offset, second),
    ensures
        first == second,
{
    let p1 = choose|p: Point3D<C>| #[trigger] body.located(time, place, offset, p) && first == Point2D(p.0, p.2);
    let p2 = choose|p: Point3D<C>| #[trigger] body.located(time, place, offset, p) && second == Point2D(p.0, p.2);
    lemma_located_repeatable(body, time, place, offset, p1, p2);
}

/// Where the three functions give one result for each input, no sample is
/// seen both inside and outside the arc.
proof fn lemma_inside_or_outside<
    C,
    S: Fn(Point3D<Length>) -> Point3D<C>,
    O: Fn(&Orbitor, Time, Point3D<C>) -> Point3D<C>,
    A: Fn(Point2D<C>, Point2D<C>) -> Angle,
>(watch: Watch<S, O, A>, time: Time)
    requires
        single_valued(watch),
    ensures
        !(seen_inside(watch, time) && seen_outside(watch, time)),
{
    if seen_inside(watch, time) && seen_outside(watch, time) {
        let x = choose|bearing: Angle| #[trigger]
            watch.target.bears(&watch.observer, time, &watch.place, &watch.offset, &watch.bearing_of, bearing)
                && bearing.within(watch.start, watch.end);
        let y = choose|bearing: Angle| #[trigger]
            watch.target.bears(&watch.observer, time, &watch.place, &watch.offset, &watch.bearing_of, bearing)
                && !bearing.within(watch.start, watch.end);
        lemma_bears_repeatable(watch, time, x, y);
    }
}

/// Where the three functions give one result for each input, one day has
/// one refinement.
proof fn lemma_refines_day_repeatable<
    C,
    S: Fn(Point3D<Length>) -> Point3D<C>,
    O: Fn(&Orbitor, Time, Point3D<C>) -> Point3D<C>,
    A: Fn(Point2D<C>, Point2D<C>) -> Angle,
>(watch: Watch<S, O, A>, start_time: Time, day: int, first: Time, second: Time)
    requires
        single_valued(watch),
        refines_day(watch, start_time, day, first),
        refines_day(watch, start_time, day, second),
    ensures
        first == second,
{
    if day != 0 {
        lemma_inside_or_outside(watch, first);
        lemma_inside_or_outside(watch, second);
        if !left_at_day(watch, start_time, day, first) {
            let s1 = choose|s: int| #[trigger] refined_to_second(watch, start_time, day, s, first);
            assert(first == second_instant(start_time, day - 1, s1));
            if !left_at_day(watch, start_time, day, second) {
                let s2 = choose|s: int| #[trigger] refined_to_second(watch, start_time, day, s, second);
                assert(second == second_instant(start_time, day - 1, s2));
                assert(s1 == s2);
            }
        } else if !left_at_day(watch, start_time, day, second) {
            let s2 = choose|s: int| #[trigger] refined_to_second(watch, start_time, day, s, second);
            assert(second == second_instant(start_time, day - 1, s2));
        }
    }
}

/// Asked again, the scan finds the same: where the three functions give one
/// result for each input, `first_entry` allows one outcome.
pub proof fn lemma_first_entry_repeatable<
    C,
    S: Fn(Point3D<Length>) -> Point3D<C>,
    O: Fn(&Orbitor, Time, Point3D<C>) -> Point3D<C>,
    A: Fn(Point2D<C>, Point2D<C>) -> Angle,
>(watch: Watch<S, O, A>, start_time: Time, max_days: int, first: Option<Time>, second: Option<Time>)
    requires
        single_valued(watch),
        first_entry(watch, start_time, max_days, first),
        first_entry(watch, start_time, max_days, second),
    ensures
        first == second,
{
    match (first, second) {
        (None, None) => {},
        (Some(t1), None) => {
            let d1 = choose|day: int| #[trigger] entered_on(watch, start_time, max_days, day, first);
            lemma_inside_or_outside(watch, day_instant(start_time, d1));
        },
        (None, Some(t2)) => {
            let d2 = choose|day: int| #[trigger] entered_on(watch, start_time, max_days, day, second);
            lemma_inside_or_outside(watch, day_instant(start_time, d2));
        },
        (Some(t1), Some(t2)) => {
            let d1 = choose|day: int| #[trigger] entered_on(watch, start_time, max_days, day, first);
            let d2 = choose|day: int| #[trigger] entered_on(watch, start_time, max_days, day, second);
            lemma_inside_or_outside(watch, day_instant(start_time, d1));
            lemma_inside_or_outside(watch, day_instant(start_time, d2));
            assert(d1 == d2);
            lemma_refines_day_repeatable(watch, start_time, d1, t1, t2);
        },
    }
}

/// A product too large for 128 bits is worth more days than 32 bits count.
proof fn lemma_large_product_saturates(a: int, b: int)
    requires
        a * b > i128::MAX || a * b < i128::MIN,
    ensures
        a != 0 && b != 0,
        (a > 0) == (b > 0) ==> a * b >= 0 && (a * b) / (WINDOW_DIVISOR as int) > i32::MAX,
        (a > 0) != (b > 0) ==> a * b < 0 && (-(a * b)) / (WINDOW_DIVISOR as int) > i32::MAX,
{
    let w = WINDOW_DIVISOR as int;
    assert(a != 0 && b != 0) by (nonlinear_arith)
        requires
            a * b > i128::MAX || a * b < i128::MIN,
    ;
    if (a > 0) == (b > 0) {
        assert(a * b >= 0) by (nonlinear_arith)
            requires
                (a > 0) == (b > 0),
                a != 0,
                b != 0,
        ;
        lemma_quotient_exceeds(a * b, w, 0x8000_0000);
    } else {
        assert(a * b < 0) by (nonlinear_arith)
            requires
                (a > 0) != (b > 0),
                a != 0,
                b != 0,
        ;
        lemma_quotient_exceeds(-(a * b), w, 0x8000_0000);
    }
}

/// `x / d` is at least `i` where `x` is at least `i * d`.
proof fn lemma_quotient_exceeds(x: int, d: int, i: int)
    requires
        d > 0,
        x >= i * d,
    ensures
        x / d >= i,
{
    vstd::arithmetic::div_mod::lemma_fundamental_div_mod(x, d);
    vstd::arithmetic::div_mod::lemma_mod_bound(x, d);
    let q = x / d;
    if q < i {
        assert(d * (q + 1) <= d * i) by (nonlinear_arith)
            requires
                d > 0,
                q + 1 <= i,
        ;
        assert(d * (q + 1) == d * q + d) by (nonlinear_arith);
        assert(d * i == i * d) by (nonlinear_arith);
    }
}

} // verus!
