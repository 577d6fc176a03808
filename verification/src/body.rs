//! Celestial bodies and their chain of gravitational parents.
//!
//! A body either stays where it is or circles a parent on a fixed ellipse.
//! The parent is owned through a shared handle, so a chain of parents is
//! finite and free of cycles by construction, and every walk up the chain
//! ends at a static body.
//!
//! The crate keeps the elements of an orbit and decides what has to be
//! worked out from which of them. Working it out takes trigonometry and
//! square roots, which the caller supplies as functions: the period of a
//! two-body orbit, the step of the Newton-Raphson iteration, the offset of
//! an orbiting body from its parent.

use crate::point::{Point2D, Point3D};
use crate::units::{normalize, Angle, Length, Mass, Ratio, Time};
use plotters::style::RGBColor;
use std::rc::Rc;
use vstd::prelude::*;

verus! {

/// `plotters::style::RGBColor`, the colour a body is drawn in. The crate
/// carries it from the constructor to the getter and never looks inside.
#[verifier::external_type_specification]
#[verifier::external_body]
pub struct ExRGBColor(RGBColor);

/// The divisor that brings an orbital offset, in metres, down to drawing
/// units before it is added to the parent's position. It plays no part in
/// angles or periods.
pub const SCALING_FACTOR: i64 = 25_000_000_000;

/// How many Newton-Raphson steps refine the eccentric anomaly. The count is
/// fixed: there is no test for convergence.
pub const NEWTON_ITERATIONS: usize = 5;

/// A body that stays where it is.
pub struct StaticObject {
    pub mass: Mass,
    pub x: Length,
    pub y: Length,
    pub z: Length,
}

/// A body on a fixed ellipse around its parent.
pub struct Orbitor {
    pub mass: Mass,
    pub parent: Rc<SolarSystemObject>,
    /// Semi-major axis.
    pub semimajor: Length,
    pub eccentricity: Ratio,
    pub inclination: Angle,
    /// Longitude of the ascending node.
    pub lan: Angle,
    /// Argument of periapsis.
    pub aop: Angle,
    /// Mean anomaly at the epoch.
    pub mae: Angle,
}

/// A named body of either kind.
pub enum SolarSystemObject {
    Static { name: String, color: RGBColor, s: StaticObject },
    Orbit { name: String, color: RGBColor, o: Orbitor },
}

impl StaticObject {
    /// The body of the given mass at `(x, y, z)`.
    pub fn new(mass: Mass, x: Length, y: Length, z: Length) -> (s: StaticObject)
        ensures
            s == (StaticObject { mass, x, y, z }),
    {
        StaticObject { mass, x, y, z }
    }

    /// Where the body is: the same place at every time.
    pub fn xyz(&self, _time: Time) -> (p: Point3D<Length>)
        ensures
            p == Point3D(self.x, self.y, self.z),
    {
        Point3D(self.x, self.y, self.z)
    }

    /// The body's place in the drawing plane: its first and third
    /// coordinates, the same at every time.
    pub fn xy(&self, _time: Time) -> (p: Point2D<Length>)
        ensures
            p == Point2D(self.x, self.z),
    {
        Point2D(self.x, self.z)
    }
}

impl Orbitor {
    /// The orbit of the given elements around `parent`.
    pub fn new(
        mass: Mass,
        parent: Rc<SolarSystemObject>,
        semimajor: Length,
        eccentricity: Ratio,
        inclination: Angle,
        lan: Angle,
        aop: Angle,
        mae: Angle,
    ) -> (o: Orbitor)
        ensures
            o == (Orbitor { mass, parent, semimajor, eccentricity, inclination, lan, aop, mae }),
    {
        Orbitor { mass, parent, semimajor, eccentricity, inclination, lan, aop, mae }
    }

    /// The period of the orbit: what `two_body` gives for it. `two_body`
    /// works out the period of an orbit's two-body motion from its
    /// semi-major axis and the masses of the body and its parent; no other
    /// body and no time plays a part in the result.
    pub fn orbital_period<F: Fn(&Orbitor) -> Time>(&self, time: Time, two_body: &F) -> (period: Time)
        requires
            call_requires(*two_body, (self,)),
        ensures
            call_ensures(*two_body, (self,), period),
    {
        two_body(self)
    }

    /// The mean anomaly where it is known without advancing the orbit: zero
    /// for a degenerate orbit, one whose semi-major axis is zero; else, at
    /// the epoch itself, the mean anomaly at the epoch. At any other time
    /// `None`: the orbit has to be advanced by its mean motion.
    pub open spec fn settled_mean_anomaly(&self, time: Time) -> Option<Angle> {
        if self.semimajor.meters == 0 {
            Some(Angle { microdegrees: 0 })
        } else if time.nanoseconds == 0 {
            Some(self.mae)
        } else {
            None
        }
    }

    /// The mean anomaly at `time` where it is known without advancing the
    /// orbit, as `settled_mean_anomaly` says; `None` where the caller has to
    /// advance the orbit. At the epoch an orbit that is not degenerate has
    /// exactly its mean anomaly at the epoch.
    pub fn current_mean_anomaly(&self, time: Time) -> (m: Option<Angle>)
        ensures
            m == self.settled_mean_anomaly(time),
            self.semimajor.meters != 0 && time.nanoseconds == 0 ==> m == Some(self.mae),
    {
        if self.semimajor.meters == 0 {
            Some(Angle { microdegrees: 0 })
        } else if time.nanoseconds == 0 {
            Some(self.mae)
        } else {
            None
        }
    }

    /// Whether `estimate` can come out of `steps` Newton-Raphson steps that
    /// start from the mean anomaly itself.
    pub open spec fn refined<A, F: Fn(&Orbitor, A, A) -> A>(
        &self,
        newton_step: &F,
        mean_anomaly: A,
        steps: nat,
        estimate: A,
    ) -> bool
        decreases steps,
    {
        if steps == 0 {
            estimate == mean_anomaly
        } else {
            exists|before: A|
                #![trigger call_ensures(*newton_step, (self, before, mean_anomaly), estimate)]
                self.refined(newton_step, mean_anomaly, (steps - 1) as nat, before) && call_ensures(
                    *newton_step,
                    (self, before, mean_anomaly),
                    estimate,
                )
        }
    }

    /// The eccentric anomaly for a mean anomaly: the mean anomaly itself,
    /// refined by exactly `NEWTON_ITERATIONS` steps. `newton_step` takes the
    /// orbit, the estimate so far and the mean anomaly, and gives the next
    /// estimate.
    pub fn eccentric_anomaly<A: Copy, F: Fn(&Orbitor, A, A) -> A>(&self, mean_anomaly: A, newton_step: &F) -> (ecc:
        A)
        requires
            forall|o: &Orbitor, e: A, m: A| call_requires(*newton_step, (o, e, m)),
        ensures
            self.refined(newton_step, mean_anomaly, NEWTON_ITERATIONS as nat, ecc),
    {
        let mut ecc = mean_anomaly;
        let mut i: usize = 0;
        while i < NEWTON_ITERATIONS
            invariant
                i <= NEWTON_ITERATIONS,
                self.refined(newton_step, mean_anomaly, i as nat, ecc),
                forall|o: &Orbitor, e: A, m: A| call_requires(*newton_step, (o, e, m)),
            decreases NEWTON_ITERATIONS - i,
        {
            ecc = newton_step(self, ecc, mean_anomaly);
            i += 1;
        }
        ecc
    }

    /// Where the body is at `time`: what `offset` makes of this orbit, the
    /// time and a place of its parent.
    pub fn xyz<P, S: Fn(Point3D<Length>) -> P, O: Fn(&Orbitor, Time, P) -> P>(
        &self,
        time: Time,
        place: &S,
        offset: &O,
    ) -> (p: P)
        requires
            forall|at: Point3D<Length>| call_requires(*place, (at,)),
            forall|o: &Orbitor, t: Time, q: P| call_requires(*offset, (o, t, q)),
        ensures
            exists|q: P|
                #![trigger call_ensures(*offset, (self, time, q), p)]
                self.parent.located(time, place, offset, q) && call_ensures(*offset, (self, time, q), p),
        decreases self, 0nat,
    {
        let q = self.parent.xyz(time, place, offset);
        offset(self, time, q)
    }

    /// The body's place in the drawing plane at `time`: the first and third
    /// coordinates of its place in space.
    pub fn xy<C, S: Fn(Point3D<Length>) -> Point3D<C>, O: Fn(&Orbitor, Time, Point3D<C>) -> Point3D<C>>(
        &self,
        time: Time,
        place: &S,
        offset: &O,
    ) -> (flat: Point2D<C>)
        requires
            forall|at: Point3D<Length>| call_requires(*place, (at,)),
            forall|o: &Orbitor, t: Time, q: Point3D<C>| call_requires(*offset, (o, t, q)),
        ensures
            exists|q: Point3D<C>, p: Point3D<C>|
                #![trigger call_ensures(*offset, (self, time, q), p)]
                self.parent.located(time, place, offset, q) && call_ensures(*offset, (self, time, q), p) && flat
                    == Point2D(p.0, p.2),
    {
        let Point3D(x, _, z) = self.xyz(time, place, offset);
        Point2D(x, z)
    }
}

impl SolarSystemObject {
    /// A body fixed at `(x, y, z)`.
    pub fn new_static(name: &str, color: RGBColor, mass: Mass, x: Length, y: Length, z: Length) -> (b:
        SolarSystemObject)
        ensures
            b is Static,
            b.name() == name@,
            b.color() == color,
            b->s == (StaticObject { mass, x, y, z }),
    {
        SolarSystemObject::Static { name: name.to_string(), color, s: StaticObject::new(mass, x, y, z) }
    }

    /// A body on the ellipse of the given elements around `parent`.
    pub fn new_orbitor(
        name: &str,
        color: RGBColor,
        mass: Mass,
        parent: Rc<SolarSystemObject>,
        semimajor: Length,
        eccentricity: Ratio,
        inclination: Angle,
        lan: Angle,
        aop: Angle,
        mae: Angle,
    ) -> (b: SolarSystemObject)
        ensures
            b is Orbit,
            b.name() == name@,
            b.color() == color,
            b->o == (Orbitor { mass, parent, semimajor, eccentricity, inclination, lan, aop, mae }),
    {
        SolarSystemObject::Orbit {
            name: name.to_string(),
            color,
            o: Orbitor::new(mass, parent, semimajor, eccentricity, inclination, lan, aop, mae),
        }
    }

    /// The body's name.
    pub open spec fn name(&self) -> Seq<char> {
        match self {
            SolarSystemObject::Static { name, .. } => name@,
            SolarSystemObject::Orbit { name, .. } => name@,
        }
    }

    /// The body's colour.
    pub open spec fn color(&self) -> RGBColor {
        match self {
            SolarSystemObject::Static { color, .. } => *color,
            SolarSystemObject::Orbit { color, .. } => *color,
        }
    }

    /// The body's mass.
    pub open spec fn mass(&self) -> Mass {
        match self {
            SolarSystemObject::Static { s, .. } => s.mass,
            SolarSystemObject::Orbit { o, .. } => o.mass,
        }
    }

    /// Whether `p` can be the body's place at `time`: for a static body what
    /// `place` makes of its coordinates; for an orbiting one what `offset`
    /// makes of its orbit, the time and a place of its parent.
    pub open spec fn located<P, S: Fn(Point3D<Length>) -> P, O: Fn(&Orbitor, Time, P) -> P>(
        &self,
        time: Time,
        place: &S,
        offset: &O,
        p: P,
    ) -> bool
        decreases self,
    {
        match self {
            SolarSystemObject::Static { s, .. } => call_ensures(*place, (Point3D(s.x, s.y, s.z),), p),
            SolarSystemObject::Orbit { o, .. } => exists|q: P|
                #![trigger call_ensures(*offset, (o, time, q), p)]
                o.parent.located(time, place, offset, q) && call_ensures(*offset, (o, time, q), p),
        }
    }

    /// Whether `flat` can be the body's place in the drawing plane at
    /// `time`: the first and third coordinates of a place of the body in
    /// space.
    pub open spec fn projected<
        C,
        S: Fn(Point3D<Length>) -> Point3D<C>,
        O: Fn(&Orbitor, Time, Point3D<C>) -> Point3D<C>,
    >(&self, time: Time, place: &S, offset: &O, flat: Point2D<C>) -> bool {
        exists|p: Point3D<C>| #[trigger] self.located(time, place, offset, p) && flat == Point2D(p.0, p.2)
    }

    /// Whether `bearing` can be the bearing of the body seen from `other`
    /// at `time`: what `bearing_of` makes of a place of the body and a place
    /// of `other` in the drawing plane, brought into one turn.
    pub open spec fn bears<
        C,
        S: Fn(Point3D<Length>) -> Point3D<C>,
        O: Fn(&Orbitor, Time, Point3D<C>) -> Point3D<C>,
        A: Fn(Point2D<C>, Point2D<C>) -> Angle,
    >(
        &self,
        other: &SolarSystemObject,
        time: Time,
        place: &S,
        offset: &O,
        bearing_of: &A,
        bearing: Angle,
    ) -> bool {
        exists|here: Point2D<C>, there: Point2D<C>, raw: Angle|
            #![trigger call_ensures(*bearing_of, (here, there), raw)]
            self.projected(time, place, offset, here) && other.projected(time, place, offset, there)
                && call_ensures(*bearing_of, (here, there), raw) && bearing == raw.normalized()
    }

    /// A copy of the body's name.
    pub fn get_name(&self) -> (n: String)
        ensures
            n@ == self.name(),
    {
        match self {
            SolarSystemObject::Static { name, .. } => name.clone(),
            SolarSystemObject::Orbit { name, .. } => name.clone(),
        }
    }

    /// The body's colour, as it was given.
    pub fn get_color(&self) -> (c: RGBColor)
        ensures
            c == self.color(),
    {
        match self {
            SolarSystemObject::Static { color, .. } => *color,
            SolarSystemObject::Orbit { color, .. } => *color,
        }
    }

    /// The body's mass.
    pub fn get_mass(&self) -> (m: Mass)
        ensures
            m == self.mass(),
    {
        match self {
            SolarSystemObject::Static { s, .. } => s.mass,
            SolarSystemObject::Orbit { o, .. } => o.mass,
        }
    }

    /// The body's period, or `None` for a static body, which has none. For
    /// an orbiting body it is what `two_body` gives for its orbit. The time
    /// plays no part in the result.
    pub fn orbital_period<F: Fn(&Orbitor) -> Time>(&self, start_time: Time, two_body: &F) -> (period: Option<Time>)
        requires
            self is Orbit ==> call_requires(*two_body, (&self->o,)),
        ensures
            period is Some <==> self is Orbit,
            period matches Some(t) ==> call_ensures(*two_body, (&self->o,), t),
    {
        match self {
            SolarSystemObject::Orbit { o, .. } => Some(o.orbital_period(start_time, two_body)),
            SolarSystemObject::Static { .. } => None,
        }
    }

    /// Where the body is at `time`, resolved through its chain of parents.
    /// `place` turns the coordinates of a static body into a position;
    /// `offset` takes an orbit, the time and the parent's position, and gives
    /// the orbiting body's position.
    pub fn xyz<P, S: Fn(Point3D<Length>) -> P, O: Fn(&Orbitor, Time, P) -> P>(
        &self,
        time: Time,
        place: &S,
        offset: &O,
    ) -> (p: P)
        requires
            forall|at: Point3D<Length>| call_requires(*place, (at,)),
            forall|o: &Orbitor, t: Time, q: P| call_requires(*offset, (o, t, q)),
        ensures
            self.located(time, place, offset, p),
        decreases self, 1nat,
    {
        match self {
            SolarSystemObject::Static { s, .. } => place(s.xyz(time)),
            SolarSystemObject::Orbit { o, .. } => o.xyz(time, place, offset),
        }
    }

    /// The body's place in the drawing plane at `time`: the first and third
    /// coordinates of its place in space.
    pub fn xy<C, S: Fn(Point3D<Length>) -> Point3D<C>, O: Fn(&Orbitor, Time, Point3D<C>) -> Point3D<C>>(
        &self,
        time: Time,
        place: &S,
        offset: &O,
    ) -> (flat: Point2D<C>)
        requires
            forall|at: Point3D<Length>| call_requires(*place, (at,)),
            forall|o: &Orbitor, t: Time, q: Point3D<C>| call_requires(*offset, (o, t, q)),
        ensures
            self.projected(time, place, offset, flat),
    {
        let p = self.xyz(time, place, offset);
        let Point3D(x, _, z) = p;
        Point2D(x, z)
    }

    /// The bearing of the body seen from `other` at `time`, in `[0, 360)`
    /// degrees. `bearing_of` takes the place of the body and the place of
    /// `other` in the drawing plane, and gives the direction from the second
    /// to the first.
    pub fn angle<
        C,
        S: Fn(Point3D<Length>) -> Point3D<C>,
        O: Fn(&Orbitor, Time, Point3D<C>) -> Point3D<C>,
        A: Fn(Point2D<C>, Point2D<C>) -> Angle,
    >(&self, other: &SolarSystemObject, time: Time, place: &S, offset: &O, bearing_of: &A) -> (bearing: Angle)
        requires
            forall|at: Point3D<Length>| call_requires(*place, (at,)),
            forall|o: &Orbitor, t: Time, q: Point3D<C>| call_requires(*offset, (o, t, q)),
            forall|a: Point2D<C>, b: Point2D<C>| call_requires(*bearing_of, (a, b)),
        ensures
            self.bears(other, time, place, offset, bearing_of, bearing),
            bearing.is_normal(),
    {
        let here = self.xy(time, place, offset);
        let there = other.xy(time, place, offset);
        let raw = bearing_of(here, there);
        normalize(raw)
    }
}

/// The period of a body does not depend on the time it is asked at: where
/// `two_body` gives one period for each orbit, asking at any two times gives
/// the same answer.
pub proof fn lemma_period_time_invariant<F: Fn(&Orbitor) -> Time>(
    body: &SolarSystemObject,
    two_body: &F,
    first_time: Time,
    second_time: Time,
    first: Option<Time>,
    second: Option<Time>,
)
    requires
        forall|o: &Orbitor, a: Time, b: Time|
            call_ensures(*two_body, (o,), a) && call_ensures(*two_body, (o,), b) ==> a == b,
        call_ensures(SolarSystemObject::orbital_period::<F>, (body, first_time, two_body), first),
        call_ensures(SolarSystemObject::orbital_period::<F>, (body, second_time, two_body), second),
    ensures
        first == second,
{
}

/// A mean anomaly that the Newton-Raphson step leaves as it is comes back
/// unchanged as the eccentric anomaly, after any number of steps.
pub proof fn lemma_fixed_seed_stays<A, F: Fn(&Orbitor, A, A) -> A>(
    o: &Orbitor,
    newton_step: &F,
    mean_anomaly: A,
    steps: nat,
    estimate: A,
)
    requires
        forall|next: A| call_ensures(*newton_step, (o, mean_anomaly, mean_anomaly), next) ==> next == mean_anomaly,
        o.refined(newton_step, mean_anomaly, steps, estimate),
    ensures
        estimate == mean_anomaly,
    decreases steps,
{
    if steps > 0 {
        let before = choose|before: A|
            #![trigger call_ensures(*newton_step, (o, before, mean_anomaly), estimate)]
            o.refined(newton_step, mean_anomaly, (steps - 1) as nat, before) && call_ensures(
                *newton_step,
                (o, before, mean_anomaly),
                estimate,
            );
        lemma_fixed_seed_stays(o, newton_step, mean_anomaly, (steps - 1) as nat, before);
    }
}

/// Asked again, the iteration gives the same eccentric anomaly: where the
/// step gives one result for each input, so do any number of steps.
pub proof fn lemma_refined_repeatable<A, F: Fn(&Orbitor, A, A) -> A>(
    o: &Orbitor,
    newton_step: &F,
    mean_anomaly: A,
    steps: nat,
    first: A,
    second: A,
)
    requires
        forall|orbit: &Orbitor, e: A, m: A, a: A, b: A|
            call_ensures(*newton_step, (orbit, e, m), a) && call_ensures(*newton_step, (orbit, e, m), b) ==> a == b,
        o.refined(newton_step, mean_anomaly, steps, first),
        o.refined(newton_step, mean_anomaly, steps, second),
    ensures
        first == second,
    decreases steps,
{
    if steps > 0 {
        let a = choose|before: A|
            #![trigger call_ensures(*newton_step, (o, before, mean_anomaly), first)]
            o.refined(newton_step, mean_anomaly, (steps - 1) as nat, before) && call_ensures(
                *newton_step,
                (o, before, mean_anomaly),
                first,
            );
        let b = choose|before: A|
            #![trigger call_ensures(*newton_step, (o, before, mean_anomaly), second)]
            o.refined(newton_step, mean_anomaly, (steps - 1) as nat, before) && call_ensures(
                *newton_step,
                (o, before, mean_anomaly),
                second,
            );
        lemma_refined_repeatable(o, newton_step, mean_anomaly, (steps - 1) as nat, a, b);
    }
}

/// Asked again, a body is found in the same place: where `place` and
/// `offset` give one result for each input, a body has one place at each
/// time.
pub proof fn lemma_located_repeatable<P, S: Fn(Point3D<Length>) -> P, O: Fn(&Orbitor, Time, P) -> P>(
    body: &SolarSystemObject,
    time: Time,
    place: &S,
    offset: &O,
    first: P,
    second: P,
)
    requires
        forall|at: Point3D<Length>, a: P, b: P|
            call_ensures(*place, (at,), a) && call_ensures(*place, (at,), b) ==> a == b,
        forall|o: &Orbitor, t: Time, q: P, a: P, b: P|
            call_ensures(*offset, (o, t, q), a) && call_ensures(*offset, (o, t, q), b) ==> a == b,
        body.located(time, place, offset, first),
        body.located(time, place, offset, second),
    ensures
        first == second,
    decreases body,
{
    match body {
        SolarSystemObject::Static { .. } => {},
        SolarSystemObject::Orbit { o, .. } => {
            let a = choose|q: P|
                #![trigger call_ensures(*offset, (o, time, q), first)]
                o.parent.located(time, place, offset, q) && call_ensures(*offset, (o, time, q), first);
            let b = choose|q: P|
                #![trigger call_ensures(*offset, (o, time, q), second)]
                o.parent.located(time, place, offset, q) && call_ensures(*offset, (o, time, q), second);
            lemma_located_repeatable(&*o.parent, time, place, offset, a, b);
        },
    }
}

} // verus!
