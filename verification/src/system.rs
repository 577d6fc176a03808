//! The planetary system: bodies found by name, a zodiac, and the body the
//! zodiac is seen from.

use crate::body::{Orbitor, SolarSystemObject, StaticObject};
use crate::epoch::{dt_to_internal, internal_to_dt, DateTime};
use crate::palette;
use crate::point::{Point2D, Point3D};
use crate::search::{
    first_entry, lemma_bears_repeatable, lemma_first_entry_repeatable, scan_window, single_valued, watch_of,
};
use crate::text::{lowercase, to_lowercase};
use crate::units::{Angle, Length, Mass, Ratio, Time, NANOS_PER_DAY};
use crate::zodiac::{sector_index, Zodiac};
use plotters::style::RGBColor;
use std::rc::Rc;
use vstd::hash_map::StringHashMap;
use vstd::prelude::*;

verus! {

/// Bodies in the order they were registered, an index of their lower-cased
/// names, a zodiac, and the place in the order of the body that the zodiac
/// is seen from.
pub struct SolarSystem {
    objects: Vec<Rc<SolarSystemObject>>,
    index: StringHashMap<usize>,
    zodiac: Zodiac,
    zodiac_center: usize,
}

/// What is known of the next stay of a body in a sign of the zodiac.
#[derive(Clone, Copy, Debug, PartialEq, Eq)]
pub enum SignTiming {
    /// No body answers to the name.
    Unknown,
    /// The body is seen in the sign at the start.
    AlreadyIn,
    /// The body is seen elsewhere at the start, and the search found this
    /// entry into the sign.
    Next(DateTime),
    /// The body is seen elsewhere at the start, and the search found no
    /// entry: there is no sector of that name, or the scan ended without
    /// one.
    NotFound,
}

/// The strings of a vector, as sequences of characters.
pub open spec fn texts(strings: Seq<String>) -> Seq<Seq<char>> {
    Seq::new(strings.len(), |i: int| strings[i]@)
}

/// Whether `index` maps the lower-cased name of each body to the place of
/// the last body of that name, and nothing else.
spec fn indexes(index: Map<Seq<char>, usize>, bodies: Seq<Rc<SolarSystemObject>>) -> bool {
    &&& forall|i: int| 0 <= i < bodies.len() ==> index.contains_key(lowercase(#[trigger] bodies[i].name()))
    &&& forall|key: Seq<char>| #[trigger]
        index.contains_key(key) ==> {
            &&& index[key] < bodies.len()
            &&& lowercase(bodies[index[key] as int].name()) == key
            &&& forall|j: int| index[key] < j < bodies.len() ==> lowercase(#[trigger] bodies[j].name()) != key
        }
}

/// `Rc::clone` of the standard library: another handle on the same body.
#[verifier::external_body]
fn share(body: &Rc<SolarSystemObject>) -> (shared: Rc<SolarSystemObject>)
    ensures
        shared == *body,
{
    body.clone()
}

/// The orbit of a body of `kilograms` kilograms around `parent`, `meters`
/// metres in semi-major axis, `billionths` billionths in eccentricity, with
/// its four angles in microdegrees.
pub open spec fn elements(
    kilograms: u128,
    parent: Rc<SolarSystemObject>,
    meters: i64,
    billionths: i64,
    inclination: i64,
    lan: i64,
    aop: i64,
    mae: i64,
) -> Orbitor {
    Orbitor {
        mass: Mass { kilograms },
        parent,
        semimajor: Length { meters },
        eccentricity: Ratio { billionths },
        inclination: Angle { microdegrees: inclination },
        lan: Angle { microdegrees: lan },
        aop: Angle { microdegrees: aop },
        mae: Angle { microdegrees: mae },
    }
}

/// A body on the orbit that `elements` describes.
fn orbiting(
    name: &str,
    color: RGBColor,
    kilograms: u128,
    parent: &Rc<SolarSystemObject>,
    meters: i64,
    billionths: i64,
    inclination: i64,
    lan: i64,
    aop: i64,
    mae: i64,
) -> (body: Rc<SolarSystemObject>)
    ensures
        *body is Orbit,
        body.name() == name@,
        body.color() == color,
        body->o == elements(kilograms, *parent, meters, billionths, inclination, lan, aop, mae),
{
    Rc::new(
        SolarSystemObject::new_orbitor(
            name,
            color,
            Mass::new(kilograms),
            share(parent),
            Length::new(meters),
            Ratio::new(billionths),
            Angle::new(inclination),
            Angle::new(lan),
            Angle::new(aop),
            Angle::new(mae),
        ),
    )
}

impl SolarSystem {
    /// The bodies, in the order they were registered.
    pub closed spec fn bodies(&self) -> Seq<Rc<SolarSystemObject>> {
        self.objects@
    }

    /// The zodiac.
    pub closed spec fn sectors(&self) -> Zodiac {
        self.zodiac
    }

    /// The place, in the order of the bodies, of the body that the zodiac is
    /// seen from.
    pub closed spec fn center(&self) -> int {
        self.zodiac_center as int
    }

    /// Whether the system is well formed: the zodiac is seen from one of its
    /// bodies, and its index of names is in step with its bodies.
    pub closed spec fn wf(&self) -> bool {
        &&& self.zodiac_center < self.objects@.len()
        &&& indexes(self.index@, self.objects@)
    }

    /// The names of the bodies, in the order they were registered.
    pub open spec fn body_names(&self) -> Seq<Seq<char>> {
        Seq::new(self.bodies().len(), |i: int| self.bodies()[i].name())
    }

    /// Whether body `i` answers to `obj_name`: it is the last registered
    /// body whose name, lower-cased, is `obj_name` lower-cased.
    pub open spec fn answers_to(&self, obj_name: Seq<char>, i: int) -> bool {
        &&& 0 <= i < self.bodies().len()
        &&& lowercase(self.bodies()[i].name()) == lowercase(obj_name)
        &&& forall|j: int|
            i < j < self.bodies().len() ==> lowercase(#[trigger] self.bodies()[j].name()) != lowercase(obj_name)
    }

    /// Whether no body answers to `obj_name`.
    pub open spec fn unknown(&self, obj_name: Seq<char>) -> bool {
        forall|i: int|
            0 <= i < self.bodies().len() ==> lowercase(#[trigger] self.bodies()[i].name()) != lowercase(obj_name)
    }

    /// At most one body answers to a name.
    pub proof fn lemma_answers_to_unique(&self, obj_name: Seq<char>, i: int, j: int)
        requires
            self.answers_to(obj_name, i),
            self.answers_to(obj_name, j),
        ensures
            i == j,
    {
    }

    /// A well-formed system always has the body that its zodiac is seen
    /// from.
    pub proof fn lemma_center_in_bounds(&self)
        requires
            self.wf(),
        ensures
            0 <= self.center() < self.bodies().len(),
    {
    }

    /// The system of the given bodies, seen from body `zodiac_center`.
    pub fn new_custom(zodiac_signs: Vec<String>, objects: Vec<Rc<SolarSystemObject>>, zodiac_center: usize) -> (system:
        SolarSystem)
        requires
            zodiac_signs@.len() >= 1,
            zodiac_center < objects@.len(),
        ensures
            system.wf(),
            system.bodies() == objects@,
            system.center() == zodiac_center,
            system.sectors()@.len() == zodiac_signs@.len(),
            forall|i: int| 0 <= i < zodiac_signs@.len() ==> system.sectors()@[i] == zodiac_signs@[i]@,
    {
        let mut index: StringHashMap<usize> = StringHashMap::new();
        let mut i: usize = 0;
        while i < objects.len()
            invariant
                i <= objects@.len(),
                indexes(index@, objects@.take(i as int)),
            decreases objects@.len() - i,
        {
            let key = to_lowercase(objects[i].get_name().as_str());
            index.insert(key, i);
            proof {
                let before = objects@.take(i as int);
                let after = objects@.take(i + 1);
                assert(after =~= before.push(objects@[i as int]));
                assert forall|k: int| 0 <= k < after.len() implies index@.contains_key(
                    lowercase(#[trigger] after[k].name()),
                ) by {
                    if k < i {
                        assert(after[k] == before[k]);
                    }
                }
            }
            i += 1;
        }
        assert(objects@.take(objects@.len() as int) =~= objects@);
        SolarSystem { objects, index, zodiac: Zodiac::new(zodiac_signs), zodiac_center }
    }

    /// The Sun, its eight planets and the Moon, under the twelve signs of
    /// the zodiac, seen from the Earth.
    pub fn new_default() -> (system: SolarSystem)
        ensures
            system.wf(),
            system.center() == 3,
            system.sectors()@ == seq![
                "aries"@,
                "taurus"@,
                "gemini"@,
                "cancer"@,
                "leo"@,
                "virgo"@,
                "libra"@,
                "scorpio"@,
                "sagittarius"@,
                "capricorn"@,
                "aquarius"@,
                "pisces"@,
            ],
            system.bodies().len() == 10,
            system.bodies()[0].name() == "Sun"@,
            system.bodies()[0]->s == (StaticObject {
                mass: Mass { kilograms: 1_988_500_000_000_000_000_000_000_000_000 },
                x: Length { meters: 0 },
                y: Length { meters: 0 },
                z: Length { meters: 0 },
            }),
            system.bodies()[1].name() == "Mercury"@,
            system.bodies()[1]->o == elements(
                330_110_000_000_000_000_000_000,
                system.bodies()[0],
                57_909_000_000,
                205_600_000,
                7_004_000,
                48_331_000,
                29_124_000,
                174_796_000,
            ),
            system.bodies()[2].name() == "Venus"@,
            system.bodies()[2]->o == elements(
                4_867_500_000_000_000_000_000_000,
                system.bodies()[0],
                108_208_000_000,
                67_720_000,
                3_394_580,
                76_680_000,
                54_884_000,
                50_115_000,
            ),
            system.bodies()[3].name() == "Earth"@,
            system.bodies()[3]->o == elements(
                5_972_170_000_000_000_000_000_000,
                system.bodies()[0],
                149_598_023_000,
                16_708_600,
                50,
                -11_260_640i64,
                114_207_830,
                358_617_000,
            ),
            system.bodies()[4].name() == "Moon"@,
            system.bodies()[4]->o == elements(
                73_420_000_000_000_000_000_000,
                system.bodies()[3],
                384_399_000,
                54_900_000,
                5_145_000,
                125_080_000,
                318_150_000,
                13_130_000,
            ),
            system.bodies()[5].name() == "Mars"@,
            system.bodies()[5]->o == elements(
                641_710_000_000_000_000_000_000,
                system.bodies()[0],
                227_939_366_000,
                93_400_000,
                1_850_000,
                49_578_540,
                286_500_000,
                19_412_000,
            ),
            system.bodies()[6].name() == "Jupiter"@,
            system.bodies()[6]->o == elements(
                1_898_200_000_000_000_000_000_000_000,
                system.bodies()[0],
                778_479_000_000,
                48_900_000,
                1_303_000,
                100_464_000,
                273_867_000,
                20_020_000,
            ),
            system.bodies()[7].name() == "Saturn"@,
            system.bodies()[7]->o == elements(
                5_683_400_000_000_000_000_000_000,
                system.bodies()[0],
                1_433_530_000_000,
                56_500_000,
                2_485_000,
                113_665_000,
                339_392_000,
                317_020_000,
            ),
            system.bodies()[8].name() == "Uranus"@,
            system.bodies()[8]->o == elements(
                86_810_000_000_000_000_000_000_000,
                system.bodies()[0],
                2_870_972_000_000,
                47_170_000,
                773_000,
                74_006_000,
                96_998_857,
                142_238_600,
            ),
            system.bodies()[9].name() == "Neptune"@,
            system.bodies()[9]->o == elements(
                102_409_000_000_000_000_000_000_000,
                system.bodies()[0],
                4_514_953_000_000,
                8_678_000,
                1_770_000,
                131_721_000,
                273_249_660,
                256_228_000,
            ),
            *system.bodies()[0] is Static,
            forall|i: int| 1 <= i < 10 ==> *(#[trigger] system.bodies()[i]) is Orbit,
    {
        let mut signs: Vec<String> = Vec::new();
        signs.push("aries".to_string());
        signs.push("taurus".to_string());
        signs.push("gemini".to_string());
        signs.push("cancer".to_string());
        signs.push("leo".to_string());
        signs.push("virgo".to_string());
        signs.push("libra".to_string());
        signs.push("scorpio".to_string());
        signs.push("sagittarius".to_string());
        signs.push("capricorn".to_string());
        signs.push("aquarius".to_string());
        signs.push("pisces".to_string());
        let sun = Rc::new(
            SolarSystemObject::new_static(
                "Sun",
                palette::yellow(),
                Mass::new(1_988_500_000_000_000_000_000_000_000_000),
                Length::new(0),
                Length::new(0),
                Length::new(0),
            ),
        );
        let mercury = orbiting(
            "Mercury",
            palette::white(),
            330_110_000_000_000_000_000_000,
            &sun,
            57_909_000_000,
            205_600_000,
            7_004_000,
            48_331_000,
            29_124_000,
            174_796_000,
        );
        let venus = orbiting(
            "Venus",
            palette::purple(),
            4_867_500_000_000_000_000_000_000,
            &sun,
            108_208_000_000,
            67_720_000,
            3_394_580,
            76_680_000,
            54_884_000,
            50_115_000,
        );
        let earth = orbiting(
            "Earth",
            palette::blue_300(),
            5_972_170_000_000_000_000_000_000,
            &sun,
            149_598_023_000,
            16_708_600,
            50,
            -11_260_640,
            114_207_830,
            358_617_000,
        );
        let moon = orbiting(
            "Moon",
            palette::grey(),
            73_420_000_000_000_000_000_000,
            &earth,
            384_399_000,
            54_900_000,
            5_145_000,
            125_080_000,
            318_150_000,
            13_130_000,
        );
        let mars = orbiting(
            "Mars",
            palette::red(),
            641_710_000_000_000_000_000_000,
            &sun,
            227_939_366_000,
            93_400_000,
            1_850_000,
            49_578_540,
            286_500_000,
            19_412_000,
        );
        let jupiter = orbiting(
            "Jupiter",
            palette::orange(),
            1_898_200_000_000_000_000_000_000_000,
            &sun,
            778_479_000_000,
            48_900_000,
            1_303_000,
            100_464_000,
            273_867_000,
            20_020_000,
        );
        let saturn = orbiting(
            "Saturn",
            palette::rgb(100, 100, 0),
            5_683_400_000_000_000_000_000_000,
            &sun,
            1_433_530_000_000,
            56_500_000,
            2_485_000,
            113_665_000,
            339_392_000,
            317_020_000,
        );
        let uranus = orbiting(
            "Uranus",
            palette::blue_100(),
            86_810_000_000_000_000_000_000_000,
            &sun,
            2_870_972_000_000,
            47_170_000,
            773_000,
            74_006_000,
            96_998_857,
            142_238_600,
        );
        let neptune = orbiting(
            "Neptune",
            palette::blue(),
            102_409_000_000_000_000_000_000_000,
            &sun,
            4_514_953_000_000,
            8_678_000,
            1_770_000,
            131_721_000,
            273_249_660,
            256_228_000,
        );
        let mut objects: Vec<Rc<SolarSystemObject>> = Vec::new();
        objects.push(sun);
        objects.push(mercury);
        objects.push(venus);
        objects.push(earth);
        objects.push(moon);
        objects.push(mars);
        objects.push(jupiter);
        objects.push(saturn);
        objects.push(uranus);
        objects.push(neptune);
        let system = SolarSystem::new_custom(signs, objects, 3);
        assert(system.sectors()@ =~= seq![
            "aries"@,
            "taurus"@,
            "gemini"@,
            "cancer"@,
            "leo"@,
            "virgo"@,
            "libra"@,
            "scorpio"@,
            "sagittarius"@,
            "capricorn"@,
            "aquarius"@,
            "pisces"@,
        ]);
        system
    }

    /// Registers a body after those already there. It takes over its name
    /// from any earlier body of the same name, case set aside.
    pub fn add(&mut self, obj: Rc<SolarSystemObject>)
        requires
            old(self).wf(),
        ensures
            final(self).wf(),
            final(self).bodies() == old(self).bodies().push(obj),
            final(self).center() == old(self).center(),
            final(self).sectors() == old(self).sectors(),
    {
        let key = to_lowercase(obj.get_name().as_str());
        let at: usize = self.objects.len();
        self.index.insert(key, at);
        self.objects.push(obj);
        proof {
            let before = old(self).objects@;
            let after = self.objects@;
            assert forall|k: int| 0 <= k < after.len() implies self.index@.contains_key(
                lowercase(#[trigger] after[k].name()),
            ) by {
                if k < at {
                    assert(after[k] == before[k]);
                }
            }
        }
    }

    /// The bodies, in the order they were registered.
    pub fn objects(&self) -> (objects: &Vec<Rc<SolarSystemObject>>)
        ensures
            objects@ == self.bodies(),
    {
        &(self.objects)
    }

    /// The names of the bodies, in the order they were registered.
    pub fn names(&self) -> (names: Vec<String>)
        ensures
            names@.len() == self.bodies().len(),
            forall|i: int| 0 <= i < names@.len() ==> (#[trigger] names@[i])@ == self.bodies()[i].name(),
    {
        let mut names: Vec<String> = Vec::new();
        let mut i: usize = 0;
        while i < self.objects.len()
            invariant
                i <= self.objects@.len(),
                names@.len() == i,
                forall|k: int| 0 <= k < i ==> (#[trigger] names@[k])@ == self.objects@[k].name(),
            decreases self.objects@.len() - i,
        {
            names.push(self.objects[i].get_name());
            i += 1;
        }
        names
    }

    /// The names of the bodies that are not named as the body that the
    /// zodiac is seen from is, in the order they were registered.
    pub fn observed_names(&self) -> (names: Vec<String>)
        requires
            self.wf(),
        ensures
            texts(names@) == self.body_names().filter(
                |name: Seq<char>| name != self.bodies()[self.center()].name(),
            ),
    {
        let center = self.zodiac_center().get_name();
        let ghost differs = |name: Seq<char>| name != self.bodies()[self.center()].name();
        let mut names: Vec<String> = Vec::new();
        let mut i: usize = 0;
        proof {
            reveal(Seq::filter);
            assert(self.body_names().take(0) =~= Seq::<Seq<char>>::empty());
            assert(texts(names@) =~= Seq::<Seq<char>>::empty());
        }
        while i < self.objects.len()
            invariant
                i <= self.objects@.len(),
                center@ == self.bodies()[self.center()].name(),
                differs == |name: Seq<char>| name != self.bodies()[self.center()].name(),
                texts(names@) == self.body_names().take(i as int).filter(differs),
            decreases self.objects@.len() - i,
        {
            let name = self.objects[i].get_name();
            let ghost before = names@;
            let keep = name != center;
            if keep {
                names.push(name);
            }
            proof {
                reveal(Seq::filter);
                let upto = self.body_names().take(i + 1);
                assert(upto.drop_last() =~= self.body_names().take(i as int));
                assert(upto.last() == self.bodies()[i as int].name());
                if keep {
                    assert(texts(names@) =~= texts(before).push(name@));
                }
            }
            i += 1;
        }
        assert(self.body_names().take(self.objects@.len() as int) =~= self.body_names());
        names
    }

    /// The zodiac.
    pub fn zodiac(&self) -> (zodiac: &Zodiac)
        ensures
            *zodiac == self.sectors(),
    {
        &self.zodiac
    }

    /// The body that answers to `obj_name`, or `None` if there is none.
    pub fn get(&self, obj_name: &str) -> (found: Option<&SolarSystemObject>)
        requires
            self.wf(),
        ensures
            match found {
                Some(body) => exists|i: int| self.answers_to(obj_name@, i) && *body == *self.bodies()[i],
                None => self.unknown(obj_name@),
            },
    {
        let key = to_lowercase(obj_name);
        match self.index.get(key.as_str()) {
            Some(at) => {
                assert(self.answers_to(obj_name@, *at as int));
                let body: &SolarSystemObject = &self.objects[*at];
                Some(body)
            },
            None => None,
        }
    }

    /// The body that the zodiac is seen from.
    pub fn zodiac_center(&self) -> (body: &SolarSystemObject)
        requires
            self.wf(),
        ensures
            *body == *self.bodies()[self.center()],
    {
        &self.objects[self.zodiac_center]
    }

    /// The name of the sector that `angle` falls in.
    pub fn angle_to_sign(&self, angle: Angle) -> (sign: String)
        ensures
            0 <= sector_index(angle, self.sectors()@.len() as int) < self.sectors()@.len(),
            sign@ == self.sectors()@[sector_index(angle, self.sectors()@.len() as int)],
    {
        self.zodiac.get_sign(angle).clone()
    }

    /// Whether `found` is what the search for the sector named `sign_name`,
    /// lower-cased, and the body that answers to `obj_name` gives. Where no
    /// sector has that name, or no body answers, nothing is found. Otherwise
    /// `found` is what the scan gives for the arc of the first sector of
    /// that name and the bearing of the body that the zodiac is seen from,
    /// as seen from the named body: the direction is from the named body to
    /// the reference body, the reverse of the one `sign_seen` looks in.
    pub open spec fn sign_entry<
        C,
        F: Fn(&Orbitor) -> Time,
        S: Fn(Point3D<Length>) -> Point3D<C>,
        O: Fn(&Orbitor, Time, Point3D<C>) -> Point3D<C>,
        A: Fn(Point2D<C>, Point2D<C>) -> Angle,
    >(
        &self,
        obj_name: Seq<char>,
        sign_name: Seq<char>,
        start_time: Time,
        two_body: &F,
        place: &S,
        offset: &O,
        bearing_of: &A,
        found: Option<Time>,
    ) -> bool {
        if !self.sectors()@.contains(lowercase(sign_name)) || self.unknown(obj_name) {
            found is None
        } else {
            exists|k: int, i: int|
                #![trigger self.sectors().first_named(lowercase(sign_name), k), self.answers_to(obj_name, i)]
                self.sectors().first_named(lowercase(sign_name), k) && self.answers_to(obj_name, i)
                    && self.bodies()[i].entry_found(
                    &*self.bodies()[self.center()],
                    self.sectors().arc(k).0,
                    self.sectors().arc(k).1,
                    start_time,
                    two_body,
                    place,
                    offset,
                    bearing_of,
                    found,
                )
        }
    }

    /// The next time, from `start_time` on, at which the body that the
    /// zodiac is seen from stands, as seen from the body that answers to
    /// `obj_name`, in the sector named `sign_name`, case set aside; `None`
    /// if there is no such sector or body, or if the scan ends without an
    /// entry. `sign_entry` tells the three apart. The functions are those of
    /// `SolarSystemObject::next_time_angle_in_range`.
    pub fn next_time_in_sign<
        C,
        F: Fn(&Orbitor) -> Time,
        S: Fn(Point3D<Length>) -> Point3D<C>,
        O: Fn(&Orbitor, Time, Point3D<C>) -> Point3D<C>,
        A: Fn(Point2D<C>, Point2D<C>) -> Angle,
    >(
        &self,
        obj_name: &str,
        sign_name: &str,
        start_time: Time,
        two_body: &F,
        place: &S,
        offset: &O,
        bearing_of: &A,
    ) -> (found: Option<Time>)
        requires
            self.wf(),
            forall|o: &Orbitor| call_requires(*two_body, (o,)),
            forall|at: Point3D<Length>| call_requires(*place, (at,)),
            forall|o: &Orbitor, t: Time, q: Point3D<C>| call_requires(*offset, (o, t, q)),
            forall|a: Point2D<C>, b: Point2D<C>| call_requires(*bearing_of, (a, b)),
            start_time.nanoseconds + i32::MAX * NANOS_PER_DAY <= i128::MAX,
        ensures
            self.sign_entry(obj_name@, sign_name@, start_time, two_body, place, offset, bearing_of, found),
            found matches Some(time) ==> start_time.nanoseconds <= time.nanoseconds <= start_time.nanoseconds
                + i32::MAX * NANOS_PER_DAY,
    {
        let string_sign = to_lowercase(sign_name);
        let (angle_start, angle_end) = match self.zodiac.get_angle_range(string_sign) {
            Some(range) => range,
            None => {
                return None;
            },
        };
        let obj = match self.get(obj_name) {
            Some(obj) => obj,
            None => {
                return None;
            },
        };
        let found = obj.next_time_angle_in_range(
            self.zodiac_center(),
            angle_start,
            angle_end,
            start_time,
            two_body,
            place,
            offset,
            bearing_of,
        );
        proof {
            let k = choose|k: int| #[trigger]
                self.sectors().first_named(lowercase(sign_name@), k) && (angle_start, angle_end)
                    == self.sectors().arc(k);
            let i = choose|i: int| self.answers_to(obj_name@, i) && *obj == *self.bodies()[i];
            assert(self.sectors().first_named(lowercase(sign_name@), k) && self.answers_to(obj_name@, i));
        }
        found
    }

    /// `next_time_in_sign` between civil instants.
    pub fn next_time_in_sign_dt<
        C,
        F: Fn(&Orbitor) -> Time,
        S: Fn(Point3D<Length>) -> Point3D<C>,
        O: Fn(&Orbitor, Time, Point3D<C>) -> Point3D<C>,
        A: Fn(Point2D<C>, Point2D<C>) -> Angle,
    >(
        &self,
        obj_name: &str,
        sign_name: &str,
        start_time: DateTime,
        two_body: &F,
        place: &S,
        offset: &O,
        bearing_of: &A,
    ) -> (found: Option<DateTime>)
        requires
            self.wf(),
            forall|o: &Orbitor| call_requires(*two_body, (o,)),
            forall|at: Point3D<Length>| call_requires(*place, (at,)),
            forall|o: &Orbitor, t: Time, q: Point3D<C>| call_requires(*offset, (o, t, q)),
            forall|a: Point2D<C>, b: Point2D<C>| call_requires(*bearing_of, (a, b)),
            start_time.unix_nanoseconds - crate::epoch::J2000_UNIX_NANOS >= i128::MIN,
            start_time.unix_nanoseconds + i32::MAX * NANOS_PER_DAY <= i128::MAX,
        ensures
            match found {
                Some(dt) => self.sign_entry(
                    obj_name@,
                    sign_name@,
                    start_time.since_epoch(),
                    two_body,
                    place,
                    offset,
                    bearing_of,
                    Some(dt.since_epoch()),
                ) && start_time.unix_nanoseconds <= dt.unix_nanoseconds,
                None => self.sign_entry(
                    obj_name@,
                    sign_name@,
                    start_time.since_epoch(),
                    two_body,
                    place,
                    offset,
                    bearing_of,
                    None,
                ),
            },
    {
        let start = dt_to_internal(start_time);
        match self.next_time_in_sign(obj_name, sign_name, start, two_body, place, offset, bearing_of) {
            Some(next) => Some(internal_to_dt(next)),
            None => None,
        }
    }

    /// Whether `sign` is the sector that the body answering to `obj_name`
    /// is seen in at `time`. Where no body answers there is none. Otherwise
    /// it is the name of the sector that holds the bearing of that body seen
    /// from the body the zodiac is seen from.
    pub open spec fn sign_seen<
        C,
        S: Fn(Point3D<Length>) -> Point3D<C>,
        O: Fn(&Orbitor, Time, Point3D<C>) -> Point3D<C>,
        A: Fn(Point2D<C>, Point2D<C>) -> Angle,
    >(
        &self,
        obj_name: Seq<char>,
        time: Time,
        place: &S,
        offset: &O,
        bearing_of: &A,
        sign: Option<Seq<char>>,
    ) -> bool {
        if self.unknown(obj_name) {
            sign is None
        } else {
            sign matches Some(name) && exists|i: int, bearing: Angle|
                #![trigger self.answers_to(obj_name, i), bearing.normalized()]
                self.answers_to(obj_name, i) && self.bodies()[i].bears(
                    &*self.bodies()[self.center()],
                    time,
                    place,
                    offset,
                    bearing_of,
                    bearing,
                ) && name == self.sectors()@[sector_index(bearing, self.sectors()@.len() as int)]
        }
    }

    /// The sector in which the body that answers to `obj_name` is seen at
    /// `time`, or `None` if no body answers. The functions are those of
    /// `SolarSystemObject::angle`.
    pub fn zodiac_for<
        C,
        S: Fn(Point3D<Length>) -> Point3D<C>,
        O: Fn(&Orbitor, Time, Point3D<C>) -> Point3D<C>,
        A: Fn(Point2D<C>, Point2D<C>) -> Angle,
    >(&self, obj_name: &str, time: Time, place: &S, offset: &O, bearing_of: &A) -> (sign: Option<String>)
        requires
            self.wf(),
            forall|at: Point3D<Length>| call_requires(*place, (at,)),
            forall|o: &Orbitor, t: Time, q: Point3D<C>| call_requires(*offset, (o, t, q)),
            forall|a: Point2D<C>, b: Point2D<C>| call_requires(*bearing_of, (a, b)),
        ensures
            self.sign_seen(
                obj_name@,
                time,
                place,
                offset,
                bearing_of,
                match sign {
                    Some(name) => Some(name@),
                    None => None,
                },
            ),
    {
        let obj = match self.get(obj_name) {
            Some(obj) => obj,
            None => {
                return None;
            },
        };
        let angle = obj.angle(self.zodiac_center(), time, place, offset, bearing_of);
        let sign = self.angle_to_sign(angle);
        proof {
            let i = choose|i: int| self.answers_to(obj_name@, i) && *obj == *self.bodies()[i];
            assert(self.answers_to(obj_name@, i));
            let turned = angle.normalized();
        }
        Some(sign)
    }

    /// `zodiac_for` at a civil instant.
    pub fn zodiac_for_dt<
        C,
        S: Fn(Point3D<Length>) -> Point3D<C>,
        O: Fn(&Orbitor, Time, Point3D<C>) -> Point3D<C>,
        A: Fn(Point2D<C>, Point2D<C>) -> Angle,
    >(&self, obj_name: &str, time: DateTime, place: &S, offset: &O, bearing_of: &A) -> (sign: Option<String>)
        requires
            self.wf(),
            forall|at: Point3D<Length>| call_requires(*place, (at,)),
            forall|o: &Orbitor, t: Time, q: Point3D<C>| call_requires(*offset, (o, t, q)),
            forall|a: Point2D<C>, b: Point2D<C>| call_requires(*bearing_of, (a, b)),
            time.unix_nanoseconds - crate::epoch::J2000_UNIX_NANOS >= i128::MIN,
        ensures
            self.sign_seen(
                obj_name@,
                time.since_epoch(),
                place,
                offset,
                bearing_of,
                match sign {
                    Some(name) => Some(name@),
                    None => None,
                },
            ),
    {
        let t = dt_to_internal(time);
        self.zodiac_for(obj_name, t, place, offset, bearing_of)
    }

    /// Whether the body that answers to `obj_name` can be seen, at `time`,
    /// in a sign other than `sign_name` lower-cased.
    pub open spec fn seen_elsewhere<
        C,
        S: Fn(Point3D<Length>) -> Point3D<C>,
        O: Fn(&Orbitor, Time, Point3D<C>) -> Point3D<C>,
        A: Fn(Point2D<C>, Point2D<C>) -> Angle,
    >(&self, obj_name: Seq<char>, sign_name: Seq<char>, time: Time, place: &S, offset: &O, bearing_of: &A) -> bool {
        exists|sign: Seq<char>|
            #![trigger self.sign_seen(obj_name, time, place, offset, bearing_of, Some(sign))]
            self.sign_seen(
                obj_name,
                time,
                place,
                offset,
                bearing_of,
                Some(sign),
            ) && sign != lowercase(sign_name)
    }

    /// Whether `timing` is what is known of the next stay of the body that
    /// answers to `obj_name` in the sign named `sign_name`, from
    /// `start_time` on. The sign that the body is seen in at the start is
    /// compared with `sign_name` lower-cased; only where they differ is the
    /// entry searched for.
    pub open spec fn timed<
        C,
        F: Fn(&Orbitor) -> Time,
        S: Fn(Point3D<Length>) -> Point3D<C>,
        O: Fn(&Orbitor, Time, Point3D<C>) -> Point3D<C>,
        A: Fn(Point2D<C>, Point2D<C>) -> Angle,
    >(
        &self,
        obj_name: Seq<char>,
        sign_name: Seq<char>,
        start_time: Time,
        two_body: &F,
        place: &S,
        offset: &O,
        bearing_of: &A,
        timing: SignTiming,
    ) -> bool {
        match timing {
            SignTiming::Unknown => self.unknown(obj_name),
            SignTiming::AlreadyIn => self.sign_seen(
                obj_name,
                start_time,
                place,
                offset,
                bearing_of,
                Some(lowercase(sign_name)),
            ),
            SignTiming::Next(dt) => self.seen_elsewhere(
                obj_name,
                sign_name,
                start_time,
                place,
                offset,
                bearing_of,
            )
                && self.sign_entry(
                obj_name,
                sign_name,
                start_time,
                two_body,
                place,
                offset,
                bearing_of,
                Some(dt.since_epoch()),
            ),
            SignTiming::NotFound => self.seen_elsewhere(
                obj_name,
                sign_name,
                start_time,
                place,
                offset,
                bearing_of,
            )
                && self.sign_entry(
                    obj_name,
                    sign_name,
                    start_time,
                    two_body,
                    place,
                    offset,
                    bearing_of,
                    None,
                ),
        }
    }

    /// What is known of the next stay of the body that answers to
    /// `obj_name` in the sign named `sign_name`, case set aside, from
    /// `start_time` on.
    pub fn sign_timing<
        C,
        F: Fn(&Orbitor) -> Time,
        S: Fn(Point3D<Length>) -> Point3D<C>,
        O: Fn(&Orbitor, Time, Point3D<C>) -> Point3D<C>,
        A: Fn(Point2D<C>, Point2D<C>) -> Angle,
    >(
        &self,
        obj_name: &str,
        sign_name: &str,
        start_time: DateTime,
        two_body: &F,
        place: &S,
        offset: &O,
        bearing_of: &A,
    ) -> (timing: SignTiming)
        requires
            self.wf(),
            forall|o: &Orbitor| call_requires(*two_body, (o,)),
            forall|at: Point3D<Length>| call_requires(*place, (at,)),
            forall|o: &Orbitor, t: Time, q: Point3D<C>| call_requires(*offset, (o, t, q)),
            forall|a: Point2D<C>, b: Point2D<C>| call_requires(*bearing_of, (a, b)),
            start_time.unix_nanoseconds - crate::epoch::J2000_UNIX_NANOS >= i128::MIN,
            start_time.unix_nanoseconds + i32::MAX * NANOS_PER_DAY <= i128::MAX,
        ensures
            self.timed(
                obj_name@,
                sign_name@,
                start_time.since_epoch(),
                two_body,
                place,
                offset,
                bearing_of,
                timing,
            ),
            timing is Unknown <==> self.unknown(obj_name@),
            timing matches SignTiming::Next(dt) ==> start_time.unix_nanoseconds <= dt.unix_nanoseconds,
    {
        match self.zodiac_for_dt(obj_name, start_time, place, offset, bearing_of) {
            Some(sign) => {
                let wanted = to_lowercase(sign_name);
                if sign == wanted {
                    SignTiming::AlreadyIn
                } else {
                    assert(self.sign_seen(
                        obj_name@,
                        start_time.since_epoch(),
                        place,
                        offset,
                        bearing_of,
                        Some(sign@),
                    ));
                    match self.next_time_in_sign_dt(
                        obj_name,
                        sign_name,
                        start_time,
                        two_body,
                        place,
                        offset,
                        bearing_of,
                    ) {
                        Some(next) => SignTiming::Next(next),
                        None => SignTiming::NotFound,
                    }
                }
            },
            None => SignTiming::Unknown,
        }
    }
}

/// Asked again, the system names the same sign: where the three functions
/// give one result for each input, a body is seen in one sign at each time.
pub proof fn lemma_sign_seen_repeatable<
    C,
    S: Fn(Point3D<Length>) -> Point3D<C>,
    O: Fn(&Orbitor, Time, Point3D<C>) -> Point3D<C>,
    A: Fn(Point2D<C>, Point2D<C>) -> Angle,
>(
    system: &SolarSystem,
    obj_name: Seq<char>,
    time: Time,
    place: &S,
    offset: &O,
    bearing_of: &A,
    first: Option<Seq<char>>,
    second: Option<Seq<char>>,
)
    requires
        system.wf(),
        forall|target: &SolarSystemObject, observer: &SolarSystemObject, start: Angle, end: Angle|
            single_valued(#[trigger] watch_of(target, observer, start, end, place, offset, bearing_of)),
        system.sign_seen(obj_name, time, place, offset, bearing_of, first),
        system.sign_seen(obj_name, time, place, offset, bearing_of, second),
    ensures
        first == second,
{
    if !system.unknown(obj_name) {
        let centre = &*system.bodies()[system.center()];
        let count = system.sectors()@.len() as int;
        let (i1, b1) = choose|i: int, bearing: Angle|
            #![trigger system.answers_to(obj_name, i), bearing.normalized()]
            system.answers_to(obj_name, i) && system.bodies()[i].bears(
                centre,
                time,
                place,
                offset,
                bearing_of,
                bearing,
            ) && first->0 == system.sectors()@[sector_index(bearing, count)];
        let (i2, b2) = choose|i: int, bearing: Angle|
            #![trigger system.answers_to(obj_name, i), bearing.normalized()]
            system.answers_to(obj_name, i) && system.bodies()[i].bears(
                centre,
                time,
                place,
                offset,
                bearing_of,
                bearing,
            ) && second->0 == system.sectors()@[sector_index(bearing, count)];
        system.lemma_answers_to_unique(obj_name, i1, i2);
        let watch = watch_of(&*system.bodies()[i1], centre, b1, b1, place, offset, bearing_of);
        assert(single_valued(watch));
        lemma_bears_repeatable(watch, time, b1, b2);
    }
}

/// Asked again, the search finds the same: where the four functions give
/// one result for each input, `sign_entry` allows one outcome.
pub proof fn lemma_sign_entry_repeatable<
    C,
    F: Fn(&Orbitor) -> Time,
    S: Fn(Point3D<Length>) -> Point3D<C>,
    O: Fn(&Orbitor, Time, Point3D<C>) -> Point3D<C>,
    A: Fn(Point2D<C>, Point2D<C>) -> Angle,
>(
    system: &SolarSystem,
    obj_name: Seq<char>,
    sign_name: Seq<char>,
    start_time: Time,
    two_body: &F,
    place: &S,
    offset: &O,
    bearing_of: &A,
    first: Option<Time>,
    second: Option<Time>,
)
    requires
        system.wf(),
        forall|o: &Orbitor, a: Time, b: Time|
            call_ensures(*two_body, (o,), a) && call_ensures(*two_body, (o,), b) ==> a == b,
        forall|target: &SolarSystemObject, observer: &SolarSystemObject, start: Angle, end: Angle|
            single_valued(#[trigger] watch_of(target, observer, start, end, place, offset, bearing_of)),
        system.sign_entry(obj_name, sign_name, start_time, two_body, place, offset, bearing_of, first),
        system.sign_entry(obj_name, sign_name, start_time, two_body, place, offset, bearing_of, second),
    ensures
        first == second,
{
    let sign = lowercase(sign_name);
    if system.sectors()@.contains(sign) && !system.unknown(obj_name) {
        let centre = &*system.bodies()[system.center()];
        let (k1, i1) = choose|k: int, i: int|
            #![trigger system.sectors().first_named(sign, k), system.answers_to(obj_name, i)]
            system.sectors().first_named(sign, k) && system.answers_to(obj_name, i) && system.bodies()[i].entry_found(
                centre,
                system.sectors().arc(k).0,
                system.sectors().arc(k).1,
                start_time,
                two_body,
                place,
                offset,
                bearing_of,
                first,
            );
        let (k2, i2) = choose|k: int, i: int|
            #![trigger system.sectors().first_named(sign, k), system.answers_to(obj_name, i)]
            system.sectors().first_named(sign, k) && system.answers_to(obj_name, i) && system.bodies()[i].entry_found(
                centre,
                system.sectors().arc(k).0,
                system.sectors().arc(k).1,
                start_time,
                two_body,
                place,
                offset,
                bearing_of,
                second,
            );
        system.lemma_answers_to_unique(obj_name, i1, i2);
        system.sectors().lemma_first_named_unique(sign, k1, k2);
        let body = &*system.bodies()[i1];
        let watch = watch_of(
            centre,
            body,
            system.sectors().arc(k1).0,
            system.sectors().arc(k1).1,
            place,
            offset,
            bearing_of,
        );
        let (p1, q1) = choose|period: Time, other_period: Time|
            #![trigger body.scan_period(two_body, period), centre.scan_period(two_body, other_period)]
            body.scan_period(two_body, period) && centre.scan_period(two_body, other_period) && first_entry(
                watch,
                start_time,
                scan_window(period, other_period),
                first,
            );
        let (p2, q2) = choose|period: Time, other_period: Time|
            #![trigger body.scan_period(two_body, period), centre.scan_period(two_body, other_period)]
            body.scan_period(two_body, period) && centre.scan_period(two_body, other_period) && first_entry(
                watch,
                start_time,
                scan_window(period, other_period),
                second,
            );
        assert(p1 == p2 && q1 == q2);
        assert(single_valued(watch));
        lemma_first_entry_repeatable(watch, start_time, scan_window(p1, q1), first, second);
    }
}

} // verus!
