use orbitor::units::{NANOS_PER_DAY, NANOS_PER_SECOND};
use orbitor::{
    Angle, DateTime, Length, Mass, Orbitor, Point2D, Point3D, Ratio, SignTiming, SolarSystem, SolarSystemObject, Time,
    J2000_UNIX_NANOS,
};
use plotters::style::{colors, full_palette, RGBColor};
use std::rc::Rc;

fn signs(list: &[&str]) -> Vec<String> {
    list.iter().map(|s| s.to_string()).collect()
}

fn hub(name: &str) -> Rc<SolarSystemObject> {
    Rc::new(SolarSystemObject::new_static(
        name,
        RGBColor(9, 9, 9),
        Mass::new(1_000),
        Length::new(0),
        Length::new(0),
        Length::new(0),
    ))
}

fn planet(name: &str, parent: &Rc<SolarSystemObject>, semimajor: i64) -> Rc<SolarSystemObject> {
    Rc::new(SolarSystemObject::new_orbitor(
        name,
        RGBColor(1, 1, 1),
        Mass::new(1),
        parent.clone(),
        Length::new(semimajor),
        Ratio::new(0),
        Angle::new(0),
        Angle::new(0),
        Angle::new(0),
        Angle::new(0),
    ))
}

/// A hub with a home planet of period 600 s and three more, seen from the
/// home planet, under four sectors.
fn small_system() -> SolarSystem {
    let sun = hub("Sun");
    let home = planet("Home", &sun, 600);
    let swift = planet("Swift", &sun, 1_200);
    let slow = planet("Slow", &sun, 2_400);
    let still = planet("Still", &sun, 864);
    SolarSystem::new_custom(signs(&["north", "east", "south", "west"]), vec![sun, home, swift, slow, still], 1)
}

fn period_from_axis(o: &Orbitor) -> Time {
    Time::new(o.semimajor.meters as i128 * NANOS_PER_SECOND)
}

fn whole_metres(at: Point3D<Length>) -> Point3D<i64> {
    Point3D(at.0.meters, at.1.meters, at.2.meters)
}

/// The first coordinate of a body is its direction in microdegrees. Swift
/// turns a degree a minute, Slow a degree an hour, both from north; Still
/// stays at 200 degrees; Home, which the others are seen from, at zero.
fn clockwork(o: &Orbitor, t: Time, _: Point3D<i64>) -> Point3D<i64> {
    let seconds = t.nanoseconds.div_euclid(NANOS_PER_SECOND) as i64;
    match o.semimajor.meters {
        600 => Point3D(0, 0, 0),
        1_200 => Point3D(seconds.div_euclid(60) * 1_000_000, 0, 0),
        2_400 => Point3D(seconds.div_euclid(3_600) * 1_000_000, 0, 0),
        864 => Point3D(200_000_000, 0, 0),
        other => panic!("no place is known of the body at {}", other),
    }
}

fn by_first_coordinate(here: Point2D<i64>, there: Point2D<i64>) -> Angle {
    Angle::new(here.0 - there.0)
}

fn orbit(body: &SolarSystemObject) -> &Orbitor {
    match body {
        SolarSystemObject::Orbit { o, .. } => o,
        SolarSystemObject::Static { .. } => panic!("not an orbiting body"),
    }
}

#[test]
fn default_system_has_the_sun_and_nine_more() {
    let system = SolarSystem::new_default();
    assert_eq!(
        system.names(),
        vec!["Sun", "Mercury", "Venus", "Earth", "Moon", "Mars", "Jupiter", "Saturn", "Uranus", "Neptune"]
    );
    assert_eq!(system.objects().len(), 10);
}

#[test]
fn default_system_is_seen_from_the_earth() {
    let system = SolarSystem::new_default();
    assert_eq!(system.zodiac_center().get_name(), "Earth");
    assert!(std::ptr::eq(system.zodiac_center(), &*system.objects()[3]));
}

#[test]
fn default_system_has_twelve_signs() {
    let system = SolarSystem::new_default();
    let starts = system.zodiac().angles();
    assert_eq!(starts.len(), 12);
    let expected = [
        "aries",
        "taurus",
        "gemini",
        "cancer",
        "leo",
        "virgo",
        "libra",
        "scorpio",
        "sagittarius",
        "capricorn",
        "aquarius",
        "pisces",
    ];
    for (i, name) in expected.iter().enumerate() {
        assert_eq!(system.zodiac().get_sign(starts[i]), name);
        assert_eq!(system.angle_to_sign(Angle::new(30_000_000 * i as i64 + 15_000_000)), *name);
    }
}

#[test]
fn default_system_colours_come_from_the_palette() {
    let system = SolarSystem::new_default();
    let colours: Vec<RGBColor> = system.objects().iter().map(|b| b.get_color()).collect();
    assert_eq!(
        colours,
        vec![
            colors::YELLOW,
            colors::WHITE,
            full_palette::PURPLE,
            full_palette::BLUE_300,
            full_palette::GREY,
            colors::RED,
            full_palette::ORANGE,
            RGBColor(100, 100, 0),
            full_palette::BLUE_100,
            colors::BLUE,
        ]
    );
    assert_eq!(colours[0], RGBColor(255, 255, 0));
    assert_eq!(colours[9], RGBColor(0, 0, 255));
}

#[test]
fn default_system_sun_is_static_at_the_origin() {
    let system = SolarSystem::new_default();
    match &*system.objects()[0] {
        SolarSystemObject::Static { s, .. } => {
            assert_eq!(s.mass, Mass::new(1_988_500_000_000_000_000_000_000_000_000));
            assert_eq!(s.xyz(Time::new(0)), Point3D(Length::new(0), Length::new(0), Length::new(0)));
        }
        SolarSystemObject::Orbit { .. } => panic!("the Sun does not orbit"),
    }
    assert_eq!(system.objects()[0].orbital_period(Time::new(0), &period_from_axis), None);
}

#[test]
fn default_system_planets_circle_the_sun_and_the_moon_the_earth() {
    let system = SolarSystem::new_default();
    let bodies = system.objects();
    for i in [1usize, 2, 3, 5, 6, 7, 8, 9] {
        assert!(Rc::ptr_eq(&orbit(&bodies[i]).parent, &bodies[0]));
    }
    assert!(Rc::ptr_eq(&orbit(&bodies[4]).parent, &bodies[3]));
}

#[test]
fn default_system_elements_of_the_earth() {
    let system = SolarSystem::new_default();
    let earth = orbit(system.get("earth").unwrap());
    assert_eq!(earth.mass, Mass::new(5_972_170_000_000_000_000_000_000));
    assert_eq!(earth.semimajor, Length::new(149_598_023_000));
    assert_eq!(earth.eccentricity, Ratio::new(16_708_600));
    assert_eq!(earth.inclination, Angle::new(50));
    assert_eq!(earth.lan, Angle::new(-11_260_640));
    assert_eq!(earth.aop, Angle::new(114_207_830));
    assert_eq!(earth.mae, Angle::new(358_617_000));
}

#[test]
fn default_system_elements_of_the_other_bodies() {
    let system = SolarSystem::new_default();
    let rows: [(&str, u128, i64, i64, i64, i64, i64, i64); 8] = [
        ("Mercury", 330_110_000_000_000_000_000_000, 57_909_000_000, 205_600_000, 7_004_000, 48_331_000, 29_124_000, 174_796_000),
        ("Venus", 4_867_500_000_000_000_000_000_000, 108_208_000_000, 67_720_000, 3_394_580, 76_680_000, 54_884_000, 50_115_000),
        ("Moon", 73_420_000_000_000_000_000_000, 384_399_000, 54_900_000, 5_145_000, 125_080_000, 318_150_000, 13_130_000),
        ("Mars", 641_710_000_000_000_000_000_000, 227_939_366_000, 93_400_000, 1_850_000, 49_578_540, 286_500_000, 19_412_000),
        ("Jupiter", 1_898_200_000_000_000_000_000_000_000, 778_479_000_000, 48_900_000, 1_303_000, 100_464_000, 273_867_000, 20_020_000),
        ("Saturn", 5_683_400_000_000_000_000_000_000, 1_433_530_000_000, 56_500_000, 2_485_000, 113_665_000, 339_392_000, 317_020_000),
        ("Uranus", 86_810_000_000_000_000_000_000_000, 2_870_972_000_000, 47_170_000, 773_000, 74_006_000, 96_998_857, 142_238_600),
        ("Neptune", 102_409_000_000_000_000_000_000_000, 4_514_953_000_000, 8_678_000, 1_770_000, 131_721_000, 273_249_660, 256_228_000),
    ];
    for (name, kilograms, meters, billionths, inclination, lan, aop, mae) in rows {
        let o = orbit(system.get(name).unwrap());
        assert_eq!(o.mass, Mass::new(kilograms), "{}", name);
        assert_eq!(o.semimajor, Length::new(meters), "{}", name);
        assert_eq!(o.eccentricity, Ratio::new(billionths), "{}", name);
        assert_eq!(o.inclination, Angle::new(inclination), "{}", name);
        assert_eq!(o.lan, Angle::new(lan), "{}", name);
        assert_eq!(o.aop, Angle::new(aop), "{}", name);
        assert_eq!(o.mae, Angle::new(mae), "{}", name);
    }
}

#[test]
fn default_system_moon_has_its_own_period() {
    let system = SolarSystem::new_default();
    let moon = system.get("Moon").unwrap();
    assert_eq!(moon.orbital_period(Time::new(0), &period_from_axis), Some(Time::new(384_399_000 * NANOS_PER_SECOND)));
}

#[test]
fn get_sets_case_aside() {
    let system = SolarSystem::new_default();
    for asked in ["Mars", "mars", "MARS", "mArS"] {
        assert_eq!(system.get(asked).unwrap().get_name(), "Mars");
    }
}

#[test]
fn get_lower_cases_names_beyond_ascii() {
    let sun = hub("Sun");
    let system = SolarSystem::new_custom(signs(&["only"]), vec![sun.clone(), planet("Éris", &sun, 1)], 0);
    assert_eq!(system.get("éris").unwrap().get_name(), "Éris");
    assert_eq!(system.get("ÉRIS").unwrap().get_name(), "Éris");
    assert!(system.get("eris").is_none());
}

#[test]
fn get_of_an_unknown_name_is_none() {
    let system = SolarSystem::new_default();
    assert!(system.get("Pluto").is_none());
    assert!(system.get("").is_none());
    assert!(system.get("Mars ").is_none());
}

#[test]
fn get_gives_the_registered_body_itself() {
    let system = small_system();
    assert!(std::ptr::eq(system.get("swift").unwrap(), &*system.objects()[2]));
}

#[test]
fn get_gives_the_last_body_of_a_name() {
    let sun = hub("Sun");
    let first = planet("Twin", &sun, 1);
    let second = planet("TWIN", &sun, 2);
    let system = SolarSystem::new_custom(signs(&["only"]), vec![sun, first, second], 0);
    assert_eq!(system.get("twin").unwrap().get_name(), "TWIN");
    assert_eq!(orbit(system.get("Twin").unwrap()).semimajor, Length::new(2));
    assert_eq!(system.names(), vec!["Sun", "Twin", "TWIN"]);
}

#[test]
fn add_registers_a_body_at_the_end() {
    let mut system = small_system();
    let sun = system.objects()[0].clone();
    let late = planet("Late", &sun, 77);
    assert!(system.get("late").is_none());
    system.add(late.clone());
    assert_eq!(system.names(), vec!["Sun", "Home", "Swift", "Slow", "Still", "Late"]);
    assert!(std::ptr::eq(system.get("LATE").unwrap(), &*late));
    assert_eq!(system.zodiac_center().get_name(), "Home");
    assert_eq!(system.get("swift").unwrap().get_name(), "Swift");
}

#[test]
fn add_takes_a_name_over_from_an_earlier_body() {
    let mut system = small_system();
    let sun = system.objects()[0].clone();
    system.add(planet("SWIFT", &sun, 5));
    assert_eq!(system.get("Swift").unwrap().get_name(), "SWIFT");
    assert_eq!(system.objects().len(), 6);
    assert_eq!(system.objects()[2].get_name(), "Swift");
}

#[test]
fn new_custom_keeps_bodies_signs_and_centre() {
    let system = small_system();
    assert_eq!(system.names(), vec!["Sun", "Home", "Swift", "Slow", "Still"]);
    assert_eq!(system.zodiac_center().get_name(), "Home");
    assert_eq!(system.zodiac().angles(), vec![Angle::new(0), Angle::new(90_000_000), Angle::new(180_000_000), Angle::new(270_000_000)]);
    assert_eq!(system.zodiac().get_angle_range("south".to_string()), Some((Angle::new(180_000_000), Angle::new(270_000_000))));
}

#[test]
fn angle_to_sign_names_the_sector() {
    let system = small_system();
    assert_eq!(system.angle_to_sign(Angle::new(0)), "north");
    assert_eq!(system.angle_to_sign(Angle::new(89_999_999)), "north");
    assert_eq!(system.angle_to_sign(Angle::new(90_000_000)), "east");
    assert_eq!(system.angle_to_sign(Angle::new(-1)), "west");
    assert_eq!(system.angle_to_sign(Angle::new(360_000_000 + 180_000_000)), "south");
}

#[test]
fn observed_names_leave_the_centre_out() {
    let system = SolarSystem::new_default();
    assert_eq!(
        system.observed_names(),
        vec!["Sun", "Mercury", "Venus", "Moon", "Mars", "Jupiter", "Saturn", "Uranus", "Neptune"]
    );
    assert_eq!(small_system().observed_names(), vec!["Sun", "Swift", "Slow", "Still"]);
}

#[test]
fn observed_names_compare_names_exactly() {
    let sun = hub("Sun");
    let system = SolarSystem::new_custom(
        signs(&["only"]),
        vec![sun.clone(), planet("Home", &sun, 1), planet("home", &sun, 2), planet("Home", &sun, 3)],
        1,
    );
    assert_eq!(system.observed_names(), vec!["Sun", "home"]);
}

#[test]
fn zodiac_for_names_the_sector_of_the_bearing() {
    let system = small_system();
    // After 100 minutes Swift stands at 100 degrees, Slow at 1 degree.
    let t = Time::new(6_000 * NANOS_PER_SECOND);
    let sign_of = |name: &str| system.zodiac_for(name, t, &whole_metres, &clockwork, &by_first_coordinate);
    assert_eq!(sign_of("Swift"), Some("east".to_string()));
    assert_eq!(sign_of("slow"), Some("north".to_string()));
    assert_eq!(sign_of("STILL"), Some("south".to_string()));
}

#[test]
fn zodiac_for_looks_at_the_body_from_the_centre() {
    let system = small_system();
    let offset = |o: &Orbitor, t: Time, _: Point3D<i64>| {
        assert_eq!(t, Time::new(42));
        Point3D(o.semimajor.meters, 0, 7)
    };
    let bearing_of = |here: Point2D<i64>, there: Point2D<i64>| {
        assert_eq!(here, Point2D(2_400, 7));
        assert_eq!(there, Point2D(600, 7));
        Angle::new(270_000_000)
    };
    assert_eq!(
        system.zodiac_for("slow", Time::new(42), &whole_metres, &offset, &bearing_of),
        Some("west".to_string())
    );
}

#[test]
fn zodiac_for_before_the_epoch() {
    let system = small_system();
    // A minute before the epoch Swift stands at minus one degree.
    assert_eq!(
        system.zodiac_for("Swift", Time::new(-60 * NANOS_PER_SECOND), &whole_metres, &clockwork, &by_first_coordinate),
        Some("west".to_string())
    );
}

#[test]
fn zodiac_for_an_unknown_body_is_none() {
    let system = small_system();
    let bearing_of = |_: Point2D<i64>, _: Point2D<i64>| -> Angle { panic!("no body to look at") };
    assert_eq!(system.zodiac_for("Pluto", Time::new(0), &whole_metres, &clockwork, &bearing_of), None);
}

#[test]
fn zodiac_for_dt_counts_from_the_epoch() {
    let system = small_system();
    let at = DateTime { unix_nanoseconds: J2000_UNIX_NANOS + 6_000 * NANOS_PER_SECOND };
    let sign_of =
        |name: &str, when: DateTime| system.zodiac_for_dt(name, when, &whole_metres, &clockwork, &by_first_coordinate);
    assert_eq!(sign_of("Swift", at), Some("east".to_string()));
    assert_eq!(sign_of("Pluto", at), None);
    let epoch = DateTime { unix_nanoseconds: J2000_UNIX_NANOS };
    assert_eq!(sign_of("Swift", epoch), Some("north".to_string()));
}

/// The search looks from the named body back at Home, so the bearing is
/// the reverse of the body's own direction: Slow, which has turned `h`
/// degrees after `h` hours, sees Home at `360 - h` degrees.
fn search_from(system: &SolarSystem, body: &str, sign: &str, start: Time) -> Option<Time> {
    system.next_time_in_sign(body, sign, start, &period_from_axis, &whole_metres, &clockwork, &by_first_coordinate)
}

#[test]
fn next_time_in_sign_finds_the_entry_to_the_second() {
    let system = small_system();
    // Home and Slow have periods of 600 s and 2400 s: a window of 16 days.
    // Seen from Slow, Home falls back 24 degrees a day: 336, 312, 288 and,
    // on day 4, 264 degrees, the first day in "south", which ends at 270
    // degrees. It comes below 270 degrees 91 hours after the start, in the
    // course of day 3.
    assert_eq!(search_from(&system, "Slow", "south", Time::new(0)), Some(Time::new(91 * 3_600 * NANOS_PER_SECOND)));
    // "west" is seen a day after the start and entered after an hour.
    assert_eq!(search_from(&system, "Slow", "west", Time::new(0)), Some(Time::new(3_600 * NANOS_PER_SECOND)));
    // "east" is first seen on day 8, at 168 degrees, and entered after 181
    // hours.
    assert_eq!(search_from(&system, "Slow", "east", Time::new(0)), Some(Time::new(181 * 3_600 * NANOS_PER_SECOND)));
}

#[test]
fn next_time_in_sign_sets_case_aside() {
    let system = small_system();
    let expected = Some(Time::new(91 * 3_600 * NANOS_PER_SECOND));
    assert_eq!(search_from(&system, "SLOW", "South", Time::new(0)), expected);
    assert_eq!(search_from(&system, "slow", "SOUTH", Time::new(0)), expected);
}

#[test]
fn next_time_in_sign_at_the_start_is_the_start() {
    let system = small_system();
    let start = Time::new(5 * NANOS_PER_SECOND);
    assert_eq!(search_from(&system, "Slow", "north", start), Some(start));
    assert_eq!(search_from(&system, "Swift", "north", start), Some(start));
    // Still stands at 200 degrees, so it sees Home at 160 degrees.
    assert_eq!(search_from(&system, "Still", "east", start), Some(start));
}

#[test]
fn next_time_in_sign_looks_from_the_named_body_at_the_centre() {
    let system = small_system();
    let offset = |o: &Orbitor, _: Time, _: Point3D<i64>| Point3D(o.semimajor.meters, 0, 7);
    let bearing_of = |here: Point2D<i64>, there: Point2D<i64>| {
        assert_eq!(here, Point2D(600, 7));
        assert_eq!(there, Point2D(2_400, 7));
        Angle::new(100_000_000)
    };
    let found = system.next_time_in_sign(
        "Slow",
        "east",
        Time::new(9),
        &period_from_axis,
        &whole_metres,
        &offset,
        &bearing_of,
    );
    assert_eq!(found, Some(Time::new(9)));
}

#[test]
fn next_time_in_sign_is_none_when_the_scan_ends_without_entry() {
    let system = small_system();
    // Still never moves, and sees Home at 160 degrees throughout.
    assert_eq!(search_from(&system, "Still", "north", Time::new(0)), None);
    assert_eq!(search_from(&system, "Still", "south", Time::new(0)), None);
    // Swift turns four times a day: every daily sample of its 8 days sees
    // Home in the north.
    assert_eq!(search_from(&system, "Swift", "east", Time::new(0)), None);
    // With half the periods the window is 4 days, and "east", first seen
    // on day 8, is out of reach.
    let short = |o: &Orbitor| Time::new(o.semimajor.meters as i128 * NANOS_PER_SECOND / 2);
    assert_eq!(
        system.next_time_in_sign(
            "Slow",
            "east",
            Time::new(0),
            &short,
            &whole_metres,
            &clockwork,
            &by_first_coordinate
        ),
        None
    );
}

#[test]
fn next_time_in_sign_of_an_unknown_body_or_sign_is_none() {
    let system = small_system();
    let bearing_of = |_: Point2D<i64>, _: Point2D<i64>| -> Angle { panic!("nothing to look at") };
    let search = |body: &str, sign: &str| {
        system.next_time_in_sign(body, sign, Time::new(0), &period_from_axis, &whole_metres, &clockwork, &bearing_of)
    };
    assert_eq!(search("Pluto", "north"), None);
    assert_eq!(search("Slow", "up"), None);
    assert_eq!(search("Pluto", "up"), None);
}

#[test]
fn next_time_in_sign_is_not_before_the_start() {
    let system = small_system();
    for start in [-3 * NANOS_PER_DAY, -1, 0, 1, 77 * NANOS_PER_SECOND, 5 * NANOS_PER_DAY + 3] {
        for sign in ["north", "east", "south", "west"] {
            if let Some(found) = search_from(&system, "Slow", sign, Time::new(start)) {
                assert!(found.nanoseconds >= start);
                let bearing = system.zodiac_center().angle(
                    system.get("Slow").unwrap(),
                    found,
                    &whole_metres,
                    &clockwork,
                    &by_first_coordinate,
                );
                assert_eq!(system.angle_to_sign(bearing), sign);
            }
        }
    }
}

fn twelve_signs() -> Vec<String> {
    signs(&[
        "aries",
        "taurus",
        "gemini",
        "cancer",
        "leo",
        "virgo",
        "libra",
        "scorpio",
        "sagittarius",
        "capricorn",
        "aquarius",
        "pisces",
    ])
}

#[test]
fn next_time_in_sign_mars_in_aries_with_fast_bodies() {
    let sun = hub("Sun");
    let earth = planet("Earth", &sun, 3_600);
    let mars = planet("Mars", &sun, 7_200);
    let system = SolarSystem::new_custom(twelve_signs(), vec![sun, earth, mars], 1);
    // Periods of 3600 s and 7200 s: a window of 300 days.
    // Seen from Mars, the Earth stands at 345 degrees at the start and
    // gains a degree every 100_000 seconds, so it enters Aries after
    // 1_500_000 seconds, in the course of day 17.
    let offset = |o: &Orbitor, t: Time, _: Point3D<i64>| {
        if o.semimajor.meters == 3_600 {
            Point3D(345_000_000 + (t.nanoseconds / NANOS_PER_SECOND) as i64 * 10, 0, 0)
        } else {
            Point3D(0, 0, 0)
        }
    };
    let start = Time::new(0);
    let found = system.next_time_in_sign(
        "Mars",
        "Aries",
        start,
        &period_from_axis,
        &whole_metres,
        &offset,
        &by_first_coordinate,
    );
    assert_eq!(found, Some(Time::new(1_500_000 * NANOS_PER_SECOND)));
    assert!(found.unwrap().nanoseconds >= start.nanoseconds);
    let mars = system.get("Mars").unwrap();
    let earth = system.zodiac_center();
    let seen = earth.angle(mars, found.unwrap(), &whole_metres, &offset, &by_first_coordinate);
    let (from, to) = system.zodiac().get_angle_range("aries".to_string()).unwrap();
    assert!(seen.is_within(from, to));
    assert_eq!(from, Angle::new(0));
    assert_eq!(to, Angle::new(30_000_000));
    let just_before = Time::new(found.unwrap().nanoseconds - NANOS_PER_SECOND);
    let earlier = earth.angle(mars, just_before, &whole_metres, &offset, &by_first_coordinate);
    assert!(!earlier.is_within(from, to));
}

#[test]
fn next_time_in_sign_mars_in_aries_never_entered() {
    let sun = hub("Sun");
    let earth = planet("Earth", &sun, 3_600);
    let mars = planet("Mars", &sun, 7_200);
    let system = SolarSystem::new_custom(twelve_signs(), vec![sun, earth, mars], 1);
    // Seen from Mars, the Earth swings between 100 and 160 degrees and
    // never comes near Aries.
    let offset = |o: &Orbitor, t: Time, _: Point3D<i64>| {
        if o.semimajor.meters == 3_600 {
            let day = t.nanoseconds.div_euclid(NANOS_PER_DAY) as i64;
            Point3D(100_000_000 + (day % 7) * 10_000_000, 0, 0)
        } else {
            Point3D(0, 0, 0)
        }
    };
    let found = system.next_time_in_sign(
        "Mars",
        "Aries",
        Time::new(0),
        &period_from_axis,
        &whole_metres,
        &offset,
        &by_first_coordinate,
    );
    assert_eq!(found, None);
}

#[test]
fn next_time_in_sign_dt_counts_from_the_epoch() {
    let system = small_system();
    let start = DateTime { unix_nanoseconds: J2000_UNIX_NANOS };
    let search = |body: &str, sign: &str| {
        system.next_time_in_sign_dt(
            body,
            sign,
            start,
            &period_from_axis,
            &whole_metres,
            &clockwork,
            &by_first_coordinate,
        )
    };
    assert_eq!(
        search("Slow", "south"),
        Some(DateTime { unix_nanoseconds: J2000_UNIX_NANOS + 91 * 3_600 * NANOS_PER_SECOND })
    );
    assert_eq!(search("Still", "north"), None);
    assert_eq!(search("Pluto", "north"), None);
}

#[test]
fn sign_timing_tells_the_four_outcomes_apart() {
    let system = small_system();
    let start = DateTime { unix_nanoseconds: J2000_UNIX_NANOS };
    let timing = |body: &str, sign: &str| {
        system.sign_timing(body, sign, start, &period_from_axis, &whole_metres, &clockwork, &by_first_coordinate)
    };
    assert_eq!(timing("Pluto", "north"), SignTiming::Unknown);
    // Slow is seen in the north at the start.
    assert_eq!(timing("Slow", "North"), SignTiming::AlreadyIn);
    assert_eq!(
        timing("Slow", "South"),
        SignTiming::Next(DateTime { unix_nanoseconds: J2000_UNIX_NANOS + 91 * 3_600 * NANOS_PER_SECOND })
    );
    // Still is seen in the south, and sees Home in the east for ever.
    assert_eq!(timing("Still", "South"), SignTiming::AlreadyIn);
    assert_eq!(timing("Still", "north"), SignTiming::NotFound);
    assert_eq!(timing("Still", "up"), SignTiming::NotFound);
}

#[test]
fn queries_asked_twice_give_the_same() {
    let system = small_system();
    let t = Time::new(123_456 * NANOS_PER_SECOND);
    assert_eq!(
        system.zodiac_for("Swift", t, &whole_metres, &clockwork, &by_first_coordinate),
        system.zodiac_for("Swift", t, &whole_metres, &clockwork, &by_first_coordinate)
    );
    assert_eq!(
        search_from(&system, "Slow", "east", t),
        search_from(&system, "Slow", "east", t)
    );
    assert_eq!(system.names(), system.names());
}
