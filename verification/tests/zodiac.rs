use orbitor::units::FULL_TURN;
use orbitor::{Angle, Zodiac};

fn names(list: &[&str]) -> Vec<String> {
    list.iter().map(|s| s.to_string()).collect()
}

fn twelve() -> Zodiac {
    Zodiac::new(names(&[
        "aries",
        "taurus",
        "gemini",
        "cancer",
        "leo",
        "virgo",
        "libra",
        "scorpio",
        "sagittarius",
        "capricorn",
        "aquarius",
        "pisces",
    ]))
}

#[test]
fn get_sign_finds_the_sector_of_an_angle() {
    let z = twelve();
    assert_eq!(z.get_sign(Angle::new(0)), "aries");
    assert_eq!(z.get_sign(Angle::new(29_999_999)), "aries");
    assert_eq!(z.get_sign(Angle::new(30_000_000)), "taurus");
    assert_eq!(z.get_sign(Angle::new(45_000_000)), "taurus");
    assert_eq!(z.get_sign(Angle::new(180_000_000)), "libra");
    assert_eq!(z.get_sign(Angle::new(329_999_999)), "aquarius");
    assert_eq!(z.get_sign(Angle::new(330_000_000)), "pisces");
    assert_eq!(z.get_sign(Angle::new(359_999_999)), "pisces");
}

#[test]
fn get_sign_normalizes_first() {
    let z = twelve();
    assert_eq!(z.get_sign(Angle::new(360_000_000)), "aries");
    assert_eq!(z.get_sign(Angle::new(-1)), "pisces");
    assert_eq!(z.get_sign(Angle::new(-30_000_000)), "pisces");
    assert_eq!(z.get_sign(Angle::new(-30_000_001)), "aquarius");
    assert_eq!(z.get_sign(Angle::new(765_000_000)), "taurus");
}

#[test]
fn get_sign_repeats_every_turn() {
    let z = twelve();
    let mut raw: i64 = -400_000_000;
    while raw < 400_000_000 {
        let here = z.get_sign(Angle::new(raw)).clone();
        assert_eq!(&here, z.get_sign(Angle::new(raw + FULL_TURN)));
        assert_eq!(&here, z.get_sign(Angle::new(raw - FULL_TURN)));
        raw += 7_777_777;
    }
}

#[test]
fn get_sign_with_one_sector_is_always_that_sector() {
    let z = Zodiac::new(names(&["all"]));
    for raw in [-1i64, 0, 1, 179_000_000, 359_999_999, 360_000_000] {
        assert_eq!(z.get_sign(Angle::new(raw)), "all");
    }
}

#[test]
fn angles_are_the_sector_starts() {
    let z = twelve();
    let starts = z.angles();
    assert_eq!(starts.len(), 12);
    for (i, start) in starts.iter().enumerate() {
        assert_eq!(*start, Angle::new(30_000_000 * i as i64));
    }
}

#[test]
fn angles_round_up_where_the_turn_does_not_divide() {
    let z = Zodiac::new(names(&["a", "b", "c", "d", "e", "f", "g"]));
    let starts = z.angles();
    // 360 / 7 degrees is 51_428_571.43 microdegrees.
    assert_eq!(
        starts,
        vec![
            Angle::new(0),
            Angle::new(51_428_572),
            Angle::new(102_857_143),
            Angle::new(154_285_715),
            Angle::new(205_714_286),
            Angle::new(257_142_858),
            Angle::new(308_571_429),
        ]
    );
    assert_eq!(z.get_sign(Angle::new(51_428_571)), "a");
    assert_eq!(z.get_sign(Angle::new(51_428_572)), "b");
    assert_eq!(z.get_sign(Angle::new(308_571_428)), "f");
    assert_eq!(z.get_sign(Angle::new(308_571_429)), "g");
}

#[test]
fn get_angle_range_gives_start_and_next_start() {
    let z = twelve();
    assert_eq!(z.get_angle_range("aries".to_string()), Some((Angle::new(0), Angle::new(30_000_000))));
    assert_eq!(z.get_angle_range("leo".to_string()), Some((Angle::new(120_000_000), Angle::new(150_000_000))));
}

#[test]
fn get_angle_range_of_the_last_sector_ends_at_the_full_turn() {
    let z = twelve();
    assert_eq!(z.get_angle_range("pisces".to_string()), Some((Angle::new(330_000_000), Angle::new(FULL_TURN))));
}

#[test]
fn get_angle_range_of_an_unknown_name_is_none() {
    let z = twelve();
    assert_eq!(z.get_angle_range("ophiuchus".to_string()), None);
    assert_eq!(z.get_angle_range("".to_string()), None);
}

#[test]
fn get_angle_range_matches_names_exactly() {
    let z = twelve();
    assert_eq!(z.get_angle_range("Aries".to_string()), None);
    assert_eq!(z.get_angle_range("aries ".to_string()), None);
}

#[test]
fn get_angle_range_takes_the_first_of_equal_names() {
    let z = Zodiac::new(names(&["x", "y", "x", "y"]));
    assert_eq!(z.get_angle_range("x".to_string()), Some((Angle::new(0), Angle::new(90_000_000))));
    assert_eq!(z.get_angle_range("y".to_string()), Some((Angle::new(90_000_000), Angle::new(180_000_000))));
}

#[test]
fn every_range_of_twelve_is_thirty_degrees_wide() {
    let z = twelve();
    for name in ["aries", "taurus", "gemini", "cancer", "leo", "virgo", "libra", "scorpio", "sagittarius", "capricorn", "aquarius", "pisces"] {
        let (start, end) = z.get_angle_range(name.to_string()).unwrap();
        assert_eq!(end.microdegrees - start.microdegrees, FULL_TURN / 12);
    }
}

#[test]
fn ranges_and_get_sign_agree() {
    let z = Zodiac::new(names(&["a", "b", "c", "d", "e", "f", "g"]));
    for name in ["a", "b", "c", "d", "e", "f", "g"] {
        let (start, end) = z.get_angle_range(name.to_string()).unwrap();
        assert!(end.microdegrees - start.microdegrees == 51_428_571 || end.microdegrees - start.microdegrees == 51_428_572);
        assert_eq!(z.get_sign(start), name);
        assert_eq!(z.get_sign(Angle::new(end.microdegrees - 1)), name);
        if start.microdegrees > 0 {
            assert_ne!(z.get_sign(Angle::new(start.microdegrees - 1)), name);
        }
        if end.microdegrees < FULL_TURN {
            assert_ne!(z.get_sign(end), name);
        }
    }
}
