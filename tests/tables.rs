use stellium::aspects::find_aspect;
use stellium::aspects::Aspect;
use stellium::aspects::AspectType;
use stellium::houses::house_system_name;
use stellium::houses::planet_in_house;
use stellium::houses::HOUSE_PLACIDUS;
use stellium::life_area::LifeArea;
use stellium::lunar::phase_percent;
use stellium::lunar::LunarPhaseName;
use stellium::zodiac::UNITS_PER_DEGREE;

fn deg(d: f64) -> i64 {
    (d * UNITS_PER_DEGREE as f64).round() as i64
}

#[test]
fn aspect_tables() {
    assert_eq!(AspectType::Square.angle(), deg(90.0));
    assert_eq!(AspectType::Sesquiquadrate.angle(), deg(135.0));
    assert_eq!(AspectType::Sextile.default_orb(), deg(6.0));
    assert_eq!(AspectType::Quincunx.default_orb(), deg(3.0));
    assert!(AspectType::Trine.is_major());
    assert!(!AspectType::SemiSquare.is_major());
    assert_eq!(AspectType::major_aspects().len(), 5);
    assert_eq!(AspectType::all_aspects().len(), 9);
    assert_eq!(AspectType::all_aspects()[1], AspectType::SemiSextile);
    assert_eq!(AspectType::SemiSextile.name(), "semi-sextile");
}

#[test]
fn find_aspect_cases() {
    assert_eq!(find_aspect(deg(10.0), deg(100.0), false), Some((AspectType::Square, 0)));
    assert_eq!(find_aspect(deg(0.0), deg(185.0), false), Some((AspectType::Opposition, deg(5.0))));
    assert_eq!(find_aspect(deg(358.0), deg(4.0), false), Some((AspectType::Conjunction, deg(6.0))));
    assert_eq!(find_aspect(deg(355.0), deg(5.0), false), None);
    assert_eq!(find_aspect(deg(0.0), deg(50.0), true), None);
    assert_eq!(find_aspect(deg(0.0), deg(47.0), true), Some((AspectType::SemiSquare, deg(2.0))));
    assert_eq!(find_aspect(deg(0.0), deg(47.0), false), None);
    assert_eq!(find_aspect(deg(0.0), deg(55.0), false), Some((AspectType::Sextile, deg(5.0))));
}

#[test]
fn aspect_exactness() {
    let a = Aspect::new("Venus".to_string(), AspectType::Trine, deg(0.9));
    assert!(a.is_exact);
    let b = Aspect::new("Venus".to_string(), AspectType::Trine, deg(1.0));
    assert!(!b.is_exact);
}

#[test]
fn houses_with_wrap_around() {
    let mut cusps = [0i64; 12];
    for (i, c) in cusps.iter_mut().enumerate() {
        *c = deg((350.0 + 30.0 * i as f64).rem_euclid(360.0));
    }
    assert_eq!(planet_in_house(deg(355.0), &cusps), 1);
    assert_eq!(planet_in_house(deg(5.0), &cusps), 1);
    assert_eq!(planet_in_house(deg(20.0), &cusps), 2);
    assert_eq!(planet_in_house(deg(349.0), &cusps), 12);
    assert_eq!(planet_in_house(deg(-5.0), &cusps), 1);
    assert_eq!(planet_in_house(deg(715.0), &cusps), 1);
    let flat = [deg(10.0); 12];
    assert_eq!(planet_in_house(deg(100.0), &flat), 1);
}

#[test]
fn house_system_names() {
    assert_eq!(house_system_name(HOUSE_PLACIDUS), "Placidus");
    assert_eq!(house_system_name(b'W' as i8), "Whole Sign");
    assert_eq!(house_system_name(b'O' as i8), "Porphyry");
    assert_eq!(house_system_name(b'Z' as i8), "Unknown");
}

#[test]
fn lunar_phase_names_and_percent() {
    assert_eq!(LunarPhaseName::from_phase_angle(0), LunarPhaseName::NewMoon);
    assert_eq!(LunarPhaseName::from_phase_angle(deg(350.0)), LunarPhaseName::NewMoon);
    assert_eq!(LunarPhaseName::from_phase_angle(deg(-10.0)), LunarPhaseName::NewMoon);
    assert_eq!(LunarPhaseName::from_phase_angle(deg(22.5)), LunarPhaseName::WaxingCrescent);
    assert_eq!(LunarPhaseName::from_phase_angle(deg(90.0)), LunarPhaseName::FirstQuarter);
    assert_eq!(LunarPhaseName::from_phase_angle(deg(180.0)), LunarPhaseName::FullMoon);
    assert_eq!(LunarPhaseName::from_phase_angle(deg(300.0)), LunarPhaseName::WaningCrescent);
    assert_eq!(phase_percent(deg(180.0)), 50);
    assert_eq!(phase_percent(deg(359.0)), 100);
    assert_eq!(phase_percent(deg(1.7)), 0);
    assert_eq!(phase_percent(deg(1.8)), 1);
}

#[test]
fn life_area_tables() {
    assert_eq!(LifeArea::from_house(0), None);
    assert_eq!(LifeArea::from_house(13), None);
    assert_eq!(LifeArea::from_house(12), Some(LifeArea::Subconscious));
    for (i, a) in LifeArea::all().iter().enumerate() {
        assert_eq!(a.house_number() as usize, i + 1);
        assert_eq!(LifeArea::from_house(a.house_number()), Some(*a));
    }
    assert_eq!(LifeArea::Partnerships.description(), "Partnerships, marriage, contracts");
    assert_eq!(LifeArea::Career.name(), "Career");
}
