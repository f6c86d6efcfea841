use stellium::events::phase_angle;
use stellium::events::LunarPhaseSearch;
use stellium::events::PreviousPhaseSearch;
use stellium::events::SignIngressSearch;
use stellium::events::StationSearch;
use stellium::events::FULL_MOON_ANGLE;
use stellium::events::NEW_MOON_ANGLE;
use stellium::search::CrossingSearch;
use stellium::search::SearchPhase;
use stellium::search::TICKS_PER_DAY;
use stellium::zodiac::Planet;
use stellium::zodiac::ZodiacSign;
use stellium::zodiac::UNITS_PER_DEGREE;

const SYNODIC_DAYS: f64 = 29.530588;

fn days(t: i64) -> f64 {
    t as f64 / TICKS_PER_DAY as f64
}

fn ticks(d: f64) -> i64 {
    (d * TICKS_PER_DAY as f64).round() as i64
}

fn angle_units(deg: f64) -> i64 {
    (deg.rem_euclid(360.0) * UNITS_PER_DEGREE as f64).round() as i64
}

/// Synthetic Moon: longitude grows 13.2 degrees a day from 0 at instant 0.
fn moon_longitude(t: i64) -> i64 {
    angle_units(days(t) * 13.2)
}

/// Synthetic velocity in longitude: cos(2 pi t / 80).
fn cosine_speed(t: i64) -> i64 {
    let v = (2.0 * std::f64::consts::PI * days(t) / 80.0).cos();
    (v * UNITS_PER_DEGREE as f64).round() as i64
}

/// Synthetic phase angle: a full turn every synodic month, 0 at instant 0.
fn synthetic_phase(t: i64) -> i64 {
    angle_units(360.0 * days(t) / SYNODIC_DAYS)
}

fn run_ingress(planet: Planet, start: i64, max_days: i32, oracle: fn(i64) -> i64) -> Option<(i64, ZodiacSign)> {
    let mut s = SignIngressSearch::new(planet, start, max_days);
    while let Some(t) = s.query() {
        s.advance(oracle(t));
    }
    s.result()
}

fn run_station(planet: Planet, start: i64, max_days: i32, oracle: fn(i64) -> i64) -> Option<(i64, bool)> {
    let mut s = StationSearch::new(planet, start, max_days);
    while let Some(t) = s.query() {
        s.advance(oracle(t));
    }
    s.result()
}

fn run_phase(start: i64, target: i64, max_days: i32) -> Option<i64> {
    let mut s = LunarPhaseSearch::new(start, target, max_days);
    while let Some(t) = s.query() {
        s.advance(synthetic_phase(t));
    }
    s.result()
}

fn run_previous_phase(start: i64, target: i64, max_days: i32) -> Option<i64> {
    let mut s = PreviousPhaseSearch::new(start, target, max_days);
    while let Some(t) = s.query() {
        s.advance(synthetic_phase(t));
    }
    s.result()
}

#[test]
fn moon_ingress_on_synthetic_oracle() {
    let start = 0;
    let current = ZodiacSign::from_longitude(moon_longitude(start));
    let (t, sign) = run_ingress(Planet::Moon, start, 30, moon_longitude).unwrap();
    let exact = 30.0 / 13.2;
    assert!(days(t) > 2.0 && days(t) <= 3.0);
    assert!(days(t) >= exact && days(t) <= exact + 0.001 + 1e-9);
    assert_eq!(sign, current.next());
    assert_eq!(sign, ZodiacSign::from_longitude(moon_longitude(t)));
    assert_eq!(ZodiacSign::from_longitude(moon_longitude(t - 1000)), current);
}

#[test]
fn ingress_requery_moves_on() {
    let (t, sign) = run_ingress(Planet::Moon, 0, 30, moon_longitude).unwrap();
    let (t2, sign2) = run_ingress(Planet::Moon, t + 1, 30, moon_longitude).unwrap();
    assert!(t2 > t + 1);
    assert_eq!(sign2, sign.next());
    assert!((days(t2) - 60.0 / 13.2).abs() <= 0.001 + 1e-9);
}

#[test]
fn ingress_outside_horizon_is_none() {
    assert_eq!(run_ingress(Planet::Moon, 0, 2, moon_longitude), None);
    assert_eq!(run_ingress(Planet::Moon, 0, 0, moon_longitude), None);
    assert_eq!(run_ingress(Planet::Moon, 0, -5, moon_longitude), None);
}

#[test]
fn station_on_cosine_speed() {
    let (t, turns_retrograde) = run_station(Planet::Mars, 0, 60, cosine_speed).unwrap();
    assert!(turns_retrograde);
    assert!((days(t) - 20.0).abs() <= 0.01);
    let (t2, turns_retrograde2) = run_station(Planet::Mars, t + 1, 60, cosine_speed).unwrap();
    assert!(!turns_retrograde2);
    assert!((days(t2) - 60.0).abs() <= 0.01);
}

#[test]
fn no_station_for_sun_and_moon() {
    for p in [Planet::Sun, Planet::Moon] {
        let s = StationSearch::new(p, 0, 400);
        assert_eq!(s.query(), None);
        assert_eq!(s.result(), None);
        assert_eq!(run_station(p, ticks(3.5), 1000, cosine_speed), None);
    }
}

#[test]
fn station_horizon_exhausted() {
    assert_eq!(run_station(Planet::Jupiter, 0, 10, cosine_speed), None);
}

#[test]
fn full_moons_bracket_start_by_one_synodic_month() {
    for start_days in [0.3, 3.0, 11.7, 20.0, 28.9, 47.2, 100.0] {
        let start = ticks(start_days);
        let next = run_phase(start, FULL_MOON_ANGLE, 30).unwrap();
        let prev = run_previous_phase(start, FULL_MOON_ANGLE, 30).unwrap();
        assert!(prev < start && start < next);
        let span = days(next) - days(prev);
        assert!((span - SYNODIC_DAYS).abs() < 1.0, "span {span}");
    }
}

#[test]
fn new_moon_across_the_seam() {
    let next = run_phase(ticks(5.0), NEW_MOON_ANGLE, 30).unwrap();
    assert!((days(next) - SYNODIC_DAYS).abs() <= 0.002);
    let prev = run_previous_phase(ticks(5.0), NEW_MOON_ANGLE, 30).unwrap();
    assert!(prev <= 0 && prev > -ticks(0.5) - 1);
}

#[test]
fn full_moon_refined_to_tolerance() {
    let next = run_phase(0, FULL_MOON_ANGLE, 30).unwrap();
    assert!((days(next) - SYNODIC_DAYS / 2.0).abs() <= 0.002);
    assert_eq!(run_phase(0, FULL_MOON_ANGLE, 10), None);
}

#[test]
fn phase_angle_wraps() {
    assert_eq!(phase_angle(angle_units(350.0), angle_units(10.0)), angle_units(20.0));
    assert_eq!(phase_angle(angle_units(10.0), angle_units(350.0)), angle_units(340.0));
    assert_eq!(phase_angle(0, -UNITS_PER_DEGREE), angle_units(359.0));
}

#[test]
fn crossing_search_bisects() {
    // Condition changes at instant 737 on a scan from 100 with step 200 and tolerance 3.
    let mut s = CrossingSearch::new(100, 10_000, 200, 3);
    let mut samples = 0;
    while let Some(t) = s.query() {
        s.advance(t >= 737);
        samples += 1;
    }
    match s.phase {
        SearchPhase::Found { low, at } => {
            assert!(low < 737 && 737 <= at);
            assert!(at - low <= 3);
        }
        other => panic!("unexpected {other:?}"),
    }
    assert!(samples < 20);
}

#[test]
fn crossing_search_exhausts() {
    let mut s = CrossingSearch::new(0, 1000, 300, 1);
    let mut seen = Vec::new();
    while let Some(t) = s.query() {
        seen.push(t);
        s.advance(false);
    }
    assert_eq!(seen, vec![0, 300, 600, 900]);
    assert_eq!(s.phase, SearchPhase::Exhausted);
}

/// Moon at 5° at the start, 65° at the half-day sample, and 40° everywhere in between.
fn skipping_moon(t: i64) -> i64 {
    if t <= 0 {
        angle_units(5.0)
    } else if t >= 500_000 {
        angle_units(65.0)
    } else {
        angle_units(40.0)
    }
}

#[test]
fn ingress_reports_sign_seen_at_reported_instant() {
    let (t, sign) = run_ingress(Planet::Moon, 0, 10, skipping_moon).unwrap();
    assert!(t > 0 && t <= 1000);
    assert_eq!(sign, ZodiacSign::Taurus);
    assert_eq!(sign, ZodiacSign::from_longitude(skipping_moon(t)));
}

#[test]
fn new_moon_search_just_after_conjunction_waits_a_month() {
    // The synthetic angle is 5° at the start and about 11° half a day later.
    let start = ticks(5.0 / 360.0 * SYNODIC_DAYS);
    let next = run_phase(start, NEW_MOON_ANGLE, 35).unwrap();
    assert!(days(next) - days(start) > 20.0);
    assert!((days(next) - SYNODIC_DAYS).abs() <= 0.002);
}
