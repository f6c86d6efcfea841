use stellium::houses::HousePositions;
use stellium::houses::HOUSE_PLACIDUS;
use stellium::natal_chart::NatalChart;
use stellium::natal_chart::NatalChartSummary;
use stellium::natal_chart::StoreNatalChartRequest;
use stellium::position::PlanetaryPosition;
use stellium::synastry::synastry_aspects;
use stellium::synastry::AspectCounts;
use stellium::aspects::AspectType;
use stellium::transits::aspect_event_description;
use stellium::transits::daily_transits;
use stellium::transits::days_between;
use stellium::transits::ingress_description;
use stellium::transits::station_description;
use stellium::transits::rounded_to_tenth;
use stellium::zodiac::Planet;
use stellium::zodiac::ZodiacSign;
use stellium::zodiac::UNITS_PER_DEGREE;

fn deg(d: f64) -> i64 {
    (d * UNITS_PER_DEGREE as f64).round() as i64
}

fn request(name: &str) -> StoreNatalChartRequest {
    StoreNatalChartRequest {
        name: name.to_string(),
        birth_date: "1990-05-17".to_string(),
        birth_time: "08:30:00".to_string(),
        birth_location: "Panama City".to_string(),
        latitude: deg(8.98),
        longitude: deg(-79.52),
        timezone: "America/Panama".to_string(),
    }
}

fn houses() -> HousePositions {
    let mut cusps = [0i64; 12];
    for (i, c) in cusps.iter_mut().enumerate() {
        *c = deg((350.0 + 30.0 * i as f64).rem_euclid(360.0));
    }
    HousePositions { ascendant: deg(350.0), midheaven: deg(260.0), cusps, armc: deg(12.0), vertex: deg(170.4) }
}

fn pos(planet: Planet, lon: f64, speed: f64) -> (Planet, PlanetaryPosition) {
    (planet, PlanetaryPosition::new(planet, deg(lon), 0, 1_000_000, deg(speed), 0, 0))
}

fn sample_chart(name: &str, sun: f64, moon: f64) -> NatalChart {
    let positions = vec![
        pos(Planet::Sun, sun, 1.0),
        pos(Planet::Moon, moon, 13.0),
        pos(Planet::Mercury, 40.2, -0.5),
    ];
    NatalChart::calculate(&request(name), &houses(), HOUSE_PLACIDUS, &positions)
}

#[test]
fn retrograde_flag_follows_body_and_speed() {
    assert!(PlanetaryPosition::new(Planet::Mars, 0, 0, 0, -1, 0, 0).is_retrograde);
    assert!(!PlanetaryPosition::new(Planet::Mars, 0, 0, 0, 1, 0, 0).is_retrograde);
    assert!(!PlanetaryPosition::new(Planet::Moon, 0, 0, 0, -1, 0, 0).is_retrograde);
}

#[test]
fn calculate_fills_chart() {
    let c = sample_chart("Ana", 56.3, 200.0);
    assert_eq!(c.name, "Ana");
    let h = c.houses.as_ref().unwrap();
    assert_eq!(h.system, "Placidus");
    assert_eq!(h.cusps.len(), 12);
    assert_eq!(h.cusps[1].longitude, deg(20.0));
    assert_eq!(c.ascendant.unwrap().sign, ZodiacSign::Pisces);
    assert_eq!(c.get_planet_position(&Planet::Sun).unwrap().sign, ZodiacSign::Taurus);
    assert_eq!(c.get_planet_house(&Planet::Sun), Some(3));
    assert_eq!(c.get_planet_house(&Planet::Moon), Some(8));
    assert_eq!(c.get_planet_house(&Planet::Venus), None);
    assert_eq!(c.get_house_cusp(1).unwrap().longitude, deg(350.0));
    assert!(c.get_house_cusp(0).is_none());
    assert!(c.get_house_cusp(13).is_none());
}

#[test]
fn duplicate_body_keeps_last() {
    let positions = vec![pos(Planet::Sun, 10.0, 1.0), pos(Planet::Sun, 100.0, 1.0)];
    let c = NatalChart::calculate(&request("Bo"), &houses(), HOUSE_PLACIDUS, &positions);
    assert_eq!(c.planets.len(), 1);
    assert_eq!(c.get_planet_position(&Planet::Sun).unwrap().longitude, deg(100.0));
}

#[test]
fn summary_of_chart() {
    let c = sample_chart("Ana", 56.3, 200.0);
    let s = NatalChartSummary::from_chart(&c);
    assert_eq!(s.sun.position, "26° Taurus");
    assert_eq!(s.sun.house, Some(3));
    assert!(!s.sun.retrograde);
    assert_eq!(s.mercury.position, "10° Taurus");
    assert!(s.mercury.retrograde);
    assert_eq!(s.venus.position, "Unknown");
    assert_eq!(s.venus.house, None);
    assert_eq!(s.ascendant, "20° Pisces");
    assert_eq!(s.midheaven, "20° Sagittarius");
    assert_eq!(s.houses.len(), 12);
    assert_eq!(s.houses[0].house, 1);
    assert_eq!(s.houses[11].house, 12);
    assert_eq!(s.houses[1].cusp, "20° Aries");
    let empty = NatalChart::new(&request("Cy"));
    let e = NatalChartSummary::from_chart(&empty);
    assert_eq!(e.ascendant, "Unknown");
    assert!(e.houses.is_empty());
}

#[test]
fn synastry_between_two_charts() {
    let a = sample_chart("A", 10.0, 100.0);
    let b = sample_chart("B", 130.5, 280.0);
    let aspects = synastry_aspects(&a, &b, false);
    // Sun A 10 / Sun B 130.5: trine (0.5); Sun A / Moon B 280: square (0)... and so on.
    let sun_sun = aspects.iter().find(|x| x.person1_planet == Planet::Sun && x.person2_planet == Planet::Sun).unwrap();
    assert_eq!(sun_sun.aspect_type, AspectType::Trine);
    assert_eq!(sun_sun.orb, deg(0.5));
    assert!(sun_sun.is_exact);
    assert!(sun_sun.is_major);
    let moon_moon = aspects.iter().find(|x| x.person1_planet == Planet::Moon && x.person2_planet == Planet::Moon).unwrap();
    assert_eq!(moon_moon.aspect_type, AspectType::Opposition);
    assert_eq!(moon_moon.person1_house, Some(4));
    let counts = AspectCounts::of(&aspects);
    let total = counts.conjunctions + counts.trines + counts.sextiles + counts.squares + counts.oppositions;
    assert_eq!(total as usize, aspects.len());
    assert_eq!(counts.harmonious() + counts.challenging(), total as u128);
    assert!(counts.trines >= 1 && counts.oppositions >= 1);
}

#[test]
fn transits_against_natal_chart() {
    let natal = sample_chart("Ana", 56.3, 200.0);
    let now = vec![pos(Planet::Mars, 146.34, -0.2), pos(Planet::Sun, 300.0, 1.0)];
    let t = daily_transits(&now, Some(&natal));
    assert_eq!(t.len(), 2);
    assert_eq!(t[0].planet, "Mars");
    assert_eq!(t[0].sign, ZodiacSign::Leo);
    assert_eq!(t[0].degree, deg(26.3));
    assert!(t[0].retrograde);
    // Mars 146.34 squares the natal Sun at 56.3 (orb 0.04, shown as 0.0).
    assert_eq!(t[0].aspects_to_natal.len(), 1);
    assert_eq!(t[0].aspects_to_natal[0].natal_planet, "Sun");
    assert_eq!(t[0].aspects_to_natal[0].aspect_type, AspectType::Square);
    assert_eq!(t[0].aspects_to_natal[0].orb, 0);
    let bare = daily_transits(&now, None);
    assert!(bare[0].aspects_to_natal.is_empty());
}

#[test]
fn tenth_rounding() {
    assert_eq!(rounded_to_tenth(deg(26.34)), deg(26.3));
    assert_eq!(rounded_to_tenth(deg(26.35)), deg(26.4));
    assert_eq!(rounded_to_tenth(deg(-0.05)), deg(-0.1));
    assert_eq!(rounded_to_tenth(0), 0);
}

#[test]
fn close_aspects_keep_only_tight_orbs() {
    let natal = sample_chart("Ana", 56.3, 200.0);
    let now = vec![
        pos(Planet::Mars, 146.34, -0.2),
        pos(Planet::Venus, 25.0, 1.2),
        pos(Planet::Jupiter, 200.4, 0.1),
    ];
    let contacts = stellium::transits::close_aspects_to_natal(&now, &natal, false);
    assert_eq!(contacts.len(), 2);
    assert_eq!(contacts[0].transit_planet, Planet::Mars);
    assert_eq!(contacts[0].natal_planet, Planet::Sun);
    assert_eq!(contacts[0].aspect_type, AspectType::Square);
    assert_eq!(contacts[0].orb, deg(0.04));
    assert_eq!(contacts[1].transit_planet, Planet::Jupiter);
    assert_eq!(contacts[1].natal_planet, Planet::Moon);
    assert_eq!(contacts[1].aspect_type, AspectType::Conjunction);
}

#[test]
fn event_descriptions() {
    assert_eq!(ingress_description(Planet::Sun, ZodiacSign::Aries), "Sun enters Aries (Spring Equinox)");
    assert_eq!(ingress_description(Planet::Sun, ZodiacSign::Capricorn), "Sun enters Capricorn (Winter Solstice)");
    assert_eq!(ingress_description(Planet::Sun, ZodiacSign::Leo), "Sun enters Leo");
    assert_eq!(ingress_description(Planet::Mars, ZodiacSign::Aries), "Mars enters Aries");
    assert_eq!(station_description(Planet::Mercury, true), "Mercury stations retrograde");
    assert_eq!(station_description(Planet::Mercury, false), "Mercury stations direct");
    assert_eq!(aspect_event_description(Planet::Mars, AspectType::Square, Planet::Sun), "Mars square natal Sun");
    assert_eq!(days_between(0, 2_500_000), 3);
    assert_eq!(days_between(0, 2_499_999), 2);
    assert_eq!(days_between(1_000_000, 0), -1);
}

#[test]
fn retrograde_defaults() {
    assert_eq!(stellium::transits::retrograde_end(5_000_000, Some(9_000_000)), 9_000_000);
    assert_eq!(stellium::transits::retrograde_end(5_000_000, None), 26_000_000);
    assert_eq!(stellium::transits::look_ahead_days(None), 90);
    assert_eq!(stellium::transits::look_ahead_days(Some(30)), 30);
    assert_eq!(stellium::transits::look_ahead_days(Some(i64::MAX)), i32::MAX);
    assert_eq!(stellium::transits::look_ahead_days(Some(-5)), -5);
}

#[test]
fn lunar_cycle_defaults() {
    let day = 100_000_000;
    assert_eq!(
        stellium::lunar::cycle_instants(day, None, None, None, None),
        (day - 14_000_000, day - 7_000_000, day + 29_500_000, day + 14_000_000)
    );
    assert_eq!(
        stellium::lunar::cycle_instants(day, Some(1), Some(2), Some(3), Some(4)),
        (1, 2, 3, 4)
    );
}
