use stellium::zodiac::Planet;
use stellium::zodiac::ZodiacPosition;
use stellium::zodiac::ZodiacSign;
use stellium::zodiac::UNITS_PER_DEGREE;

fn deg(d: f64) -> i64 {
    (d * UNITS_PER_DEGREE as f64).round() as i64
}

#[test]
fn test_zodiac_sign() {
    let sign = ZodiacSign::from_longitude(deg(280.0));
    assert_eq!(sign, ZodiacSign::Capricorn);

    let sign = ZodiacSign::from_longitude(deg(45.0));
    assert_eq!(sign, ZodiacSign::Taurus);
}

#[test]
fn sign_is_periodic_over_whole_turns() {
    for l in [0.0, 29.999, 30.0, 123.4, 359.9] {
        let s = ZodiacSign::from_longitude(deg(l));
        for k in [-3i64, -1, 1, 2, 5] {
            assert_eq!(ZodiacSign::from_longitude(deg(l) + 360 * UNITS_PER_DEGREE * k), s);
        }
    }
}

#[test]
fn sign_boundaries_are_half_open() {
    assert_eq!(ZodiacSign::from_longitude(0), ZodiacSign::Aries);
    assert_eq!(ZodiacSign::from_longitude(deg(30.0) - 1), ZodiacSign::Aries);
    assert_eq!(ZodiacSign::from_longitude(deg(30.0)), ZodiacSign::Taurus);
    assert_eq!(ZodiacSign::from_longitude(deg(360.0) - 1), ZodiacSign::Pisces);
    assert_eq!(ZodiacSign::from_longitude(deg(360.0)), ZodiacSign::Aries);
    assert_eq!(ZodiacSign::from_longitude(-1), ZodiacSign::Pisces);
}

#[test]
fn every_longitude_has_exactly_one_sign() {
    let mut l = -deg(720.0);
    while l < deg(720.0) {
        let s = ZodiacSign::from_longitude(l);
        let w = l.rem_euclid(deg(360.0));
        assert!(s.start_degree() <= w && w < s.start_degree() + deg(30.0));
        l += deg(7.3);
    }
}

#[test]
fn sign_index_round_trip_and_next() {
    for i in 0..24usize {
        let s = ZodiacSign::from_index(i);
        assert_eq!(s.index(), i % 12);
    }
    assert_eq!(ZodiacSign::Pisces.next(), ZodiacSign::Aries);
    assert_eq!(ZodiacSign::Leo.next(), ZodiacSign::Virgo);
    assert_eq!(ZodiacSign::Scorpio.name(), "Scorpio");
}

#[test]
fn planet_tables() {
    let all = Planet::all();
    assert_eq!(all.len(), 11);
    assert_eq!(all[0], Planet::Sun);
    assert_eq!(all[10], Planet::NorthNode);
    assert_eq!(Planet::NorthNode.swe_id(), 11);
    assert_eq!(Planet::Pluto.swe_id(), 9);
    assert!(!Planet::Sun.can_retrograde());
    assert!(!Planet::Moon.can_retrograde());
    assert!(Planet::Mercury.can_retrograde());
    assert!(Planet::NorthNode.is_lunar_node());
    assert!(!Planet::Mars.is_lunar_node());
    assert_eq!(Planet::NorthNode.name(), "North Node");
}

#[test]
fn zodiac_position_and_format() {
    let p = ZodiacPosition::from_longitude(deg(238.7));
    assert_eq!(p.sign, ZodiacSign::Scorpio);
    assert_eq!(p.degree, deg(28.7));
    assert_eq!(p.longitude, deg(238.7));
    assert_eq!(p.format_degree_sign(), "29° Scorpio");
    let q = ZodiacPosition::from_longitude(deg(-10.0));
    assert_eq!(q.longitude, deg(350.0));
    assert_eq!(q.sign, ZodiacSign::Pisces);
    assert_eq!(q.format_degree_sign(), "20° Pisces");
    let r = ZodiacPosition::from_longitude(deg(29.6));
    assert_eq!(r.format_degree_sign(), "30° Aries");
    let s = ZodiacPosition::from_longitude(deg(120.2));
    assert_eq!(s.format_degree_sign(), "0° Leo");
}

#[test]
fn degree_text_for_unnormalized_offsets() {
    let big = ZodiacPosition { sign: ZodiacSign::Aries, degree: 1_234_567_890_123, longitude: 0 };
    assert_eq!(big.format_degree_sign(), "1234568° Aries");
    let neg = ZodiacPosition { sign: ZodiacSign::Leo, degree: -2_500_000, longitude: 0 };
    assert_eq!(neg.format_degree_sign(), "-3° Leo");
    let small_neg = ZodiacPosition { sign: ZodiacSign::Leo, degree: -400_000, longitude: 0 };
    assert_eq!(small_neg.format_degree_sign(), "0° Leo");
}
