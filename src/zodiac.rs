//! Angles on the ecliptic, zodiac signs and celestial bodies.
//!
//! Every angle is a fixed-point integer: one degree is `UNITS_PER_DEGREE` units.
use vstd::prelude::*;

use crate::text::push_decimal;
use crate::text::decimal;

verus! {

/// Fixed-point scale of every angle in the library: one degree is this many units.
pub const UNITS_PER_DEGREE: i64 = 1_000_000;

/// A full turn of the ecliptic, in angle units.
pub const FULL_CIRCLE: i64 = 360_000_000;

/// Half a turn, in angle units.
pub const HALF_CIRCLE: i64 = 180_000_000;

/// Width of one zodiac sign, in angle units.
pub const SIGN_WIDTH: i64 = 30_000_000;

/// `x mod 360°`, always in `[0, 360°)`.
pub open spec fn wrap(x: int) -> int {
    x % (FULL_CIRCLE as int)
}

/// The shortest arc between two longitudes, in `[0, 180°]`.
pub open spec fn angular_distance(a: int, b: int) -> int {
    let d = wrap(if a >= b { a - b } else { b - a });
    if d <= HALF_CIRCLE as int { d } else { FULL_CIRCLE as int - d }
}

/// Normalizes a longitude into `[0, 360°)`.
pub fn wrap_longitude(x: i64) -> (r: i64)
    ensures
        r == wrap(x as int),
        0 <= r < FULL_CIRCLE,
{
    let m = x % FULL_CIRCLE;
    if m < 0 {
        m + FULL_CIRCLE
    } else {
        m
    }
}

/// The shortest arc between two longitudes given in `[0, 360°)`.
pub fn shortest_arc(a: i64, b: i64) -> (r: i64)
    requires
        0 <= a < FULL_CIRCLE,
        0 <= b < FULL_CIRCLE,
    ensures
        r == angular_distance(a as int, b as int),
        0 <= r <= HALF_CIRCLE,
{
    let diff = if a >= b { a - b } else { b - a };
    let d = wrap_longitude(diff);
    if d <= HALF_CIRCLE {
        d
    } else {
        FULL_CIRCLE - d
    }
}

/// The twelve signs of the zodiac, each a 30° sector starting at Aries (0°).
#[derive(Debug, Clone, Copy, PartialEq, Eq, Structural)]
pub enum ZodiacSign {
    Aries,
    Taurus,
    Gemini,
    Cancer,
    Leo,
    Virgo,
    Libra,
    Scorpio,
    Sagittarius,
    Capricorn,
    Aquarius,
    Pisces,
}

/// The sign with the given index in `0..12`.
pub open spec fn sign_at(i: int) -> ZodiacSign {
    if i == 0 {
        ZodiacSign::Aries
    } else if i == 1 {
        ZodiacSign::Taurus
    } else if i == 2 {
        ZodiacSign::Gemini
    } else if i == 3 {
        ZodiacSign::Cancer
    } else if i == 4 {
        ZodiacSign::Leo
    } else if i == 5 {
        ZodiacSign::Virgo
    } else if i == 6 {
        ZodiacSign::Libra
    } else if i == 7 {
        ZodiacSign::Scorpio
    } else if i == 8 {
        ZodiacSign::Sagittarius
    } else if i == 9 {
        ZodiacSign::Capricorn
    } else if i == 10 {
        ZodiacSign::Aquarius
    } else {
        ZodiacSign::Pisces
    }
}

/// The sign that contains a longitude: `floor(wrap(l) / 30°)`.
pub open spec fn sign_of(l: int) -> ZodiacSign {
    sign_at(wrap(l) / (SIGN_WIDTH as int))
}

/// Whether a longitude lies in the half-open sector `[start, start + 30°)` of a sign.
pub open spec fn sign_contains(s: ZodiacSign, l: int) -> bool {
    s.spec_index() * (SIGN_WIDTH as int) <= wrap(l) < (s.spec_index() + 1) * (SIGN_WIDTH as int)
}

impl ZodiacSign {
    /// Position of the sign in zodiac order (Aries is 0, Pisces is 11).
    pub open spec fn spec_index(self) -> int {
        match self {
            ZodiacSign::Aries => 0,
            ZodiacSign::Taurus => 1,
            ZodiacSign::Gemini => 2,
            ZodiacSign::Cancer => 3,
            ZodiacSign::Leo => 4,
            ZodiacSign::Virgo => 5,
            ZodiacSign::Libra => 6,
            ZodiacSign::Scorpio => 7,
            ZodiacSign::Sagittarius => 8,
            ZodiacSign::Capricorn => 9,
            ZodiacSign::Aquarius => 10,
            ZodiacSign::Pisces => 11,
        }
    }

    /// The English name of the sign.
    pub open spec fn spec_name(self) -> Seq<char> {
        match self {
            ZodiacSign::Aries => "Aries"@,
            ZodiacSign::Taurus => "Taurus"@,
            ZodiacSign::Gemini => "Gemini"@,
            ZodiacSign::Cancer => "Cancer"@,
            ZodiacSign::Leo => "Leo"@,
            ZodiacSign::Virgo => "Virgo"@,
            ZodiacSign::Libra => "Libra"@,
            ZodiacSign::Scorpio => "Scorpio"@,
            ZodiacSign::Sagittarius => "Sagittarius"@,
            ZodiacSign::Capricorn => "Capricorn"@,
            ZodiacSign::Aquarius => "Aquarius"@,
            ZodiacSign::Pisces => "Pisces"@,
        }
    }

    /// The sign that contains an ecliptic longitude (any value, wrapped into `[0, 360°)`).
    pub fn from_longitude(longitude: i64) -> (r: ZodiacSign)
        ensures
            r == sign_of(longitude as int),
            sign_contains(r, longitude as int),
    {
        let normalized = wrap_longitude(longitude);
        let index = (normalized / SIGN_WIDTH) as usize;
        Self::from_index(index)
    }

    /// The sign with index `index % 12` (0 is Aries, 11 is Pisces).
    pub fn from_index(index: usize) -> (r: ZodiacSign)
        ensures
            r == sign_at(index as int % 12),
            r.spec_index() == index as int % 12,
    {
        match index % 12 {
            0 => ZodiacSign::Aries,
            1 => ZodiacSign::Taurus,
            2 => ZodiacSign::Gemini,
            3 => ZodiacSign::Cancer,
            4 => ZodiacSign::Leo,
            5 => ZodiacSign::Virgo,
            6 => ZodiacSign::Libra,
            7 => ZodiacSign::Scorpio,
            8 => ZodiacSign::Sagittarius,
            9 => ZodiacSign::Capricorn,
            10 => ZodiacSign::Aquarius,
            _ => ZodiacSign::Pisces,
        }
    }

    /// The longitude at which the sign begins, in angle units.
    pub fn start_degree(&self) -> (r: i64)
        ensures
            r == self.spec_index() * SIGN_WIDTH,
    {
        self.index() as i64 * SIGN_WIDTH
    }

    /// Position of the sign in zodiac order (0 is Aries, 11 is Pisces).
    pub fn index(&self) -> (r: usize)
        ensures
            r == self.spec_index(),
            r < 12,
    {
        match self {
            ZodiacSign::Aries => 0,
            ZodiacSign::Taurus => 1,
            ZodiacSign::Gemini => 2,
            ZodiacSign::Cancer => 3,
            ZodiacSign::Leo => 4,
            ZodiacSign::Virgo => 5,
            ZodiacSign::Libra => 6,
            ZodiacSign::Scorpio => 7,
            ZodiacSign::Sagittarius => 8,
            ZodiacSign::Capricorn => 9,
            ZodiacSign::Aquarius => 10,
            ZodiacSign::Pisces => 11,
        }
    }

    /// The following sign; Pisces is followed by Aries.
    pub fn next(&self) -> (r: ZodiacSign)
        ensures
            r.spec_index() == (self.spec_index() + 1) % 12,
    {
        Self::from_index(self.index() + 1)
    }

    /// The English name of the sign.
    pub fn name(&self) -> (r: &'static str)
        ensures
            r@ == self.spec_name(),
    {
        match self {
            ZodiacSign::Aries => "Aries",
            ZodiacSign::Taurus => "Taurus",
            ZodiacSign::Gemini => "Gemini",
            ZodiacSign::Cancer => "Cancer",
            ZodiacSign::Leo => "Leo",
            ZodiacSign::Virgo => "Virgo",
            ZodiacSign::Libra => "Libra",
            ZodiacSign::Scorpio => "Scorpio",
            ZodiacSign::Sagittarius => "Sagittarius",
            ZodiacSign::Capricorn => "Capricorn",
            ZodiacSign::Aquarius => "Aquarius",
            ZodiacSign::Pisces => "Pisces",
        }
    }
}

/// Celestial bodies used in the calculations.
#[derive(Debug, Clone, Copy, PartialEq, Eq, Hash, Structural)]
pub enum Planet {
    Sun,
    Moon,
    Mercury,
    Venus,
    Mars,
    Jupiter,
    Saturn,
    Uranus,
    Neptune,
    Pluto,
    /// The true ascending lunar node.
    NorthNode,
}

/// Every body, in the order used for iteration.
pub open spec fn all_planets() -> Seq<Planet> {
    seq![
        Planet::Sun,
        Planet::Moon,
        Planet::Mercury,
        Planet::Venus,
        Planet::Mars,
        Planet::Jupiter,
        Planet::Saturn,
        Planet::Uranus,
        Planet::Neptune,
        Planet::Pluto,
        Planet::NorthNode,
    ]
}

impl Planet {
    /// Whether the body can appear to move backwards: every body but the Sun and the Moon.
    pub open spec fn spec_can_retrograde(self) -> bool {
        !(self == Planet::Sun || self == Planet::Moon)
    }

    /// The body's identifier in the Swiss Ephemeris numbering.
    pub open spec fn spec_swe_id(self) -> i32 {
        match self {
            Planet::Sun => 0,
            Planet::Moon => 1,
            Planet::Mercury => 2,
            Planet::Venus => 3,
            Planet::Mars => 4,
            Planet::Jupiter => 5,
            Planet::Saturn => 6,
            Planet::Uranus => 7,
            Planet::Neptune => 8,
            Planet::Pluto => 9,
            Planet::NorthNode => 11,
        }
    }

    /// The English name of the body.
    pub open spec fn spec_name(self) -> Seq<char> {
        match self {
            Planet::Sun => "Sun"@,
            Planet::Moon => "Moon"@,
            Planet::Mercury => "Mercury"@,
            Planet::Venus => "Venus"@,
            Planet::Mars => "Mars"@,
            Planet::Jupiter => "Jupiter"@,
            Planet::Saturn => "Saturn"@,
            Planet::Uranus => "Uranus"@,
            Planet::Neptune => "Neptune"@,
            Planet::Pluto => "Pluto"@,
            Planet::NorthNode => "North Node"@,
        }
    }

    /// Every body, in iteration order.
    pub fn all() -> (r: Vec<Planet>)
        ensures
            r@ == all_planets(),
    {
        let r = vec![
            Planet::Sun,
            Planet::Moon,
            Planet::Mercury,
            Planet::Venus,
            Planet::Mars,
            Planet::Jupiter,
            Planet::Saturn,
            Planet::Uranus,
            Planet::Neptune,
            Planet::Pluto,
            Planet::NorthNode,
        ];
        assert(r@ =~= all_planets());
        r
    }

    /// The body's identifier in the Swiss Ephemeris numbering.
    pub fn swe_id(&self) -> (r: i32)
        ensures
            r == self.spec_swe_id(),
    {
        match self {
            Planet::Sun => 0,
            Planet::Moon => 1,
            Planet::Mercury => 2,
            Planet::Venus => 3,
            Planet::Mars => 4,
            Planet::Jupiter => 5,
            Planet::Saturn => 6,
            Planet::Uranus => 7,
            Planet::Neptune => 8,
            Planet::Pluto => 9,
            Planet::NorthNode => 11,
        }
    }

    /// Whether the body can be retrograde (the Sun and the Moon never are).
    pub fn can_retrograde(&self) -> (r: bool)
        ensures
            r == self.spec_can_retrograde(),
    {
        !matches!(self, Planet::Sun | Planet::Moon)
    }

    /// Whether the body is a lunar node.
    pub fn is_lunar_node(&self) -> (r: bool)
        ensures
            r == (*self == Planet::NorthNode),
    {
        matches!(self, Planet::NorthNode)
    }

    /// The English name of the body.
    pub fn name(&self) -> (r: &'static str)
        ensures
            r@ == self.spec_name(),
    {
        match self {
            Planet::Sun => "Sun",
            Planet::Moon => "Moon",
            Planet::Mercury => "Mercury",
            Planet::Venus => "Venus",
            Planet::Mars => "Mars",
            Planet::Jupiter => "Jupiter",
            Planet::Saturn => "Saturn",
            Planet::Uranus => "Uranus",
            Planet::Neptune => "Neptune",
            Planet::Pluto => "Pluto",
            Planet::NorthNode => "North Node",
        }
    }
}

/// A position in the zodiac: the sign, the offset into it, and the full longitude.
#[derive(Debug, Clone, Copy, PartialEq, Eq, Structural)]
pub struct ZodiacPosition {
    pub sign: ZodiacSign,
    /// Offset into the sign, in `[0, 30°)`.
    pub degree: i64,
    /// Ecliptic longitude, in `[0, 360°)`.
    pub longitude: i64,
}

/// The whole number of degrees nearest to an angle, halves rounded away from zero.
pub open spec fn rounded_degrees(degree: int) -> int {
    if degree >= 0 {
        (degree + UNITS_PER_DEGREE / 2) / (UNITS_PER_DEGREE as int)
    } else {
        -((-degree + UNITS_PER_DEGREE / 2) / (UNITS_PER_DEGREE as int))
    }
}

/// The decimal text of a whole number, with a leading `-` when negative.
pub open spec fn signed_decimal(n: int) -> Seq<char> {
    if n < 0 {
        "-"@ + decimal((-n) as nat)
    } else {
        decimal(n as nat)
    }
}

/// The text `"<d>° <Sign>"`, where `d` is the offset into the sign rounded to whole degrees.
pub open spec fn degree_sign_text(p: ZodiacPosition) -> Seq<char> {
    signed_decimal(rounded_degrees(p.degree as int)) + "° "@ + p.sign.spec_name()
}

impl ZodiacPosition {
    /// Whether the three fields agree: the longitude is normalized and the sign and
    /// offset are those of the longitude.
    pub open spec fn wf(self) -> bool {
        &&& 0 <= self.longitude < FULL_CIRCLE
        &&& self.sign == sign_of(self.longitude as int)
        &&& self.degree == self.longitude - self.sign.spec_index() * SIGN_WIDTH
    }

    /// The position of an ecliptic longitude (any value, wrapped into `[0, 360°)`).
    pub open spec fn spec_from_longitude(longitude: int) -> ZodiacPosition {
        let w = wrap(longitude);
        let sign = sign_of(longitude);
        ZodiacPosition {
            sign,
            degree: (w - sign.spec_index() * SIGN_WIDTH) as i64,
            longitude: w as i64,
        }
    }

    /// The position of an ecliptic longitude (any value, wrapped into `[0, 360°)`).
    pub fn from_longitude(longitude: i64) -> (r: ZodiacPosition)
        ensures
            r == ZodiacPosition::spec_from_longitude(longitude as int),
            r.longitude == wrap(longitude as int),
            r.sign == sign_of(longitude as int),
            r.wf(),
            0 <= r.degree < SIGN_WIDTH,
    {
        let normalized = wrap_longitude(longitude);
        let sign = ZodiacSign::from_longitude(normalized);
        proof {
            vstd::arithmetic::div_mod::lemma_mod_twice(longitude as int, FULL_CIRCLE as int);
        }
        let degree = normalized - sign.start_degree();
        ZodiacPosition { sign, degree, longitude: normalized }
    }

    /// Formats the position as `"<d>° <Sign>"`, e.g. `"28° Scorpio"`.
    pub fn format_degree_sign(&self) -> (r: String)
        ensures
            r@ == degree_sign_text(*self),
    {
        let d = self.degree as i128;
        let half = (UNITS_PER_DEGREE / 2) as i128;
        let unit = UNITS_PER_DEGREE as i128;
        let mut r = String::new();
        if d >= 0 {
            let w = (d + half) / unit;
            assert(w == rounded_degrees(self.degree as int));
            push_decimal(&mut r, w as u64);
            assert(r@ =~= signed_decimal(rounded_degrees(self.degree as int)));
        } else {
            let w = (-d + half) / unit;
            assert(-w == rounded_degrees(self.degree as int));
            if w > 0 {
                r.append("-");
            }
            push_decimal(&mut r, w as u64);
            assert(r@ =~= signed_decimal(rounded_degrees(self.degree as int)));
        }
        r.append("° ");
        r.append(self.sign.name());
        assert(r@ =~= degree_sign_text(*self));
        r
    }
}

/// Signs repeat every full turn: adding any whole number of turns to a longitude
/// leaves its sign unchanged.
pub proof fn lemma_sign_periodic(l: int, k: int)
    ensures
        sign_of(l) == sign_of(l + (FULL_CIRCLE as int) * k),
{
    vstd::arithmetic::div_mod::lemma_mod_multiples_vanish(k, l, FULL_CIRCLE as int);
}

/// The twelve sectors partition the circle: every longitude lies in exactly one sign,
/// the one that `sign_of` gives.
pub proof fn lemma_signs_partition(l: int)
    ensures
        sign_contains(sign_of(l), l),
        forall|s: ZodiacSign| sign_contains(s, l) ==> s == sign_of(l),
{
    let w = wrap(l);
    assert(0 <= w < FULL_CIRCLE);
    let q = w / (SIGN_WIDTH as int);
    assert(0 <= q < 12);
    assert(sign_at(q).spec_index() == q);
    assert(q * (SIGN_WIDTH as int) <= w < (q + 1) * (SIGN_WIDTH as int));
    assert forall|s: ZodiacSign| sign_contains(s, l) implies s == sign_of(l) by {
        let i = s.spec_index();
        assert(i * (SIGN_WIDTH as int) <= w < (i + 1) * (SIGN_WIDTH as int));
        if i < q {
            assert((i + 1) * (SIGN_WIDTH as int) <= q * (SIGN_WIDTH as int)) by (nonlinear_arith)
                requires
                    i + 1 <= q,
            ;
        } else if i > q {
            assert((q + 1) * (SIGN_WIDTH as int) <= i * (SIGN_WIDTH as int)) by (nonlinear_arith)
                requires
                    q + 1 <= i,
            ;
        }
        assert(i == q);
    }
}

} // verus!
