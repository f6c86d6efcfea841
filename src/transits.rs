//! Requests and reports about transits and retrograde motion.
use vstd::prelude::*;

use crate::aspects::find_aspect;
use crate::aspects::spec_find_aspect;
use crate::aspects::Aspect;
use crate::aspects::AspectType;
use crate::natal_chart::NatalChart;
use crate::position::PlanetaryPosition;
use crate::search::TICKS_PER_DAY;
use crate::zodiac::Planet;
use crate::zodiac::ZodiacPosition;
use crate::zodiac::UNITS_PER_DEGREE;
use crate::zodiac::ZodiacSign;

verus! {

/// A request for the transits of a date.
#[derive(Debug, Clone, PartialEq, Eq)]
pub struct GetDailyTransitsRequest {
    /// Date in YYYY-MM-DD format.
    pub date: String,
}

/// A body's current position with the aspects it forms to a natal chart.
#[derive(Debug, Clone, PartialEq, Eq)]
pub struct Transit {
    pub planet: String,
    pub sign: ZodiacSign,
    /// Offset into the sign, in angle units.
    pub degree: i64,
    pub retrograde: bool,
    pub aspects_to_natal: Vec<Aspect>,
}

/// The transits of a date.
#[derive(Debug, Clone, PartialEq, Eq)]
pub struct GetDailyTransitsResponse {
    pub date: String,
    pub transits: Vec<Transit>,
}

/// A request for the retrograde status of a date.
#[derive(Debug, Clone, PartialEq, Eq)]
pub struct GetRetrogradeStatusRequest {
    /// Date in YYYY-MM-DD format.
    pub date: String,
    pub include_upcoming: Option<bool>,
    /// Days to look ahead for upcoming retrogrades.
    pub days_ahead: Option<i64>,
}

/// A body that is retrograde now.
#[derive(Debug, Clone, PartialEq, Eq)]
pub struct RetrogradeInfo {
    pub planet: String,
    pub retrograde: bool,
    pub retrograde_start: Option<String>,
    pub retrograde_end: Option<String>,
    pub direct_station: Option<String>,
}

/// A retrograde period that starts later.
#[derive(Debug, Clone, PartialEq, Eq)]
pub struct UpcomingRetrograde {
    pub planet: String,
    pub retrograde_start: String,
    pub retrograde_end: String,
    pub days_until: i64,
}

/// The retrograde status of a date.
#[derive(Debug, Clone, PartialEq, Eq)]
pub struct GetRetrogradeStatusResponse {
    pub date: String,
    pub currently_retrograde: Vec<RetrogradeInfo>,
    pub upcoming_retrogrades: Vec<UpcomingRetrograde>,
}

/// A request for the events of a date range.
#[derive(Debug, Clone, PartialEq, Eq)]
pub struct GetTransitReportRequest {
    /// Start date in YYYY-MM-DD format.
    pub start_date: String,
    /// End date in YYYY-MM-DD format.
    pub end_date: String,
    pub include_minor_aspects: Option<bool>,
}

/// A notable event: an ingress, a station or an aspect.
#[derive(Debug, Clone, PartialEq, Eq)]
pub struct MajorEvent {
    pub date: String,
    pub event: String,
    pub event_type: String,
    /// Deviation from exact, in angle units, for an aspect.
    pub orb: Option<i64>,
    pub affected_planets: Vec<String>,
}

/// A new or full moon.
#[derive(Debug, Clone, PartialEq, Eq)]
pub struct LunarEvent {
    pub date: String,
    pub event: String,
    pub event_type: String,
}

/// The events of a date range.
#[derive(Debug, Clone, PartialEq, Eq)]
pub struct GetTransitReportResponse {
    pub period: DateRange,
    pub major_events: Vec<MajorEvent>,
    pub lunar_events: Vec<LunarEvent>,
    pub retrograde_events: Vec<MajorEvent>,
}

/// A range of dates in YYYY-MM-DD format.
#[derive(Debug, Clone, PartialEq, Eq)]
pub struct DateRange {
    pub start_date: String,
    pub end_date: String,
}

/// An angle rounded to the nearest tenth of a degree, halves away from zero.
pub open spec fn round_to_tenth(x: int) -> int {
    let t = UNITS_PER_DEGREE / 10;
    if x >= 0 {
        ((x + t / 2) / t) * t
    } else {
        -(((-x + t / 2) / t) * t)
    }
}

/// An angle rounded to the nearest tenth of a degree, halves away from zero.
pub fn rounded_to_tenth(x: i64) -> (r: i64)
    requires
        -1_000_000_000_000_000_000 <= x <= 1_000_000_000_000_000_000,
    ensures
        r == round_to_tenth(x as int),
{
    let t: i64 = UNITS_PER_DEGREE / 10;
    if x >= 0 {
        let q = (x + t / 2) / t;
        assert(0 <= q * t <= x + t / 2) by (nonlinear_arith)
            requires
                q == (x + t / 2) / (t as int),
                t == 100_000,
                x >= 0,
        ;
        q * t
    } else {
        let q = (-x + t / 2) / t;
        assert(0 <= q * t <= -x + t / 2) by (nonlinear_arith)
            requires
                q == (-x + t / 2) / (t as int),
                t == 100_000,
                x < 0,
        ;
        -(q * t)
    }
}

/// The major aspects that a longitude forms with the bodies of a natal chart, in the
/// chart's order: the natal body, the aspect and its deviation from exact.
pub open spec fn natal_hits(natal: Seq<(Planet, ZodiacPosition)>, lon: int) -> Seq<(Planet, AspectType, int)>
    decreases natal.len(),
{
    if natal.len() == 0 {
        Seq::empty()
    } else {
        let h = natal_hits(natal.drop_last(), lon);
        match spec_find_aspect(lon, natal.last().1.longitude as int, false) {
            Some((t, orb)) => h.push((natal.last().0, t, orb)),
            None => h,
        }
    }
}

/// Whether a list of aspects shows the hits, each orb rounded to a tenth of a degree.
pub open spec fn shows_hits(a: Seq<Aspect>, h: Seq<(Planet, AspectType, int)>) -> bool {
    &&& a.len() == h.len()
    &&& forall|k: int| 0 <= k < a.len() ==> {
        &&& (#[trigger] a[k]).natal_planet@ == h[k].0.spec_name()
        &&& a[k].aspect_type == h[k].1
        &&& a[k].orb == round_to_tenth(h[k].2)
        &&& a[k].is_exact == (round_to_tenth(h[k].2) < UNITS_PER_DEGREE)
    }
}

/// Whether a transit shows a body's position and its aspects to a natal chart.
pub open spec fn shows_transit(t: Transit, p: Planet, pos: PlanetaryPosition, natal: Option<NatalChart>) -> bool {
    let z = ZodiacPosition::spec_from_longitude(pos.longitude as int);
    &&& t.planet@ == p.spec_name()
    &&& t.sign == z.sign
    &&& t.degree == round_to_tenth(z.degree as int)
    &&& t.retrograde == pos.is_retrograde
    &&& shows_hits(
        t.aspects_to_natal@,
        match natal {
            Some(c) => natal_hits(c.planets@, pos.longitude as int),
            None => Seq::empty(),
        },
    )
}

fn aspects_to_natal(natal: &NatalChart, lon: i64) -> (r: Vec<Aspect>)
    ensures
        shows_hits(r@, natal_hits(natal.planets@, lon as int)),
{
    let mut r: Vec<Aspect> = Vec::new();
    let mut i: usize = 0;
    while i < natal.planets.len()
        invariant
            0 <= i <= natal.planets@.len(),
            shows_hits(r@, natal_hits(natal.planets@.take(i as int), lon as int)),
        decreases natal.planets.len() - i,
    {
        let (natal_planet, natal_pos) = natal.planets[i];
        proof {
            assert(natal.planets@.take(i + 1).drop_last() =~= natal.planets@.take(i as int));
            assert(natal.planets@.take(i + 1).last() == natal.planets@[i as int]);
        }
        match find_aspect(lon, natal_pos.longitude, false) {
            Some((aspect_type, orb)) => {
                let rounded = rounded_to_tenth(orb);
                r.push(Aspect::new(String::from_str(natal_planet.name()), aspect_type, rounded));
            },
            None => {},
        }
        i = i + 1;
    }
    assert(natal.planets@.take(natal.planets@.len() as int) =~= natal.planets@);
    r
}

/// The transits of the bodies at their given positions: each body's sign, offset into the
/// sign (to a tenth of a degree) and motion, with the major aspects its longitude forms to
/// the bodies of the natal chart, when there is one. Orbs are rounded to a tenth of a
/// degree.
pub fn daily_transits(positions: &Vec<(Planet, PlanetaryPosition)>, natal: Option<&NatalChart>) -> (r: Vec<Transit>)
    ensures
        r@.len() == positions@.len(),
        forall|k: int| 0 <= k < r@.len() ==> shows_transit(
            #[trigger] r@[k],
            positions@[k].0,
            positions@[k].1,
            match natal {
                Some(c) => Some(*c),
                None => None,
            },
        ),
{
    let mut r: Vec<Transit> = Vec::new();
    let mut i: usize = 0;
    while i < positions.len()
        invariant
            0 <= i <= positions@.len(),
            r@.len() == i,
            forall|k: int| 0 <= k < i ==> shows_transit(
                #[trigger] r@[k],
                positions@[k].0,
                positions@[k].1,
                match natal {
                    Some(c) => Some(*c),
                    None => None,
                },
            ),
        decreases positions.len() - i,
    {
        let (planet, position) = positions[i];
        let aspects = match natal {
            Some(chart) => aspects_to_natal(chart, position.longitude),
            None => Vec::new(),
        };
        let zodiac_pos = position.to_zodiac_position();
        r.push(
            Transit {
                planet: String::from_str(planet.name()),
                sign: zodiac_pos.sign,
                degree: rounded_to_tenth(zodiac_pos.degree),
                retrograde: position.is_retrograde,
                aspects_to_natal: aspects,
            },
        );
        i = i + 1;
    }
    r
}

/// The season that begins when the Sun enters a sign, for the four cardinal signs.
pub open spec fn season_of(sign: ZodiacSign) -> Option<Seq<char>> {
    match sign {
        ZodiacSign::Aries => Some("Spring Equinox"@),
        ZodiacSign::Cancer => Some("Summer Solstice"@),
        ZodiacSign::Libra => Some("Fall Equinox"@),
        ZodiacSign::Capricorn => Some("Winter Solstice"@),
        _ => None,
    }
}

/// The text of an ingress event: `"<Body> enters <Sign>"`, followed for the Sun entering a
/// cardinal sign by the season in parentheses.
pub open spec fn ingress_text(planet: Planet, sign: ZodiacSign) -> Seq<char> {
    let base = planet.spec_name() + " enters "@ + sign.spec_name();
    if planet == Planet::Sun && season_of(sign).is_some() {
        base + " ("@ + season_of(sign).unwrap() + ")"@
    } else {
        base
    }
}

fn season(sign: ZodiacSign) -> (r: Option<&'static str>)
    ensures
        match r {
            Some(t) => season_of(sign) == Some(t@),
            None => season_of(sign).is_none(),
        },
{
    match sign {
        ZodiacSign::Aries => Some("Spring Equinox"),
        ZodiacSign::Cancer => Some("Summer Solstice"),
        ZodiacSign::Libra => Some("Fall Equinox"),
        ZodiacSign::Capricorn => Some("Winter Solstice"),
        _ => None,
    }
}

/// Describes a body entering a sign, e.g. `"Sun enters Aries (Spring Equinox)"`.
pub fn ingress_description(planet: Planet, sign: ZodiacSign) -> (r: String)
    ensures
        r@ == ingress_text(planet, sign),
{
    let mut r = String::from_str(planet.name());
    r.append(" enters ");
    r.append(sign.name());
    if matches!(planet, Planet::Sun) {
        match season(sign) {
            Some(label) => {
                r.append(" (");
                r.append(label);
                r.append(")");
            },
            None => {},
        }
    }
    assert(r@ =~= ingress_text(planet, sign));
    r
}

/// The text of a station event: `"<Body> stations retrograde"` or `"<Body> stations direct"`.
pub open spec fn station_text(planet: Planet, turns_retrograde: bool) -> Seq<char> {
    planet.spec_name() + if turns_retrograde {
        " stations retrograde"@
    } else {
        " stations direct"@
    }
}

/// Describes a station, e.g. `"Mercury stations retrograde"`.
pub fn station_description(planet: Planet, turns_retrograde: bool) -> (r: String)
    ensures
        r@ == station_text(planet, turns_retrograde),
{
    let mut r = String::from_str(planet.name());
    if turns_retrograde {
        r.append(" stations retrograde");
    } else {
        r.append(" stations direct");
    }
    r
}

/// Describes an aspect of a moving body to a natal body, e.g. `"Mars square natal Sun"`.
pub fn aspect_event_description(transit_planet: Planet, aspect_type: AspectType, natal_planet: Planet) -> (r: String)
    ensures
        r@ == transit_planet.spec_name() + " "@ + aspect_type.spec_name() + " natal "@
            + natal_planet.spec_name(),
{
    let mut r = String::from_str(transit_planet.name());
    r.append(" ");
    r.append(aspect_type.name());
    r.append(" natal ");
    r.append(natal_planet.name());
    r
}

/// The whole number of days nearest to a span of ticks, halves away from zero.
pub open spec fn rounded_days(span: int) -> int {
    if span >= 0 {
        (span + TICKS_PER_DAY / 2) / (TICKS_PER_DAY as int)
    } else {
        -((-span + TICKS_PER_DAY / 2) / (TICKS_PER_DAY as int))
    }
}

/// The whole number of days from one instant to another, rounded to the nearest day.
pub fn days_between(from: i64, to: i64) -> (r: i64)
    ensures
        r == rounded_days(to - from),
{
    let span = to as i128 - from as i128;
    let half = (TICKS_PER_DAY / 2) as i128;
    let day = TICKS_PER_DAY as i128;
    if span >= 0 {
        ((span + half) / day) as i64
    } else {
        -(((-span + half) / day) as i64)
    }
}

/// Half a degree: the orb within which a transit report lists an aspect to the natal chart.
pub const CLOSE_ORB: i64 = 500_000;

/// An aspect of a moving body to a natal body.
#[derive(Debug, Clone, Copy, PartialEq, Eq, Structural)]
pub struct NatalContact {
    pub transit_planet: Planet,
    pub natal_planet: Planet,
    pub aspect_type: AspectType,
    /// Deviation from exact, in angle units.
    pub orb: i64,
}

/// The close aspect, if any, that a moving body at `lon` forms with a natal body at `natal_lon`.
pub open spec fn close_contact(p: Planet, lon: int, q: Planet, natal_lon: int, include_minor: bool) -> Seq<NatalContact> {
    match spec_find_aspect(lon, natal_lon, include_minor) {
        Some((t, orb)) => if orb < CLOSE_ORB {
            seq![NatalContact { transit_planet: p, natal_planet: q, aspect_type: t, orb: orb as i64 }]
        } else {
            Seq::empty()
        },
        None => Seq::empty(),
    }
}

/// The close aspects of a moving body at `lon` with the first `j` natal bodies.
pub open spec fn contacts_row(p: Planet, lon: int, natal: Seq<(Planet, ZodiacPosition)>, include_minor: bool, j: int) -> Seq<NatalContact>
    decreases j,
{
    if j <= 0 || j > natal.len() {
        Seq::empty()
    } else {
        contacts_row(p, lon, natal, include_minor, j - 1) + close_contact(
            p,
            lon,
            natal[j - 1].0,
            natal[j - 1].1.longitude as int,
            include_minor,
        )
    }
}

/// The close aspects of the first `i` moving bodies with every natal body, body by body.
pub open spec fn contacts_upto(positions: Seq<(Planet, PlanetaryPosition)>, natal: Seq<(Planet, ZodiacPosition)>, include_minor: bool, i: int) -> Seq<NatalContact>
    decreases i,
{
    if i <= 0 || i > positions.len() {
        Seq::empty()
    } else {
        contacts_upto(positions, natal, include_minor, i - 1) + contacts_row(
            positions[i - 1].0,
            positions[i - 1].1.longitude as int,
            natal,
            include_minor,
            natal.len() as int,
        )
    }
}

/// Every aspect within half a degree of exact between a moving body and a natal body: the
/// moving bodies in order, and for each the natal bodies in the chart's order.
pub fn close_aspects_to_natal(
    positions: &Vec<(Planet, PlanetaryPosition)>,
    natal: &NatalChart,
    include_minor: bool,
) -> (r: Vec<NatalContact>)
    ensures
        r@ == contacts_upto(positions@, natal.planets@, include_minor, positions@.len() as int),
{
    let mut r: Vec<NatalContact> = Vec::new();
    let mut i: usize = 0;
    while i < positions.len()
        invariant
            0 <= i <= positions@.len(),
            r@ == contacts_upto(positions@, natal.planets@, include_minor, i as int),
        decreases positions.len() - i,
    {
        let (p, pos) = positions[i];
        let ghost before = r@;
        let mut j: usize = 0;
        while j < natal.planets.len()
            invariant
                0 <= i < positions@.len(),
                0 <= j <= natal.planets@.len(),
                p == positions@[i as int].0,
                pos == positions@[i as int].1,
                r@ == before + contacts_row(p, pos.longitude as int, natal.planets@, include_minor, j as int),
            decreases natal.planets.len() - j,
        {
            let (q, z) = natal.planets[j];
            match find_aspect(pos.longitude, z.longitude, include_minor) {
                Some((t, orb)) => {
                    if orb < CLOSE_ORB {
                        r.push(NatalContact { transit_planet: p, natal_planet: q, aspect_type: t, orb });
                    }
                },
                None => {},
            }
            assert(r@ =~= before + contacts_row(p, pos.longitude as int, natal.planets@, include_minor, j + 1));
            j = j + 1;
        }
        i = i + 1;
    }
    r
}

/// Days ahead that the retrograde status looks for stations when none is given.
pub const DEFAULT_DAYS_AHEAD: i64 = 90;

/// Days after a retrograde station within which its direct station is looked for.
pub const RETROGRADE_END_SEARCH_DAYS: i32 = 120;

/// Assumed length of a retrograde period, in days, when its end was not found.
pub const ASSUMED_RETROGRADE_DAYS: i64 = 21;

/// The end of a retrograde period that starts at `start`: the direct station found, or
/// `ASSUMED_RETROGRADE_DAYS` days after the start when none was found.
pub fn retrograde_end(start: i64, direct_station: Option<i64>) -> (r: i64)
    requires
        start <= i64::MAX - ASSUMED_RETROGRADE_DAYS * TICKS_PER_DAY,
    ensures
        r == match direct_station {
            Some(t) => t as int,
            None => start + ASSUMED_RETROGRADE_DAYS * TICKS_PER_DAY,
        },
{
    match direct_station {
        Some(t) => t,
        None => start + ASSUMED_RETROGRADE_DAYS * TICKS_PER_DAY,
    }
}

/// The look-ahead of a retrograde status request in whole days: the requested number of
/// days (`DEFAULT_DAYS_AHEAD` when absent), kept within the range of an `i32`.
pub fn look_ahead_days(days_ahead: Option<i64>) -> (r: i32)
    ensures
        r == ({
            let d = match days_ahead {
                Some(d) => d as int,
                None => DEFAULT_DAYS_AHEAD as int,
            };
            if d < i32::MIN {
                i32::MIN as int
            } else if d > i32::MAX {
                i32::MAX as int
            } else {
                d
            }
        }),
{
    let d = match days_ahead {
        Some(d) => d,
        None => DEFAULT_DAYS_AHEAD,
    };
    if d < i32::MIN as i64 {
        i32::MIN
    } else if d > i32::MAX as i64 {
        i32::MAX
    } else {
        d as i32
    }
}

} // verus!
