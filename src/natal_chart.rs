//! Natal charts: birth data with the positions computed for it.
use vstd::prelude::*;

use crate::houses::house_from;
use crate::houses::house_system_name;
use crate::houses::planet_in_house;
use crate::houses::spec_house_system_name;
use crate::houses::HousePositions;
use crate::position::PlanetaryPosition;
use crate::zodiac::degree_sign_text;
use crate::zodiac::wrap;
use crate::zodiac::Planet;
use crate::zodiac::ZodiacPosition;

verus! {

/// Birth data from which a natal chart is computed. Latitude and longitude are in angle
/// units.
#[derive(Debug, Clone, PartialEq, Eq)]
pub struct StoreNatalChartRequest {
    pub name: String,
    /// Birth date in YYYY-MM-DD format.
    pub birth_date: String,
    /// Birth time in HH:MM:SS format.
    pub birth_time: String,
    pub birth_location: String,
    pub latitude: i64,
    pub longitude: i64,
    /// Time zone identifier, e.g. `"America/Panama"`.
    pub timezone: String,
}

/// The twelve house cusps of a chart and the house system they come from.
#[derive(Debug, Clone, PartialEq, Eq)]
pub struct HouseCusps {
    /// Index 0 is the cusp of the 1st house.
    pub cusps: Vec<ZodiacPosition>,
    pub system: String,
}

/// A body's position in a chart with the house it falls in.
#[derive(Debug, Clone, Copy, PartialEq, Eq, Structural)]
pub struct PlanetPosition {
    pub position: ZodiacPosition,
    /// The house (1 to 12).
    pub house: u8,
    pub is_retrograde: bool,
}

/// A stored natal chart. The pair (name, birth date) identifies it.
#[derive(Debug, Clone, PartialEq, Eq)]
pub struct NatalChart {
    pub name: String,
    pub birth_date: String,
    pub birth_time: String,
    pub birth_location: String,
    pub latitude: i64,
    pub longitude: i64,
    pub timezone: String,
    /// The zodiac position of each body.
    pub planets: Vec<(Planet, ZodiacPosition)>,
    /// The position, house and motion of each body.
    pub planet_positions: Vec<(Planet, PlanetPosition)>,
    pub ascendant: Option<ZodiacPosition>,
    pub midheaven: Option<ZodiacPosition>,
    pub vertex: Option<ZodiacPosition>,
    pub houses: Option<HouseCusps>,
}

/// The value a keyed list holds for a body: that of its first entry for the body.
pub open spec fn lookup<V>(s: Seq<(Planet, V)>, p: Planet) -> Option<V>
    decreases s.len(),
{
    if s.len() == 0 {
        None
    } else if s[0].0 == p {
        Some(s[0].1)
    } else {
        lookup(s.drop_first(), p)
    }
}

/// The value of the last entry for a body in a list of entries.
pub open spec fn lookup_last<V>(s: Seq<(Planet, V)>, p: Planet) -> Option<V>
    decreases s.len(),
{
    if s.len() == 0 {
        None
    } else if s.last().0 == p {
        Some(s.last().1)
    } else {
        lookup_last(s.drop_last(), p)
    }
}

proof fn lemma_lookup_skip<V>(s: Seq<(Planet, V)>, p: Planet, i: int)
    requires
        0 <= i < s.len(),
        s[i].0 != p,
    ensures
        lookup(s.subrange(i, s.len() as int), p) == lookup(s.subrange(i + 1, s.len() as int), p),
{
    assert(s.subrange(i, s.len() as int).drop_first() =~= s.subrange(i + 1, s.len() as int));
}

proof fn lemma_lookup_update<V>(s: Seq<(Planet, V)>, p: Planet, i: int, v: V, q: Planet)
    requires
        0 <= i < s.len(),
        s[i].0 == p,
        forall|j: int| 0 <= j < i ==> s[j].0 != p,
    ensures
        lookup(s.update(i, (p, v)), q) == (if q == p {
            Some(v)
        } else {
            lookup(s, q)
        }),
    decreases s.len(),
{
    let u = s.update(i, (p, v));
    if i > 0 {
        assert(u[0] == s[0]);
        assert(u.drop_first() =~= s.drop_first().update(i - 1, (p, v)));
        lemma_lookup_update(s.drop_first(), p, i - 1, v, q);
    } else {
        assert(u[0] == (p, v));
        assert(u.drop_first() =~= s.drop_first());
    }
}

proof fn lemma_lookup_push<V>(s: Seq<(Planet, V)>, p: Planet, v: V, q: Planet)
    requires
        forall|j: int| 0 <= j < s.len() ==> s[j].0 != p,
    ensures
        lookup(s.push((p, v)), q) == (if q == p {
            Some(v)
        } else {
            lookup(s, q)
        }),
    decreases s.len(),
{
    let u = s.push((p, v));
    if s.len() > 0 {
        assert(u[0] == s[0]);
        assert(u.drop_first() =~= s.drop_first().push((p, v)));
        lemma_lookup_push(s.drop_first(), p, v, q);
    } else {
        assert(u[0] == (p, v));
        assert(u.drop_first() =~= Seq::<(Planet, V)>::empty());
        assert(lookup(u.drop_first(), q).is_none());
    }
}

/// The value a keyed list holds for a body, if any.
pub fn find_entry<V>(s: &Vec<(Planet, V)>, p: Planet) -> (r: Option<&V>)
    ensures
        match r {
            Some(v) => lookup(s@, p) == Some(*v),
            None => lookup(s@, p).is_none(),
        },
{
    let mut i: usize = 0;
    assert(s@.subrange(0, s.len() as int) =~= s@);
    while i < s.len()
        invariant
            0 <= i <= s.len(),
            lookup(s@, p) == lookup(s@.subrange(i as int, s.len() as int), p),
        decreases s.len() - i,
    {
        if s[i].0 == p {
            assert(s@.subrange(i as int, s.len() as int)[0] == s@[i as int]);
            return Some(&s[i].1);
        }
        proof {
            lemma_lookup_skip(s@, p, i as int);
        }
        i = i + 1;
    }
    assert(s@.subrange(i as int, s.len() as int).len() == 0);
    None
}

/// Sets the value of a body in a keyed list, replacing its first entry or adding one.
pub fn set_entry<V>(s: &mut Vec<(Planet, V)>, p: Planet, v: V)
    ensures
        forall|q: Planet| lookup(final(s)@, q) == (if q == p {
            Some(v)
        } else {
            lookup(old(s)@, q)
        }),
{
    let mut i: usize = 0;
    while i < s.len()
        invariant
            0 <= i <= s.len(),
            s@ == old(s)@,
            forall|j: int| 0 <= j < i ==> s@[j].0 != p,
        decreases s.len() - i,
    {
        if s[i].0 == p {
            proof {
                assert forall|q: Planet| lookup(s@.update(i as int, (p, v)), q) == (if q == p {
                    Some(v)
                } else {
                    lookup(s@, q)
                }) by {
                    lemma_lookup_update(s@, p, i as int, v, q);
                }
            }
            s.set(i, (p, v));
            return;
        }
        i = i + 1;
    }
    proof {
        assert forall|q: Planet| lookup(s@.push((p, v)), q) == (if q == p {
            Some(v)
        } else {
            lookup(s@, q)
        }) by {
            lemma_lookup_push(s@, p, v, q);
        }
    }
    s.push((p, v));
}

impl NatalChart {
    /// A chart with the request's birth data and nothing computed yet.
    pub fn new(request: &StoreNatalChartRequest) -> (r: NatalChart)
        ensures
            r.name == request.name,
            r.birth_date == request.birth_date,
            r.birth_time == request.birth_time,
            r.birth_location == request.birth_location,
            r.latitude == request.latitude,
            r.longitude == request.longitude,
            r.timezone == request.timezone,
            r.planets@.len() == 0,
            r.planet_positions@.len() == 0,
            r.ascendant.is_none(),
            r.midheaven.is_none(),
            r.vertex.is_none(),
            r.houses.is_none(),
    {
        NatalChart {
            name: request.name.clone(),
            birth_date: request.birth_date.clone(),
            birth_time: request.birth_time.clone(),
            birth_location: request.birth_location.clone(),
            latitude: request.latitude,
            longitude: request.longitude,
            timezone: request.timezone.clone(),
            planets: Vec::new(),
            planet_positions: Vec::new(),
            ascendant: None,
            midheaven: None,
            vertex: None,
            houses: None,
        }
    }

    /// The zodiac position of a body.
    pub fn get_planet_position(&self, planet: &Planet) -> (r: Option<&ZodiacPosition>)
        ensures
            match r {
                Some(z) => lookup(self.planets@, *planet) == Some(*z),
                None => lookup(self.planets@, *planet).is_none(),
            },
    {
        find_entry(&self.planets, *planet)
    }

    /// The house (1 to 12) of a body.
    pub fn get_planet_house(&self, planet: &Planet) -> (r: Option<u8>)
        ensures
            match lookup(self.planet_positions@, *planet) {
                Some(pp) => r == Some(pp.house),
                None => r.is_none(),
            },
    {
        match find_entry(&self.planet_positions, *planet) {
            Some(pp) => Some(pp.house),
            None => None,
        }
    }

    /// The cusp of house `house_num` (1 to 12); `None` outside that range or when the chart
    /// has no such cusp.
    pub fn get_house_cusp(&self, house_num: u8) -> (r: Option<&ZodiacPosition>)
        ensures
            match r {
                Some(z) => {
                    &&& 1 <= house_num <= 12
                    &&& self.houses.is_some()
                    &&& house_num - 1 < self.houses.unwrap().cusps@.len()
                    &&& *z == self.houses.unwrap().cusps@[house_num - 1]
                },
                None => !(1 <= house_num <= 12) || self.houses.is_none() || house_num - 1
                    >= self.houses.unwrap().cusps@.len(),
            },
    {
        if house_num < 1 || house_num > 12 {
            return None;
        }
        match &self.houses {
            Some(h) => {
                let i = (house_num - 1) as usize;
                if i < h.cusps.len() {
                    Some(&h.cusps[i])
                } else {
                    None
                }
            },
            None => None,
        }
    }

    /// Computes a chart from its birth data, the house oracle's answer for the birth instant
    /// and place, and the position oracle's answer for each body. The cusps, ascendant,
    /// midheaven and vertex become zodiac positions; each body gets its zodiac position and
    /// the house its longitude falls in. When a body appears twice, its last entry counts.
    pub fn calculate(
        request: &StoreNatalChartRequest,
        house_data: &HousePositions,
        house_system: i8,
        positions: &Vec<(Planet, PlanetaryPosition)>,
    ) -> (r: NatalChart)
        ensures
            r.name == request.name,
            r.birth_date == request.birth_date,
            r.birth_time == request.birth_time,
            r.birth_location == request.birth_location,
            r.latitude == request.latitude,
            r.longitude == request.longitude,
            r.timezone == request.timezone,
            r.houses.is_some(),
            r.houses.unwrap().system@ == spec_house_system_name(house_system),
            r.houses.unwrap().cusps@.len() == 12,
            forall|i: int| 0 <= i < 12 ==> (#[trigger] r.houses.unwrap().cusps@[i]).wf() && r.houses.unwrap().cusps@[i].longitude
                == wrap(house_data.cusps@[i] as int),
            r.ascendant == Some(ZodiacPosition::spec_from_longitude(house_data.ascendant as int)),
            r.midheaven == Some(ZodiacPosition::spec_from_longitude(house_data.midheaven as int)),
            r.vertex == Some(ZodiacPosition::spec_from_longitude(house_data.vertex as int)),
            forall|p: Planet| #[trigger] lookup(r.planets@, p) == match lookup_last(positions@, p) {
                Some(pos) => Some(ZodiacPosition::spec_from_longitude(pos.longitude as int)),
                None => None,
            },
            forall|p: Planet| #[trigger] lookup(r.planet_positions@, p) == match lookup_last(
                positions@,
                p,
            ) {
                Some(pos) => Some(
                    PlanetPosition {
                        position: ZodiacPosition::spec_from_longitude(pos.longitude as int),
                        house: house_from(house_data.cusps@, wrap(pos.longitude as int), 0) as u8,
                        is_retrograde: pos.is_retrograde,
                    },
                ),
                None => None,
            },
    {
        let mut chart = NatalChart::new(request);
        let mut cusps: Vec<ZodiacPosition> = Vec::new();
        let mut k: usize = 0;
        while k < 12
            invariant
                0 <= k <= 12,
                cusps@.len() == k,
                forall|i: int| 0 <= i < k ==> (#[trigger] cusps@[i]).wf() && cusps@[i].longitude
                    == wrap(house_data.cusps@[i] as int),
            decreases 12 - k,
        {
            cusps.push(ZodiacPosition::from_longitude(house_data.cusps[k]));
            k = k + 1;
        }
        chart.houses = Some(
            HouseCusps { cusps, system: String::from_str(house_system_name(house_system)) },
        );
        chart.ascendant = Some(ZodiacPosition::from_longitude(house_data.ascendant));
        chart.midheaven = Some(ZodiacPosition::from_longitude(house_data.midheaven));
        chart.vertex = Some(ZodiacPosition::from_longitude(house_data.vertex));
        let mut i: usize = 0;
        while i < positions.len()
            invariant
                0 <= i <= positions.len(),
                chart.name == request.name,
                chart.birth_date == request.birth_date,
                chart.birth_time == request.birth_time,
                chart.birth_location == request.birth_location,
                chart.latitude == request.latitude,
                chart.longitude == request.longitude,
                chart.timezone == request.timezone,
                chart.houses.is_some(),
                chart.houses.unwrap().system@ == spec_house_system_name(house_system),
                chart.houses.unwrap().cusps@.len() == 12,
                forall|j: int| 0 <= j < 12 ==> (#[trigger] chart.houses.unwrap().cusps@[j]).wf()
                    && chart.houses.unwrap().cusps@[j].longitude == wrap(house_data.cusps@[j] as int),
                chart.ascendant == Some(ZodiacPosition::spec_from_longitude(house_data.ascendant as int)),
                chart.midheaven == Some(ZodiacPosition::spec_from_longitude(house_data.midheaven as int)),
                chart.vertex == Some(ZodiacPosition::spec_from_longitude(house_data.vertex as int)),
                forall|p: Planet| #[trigger] lookup(chart.planets@, p) == match lookup_last(
                    positions@.take(i as int),
                    p,
                ) {
                    Some(pos) => Some(ZodiacPosition::spec_from_longitude(pos.longitude as int)),
                    None => None,
                },
                forall|p: Planet| #[trigger] lookup(chart.planet_positions@, p) == match lookup_last(
                    positions@.take(i as int),
                    p,
                ) {
                    Some(pos) => Some(
                        PlanetPosition {
                            position: ZodiacPosition::spec_from_longitude(pos.longitude as int),
                            house: house_from(house_data.cusps@, wrap(pos.longitude as int), 0) as u8,
                            is_retrograde: pos.is_retrograde,
                        },
                    ),
                    None => None,
                },
            decreases positions.len() - i,
        {
            let (planet, position) = positions[i];
            let zodiac_pos = position.to_zodiac_position();
            let house = planet_in_house(position.longitude, &house_data.cusps);
            set_entry(&mut chart.planets, planet, zodiac_pos);
            set_entry(
                &mut chart.planet_positions,
                planet,
                PlanetPosition { position: zodiac_pos, house, is_retrograde: position.is_retrograde },
            );
            assert(positions@.take(i + 1).drop_last() =~= positions@.take(i as int));
            i = i + 1;
        }
        assert(positions@.take(positions.len() as int) =~= positions@);
        chart
    }
}

/// The answer to storing a natal chart.
#[derive(Debug, Clone, PartialEq, Eq)]
pub struct StoreNatalChartResponse {
    pub success: bool,
    pub message: String,
    pub natal_chart: NatalChartSummary,
}

/// A body's place in a chart, for display.
#[derive(Debug, Clone, PartialEq, Eq)]
pub struct PlanetSummary {
    /// Position as `"<d>° <Sign>"`.
    pub position: String,
    /// House number (1 to 12).
    pub house: Option<u8>,
    pub retrograde: bool,
}

/// A house cusp, for display.
#[derive(Debug, Clone, PartialEq, Eq)]
pub struct HouseSummary {
    /// House number (1 to 12).
    pub house: u8,
    /// Cusp position as `"<d>° <Sign>"`.
    pub cusp: String,
}

/// A natal chart's positions, for display.
#[derive(Debug, Clone, PartialEq, Eq)]
pub struct NatalChartSummary {
    pub sun: PlanetSummary,
    pub moon: PlanetSummary,
    pub mercury: PlanetSummary,
    pub venus: PlanetSummary,
    pub mars: PlanetSummary,
    pub jupiter: PlanetSummary,
    pub saturn: PlanetSummary,
    pub uranus: PlanetSummary,
    pub neptune: PlanetSummary,
    pub pluto: PlanetSummary,
    pub north_node: PlanetSummary,
    pub ascendant: String,
    pub midheaven: String,
    pub houses: Vec<HouseSummary>,
}

/// The display text of an optional position: `"<d>° <Sign>"`, or `"Unknown"`.
pub open spec fn position_text(z: Option<ZodiacPosition>) -> Seq<char> {
    match z {
        Some(p) => degree_sign_text(p),
        None => "Unknown"@,
    }
}

/// Whether a summary shows a body as the chart holds it: its position text, its house, and
/// whether it is retrograde (not, when the chart has no house placement for it).
pub open spec fn summarizes(s: PlanetSummary, chart: NatalChart, p: Planet) -> bool {
    &&& s.position@ == position_text(lookup(chart.planets@, p))
    &&& match lookup(chart.planet_positions@, p) {
        Some(pp) => s.house == Some(pp.house) && s.retrograde == pp.is_retrograde,
        None => s.house.is_none() && !s.retrograde,
    }
}

fn optional_position_text(z: Option<&ZodiacPosition>) -> (r: String)
    ensures
        r@ == position_text(
            match z {
                Some(p) => Some(*p),
                None => None,
            },
        ),
{
    match z {
        Some(p) => p.format_degree_sign(),
        None => String::from_str("Unknown"),
    }
}

fn summarize_planet(chart: &NatalChart, planet: Planet) -> (r: PlanetSummary)
    ensures
        summarizes(r, *chart, planet),
{
    let position = optional_position_text(find_entry(&chart.planets, planet));
    match find_entry(&chart.planet_positions, planet) {
        Some(pp) => PlanetSummary { position, house: Some(pp.house), retrograde: pp.is_retrograde },
        None => PlanetSummary { position, house: None, retrograde: false },
    }
}

impl NatalChartSummary {
    /// The display summary of a chart: each body's position, house and motion, the ascendant
    /// and midheaven, and every house cusp numbered from 1.
    pub fn from_chart(chart: &NatalChart) -> (r: NatalChartSummary)
        ensures
            summarizes(r.sun, *chart, Planet::Sun),
            summarizes(r.moon, *chart, Planet::Moon),
            summarizes(r.mercury, *chart, Planet::Mercury),
            summarizes(r.venus, *chart, Planet::Venus),
            summarizes(r.mars, *chart, Planet::Mars),
            summarizes(r.jupiter, *chart, Planet::Jupiter),
            summarizes(r.saturn, *chart, Planet::Saturn),
            summarizes(r.uranus, *chart, Planet::Uranus),
            summarizes(r.neptune, *chart, Planet::Neptune),
            summarizes(r.pluto, *chart, Planet::Pluto),
            summarizes(r.north_node, *chart, Planet::NorthNode),
            r.ascendant@ == position_text(chart.ascendant),
            r.midheaven@ == position_text(chart.midheaven),
            r.houses@.len() == match chart.houses {
                Some(h) => h.cusps@.len(),
                None => 0,
            },
            forall|i: int| 0 <= i < r.houses@.len() ==> {
                &&& (#[trigger] r.houses@[i]).house == (i + 1) as u8
                &&& r.houses@[i].cusp@ == degree_sign_text(chart.houses.unwrap().cusps@[i])
            },
    {
        let mut houses: Vec<HouseSummary> = Vec::new();
        match &chart.houses {
            Some(h) => {
                let mut i: usize = 0;
                while i < h.cusps.len()
                    invariant
                        0 <= i <= h.cusps@.len(),
                        chart.houses == Some(*h),
                        houses@.len() == i,
                        forall|j: int| 0 <= j < i ==> {
                            &&& (#[trigger] houses@[j]).house == (j + 1) as u8
                            &&& houses@[j].cusp@ == degree_sign_text(h.cusps@[j])
                        },
                    decreases h.cusps.len() - i,
                {
                    let cusp = h.cusps[i].format_degree_sign();
                    houses.push(HouseSummary { house: (i as u64 + 1) as u8, cusp });
                    i = i + 1;
                }
            },
            None => {},
        }
        let ascendant = match &chart.ascendant {
            Some(p) => p.format_degree_sign(),
            None => String::from_str("Unknown"),
        };
        let midheaven = match &chart.midheaven {
            Some(p) => p.format_degree_sign(),
            None => String::from_str("Unknown"),
        };
        NatalChartSummary {
            sun: summarize_planet(chart, Planet::Sun),
            moon: summarize_planet(chart, Planet::Moon),
            mercury: summarize_planet(chart, Planet::Mercury),
            venus: summarize_planet(chart, Planet::Venus),
            mars: summarize_planet(chart, Planet::Mars),
            jupiter: summarize_planet(chart, Planet::Jupiter),
            saturn: summarize_planet(chart, Planet::Saturn),
            uranus: summarize_planet(chart, Planet::Uranus),
            neptune: summarize_planet(chart, Planet::Neptune),
            pluto: summarize_planet(chart, Planet::Pluto),
            north_node: summarize_planet(chart, Planet::NorthNode),
            ascendant,
            midheaven,
            houses,
        }
    }
}

} // verus!
