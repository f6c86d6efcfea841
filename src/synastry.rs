//! Synastry: the aspects between the bodies of two natal charts.
use vstd::prelude::*;

use crate::aspects::find_aspect;
use crate::aspects::spec_find_aspect;
use crate::aspects::AspectType;
use crate::natal_chart::find_entry;
use crate::natal_chart::lookup;
use crate::natal_chart::NatalChart;
use crate::zodiac::all_planets;
use crate::zodiac::Planet;
use crate::zodiac::ZodiacPosition;
use crate::zodiac::UNITS_PER_DEGREE;

verus! {

/// An aspect between a body of the first chart and a body of the second.
#[derive(Debug, Clone, Copy, PartialEq, Eq, Structural)]
pub struct SynastryAspect {
    pub person1_planet: Planet,
    pub person1_position: ZodiacPosition,
    pub person1_house: Option<u8>,
    pub person2_planet: Planet,
    pub person2_position: ZodiacPosition,
    pub person2_house: Option<u8>,
    pub aspect_type: AspectType,
    /// Deviation from exact, in angle units.
    pub orb: i64,
    /// Whether the aspect is within one degree of exact.
    pub is_exact: bool,
    pub is_major: bool,
}

/// The house a chart places a body in, if it has a placement for it.
pub open spec fn house_in(chart: NatalChart, p: Planet) -> Option<u8> {
    match lookup(chart.planet_positions@, p) {
        Some(pp) => Some(pp.house),
        None => None,
    }
}

/// The aspect between body `first` of the first chart and body `second` of the second chart, when both
/// charts have a position for their body and the positions form an aspect.
pub open spec fn pair_aspect(c1: NatalChart, c2: NatalChart, include_minor: bool, first: Planet, second: Planet) -> Option<SynastryAspect> {
    match (lookup(c1.planets@, first), lookup(c2.planets@, second)) {
        (Some(z1), Some(z2)) => match spec_find_aspect(z1.longitude as int, z2.longitude as int, include_minor) {
            Some((t, orb)) => Some(
                SynastryAspect {
                    person1_planet: first,
                    person1_position: z1,
                    person1_house: house_in(c1, first),
                    person2_planet: second,
                    person2_position: z2,
                    person2_house: house_in(c2, second),
                    aspect_type: t,
                    orb: orb as i64,
                    is_exact: orb < UNITS_PER_DEGREE,
                    is_major: t.spec_is_major(),
                },
            ),
            None => None,
        },
        _ => None,
    }
}

/// A sequence of zero or one element.
pub open spec fn opt_seq(o: Option<SynastryAspect>) -> Seq<SynastryAspect> {
    match o {
        Some(a) => seq![a],
        None => Seq::empty(),
    }
}

/// The aspects of body `first` of the first chart with the first `j` bodies of the second.
pub open spec fn synastry_row(c1: NatalChart, c2: NatalChart, include_minor: bool, first: Planet, j: int) -> Seq<SynastryAspect>
    decreases j,
{
    if j <= 0 {
        Seq::empty()
    } else {
        synastry_row(c1, c2, include_minor, first, j - 1) + opt_seq(
            pair_aspect(c1, c2, include_minor, first, all_planets()[j - 1]),
        )
    }
}

/// The aspects of the first `i` bodies of the first chart with every body of the second,
/// body by body in iteration order.
pub open spec fn synastry_upto(c1: NatalChart, c2: NatalChart, include_minor: bool, i: int) -> Seq<SynastryAspect>
    decreases i,
{
    if i <= 0 {
        Seq::empty()
    } else {
        synastry_upto(c1, c2, include_minor, i - 1) + synastry_row(
            c1,
            c2,
            include_minor,
            all_planets()[i - 1],
            11,
        )
    }
}

fn planet_house(chart: &NatalChart, p: Planet) -> (r: Option<u8>)
    ensures
        r == house_in(*chart, p),
{
    match find_entry(&chart.planet_positions, p) {
        Some(pp) => Some(pp.house),
        None => None,
    }
}

/// Every aspect between a body of the first chart and a body of the second: each pair of
/// bodies, in iteration order, whose positions both charts hold and which form an aspect
/// (major only, or minor too).
pub fn synastry_aspects(chart1: &NatalChart, chart2: &NatalChart, include_minor: bool) -> (r: Vec<SynastryAspect>)
    ensures
        r@ == synastry_upto(*chart1, *chart2, include_minor, 11),
{
    let planets = Planet::all();
    let mut r: Vec<SynastryAspect> = Vec::new();
    let mut i: usize = 0;
    while i < 11
        invariant
            0 <= i <= 11,
            planets@ == all_planets(),
            r@ == synastry_upto(*chart1, *chart2, include_minor, i as int),
        decreases 11 - i,
    {
        let first = planets[i];
        let ghost before = r@;
        let mut j: usize = 0;
        while j < 11
            invariant
                0 <= i < 11,
                0 <= j <= 11,
                planets@ == all_planets(),
                first == all_planets()[i as int],
                r@ == before + synastry_row(*chart1, *chart2, include_minor, first, j as int),
            decreases 11 - j,
        {
            let second = planets[j];
            match (find_entry(&chart1.planets, first), find_entry(&chart2.planets, second)) {
                (Some(z1), Some(z2)) => {
                    match find_aspect(z1.longitude, z2.longitude, include_minor) {
                        Some((t, orb)) => {
                            r.push(
                                SynastryAspect {
                                    person1_planet: first,
                                    person1_position: *z1,
                                    person1_house: planet_house(chart1, first),
                                    person2_planet: second,
                                    person2_position: *z2,
                                    person2_house: planet_house(chart2, second),
                                    aspect_type: t,
                                    orb,
                                    is_exact: orb < UNITS_PER_DEGREE,
                                    is_major: t.is_major(),
                                },
                            );
                        },
                        None => {},
                    }
                },
                _ => {},
            }
            assert(r@ =~= before + synastry_row(*chart1, *chart2, include_minor, first, j + 1));
            j = j + 1;
        }
        i = i + 1;
    }
    r
}

/// How many entries of a list have an aspect type.
pub open spec fn count_of(s: Seq<SynastryAspect>, t: AspectType) -> nat
    decreases s.len(),
{
    if s.len() == 0 {
        0
    } else {
        count_of(s.drop_last(), t) + if s.last().aspect_type == t {
            1nat
        } else {
            0nat
        }
    }
}

/// How many aspects of each major type a synastry has.
#[derive(Debug, Clone, Copy, PartialEq, Eq, Structural)]
pub struct AspectCounts {
    pub conjunctions: u64,
    pub trines: u64,
    pub sextiles: u64,
    pub squares: u64,
    pub oppositions: u64,
}

impl AspectCounts {
    /// Counts the conjunctions, trines, sextiles, squares and oppositions of a list.
    pub fn of(aspects: &Vec<SynastryAspect>) -> (r: AspectCounts)
        ensures
            r.conjunctions == count_of(aspects@, AspectType::Conjunction),
            r.trines == count_of(aspects@, AspectType::Trine),
            r.sextiles == count_of(aspects@, AspectType::Sextile),
            r.squares == count_of(aspects@, AspectType::Square),
            r.oppositions == count_of(aspects@, AspectType::Opposition),
    {
        let mut r = AspectCounts { conjunctions: 0, trines: 0, sextiles: 0, squares: 0, oppositions: 0 };
        let mut i: usize = 0;
        while i < aspects.len()
            invariant
                0 <= i <= aspects@.len(),
                r.conjunctions == count_of(aspects@.take(i as int), AspectType::Conjunction),
                r.trines == count_of(aspects@.take(i as int), AspectType::Trine),
                r.sextiles == count_of(aspects@.take(i as int), AspectType::Sextile),
                r.squares == count_of(aspects@.take(i as int), AspectType::Square),
                r.oppositions == count_of(aspects@.take(i as int), AspectType::Opposition),
                r.conjunctions <= i && r.trines <= i && r.sextiles <= i && r.squares <= i
                    && r.oppositions <= i,
            decreases aspects.len() - i,
        {
            proof {
                assert(aspects@.take(i + 1).drop_last() =~= aspects@.take(i as int));
                assert(aspects@.take(i + 1).last() == aspects@[i as int]);
            }
            match aspects[i].aspect_type {
                AspectType::Conjunction => r.conjunctions = r.conjunctions + 1,
                AspectType::Trine => r.trines = r.trines + 1,
                AspectType::Sextile => r.sextiles = r.sextiles + 1,
                AspectType::Square => r.squares = r.squares + 1,
                AspectType::Opposition => r.oppositions = r.oppositions + 1,
                _ => {},
            }
            i = i + 1;
        }
        assert(aspects@.take(aspects@.len() as int) =~= aspects@);
        r
    }

    /// Conjunctions, trines and sextiles together.
    pub fn harmonious(&self) -> (r: u128)
        ensures
            r == self.conjunctions + self.trines + self.sextiles,
    {
        self.trines as u128 + self.sextiles as u128 + self.conjunctions as u128
    }

    /// Squares and oppositions together.
    pub fn challenging(&self) -> (r: u128)
        ensures
            r == self.squares + self.oppositions,
    {
        self.squares as u128 + self.oppositions as u128
    }
}

} // verus!
