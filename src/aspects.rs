//! Aspects: the notable angles between two ecliptic longitudes.
use vstd::prelude::*;

use crate::zodiac::angular_distance;
use crate::zodiac::shortest_arc;
use crate::zodiac::wrap;
use crate::zodiac::wrap_longitude;
use crate::zodiac::UNITS_PER_DEGREE;

verus! {

/// Types of aspect.
#[derive(Debug, Clone, Copy, PartialEq, Eq, Structural)]
pub enum AspectType {
    Conjunction,
    Sextile,
    Square,
    Trine,
    Opposition,
    SemiSextile,
    Quincunx,
    SemiSquare,
    Sesquiquadrate,
}

/// The five major aspects, in the order they are tried.
pub open spec fn major_aspect_list() -> Seq<AspectType> {
    seq![
        AspectType::Conjunction,
        AspectType::Sextile,
        AspectType::Square,
        AspectType::Trine,
        AspectType::Opposition,
    ]
}

/// Every aspect, major and minor, in the order they are tried.
pub open spec fn all_aspect_list() -> Seq<AspectType> {
    seq![
        AspectType::Conjunction,
        AspectType::SemiSextile,
        AspectType::SemiSquare,
        AspectType::Sextile,
        AspectType::Square,
        AspectType::Trine,
        AspectType::Sesquiquadrate,
        AspectType::Quincunx,
        AspectType::Opposition,
    ]
}

impl AspectType {
    /// The exact angle of the aspect, in whole degrees.
    pub open spec fn spec_degrees(self) -> int {
        match self {
            AspectType::Conjunction => 0,
            AspectType::SemiSextile => 30,
            AspectType::SemiSquare => 45,
            AspectType::Sextile => 60,
            AspectType::Square => 90,
            AspectType::Trine => 120,
            AspectType::Sesquiquadrate => 135,
            AspectType::Quincunx => 150,
            AspectType::Opposition => 180,
        }
    }

    /// The default orb (allowed deviation from exact), in whole degrees.
    pub open spec fn spec_orb_degrees(self) -> int {
        match self {
            AspectType::Conjunction => 8,
            AspectType::Opposition => 8,
            AspectType::Trine => 8,
            AspectType::Square => 7,
            AspectType::Sextile => 6,
            AspectType::SemiSextile => 2,
            AspectType::Quincunx => 3,
            AspectType::SemiSquare => 2,
            AspectType::Sesquiquadrate => 2,
        }
    }

    pub open spec fn spec_is_major(self) -> bool {
        major_aspect_list().contains(self)
    }

    pub open spec fn spec_name(self) -> Seq<char> {
        match self {
            AspectType::Conjunction => "conjunction"@,
            AspectType::SemiSextile => "semi-sextile"@,
            AspectType::SemiSquare => "semi-square"@,
            AspectType::Sextile => "sextile"@,
            AspectType::Square => "square"@,
            AspectType::Trine => "trine"@,
            AspectType::Sesquiquadrate => "sesquiquadrate"@,
            AspectType::Quincunx => "quincunx"@,
            AspectType::Opposition => "opposition"@,
        }
    }

    /// The exact angle of the aspect, in angle units.
    pub fn angle(&self) -> (r: i64)
        ensures
            r == self.spec_degrees() * UNITS_PER_DEGREE,
    {
        let degrees: i64 = match self {
            AspectType::Conjunction => 0,
            AspectType::SemiSextile => 30,
            AspectType::SemiSquare => 45,
            AspectType::Sextile => 60,
            AspectType::Square => 90,
            AspectType::Trine => 120,
            AspectType::Sesquiquadrate => 135,
            AspectType::Quincunx => 150,
            AspectType::Opposition => 180,
        };
        degrees * UNITS_PER_DEGREE
    }

    /// The default orb of the aspect, in angle units.
    pub fn default_orb(&self) -> (r: i64)
        ensures
            r == self.spec_orb_degrees() * UNITS_PER_DEGREE,
    {
        let degrees: i64 = match self {
            AspectType::Conjunction => 8,
            AspectType::Opposition => 8,
            AspectType::Trine => 8,
            AspectType::Square => 7,
            AspectType::Sextile => 6,
            AspectType::SemiSextile => 2,
            AspectType::Quincunx => 3,
            AspectType::SemiSquare => 2,
            AspectType::Sesquiquadrate => 2,
        };
        degrees * UNITS_PER_DEGREE
    }

    /// Whether this is one of the five major aspects.
    pub fn is_major(&self) -> (r: bool)
        ensures
            r == self.spec_is_major(),
    {
        proof {
            assert(major_aspect_list()[0] == AspectType::Conjunction);
            assert(major_aspect_list()[1] == AspectType::Sextile);
            assert(major_aspect_list()[2] == AspectType::Square);
            assert(major_aspect_list()[3] == AspectType::Trine);
            assert(major_aspect_list()[4] == AspectType::Opposition);
        }
        matches!(
            self,
            AspectType::Conjunction | AspectType::Sextile | AspectType::Square | AspectType::Trine
                | AspectType::Opposition
        )
    }

    /// The major aspects.
    pub fn major_aspects() -> (r: Vec<AspectType>)
        ensures
            r@ == major_aspect_list(),
    {
        let r = vec![
            AspectType::Conjunction,
            AspectType::Sextile,
            AspectType::Square,
            AspectType::Trine,
            AspectType::Opposition,
        ];
        assert(r@ =~= major_aspect_list());
        r
    }

    /// Every aspect, major and minor.
    pub fn all_aspects() -> (r: Vec<AspectType>)
        ensures
            r@ == all_aspect_list(),
    {
        let r = vec![
            AspectType::Conjunction,
            AspectType::SemiSextile,
            AspectType::SemiSquare,
            AspectType::Sextile,
            AspectType::Square,
            AspectType::Trine,
            AspectType::Sesquiquadrate,
            AspectType::Quincunx,
            AspectType::Opposition,
        ];
        assert(r@ =~= all_aspect_list());
        r
    }

    /// The lower-case name of the aspect, e.g. `"semi-sextile"`.
    pub fn name(&self) -> (r: &'static str)
        ensures
            r@ == self.spec_name(),
    {
        match self {
            AspectType::Conjunction => "conjunction",
            AspectType::SemiSextile => "semi-sextile",
            AspectType::SemiSquare => "semi-square",
            AspectType::Sextile => "sextile",
            AspectType::Square => "square",
            AspectType::Trine => "trine",
            AspectType::Sesquiquadrate => "sesquiquadrate",
            AspectType::Quincunx => "quincunx",
            AspectType::Opposition => "opposition",
        }
    }
}

/// How far an arc is from an aspect's exact angle.
pub open spec fn deviation(distance: int, a: AspectType) -> int {
    let d = distance - a.spec_degrees() * UNITS_PER_DEGREE;
    if d >= 0 { d } else { -d }
}

/// Whether an arc lies within an aspect's default orb.
pub open spec fn within_orb(distance: int, a: AspectType) -> bool {
    deviation(distance, a) <= a.spec_orb_degrees() * UNITS_PER_DEGREE
}

/// The first aspect of `list` from position `i` on whose orb holds the arc, with the
/// deviation from exact.
pub open spec fn first_aspect(list: Seq<AspectType>, distance: int, i: int) -> Option<(AspectType, int)>
    decreases list.len() - i,
{
    if i < 0 || i >= list.len() {
        None
    } else if within_orb(distance, list[i]) {
        Some((list[i], deviation(distance, list[i])))
    } else {
        first_aspect(list, distance, i + 1)
    }
}

/// The aspect two longitudes form: the first aspect of the list (major only, or all) whose
/// orb holds their shortest arc, with how far the arc is from exact.
pub open spec fn spec_find_aspect(l1: int, l2: int, include_minor: bool) -> Option<(AspectType, int)> {
    first_aspect(
        if include_minor { all_aspect_list() } else { major_aspect_list() },
        angular_distance(wrap(l1), wrap(l2)),
        0,
    )
}

/// The aspect that two longitudes form, if any, with its orb (the deviation from exact, in
/// angle units). Aspects are tried in order and the first whose default orb holds the
/// shortest arc between the longitudes is taken.
pub fn find_aspect(longitude1: i64, longitude2: i64, include_minor: bool) -> (r: Option<(AspectType, i64)>)
    ensures
        match r {
            Some((a, orb)) => spec_find_aspect(longitude1 as int, longitude2 as int, include_minor)
                == Some((a, orb as int)) && 0 <= orb <= a.spec_orb_degrees() * UNITS_PER_DEGREE,
            None => spec_find_aspect(longitude1 as int, longitude2 as int, include_minor).is_none(),
        },
{
    let aspects = if include_minor {
        AspectType::all_aspects()
    } else {
        AspectType::major_aspects()
    };
    let distance = shortest_arc(wrap_longitude(longitude1), wrap_longitude(longitude2));
    let ghost list = aspects@;
    let mut i: usize = 0;
    while i < aspects.len()
        invariant
            0 <= i <= aspects.len(),
            list == aspects@,
            list == (if include_minor { all_aspect_list() } else { major_aspect_list() }),
            0 <= distance <= 180 * UNITS_PER_DEGREE,
            distance == angular_distance(wrap(longitude1 as int), wrap(longitude2 as int)),
            first_aspect(list, distance as int, 0) == first_aspect(list, distance as int, i as int),
        decreases aspects.len() - i,
    {
        let aspect = aspects[i];
        let target = aspect.angle();
        let diff = distance - target;
        let orb = if diff >= 0 { diff } else { -diff };
        if orb <= aspect.default_orb() {
            return Some((aspect, orb));
        }
        i = i + 1;
    }
    None
}

/// An aspect that a moving body forms with a body of a natal chart.
#[derive(Debug, Clone, PartialEq, Eq)]
pub struct Aspect {
    pub natal_planet: String,
    pub aspect_type: AspectType,
    /// Deviation from exact, in angle units.
    pub orb: i64,
    /// Whether the aspect is within one degree of exact.
    pub is_exact: bool,
}

impl Aspect {
    pub fn new(natal_planet: String, aspect_type: AspectType, orb: i64) -> (r: Aspect)
        ensures
            r.natal_planet == natal_planet,
            r.aspect_type == aspect_type,
            r.orb == orb,
            r.is_exact == (orb < UNITS_PER_DEGREE),
    {
        Aspect { natal_planet, aspect_type, is_exact: orb < UNITS_PER_DEGREE, orb }
    }
}

} // verus!
