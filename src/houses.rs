//! House cusps and the house a longitude falls in.
use vstd::prelude::*;

use crate::zodiac::sign_of;
use crate::zodiac::wrap;
use crate::zodiac::wrap_longitude;
use crate::zodiac::ZodiacPosition;

verus! {

/// House system code of Placidus (`'P'`).
pub const HOUSE_PLACIDUS: i8 = 80;

/// House system code of Koch (`'K'`).
pub const HOUSE_KOCH: i8 = 75;

/// House system code of equal houses (`'E'`).
pub const HOUSE_EQUAL: i8 = 69;

/// House system code of whole-sign houses (`'W'`).
pub const HOUSE_WHOLE_SIGN: i8 = 87;

/// The house oracle's answer for an instant and a place, in angle units.
#[derive(Debug, Clone, Copy, PartialEq, Eq)]
pub struct HousePositions {
    /// Ascendant (cusp of the 1st house).
    pub ascendant: i64,
    /// Midheaven (cusp of the 10th house).
    pub midheaven: i64,
    /// The twelve cusps; index 0 is the 1st house.
    pub cusps: [i64; 12],
    /// Sidereal time at the place.
    pub armc: i64,
    pub vertex: i64,
}

impl HousePositions {
    pub fn ascendant_position(&self) -> (r: ZodiacPosition)
        ensures
            r.wf(),
            r.longitude == wrap(self.ascendant as int),
            r.sign == sign_of(self.ascendant as int),
    {
        ZodiacPosition::from_longitude(self.ascendant)
    }

    pub fn midheaven_position(&self) -> (r: ZodiacPosition)
        ensures
            r.wf(),
            r.longitude == wrap(self.midheaven as int),
            r.sign == sign_of(self.midheaven as int),
    {
        ZodiacPosition::from_longitude(self.midheaven)
    }
}

/// Whether `lon` lies on the arc that runs forward from cusp `start` to cusp `end`,
/// `start` included and `end` excluded. An arc whose end is numerically below its start
/// runs across the 0°/360° seam.
pub open spec fn on_arc(start: int, end: int, lon: int) -> bool {
    if start <= end {
        start <= lon < end
    } else {
        lon >= start || lon < end
    }
}

/// The first house, counting from house `i + 1`, whose arc holds `lon`; house 1 if none does.
pub open spec fn house_from(cusps: Seq<i64>, lon: int, i: int) -> int
    decreases 12 - i,
{
    if i < 0 || i >= 12 {
        1
    } else if on_arc(cusps[i] as int, cusps[(i + 1) % 12] as int, lon) {
        i + 1
    } else {
        house_from(cusps, lon, i + 1)
    }
}

proof fn lemma_house_in_range(cusps: Seq<i64>, lon: int, i: int)
    ensures
        1 <= house_from(cusps, lon, i) <= 12,
    decreases 12 - i,
{
    if 0 <= i < 12 {
        lemma_house_in_range(cusps, lon, i + 1);
    }
}

/// The house (1 to 12) that holds a longitude: the first house whose arc, from its cusp to
/// the next one, contains the longitude wrapped into `[0, 360°)`. Arcs are tested by cyclic
/// containment, so cusps need not increase numerically. With cusps that cover no arc
/// holding the longitude, the answer is house 1.
pub fn planet_in_house(planet_longitude: i64, house_cusps: &[i64; 12]) -> (r: u8)
    ensures
        r == house_from(house_cusps@, wrap(planet_longitude as int), 0),
        1 <= r <= 12,
{
    let lon = wrap_longitude(planet_longitude);
    proof {
        lemma_house_in_range(house_cusps@, lon as int, 0);
    }
    let mut i: usize = 0;
    while i < 12
        invariant
            0 <= i <= 12,
            lon == wrap(planet_longitude as int),
            house_from(house_cusps@, lon as int, 0) == house_from(house_cusps@, lon as int, i as int),
        decreases 12 - i,
    {
        let cusp_start = house_cusps[i];
        let cusp_end = house_cusps[(i + 1) % 12];
        let in_house = if cusp_start <= cusp_end {
            lon >= cusp_start && lon < cusp_end
        } else {
            lon >= cusp_start || lon < cusp_end
        };
        if in_house {
            return (i + 1) as u8;
        }
        i = i + 1;
    }
    1
}

/// The name of a house system code.
pub open spec fn spec_house_system_name(code: i8) -> Seq<char> {
    if code == 80 {
        "Placidus"@
    } else if code == 75 {
        "Koch"@
    } else if code == 69 {
        "Equal"@
    } else if code == 87 {
        "Whole Sign"@
    } else if code == 82 {
        "Regiomontanus"@
    } else if code == 67 {
        "Campanus"@
    } else if code == 66 {
        "Alcabitius"@
    } else if code == 77 {
        "Morinus"@
    } else if code == 79 {
        "Porphyry"@
    } else {
        "Unknown"@
    }
}

/// The name of a house system from its one-letter code (`'P'` is Placidus); `"Unknown"` for
/// a code that names no system.
pub fn house_system_name(code: i8) -> (r: &'static str)
    ensures
        r@ == spec_house_system_name(code),
{
    match code {
        80 => "Placidus",
        75 => "Koch",
        69 => "Equal",
        87 => "Whole Sign",
        82 => "Regiomontanus",
        67 => "Campanus",
        66 => "Alcabitius",
        77 => "Morinus",
        79 => "Porphyry",
        _ => "Unknown",
    }
}

} // verus!
