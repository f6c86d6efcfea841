//! Samples of the position oracle, in the library's fixed-point units.
use vstd::prelude::*;

use crate::zodiac::Planet;
use crate::zodiac::ZodiacPosition;
use crate::zodiac::sign_of;
use crate::zodiac::wrap;

verus! {

/// Where a body stands at an instant, as the position oracle reports it. Angles and angular
/// speeds are in angle units (per day); distance and its speed are in millionths of the
/// oracle's distance unit (per day).
#[derive(Debug, Clone, Copy, PartialEq, Eq, Structural)]
pub struct PlanetaryPosition {
    /// Ecliptic longitude.
    pub longitude: i64,
    /// Ecliptic latitude.
    pub latitude: i64,
    pub distance: i64,
    /// Speed in longitude; negative means apparent backward motion.
    pub speed_longitude: i64,
    pub speed_latitude: i64,
    pub speed_distance: i64,
    /// Whether the body is retrograde.
    pub is_retrograde: bool,
}

impl PlanetaryPosition {
    /// The position of `planet` from the oracle's six values. The body is retrograde when it
    /// can be and its speed in longitude is negative.
    pub fn new(
        planet: Planet,
        longitude: i64,
        latitude: i64,
        distance: i64,
        speed_longitude: i64,
        speed_latitude: i64,
        speed_distance: i64,
    ) -> (r: PlanetaryPosition)
        ensures
            r.longitude == longitude,
            r.latitude == latitude,
            r.distance == distance,
            r.speed_longitude == speed_longitude,
            r.speed_latitude == speed_latitude,
            r.speed_distance == speed_distance,
            r.is_retrograde == (planet.spec_can_retrograde() && speed_longitude < 0),
    {
        let is_retrograde = planet.can_retrograde() && speed_longitude < 0;
        PlanetaryPosition {
            longitude,
            latitude,
            distance,
            speed_longitude,
            speed_latitude,
            speed_distance,
            is_retrograde,
        }
    }

    /// The zodiac position of the longitude.
    pub fn to_zodiac_position(&self) -> (r: ZodiacPosition)
        ensures
            r == ZodiacPosition::spec_from_longitude(self.longitude as int),
            r.wf(),
            r.longitude == wrap(self.longitude as int),
            r.sign == sign_of(self.longitude as int),
    {
        ZodiacPosition::from_longitude(self.longitude)
    }
}

} // verus!
