//! Lunar phases.
use vstd::prelude::*;

use crate::events::START_BOUND;
use crate::search::TICKS_PER_DAY;
use crate::zodiac::wrap;
use crate::zodiac::wrap_longitude;
use crate::zodiac::FULL_CIRCLE;

verus! {

/// A request for the lunar information of a date.
#[derive(Debug, Clone, PartialEq, Eq)]
pub struct GetLunarInfoRequest {
    /// Date in YYYY-MM-DD format.
    pub date: String,
}

/// The eight named lunar phases.
#[derive(Debug, Clone, Copy, PartialEq, Eq, Structural)]
pub enum LunarPhaseName {
    NewMoon,
    WaxingCrescent,
    FirstQuarter,
    WaxingGibbous,
    FullMoon,
    WaningGibbous,
    LastQuarter,
    WaningCrescent,
}

/// The phase named for a normalized phase angle: eight 45° sectors centred on 0°, 45°, ...,
/// 315°, so the new moon spans the seam from 337.5° to 22.5°.
pub open spec fn phase_for(a: int) -> LunarPhaseName {
    if a < 22_500_000 {
        LunarPhaseName::NewMoon
    } else if a < 67_500_000 {
        LunarPhaseName::WaxingCrescent
    } else if a < 112_500_000 {
        LunarPhaseName::FirstQuarter
    } else if a < 157_500_000 {
        LunarPhaseName::WaxingGibbous
    } else if a < 202_500_000 {
        LunarPhaseName::FullMoon
    } else if a < 247_500_000 {
        LunarPhaseName::WaningGibbous
    } else if a < 292_500_000 {
        LunarPhaseName::LastQuarter
    } else if a < 337_500_000 {
        LunarPhaseName::WaningCrescent
    } else {
        LunarPhaseName::NewMoon
    }
}

impl LunarPhaseName {
    /// The phase for a Sun–Moon angle (any value, wrapped into `[0, 360°)`).
    pub fn from_phase_angle(angle: i64) -> (r: LunarPhaseName)
        ensures
            r == phase_for(wrap(angle as int)),
    {
        let a = wrap_longitude(angle);
        if a < 22_500_000 {
            LunarPhaseName::NewMoon
        } else if a < 67_500_000 {
            LunarPhaseName::WaxingCrescent
        } else if a < 112_500_000 {
            LunarPhaseName::FirstQuarter
        } else if a < 157_500_000 {
            LunarPhaseName::WaxingGibbous
        } else if a < 202_500_000 {
            LunarPhaseName::FullMoon
        } else if a < 247_500_000 {
            LunarPhaseName::WaningGibbous
        } else if a < 292_500_000 {
            LunarPhaseName::LastQuarter
        } else if a < 337_500_000 {
            LunarPhaseName::WaningCrescent
        } else {
            LunarPhaseName::NewMoon
        }
    }
}

/// Progress through the lunar cycle in percent, `angle / 360° * 100` rounded to the nearest
/// whole number (halves up).
pub open spec fn spec_phase_percent(angle: int) -> int {
    (wrap(angle) * 100 + FULL_CIRCLE / 2) / (FULL_CIRCLE as int)
}

/// Progress through the lunar cycle in percent (0 to 100) for a Sun–Moon angle.
pub fn phase_percent(angle: i64) -> (r: u8)
    ensures
        r == spec_phase_percent(angle as int),
        r <= 100,
{
    let a = wrap_longitude(angle);
    ((a * 100 + FULL_CIRCLE / 2) / FULL_CIRCLE) as u8
}

/// Void-of-course status of the Moon.
#[derive(Debug, Clone, PartialEq, Eq)]
pub struct VoidOfCourse {
    pub is_void: bool,
    pub last_aspect_time: Option<String>,
    pub next_aspect_time: Option<String>,
    pub enters_void_at: Option<String>,
    pub exits_void_at: Option<String>,
}

/// The dates of the lunar cycle around a date.
#[derive(Debug, Clone, PartialEq, Eq)]
pub struct LunarCycle {
    pub new_moon: String,
    pub full_moon: String,
    pub next_new_moon: String,
    pub next_full_moon: String,
}

/// The four instants of the lunar cycle around `day`: previous new moon, previous full moon,
/// next new moon, next full moon. Each one not found is assumed to lie 14, 7, 29.5 and 14
/// days from `day` respectively.
pub fn cycle_instants(
    day: i64,
    previous_new: Option<i64>,
    previous_full: Option<i64>,
    next_new: Option<i64>,
    next_full: Option<i64>,
) -> (r: (i64, i64, i64, i64))
    requires
        -START_BOUND <= day <= START_BOUND,
    ensures
        r.0 == match previous_new {
            Some(t) => t as int,
            None => day - 14 * TICKS_PER_DAY,
        },
        r.1 == match previous_full {
            Some(t) => t as int,
            None => day - 7 * TICKS_PER_DAY,
        },
        r.2 == match next_new {
            Some(t) => t as int,
            None => day + 29 * TICKS_PER_DAY + TICKS_PER_DAY / 2,
        },
        r.3 == match next_full {
            Some(t) => t as int,
            None => day + 14 * TICKS_PER_DAY,
        },
{
    (
        match previous_new {
            Some(t) => t,
            None => day - 14 * TICKS_PER_DAY,
        },
        match previous_full {
            Some(t) => t,
            None => day - 7 * TICKS_PER_DAY,
        },
        match next_new {
            Some(t) => t,
            None => day + 29 * TICKS_PER_DAY + TICKS_PER_DAY / 2,
        },
        match next_full {
            Some(t) => t,
            None => day + 14 * TICKS_PER_DAY,
        },
    )
}

} // verus!
