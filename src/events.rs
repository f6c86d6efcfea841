//! The astronomical event searches: sign ingress, station and lunar phase.
//!
//! Each search is a machine over samples of the position oracle. Its caller asks
//! `query` for the instant to sample, evaluates the oracle there and hands the
//! relevant value to `advance`, until `query` returns `None`; `result` then gives
//! the event, or `None` when none was found within the horizon. An oracle failure
//! simply ends the caller's loop: nothing is retried.
use vstd::prelude::*;

use crate::search::CrossingSearch;
use crate::search::SearchPhase;
use crate::search::TICKS_PER_DAY;
use crate::zodiac::sign_of;
use crate::zodiac::wrap;
use crate::zodiac::wrap_longitude;
use crate::zodiac::Planet;
use crate::zodiac::ZodiacSign;
use crate::zodiac::FULL_CIRCLE;
use crate::zodiac::HALF_CIRCLE;

verus! {

/// Bound on the magnitude of the instant a search starts from (a billion days).
pub const START_BOUND: i64 = 1_000_000_000_000_000;

/// Bisection tolerance of the sign-ingress and lunar-phase searches (0.001 day).
pub const INGRESS_TOLERANCE: i64 = 1_000;

/// Bisection tolerance of the station search (0.01 day).
pub const STATION_TOLERANCE: i64 = 10_000;

/// Scan step of the lunar-phase searches (half a day).
pub const PHASE_STEP: i64 = 500_000;

/// Lunar phase angle of a new moon.
pub const NEW_MOON_ANGLE: i64 = 0;

/// Lunar phase angle of a full moon.
pub const FULL_MOON_ANGLE: i64 = 180_000_000;

/// The coarse scan step used to find a body's next sign ingress.
pub open spec fn spec_ingress_step(planet: Planet) -> i64 {
    match planet {
        Planet::Moon => 500_000,
        Planet::Sun | Planet::Mercury | Planet::Venus => 1_000_000,
        Planet::Mars => 2_000_000,
        _ => 5_000_000,
    }
}

/// The coarse scan step used to find a body's next sign ingress: half a day for the
/// Moon, a day for the Sun, Mercury and Venus, two days for Mars, five for the rest.
pub fn ingress_step(planet: Planet) -> (r: i64)
    ensures
        r == spec_ingress_step(planet),
{
    match planet {
        Planet::Moon => 500_000,
        Planet::Sun | Planet::Mercury | Planet::Venus => 1_000_000,
        Planet::Mars => 2_000_000,
        _ => 5_000_000,
    }
}

/// The instant `max_days` whole days after `start`.
pub open spec fn horizon(start: int, max_days: int) -> int {
    start + max_days * TICKS_PER_DAY
}

/// Whether a search that has sampled nothing yet is in its initial state.
pub open spec fn untouched(scan: CrossingSearch) -> bool {
    &&& scan.history@ == Map::<int, bool>::empty()
    &&& scan.phase == (if scan.first < scan.limit {
        SearchPhase::Scanning { at: scan.first }
    } else {
        SearchPhase::Exhausted
    })
}

/// Whether a search has bracketed a change (it is bisecting or has found the crossing).
pub open spec fn bracketed(phase: SearchPhase) -> bool {
    phase is Refining || phase is Found
}

/// Search for the next instant at which a body enters another zodiac sign.
pub struct SignIngressSearch {
    pub planet: Planet,
    pub start: i64,
    pub max_days: i32,
    /// The sign at `start`, once sampled.
    pub start_sign: Option<ZodiacSign>,
    /// The sign seen at the latest sample outside the start sign: once a change is
    /// bracketed, the sign at the upper end of the bracket.
    pub entered: Option<ZodiacSign>,
    pub scan: CrossingSearch,
    /// The sign seen at every instant sampled after `start`.
    pub signs: Ghost<Map<int, ZodiacSign>>,
}

impl SignIngressSearch {
    /// Whether the fields agree with one another and with what has been sampled.
    pub open spec fn wf(self) -> bool {
        &&& self.scan.wf()
        &&& -START_BOUND <= self.start <= START_BOUND
        &&& self.scan.step == spec_ingress_step(self.planet)
        &&& self.scan.first == self.start + self.scan.step
        &&& self.scan.limit == horizon(self.start as int, self.max_days as int)
        &&& self.scan.tolerance == INGRESS_TOLERANCE
        &&& self.scan.history@.dom() == self.signs@.dom()
        &&& match self.start_sign {
            None => untouched(self.scan),
            Some(s) => {
                &&& forall|t: int| #[trigger]
                    self.scan.history@.contains_key(t) ==> self.scan.history@[t] == (
                    self.signs@[t] != s)
                &&& match self.scan.phase {
                    SearchPhase::Refining { low, high } => self.entered == Some(
                        self.signs@[high as int],
                    ),
                    SearchPhase::Found { low, at } => self.entered == Some(self.signs@[at as int]),
                    _ => true,
                }
            },
        }
    }

    /// Whether `t` is the start or an instant at which the body was seen in its starting sign.
    pub open spec fn unchanged_at(self, t: int) -> bool {
        t == self.start || (self.signs@.contains_key(t) && self.signs@[t] == self.start_sign.unwrap())
    }

    /// The result once the search is over: the instant of the ingress and the sign seen there.
    pub open spec fn spec_result(self) -> Option<(i64, ZodiacSign)> {
        match self.scan.phase {
            SearchPhase::Found { low, at } => Some((at, self.entered.unwrap())),
            _ => None,
        }
    }

    /// The instant that `query` names.
    pub open spec fn spec_query(self) -> Option<i64> {
        if self.start_sign.is_none() {
            Some(self.start)
        } else {
            self.scan.spec_query()
        }
    }

    /// A search from `start` over the next `max_days` days. The scan samples every
    /// `ingress_step(planet)` and bisection stops at 0.001 day.
    pub fn new(planet: Planet, start: i64, max_days: i32) -> (r: SignIngressSearch)
        requires
            -START_BOUND <= start <= START_BOUND,
        ensures
            r.wf(),
            r.planet == planet,
            r.start == start,
            r.max_days == max_days,
            r.start_sign.is_none(),
            r.spec_query() == Some(start),
    {
        let step = ingress_step(planet);
        let limit = start + max_days as i64 * TICKS_PER_DAY;
        let scan = CrossingSearch::new(start + step, limit, step, INGRESS_TOLERANCE);
        SignIngressSearch {
            planet,
            start,
            max_days,
            start_sign: None,
            entered: None,
            scan,
            signs: Ghost(Map::empty()),
        }
    }

    /// The instant at which the body's longitude must be sampled next; `None` once the
    /// search is over.
    pub fn query(&self) -> (r: Option<i64>)
        requires
            self.wf(),
        ensures
            r == self.spec_query(),
    {
        if self.start_sign.is_none() {
            Some(self.start)
        } else {
            self.scan.query()
        }
    }

    /// Takes in the body's longitude at the instant `query` named.
    pub fn advance(&mut self, longitude: i64)
        requires
            old(self).wf(),
            old(self).spec_query().is_some(),
        ensures
            final(self).wf(),
            final(self).planet == old(self).planet,
            final(self).start == old(self).start,
            final(self).max_days == old(self).max_days,
            old(self).start_sign.is_none() ==> final(self).start_sign == Some(
                sign_of(longitude as int),
            ) && final(self).scan == old(self).scan,
            old(self).start_sign.is_some() ==> {
                &&& final(self).start_sign == old(self).start_sign
                &&& final(self).scan.phase == old(self).scan.next_phase(
                    sign_of(longitude as int) != old(self).start_sign.unwrap(),
                )
                &&& final(self).signs@ == old(self).signs@.insert(
                    old(self).spec_query().unwrap() as int,
                    sign_of(longitude as int),
                )
                &&& final(self).entered == if sign_of(longitude as int) != old(
                    self,
                ).start_sign.unwrap() {
                    Some(sign_of(longitude as int))
                } else {
                    old(self).entered
                }
            },
    {
        let sign = ZodiacSign::from_longitude(longitude);
        match self.start_sign {
            None => {
                self.start_sign = Some(sign);
            },
            Some(start_sign) => {
                let ghost q = self.scan.spec_query().unwrap() as int;
                let changed = sign != start_sign;
                if changed {
                    self.entered = Some(sign);
                }
                self.scan.advance(changed);
                self.signs = Ghost(self.signs@.insert(q, sign));
            },
        }
    }

    /// The ingress found, as the instant and the sign seen there; `None` while the search
    /// runs or when no ingress lies within the horizon.
    pub fn result(&self) -> (r: Option<(i64, ZodiacSign)>)
        requires
            self.wf(),
        ensures
            r == self.spec_result(),
            r matches Some((t, z)) ==> self.signs@.contains_key(t as int) && z == self.signs@[t
                as int],
    {
        match self.scan.phase {
            SearchPhase::Found { low, at } => {
                match self.entered {
                    Some(sign) => Some((at, sign)),
                    None => None,
                }
            },
            _ => None,
        }
    }
}

/// A reported ingress lies after the start and before the horizon, at an instant where the
/// body was seen outside its starting sign, and at most 0.001 day after an instant where it
/// was still in that sign (or after the start itself). The sign reported is the sign seen
/// at the reported instant, and it is the first change: at every instant sampled before it
/// the body was still in its starting sign.
pub proof fn lemma_ingress_result(s: SignIngressSearch)
    requires
        s.wf(),
        s.spec_result().is_some(),
    ensures
        ({
            let (t, sign) = s.spec_result().unwrap();
            let start_sign = s.start_sign.unwrap();
            &&& s.start_sign.is_some()
            &&& s.start < t < horizon(s.start as int, s.max_days as int)
            &&& sign != start_sign
            &&& s.signs@.contains_key(t as int)
            &&& s.signs@[t as int] == sign
            &&& exists|low: int| t - INGRESS_TOLERANCE <= low < t && #[trigger] s.unchanged_at(low)
            &&& forall|u: int| #[trigger] s.signs@.contains_key(u) && u < t ==> s.signs@[u] == start_sign
        }),
{
    if let SearchPhase::Found { low, at } = s.scan.phase {
        let start_sign = s.start_sign.unwrap();
        assert(s.scan.history@.contains_key(low as int) ==> s.scan.history@[low as int] == (
        s.signs@[low as int] != start_sign));
        assert(s.scan.history@.contains_key(at as int) ==> s.scan.history@[at as int] == (
        s.signs@[at as int] != start_sign));
        assert(at - INGRESS_TOLERANCE <= low < at);
        assert(s.unchanged_at(low as int));
        assert forall|u: int| #[trigger] s.signs@.contains_key(u) && u < at implies s.signs@[u]
            == start_sign by {
            assert(s.scan.history@.contains_key(u));
        }
    }
}

/// A search that ended without an ingress saw the body in its starting sign at every
/// instant it sampled.
pub proof fn lemma_ingress_none(s: SignIngressSearch)
    requires
        s.wf(),
        s.start_sign.is_some(),
        s.spec_query().is_none(),
        s.spec_result().is_none(),
    ensures
        forall|u: int| #[trigger] s.signs@.contains_key(u) ==> s.signs@[u] == s.start_sign.unwrap(),
{
    assert forall|u: int| #[trigger] s.signs@.contains_key(u) implies s.signs@[u]
        == s.start_sign.unwrap() by {
        assert(s.scan.history@.contains_key(u));
    }
}

/// Re-querying after a reported ingress does not report the same one again: a search
/// started later than an ingress that was found reports, if anything, a strictly later
/// instant, and when it starts in the sign that was entered it reports another sign.
pub proof fn lemma_ingress_requery(first: SignIngressSearch, again: SignIngressSearch)
    requires
        first.wf(),
        again.wf(),
        first.spec_result().is_some(),
        again.spec_result().is_some(),
        again.start > first.spec_result().unwrap().0,
    ensures
        again.spec_result().unwrap().0 > first.spec_result().unwrap().0,
        again.start_sign == Some(first.spec_result().unwrap().1) ==> again.spec_result().unwrap().1
            != first.spec_result().unwrap().1,
{
    lemma_ingress_result(again);
}

/// Search for the next station of a body: the instant its apparent motion turns retrograde
/// or direct.
pub struct StationSearch {
    pub planet: Planet,
    pub start: i64,
    pub max_days: i32,
    /// Whether the body was retrograde at `start`, once sampled.
    pub start_retrograde: Option<bool>,
    pub scan: CrossingSearch,
    /// Whether the body was retrograde at every instant sampled after `start`.
    pub motions: Ghost<Map<int, bool>>,
}

impl StationSearch {
    /// Whether the fields agree with one another and with what has been sampled.
    pub open spec fn wf(self) -> bool {
        &&& self.scan.wf()
        &&& -START_BOUND <= self.start <= START_BOUND
        &&& self.scan.step == TICKS_PER_DAY
        &&& self.scan.first == self.start + TICKS_PER_DAY
        &&& self.scan.limit == horizon(self.start as int, self.max_days as int)
        &&& self.scan.tolerance == STATION_TOLERANCE
        &&& self.scan.history@.dom() == self.motions@.dom()
        &&& (!self.planet.spec_can_retrograde() ==> self.start_retrograde.is_none() && untouched(
            self.scan,
        ))
        &&& match self.start_retrograde {
            None => untouched(self.scan),
            Some(r) => forall|t: int| #[trigger]
                self.scan.history@.contains_key(t) ==> self.scan.history@[t] == (self.motions@[t]
                    != r),
        }
    }

    /// Whether `t` is the start or an instant at which the body moved as it did at the start.
    pub open spec fn unchanged_at(self, t: int) -> bool {
        t == self.start || (self.motions@.contains_key(t) && self.motions@[t]
            == self.start_retrograde.unwrap())
    }

    /// The result once the search is over: the instant of the station, and whether the body
    /// turns retrograde there (`false`: it turns direct).
    pub open spec fn spec_result(self) -> Option<(i64, bool)> {
        match self.scan.phase {
            SearchPhase::Found { low, at } => Some((at, !self.start_retrograde.unwrap())),
            _ => None,
        }
    }

    /// The instant that `query` names.
    pub open spec fn spec_query(self) -> Option<i64> {
        if !self.planet.spec_can_retrograde() {
            None
        } else if self.start_retrograde.is_none() {
            Some(self.start)
        } else {
            self.scan.spec_query()
        }
    }

    /// A search from `start` over the next `max_days` days, sampling daily and bisecting down
    /// to 0.01 day. For a body that never retrogrades (the Sun, the Moon) the search is over
    /// at once, with no sample and no station.
    pub fn new(planet: Planet, start: i64, max_days: i32) -> (r: StationSearch)
        requires
            -START_BOUND <= start <= START_BOUND,
        ensures
            r.wf(),
            r.planet == planet,
            r.start == start,
            r.max_days == max_days,
            r.start_retrograde.is_none(),
            r.spec_query() == (if planet.spec_can_retrograde() {
                Some(start)
            } else {
                None
            }),
            !planet.spec_can_retrograde() ==> r.spec_result().is_none(),
    {
        let limit = start + max_days as i64 * TICKS_PER_DAY;
        let scan = CrossingSearch::new(start + TICKS_PER_DAY, limit, TICKS_PER_DAY, STATION_TOLERANCE);
        StationSearch {
            planet,
            start,
            max_days,
            start_retrograde: None,
            scan,
            motions: Ghost(Map::empty()),
        }
    }

    /// The instant at which the body's speed must be sampled next; `None` once the search is
    /// over.
    pub fn query(&self) -> (r: Option<i64>)
        requires
            self.wf(),
        ensures
            r == self.spec_query(),
    {
        if !self.planet.can_retrograde() {
            None
        } else if self.start_retrograde.is_none() {
            Some(self.start)
        } else {
            self.scan.query()
        }
    }

    /// Takes in the body's speed in longitude at the instant `query` named; a negative speed
    /// means retrograde motion.
    pub fn advance(&mut self, speed_longitude: i64)
        requires
            old(self).wf(),
            old(self).spec_query().is_some(),
        ensures
            final(self).wf(),
            final(self).planet == old(self).planet,
            final(self).start == old(self).start,
            final(self).max_days == old(self).max_days,
            old(self).start_retrograde.is_none() ==> final(self).start_retrograde == Some(
                speed_longitude < 0,
            ) && final(self).scan == old(self).scan,
            old(self).start_retrograde.is_some() ==> {
                &&& final(self).start_retrograde == old(self).start_retrograde
                &&& final(self).scan.phase == old(self).scan.next_phase(
                    (speed_longitude < 0) != old(self).start_retrograde.unwrap(),
                )
                &&& final(self).motions@ == old(self).motions@.insert(
                    old(self).spec_query().unwrap() as int,
                    speed_longitude < 0,
                )
            },
    {
        let retrograde = speed_longitude < 0;
        match self.start_retrograde {
            None => {
                self.start_retrograde = Some(retrograde);
            },
            Some(start_retrograde) => {
                let ghost q = self.scan.spec_query().unwrap() as int;
                self.scan.advance(retrograde != start_retrograde);
                self.motions = Ghost(self.motions@.insert(q, retrograde));
            },
        }
    }

    /// The station found, as the instant and whether the body turns retrograde there;
    /// `None` while the search runs or when no station lies within the horizon.
    pub fn result(&self) -> (r: Option<(i64, bool)>)
        requires
            self.wf(),
        ensures
            r == self.spec_result(),
    {
        match self.scan.phase {
            SearchPhase::Found { low, at } => {
                match self.start_retrograde {
                    Some(retrograde) => Some((at, !retrograde)),
                    None => None,
                }
            },
            _ => None,
        }
    }
}

/// A body that never retrogrades has no station: whatever it is handed, its search asks for
/// no sample and reports nothing.
pub proof fn lemma_no_station_without_retrograde(s: StationSearch)
    requires
        s.wf(),
        !s.planet.spec_can_retrograde(),
    ensures
        s.spec_query().is_none(),
        s.spec_result().is_none(),
{
}

/// A reported station lies after the start and before the horizon, at an instant where the
/// body's motion was seen to differ from its motion at the start, and at most 0.01 day after
/// an instant where it had not yet changed (or after the start itself). It is the first
/// change: at every instant sampled before it the body moved as at the start.
pub proof fn lemma_station_result(s: StationSearch)
    requires
        s.wf(),
        s.spec_result().is_some(),
    ensures
        ({
            let t = s.spec_result().unwrap().0;
            let r0 = s.start_retrograde.unwrap();
            &&& s.start_retrograde.is_some()
            &&& s.start < t < horizon(s.start as int, s.max_days as int)
            &&& s.spec_result().unwrap().1 == !r0
            &&& s.motions@.contains_key(t as int)
            &&& s.motions@[t as int] == !r0
            &&& exists|low: int| t - STATION_TOLERANCE <= low < t && #[trigger] s.unchanged_at(low)
            &&& forall|u: int| #[trigger] s.motions@.contains_key(u) && u < t ==> s.motions@[u] == r0
        }),
{
    if let SearchPhase::Found { low, at } = s.scan.phase {
        let r0 = s.start_retrograde.unwrap();
        assert(s.scan.history@.contains_key(low as int) ==> s.scan.history@[low as int] == (
        s.motions@[low as int] != r0));
        assert(s.scan.history@.contains_key(at as int) ==> s.scan.history@[at as int] == (
        s.motions@[at as int] != r0));
        assert(at - STATION_TOLERANCE <= low < at);
        assert(s.unchanged_at(low as int));
        assert forall|u: int| #[trigger] s.motions@.contains_key(u) && u < at implies s.motions@[u]
            == r0 by {
            assert(s.scan.history@.contains_key(u));
        }
    }
}

/// A search that ended without a station saw the body move as at the start at every instant
/// it sampled.
pub proof fn lemma_station_none(s: StationSearch)
    requires
        s.wf(),
        s.start_retrograde.is_some(),
        s.spec_query().is_none(),
        s.spec_result().is_none(),
    ensures
        forall|u: int| #[trigger] s.motions@.contains_key(u) ==> s.motions@[u]
            == s.start_retrograde.unwrap(),
{
    assert forall|u: int| #[trigger] s.motions@.contains_key(u) implies s.motions@[u]
        == s.start_retrograde.unwrap() by {
        assert(s.scan.history@.contains_key(u));
    }
}

/// Ten degrees: the half-width of the region around the 0°/360° seam of the phase angle.
pub const SEAM_MARGIN: i64 = 10_000_000;

/// Whether a target phase angle lies within ten degrees of the 0°/360° seam.
pub open spec fn near_seam(target: int) -> bool {
    target < SEAM_MARGIN || target > FULL_CIRCLE - SEAM_MARGIN
}

/// Whether the phase angle passed forward through `target` between a sample `prev` and the
/// next sample `cur`. Near the seam the angle drops from nearly 360° to nearly 0°, so there the
/// crossing is that drop: `prev` in the last ten degrees and `cur` in the first ten. A target
/// within ten degrees of the seam is taken as the seam itself.
pub open spec fn crossed_forward(target: int, prev: int, cur: int) -> bool {
    if near_seam(target) {
        prev > FULL_CIRCLE - SEAM_MARGIN && cur < SEAM_MARGIN
    } else {
        prev < target && cur >= target
    }
}

/// Whether, during bisection, a phase angle still lies before `target`. Before the seam (a
/// new moon) the angle is past 180°.
pub open spec fn before_target(target: int, angle: int) -> bool {
    if near_seam(target) {
        angle > HALF_CIRCLE
    } else {
        angle < target
    }
}

/// Whether, walking back in time, the phase angle passed back through `target` between a
/// sample `prev` and the earlier sample `cur`: the mirror of the forward test. Near the seam,
/// the earlier sample lies in the last ten degrees and the later one in the first ten.
pub open spec fn crossed_backward(target: int, cur: int, prev: int) -> bool {
    if near_seam(target) {
        cur > FULL_CIRCLE - SEAM_MARGIN && prev < SEAM_MARGIN
    } else {
        cur < target && prev >= target
    }
}

fn crosses_forward(target: i64, prev: i64, cur: i64) -> (r: bool)
    requires
        0 <= target < FULL_CIRCLE,
        0 <= prev < FULL_CIRCLE,
        0 <= cur < FULL_CIRCLE,
    ensures
        r == crossed_forward(target as int, prev as int, cur as int),
{
    if target < SEAM_MARGIN || target > FULL_CIRCLE - SEAM_MARGIN {
        prev > FULL_CIRCLE - SEAM_MARGIN && cur < SEAM_MARGIN
    } else {
        prev < target && cur >= target
    }
}

fn is_before_target(target: i64, angle: i64) -> (r: bool)
    ensures
        r == before_target(target as int, angle as int),
{
    if target < SEAM_MARGIN || target > FULL_CIRCLE - SEAM_MARGIN {
        angle > HALF_CIRCLE
    } else {
        angle < target
    }
}

fn crosses_backward(target: i64, cur: i64, prev: i64) -> (r: bool)
    ensures
        r == crossed_backward(target as int, cur as int, prev as int),
{
    if target < SEAM_MARGIN || target > FULL_CIRCLE - SEAM_MARGIN {
        cur > FULL_CIRCLE - SEAM_MARGIN && prev < SEAM_MARGIN
    } else {
        cur < target && prev >= target
    }
}

/// The Sun–Moon phase angle: the Moon's longitude minus the Sun's, in `[0, 360°)`.
pub open spec fn spec_phase_angle(sun: int, moon: int) -> int {
    wrap(wrap(moon) - wrap(sun))
}

/// The Sun–Moon phase angle from the two longitudes: `(moon - sun) mod 360°`.
pub fn phase_angle(sun_longitude: i64, moon_longitude: i64) -> (r: i64)
    ensures
        r == spec_phase_angle(sun_longitude as int, moon_longitude as int),
        r == wrap(moon_longitude - sun_longitude),
        0 <= r < FULL_CIRCLE,
{
    let sun = wrap_longitude(sun_longitude);
    let moon = wrap_longitude(moon_longitude);
    proof {
        vstd::arithmetic::div_mod::lemma_sub_mod_noop(
            moon_longitude as int,
            sun_longitude as int,
            FULL_CIRCLE as int,
        );
    }
    wrap_longitude(moon - sun)
}

/// Search for the next instant at which the Sun–Moon phase angle passes forward through a
/// target angle.
pub struct LunarPhaseSearch {
    pub start: i64,
    pub target: i64,
    pub max_days: i32,
    /// The phase angle at the latest scan sample (at first, at `start`).
    pub previous: Option<i64>,
    pub scan: CrossingSearch,
    /// The phase angle seen at every instant sampled, `start` included.
    pub angles: Ghost<Map<int, int>>,
}

/// Whether the scan samples of a phase search agree with the crossing test: each sample `t`
/// follows a sample one step earlier, and the condition recorded at `t` is whether the
/// angle crossed the target between the two.
pub open spec fn scan_agrees(history: Map<int, bool>, angles: Map<int, int>, target: int) -> bool {
    forall|t: int| #[trigger]
        history.contains_key(t) ==> angles.contains_key(t - PHASE_STEP) && history[t]
            == crossed_forward(target, angles[t - PHASE_STEP], angles[t])
}

impl LunarPhaseSearch {
    /// Whether `t` was sampled and the angle there lay before the target.
    pub open spec fn before_at(self, t: int) -> bool {
        self.angles@.contains_key(t) && before_target(self.target as int, self.angles@[t])
    }

    /// Whether the fields agree with one another and with what has been sampled.
    pub open spec fn wf(self) -> bool {
        &&& self.scan.wf()
        &&& -START_BOUND <= self.start <= START_BOUND
        &&& 0 <= self.target < FULL_CIRCLE
        &&& self.scan.step == PHASE_STEP
        &&& self.scan.first == self.start + PHASE_STEP
        &&& self.scan.limit == horizon(self.start as int, self.max_days as int) + PHASE_STEP
        &&& self.scan.tolerance == INGRESS_TOLERANCE
        &&& match self.previous {
            None => untouched(self.scan) && self.angles@ == Map::<int, int>::empty(),
            Some(p) => {
                &&& 0 <= p < FULL_CIRCLE
                &&& self.angles@.contains_key(self.start as int)
                &&& forall|t: int| #[trigger]
                    self.scan.history@.contains_key(t) ==> self.angles@.contains_key(t)
                &&& forall|t: int| #[trigger]
                    self.angles@.contains_key(t) ==> 0 <= self.angles@[t] < FULL_CIRCLE
                &&& match self.scan.phase {
                    SearchPhase::Scanning { at } => {
                        &&& self.angles@.contains_key(at - PHASE_STEP)
                        &&& p == self.angles@[at - PHASE_STEP]
                        &&& scan_agrees(self.scan.history@, self.angles@, self.target as int)
                    },
                    SearchPhase::Refining { low, high } => {
                        &&& self.angles@.contains_key(low as int)
                        &&& self.angles@.contains_key(high as int)
                        &&& before_target(self.target as int, self.angles@[low as int])
                        &&& !before_target(self.target as int, self.angles@[high as int])
                    },
                    SearchPhase::Found { low, at } => {
                        &&& self.angles@.contains_key(low as int)
                        &&& self.angles@.contains_key(at as int)
                        &&& before_target(self.target as int, self.angles@[low as int])
                        &&& !before_target(self.target as int, self.angles@[at as int])
                    },
                    SearchPhase::Exhausted => scan_agrees(
                        self.scan.history@,
                        self.angles@,
                        self.target as int,
                    ),
                }
            },
        }
    }

    /// The instant that `query` names.
    pub open spec fn spec_query(self) -> Option<i64> {
        if self.previous.is_none() {
            Some(self.start)
        } else {
            self.scan.spec_query()
        }
    }

    /// The instant of the phase found, once the search is over.
    pub open spec fn spec_result(self) -> Option<i64> {
        self.scan.spec_found()
    }

    /// A search from `start` for the phase angle `target`, sampled every half day until the
    /// first sample at or past `max_days` days, and bisected down to 0.001 day.
    pub fn new(start: i64, target: i64, max_days: i32) -> (r: LunarPhaseSearch)
        requires
            -START_BOUND <= start <= START_BOUND,
            0 <= target < FULL_CIRCLE,
        ensures
            r.wf(),
            r.start == start,
            r.target == target,
            r.max_days == max_days,
            r.previous.is_none(),
            r.spec_query() == Some(start),
    {
        let limit = start + max_days as i64 * TICKS_PER_DAY + PHASE_STEP;
        let scan = CrossingSearch::new(start + PHASE_STEP, limit, PHASE_STEP, INGRESS_TOLERANCE);
        LunarPhaseSearch { start, target, max_days, previous: None, scan, angles: Ghost(Map::empty()) }
    }

    /// A search for the next new moon (phase angle 0°).
    pub fn new_moon(start: i64, max_days: i32) -> (r: LunarPhaseSearch)
        requires
            -START_BOUND <= start <= START_BOUND,
        ensures
            r.wf(),
            r.start == start,
            r.target == NEW_MOON_ANGLE,
            r.max_days == max_days,
            r.previous.is_none(),
    {
        Self::new(start, NEW_MOON_ANGLE, max_days)
    }

    /// A search for the next full moon (phase angle 180°).
    pub fn full_moon(start: i64, max_days: i32) -> (r: LunarPhaseSearch)
        requires
            -START_BOUND <= start <= START_BOUND,
        ensures
            r.wf(),
            r.start == start,
            r.target == FULL_MOON_ANGLE,
            r.max_days == max_days,
            r.previous.is_none(),
    {
        Self::new(start, FULL_MOON_ANGLE, max_days)
    }

    /// The instant at which the phase angle must be sampled next; `None` once the search is
    /// over.
    pub fn query(&self) -> (r: Option<i64>)
        requires
            self.wf(),
        ensures
            r == self.spec_query(),
    {
        if self.previous.is_none() {
            Some(self.start)
        } else {
            self.scan.query()
        }
    }

    /// Takes in the phase angle at the instant `query` named (wrapped into `[0, 360°)`).
    pub fn advance(&mut self, angle: i64)
        requires
            old(self).wf(),
            old(self).spec_query().is_some(),
        ensures
            final(self).wf(),
            final(self).start == old(self).start,
            final(self).target == old(self).target,
            final(self).max_days == old(self).max_days,
            old(self).previous.is_none() ==> final(self).previous == Some(wrap(angle as int) as i64)
                && final(self).scan == old(self).scan,
            old(self).previous.is_some() && old(self).scan.phase is Scanning ==> {
                &&& final(self).previous == Some(wrap(angle as int) as i64)
                &&& final(self).scan.phase == old(self).scan.next_phase(
                    crossed_forward(
                        old(self).target as int,
                        old(self).previous.unwrap() as int,
                        wrap(angle as int),
                    ),
                )
            },
            old(self).previous.is_some() && old(self).scan.phase is Refining ==> {
                &&& final(self).previous == old(self).previous
                &&& final(self).scan.phase == old(self).scan.next_phase(
                    !before_target(old(self).target as int, wrap(angle as int)),
                )
            },
            final(self).angles@ == old(self).angles@.insert(
                old(self).spec_query().unwrap() as int,
                wrap(angle as int),
            ),
    {
        let a = wrap_longitude(angle);
        let ghost q = self.spec_query().unwrap() as int;
        match self.previous {
            None => {
                self.previous = Some(a);
            },
            Some(prev) => {
                match self.scan.phase {
                    SearchPhase::Scanning { .. } => {
                        let crossed = crosses_forward(self.target, prev, a);
                        self.previous = Some(a);
                        self.scan.advance(crossed);
                    },
                    _ => {
                        let after = !is_before_target(self.target, a);
                        self.scan.advance(after);
                    },
                }
            },
        }
        self.angles = Ghost(self.angles@.insert(q, a as int));
    }

    /// The instant of the phase found; `None` while the search runs or when none lies within
    /// the horizon.
    pub fn result(&self) -> (r: Option<i64>)
        requires
            self.wf(),
        ensures
            r == self.spec_result(),
    {
        match self.scan.phase {
            SearchPhase::Found { low, at } => Some(at),
            _ => None,
        }
    }
}

/// Where a backward phase search stands.
#[derive(Debug, Clone, Copy, PartialEq, Eq, Structural)]
pub enum BackwardPhase {
    /// The phase angle at the start has not been sampled yet.
    Starting,
    /// The phase angle is next sampled at `at`.
    Scanning { at: i64 },
    /// The phase angle passed back through the target between `at` and the sample after it.
    Found { at: i64 },
    /// The scan went back past its horizon without a crossing.
    Exhausted,
}

/// Search back in time for the most recent instant at which the phase angle passed
/// through a target angle. The scan steps back half a day at a time and reports the earlier
/// sample of the pair between which the crossing lies.
pub struct PreviousPhaseSearch {
    pub start: i64,
    pub target: i64,
    pub max_days: i32,
    /// The phase angle at the latest sample.
    pub previous: i64,
    pub phase: BackwardPhase,
    /// The phase angle seen at every instant sampled, `start` included.
    pub angles: Ghost<Map<int, int>>,
}

/// Whether no pair of consecutive samples of a backward search, other than the one that
/// ends at `except`, saw the angle pass through the target: every sample `u` but the start
/// has a sample one step later, and the angle did not cross between the two.
pub open spec fn no_backward_crossing(angles: Map<int, int>, start: int, target: int, except: int) -> bool {
    forall|u: int| #[trigger]
        angles.contains_key(u) && u != start && u != except ==> angles.contains_key(u + PHASE_STEP)
            && !crossed_backward(target, angles[u], angles[u + PHASE_STEP])
}

impl PreviousPhaseSearch {
    /// The earliest instant from which the scan still steps back.
    pub open spec fn end(self) -> int {
        self.start - self.max_days * TICKS_PER_DAY
    }

    /// Whether the fields agree with one another and with what has been sampled.
    pub open spec fn wf(self) -> bool {
        &&& -START_BOUND <= self.start <= START_BOUND
        &&& 0 <= self.target < FULL_CIRCLE
        &&& 0 <= self.previous < FULL_CIRCLE
        &&& (self.phase is Starting ==> self.angles@ == Map::<int, int>::empty())
        &&& (!(self.phase is Starting) ==> {
            &&& self.angles@.contains_key(self.start as int)
            &&& forall|u: int| #[trigger]
                self.angles@.contains_key(u) ==> 0 <= self.angles@[u] < FULL_CIRCLE
        })
        &&& match self.phase {
            BackwardPhase::Scanning { at } => {
                &&& self.end() - PHASE_STEP < at < self.start
                &&& self.angles@.contains_key(at + PHASE_STEP)
                &&& self.previous == self.angles@[at + PHASE_STEP]
                &&& forall|u: int| #[trigger] self.angles@.contains_key(u) ==> u > at
                &&& no_backward_crossing(self.angles@, self.start as int, self.target as int, self.start as int)
            },
            BackwardPhase::Found { at } => {
                &&& self.end() - PHASE_STEP < at < self.start
                &&& self.angles@.contains_key(at as int)
                &&& self.angles@.contains_key(at + PHASE_STEP)
                &&& crossed_backward(
                    self.target as int,
                    self.angles@[at as int],
                    self.angles@[at + PHASE_STEP],
                )
                &&& forall|u: int| #[trigger] self.angles@.contains_key(u) ==> u >= at
                &&& no_backward_crossing(self.angles@, self.start as int, self.target as int, at as int)
            },
            BackwardPhase::Exhausted => no_backward_crossing(
                self.angles@,
                self.start as int,
                self.target as int,
                self.start as int,
            ),
            _ => true,
        }
    }

    /// The instant that `query` names.
    pub open spec fn spec_query(self) -> Option<i64> {
        match self.phase {
            BackwardPhase::Starting => Some(self.start),
            BackwardPhase::Scanning { at } => Some(at),
            _ => None,
        }
    }

    /// The instant reported once the search is over.
    pub open spec fn spec_result(self) -> Option<i64> {
        match self.phase {
            BackwardPhase::Found { at } => Some(at),
            _ => None,
        }
    }

    /// A bound on the number of samples the search may still ask for.
    pub open spec fn measure(self) -> int {
        match self.phase {
            BackwardPhase::Starting => if self.start > self.end() {
                self.start - self.end() + 2
            } else {
                1
            },
            BackwardPhase::Scanning { at } => at - self.end() + PHASE_STEP + 1,
            _ => 0,
        }
    }

    /// The phase after the angle `angle` (in `[0, 360°)`) was seen at `spec_query()`.
    pub open spec fn next_phase(self, angle: int) -> BackwardPhase {
        match self.phase {
            BackwardPhase::Starting => if self.start > self.end() {
                BackwardPhase::Scanning { at: (self.start - PHASE_STEP) as i64 }
            } else {
                BackwardPhase::Exhausted
            },
            BackwardPhase::Scanning { at } => if crossed_backward(
                self.target as int,
                angle,
                self.previous as int,
            ) {
                BackwardPhase::Found { at }
            } else if at > self.end() {
                BackwardPhase::Scanning { at: (at - PHASE_STEP) as i64 }
            } else {
                BackwardPhase::Exhausted
            },
            _ => self.phase,
        }
    }

    /// A search back from `start` over at most `max_days` days for the phase angle `target`.
    pub fn new(start: i64, target: i64, max_days: i32) -> (r: PreviousPhaseSearch)
        requires
            -START_BOUND <= start <= START_BOUND,
            0 <= target < FULL_CIRCLE,
        ensures
            r.wf(),
            r.start == start,
            r.target == target,
            r.max_days == max_days,
            r.phase == BackwardPhase::Starting,
    {
        PreviousPhaseSearch {
            start,
            target,
            max_days,
            previous: 0,
            phase: BackwardPhase::Starting,
            angles: Ghost(Map::empty()),
        }
    }

    /// The instant at which the phase angle must be sampled next; `None` once the search is
    /// over.
    pub fn query(&self) -> (r: Option<i64>)
        requires
            self.wf(),
        ensures
            r == self.spec_query(),
    {
        match self.phase {
            BackwardPhase::Starting => Some(self.start),
            BackwardPhase::Scanning { at } => Some(at),
            _ => None,
        }
    }

    /// Takes in the phase angle at the instant `query` named (wrapped into `[0, 360°)`).
    pub fn advance(&mut self, angle: i64)
        requires
            old(self).wf(),
            old(self).spec_query().is_some(),
        ensures
            final(self).wf(),
            final(self).start == old(self).start,
            final(self).target == old(self).target,
            final(self).max_days == old(self).max_days,
            final(self).phase == old(self).next_phase(wrap(angle as int)),
            final(self).phase is Found || final(self).previous == wrap(angle as int),
            final(self).angles@ == old(self).angles@.insert(
                old(self).spec_query().unwrap() as int,
                wrap(angle as int),
            ),
            0 <= final(self).measure() < old(self).measure(),
    {
        let a = wrap_longitude(angle);
        let ghost q = self.spec_query().unwrap() as int;
        self.angles = Ghost(self.angles@.insert(q, a as int));
        let end = self.start - self.max_days as i64 * TICKS_PER_DAY;
        match self.phase {
            BackwardPhase::Starting => {
                self.previous = a;
                if self.start > end {
                    self.phase = BackwardPhase::Scanning { at: self.start - PHASE_STEP };
                } else {
                    self.phase = BackwardPhase::Exhausted;
                }
            },
            BackwardPhase::Scanning { at } => {
                if crosses_backward(self.target, a, self.previous) {
                    self.phase = BackwardPhase::Found { at };
                } else {
                    self.previous = a;
                    if at > end {
                        self.phase = BackwardPhase::Scanning { at: at - PHASE_STEP };
                    } else {
                        self.phase = BackwardPhase::Exhausted;
                    }
                }
            },
            _ => {},
        }
    }

    /// The instant found; `None` while the search runs or when no crossing lies within the
    /// horizon.
    pub fn result(&self) -> (r: Option<i64>)
        requires
            self.wf(),
        ensures
            r == self.spec_result(),
    {
        match self.phase {
            BackwardPhase::Found { at } => Some(at),
            _ => None,
        }
    }
}

/// A reported phase lies after the start and before the horizon, at an instant where the
/// angle was seen at or past the target, and at most 0.001 day after an instant where it was
/// seen before it. For a new moon (a target at the seam) this is a genuine conjunction: the
/// angle is at most 180° at the reported instant and above 180° just before it.
pub proof fn lemma_phase_result(s: LunarPhaseSearch)
    requires
        s.wf(),
        s.spec_result().is_some(),
    ensures
        ({
            let t = s.spec_result().unwrap();
            &&& s.start < t < horizon(s.start as int, s.max_days as int) + PHASE_STEP
            &&& s.angles@.contains_key(t as int)
            &&& !before_target(s.target as int, s.angles@[t as int])
            &&& exists|low: int| t - INGRESS_TOLERANCE <= low < t && #[trigger] s.before_at(low)
            &&& near_seam(s.target as int) ==> s.angles@[t as int] <= HALF_CIRCLE
        }),
{
    if let SearchPhase::Found { low, at } = s.scan.phase {
        assert(s.before_at(low as int));
    }
}

/// A forward phase search that ended without a result saw no crossing between any two
/// consecutive scan samples.
pub proof fn lemma_phase_none(s: LunarPhaseSearch)
    requires
        s.wf(),
        s.previous.is_some(),
        s.spec_query().is_none(),
        s.spec_result().is_none(),
    ensures
        forall|t: int| #[trigger]
            s.scan.history@.contains_key(t) ==> s.angles@.contains_key(t - PHASE_STEP)
                && s.angles@.contains_key(t) && !crossed_forward(
                s.target as int,
                s.angles@[t - PHASE_STEP],
                s.angles@[t],
            ),
{
}

/// A reported previous phase is the most recent one the scan saw: the angle passed back
/// through the target between the reported sample and the one after it, and between no
/// later pair of samples.
pub proof fn lemma_previous_phase_result(s: PreviousPhaseSearch)
    requires
        s.wf(),
        s.spec_result().is_some(),
    ensures
        ({
            let t = s.spec_result().unwrap() as int;
            &&& s.end() - PHASE_STEP < t < s.start
            &&& s.angles@.contains_key(t)
            &&& s.angles@.contains_key(t + PHASE_STEP)
            &&& crossed_backward(s.target as int, s.angles@[t], s.angles@[t + PHASE_STEP])
            &&& forall|u: int| #[trigger] s.angles@.contains_key(u) ==> u >= t
            &&& no_backward_crossing(s.angles@, s.start as int, s.target as int, t)
        }),
{
}

/// A backward phase search that ended without a result saw no crossing between any two
/// consecutive samples.
pub proof fn lemma_previous_phase_none(s: PreviousPhaseSearch)
    requires
        s.wf(),
        s.spec_query().is_none(),
        s.spec_result().is_none(),
    ensures
        no_backward_crossing(s.angles@, s.start as int, s.target as int, s.start as int),
{
}

/// The forward and the backward phase searches started from one instant bracket it: the
/// previous occurrence lies strictly before the start and the next strictly after it, and
/// the backward search saw no other crossing between its result and the start.
pub proof fn lemma_phase_searches_bracket_start(next: LunarPhaseSearch, prev: PreviousPhaseSearch)
    requires
        next.wf(),
        prev.wf(),
        next.start == prev.start,
        next.target == prev.target,
        next.spec_result().is_some(),
        prev.spec_result().is_some(),
    ensures
        prev.spec_result().unwrap() < next.start < next.spec_result().unwrap(),
        no_backward_crossing(
            prev.angles@,
            prev.start as int,
            prev.target as int,
            prev.spec_result().unwrap() as int,
        ),
{
    lemma_previous_phase_result(prev);
}

} // verus!
