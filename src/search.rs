//! Locating the instant at which a condition sampled over time changes.
//!
//! A search is a machine driven by its caller: `query` names the instant at which
//! the condition must be evaluated next, and `advance` hands back what was seen
//! there. The machine first scans forward in fixed steps until a sample differs
//! from the state before it, then bisects the bracketing interval until it is no
//! wider than a tolerance, and reports the upper end of that interval.
//!
//! Instants are fixed-point day counts: one day is `TICKS_PER_DAY` ticks.
use vstd::prelude::*;

verus! {

/// Fixed-point scale of every instant in the library: one day is this many ticks.
pub const TICKS_PER_DAY: i64 = 1_000_000;

/// Bound on the magnitude of every instant a search handles.
pub const INSTANT_BOUND: i64 = 0x1000_0000_0000_0000;

/// Where a crossing search stands.
#[derive(Debug, Clone, Copy, PartialEq, Eq, Structural)]
pub enum SearchPhase {
    /// Coarse scan: the condition is next sampled at `at`.
    Scanning { at: i64 },
    /// Bisection: the condition has not changed at `low` and has changed at `high`.
    Refining { low: i64, high: i64 },
    /// The condition had not changed at `low` and had changed at `at`, no more than the
    /// tolerance later; `at` is the reported crossing.
    Found { low: i64, at: i64 },
    /// The scan reached its limit without seeing a change.
    Exhausted,
}

/// The phase that follows a bracket `[low, high]`: bisection while it is wider than the
/// tolerance, otherwise the reported crossing.
pub open spec fn bracket(low: int, high: int, tolerance: int) -> SearchPhase {
    if high - low > tolerance {
        SearchPhase::Refining { low: low as i64, high: high as i64 }
    } else {
        SearchPhase::Found { low: low as i64, at: high as i64 }
    }
}

/// A forward search for the first change of a condition over time.
pub struct CrossingSearch {
    /// The first instant the scan samples.
    pub first: i64,
    /// The scan samples only instants strictly below this one.
    pub limit: i64,
    /// Distance between consecutive scan samples.
    pub step: i64,
    /// Bisection stops once the bracket is no wider than this.
    pub tolerance: i64,
    pub phase: SearchPhase,
    /// Every instant sampled so far, with whether the condition had changed there.
    pub history: Ghost<Map<int, bool>>,
}

/// Whether `t` is a point known to lie before the crossing: the instant before the first
/// sample, or a sample at which the condition had not changed.
pub open spec fn unchanged_at(history: Map<int, bool>, origin: int, t: int) -> bool {
    t == origin || (history.contains_key(t) && !history[t])
}

/// Whether every sample so far saw the condition unchanged.
pub open spec fn all_unchanged(history: Map<int, bool>) -> bool {
    forall|t: int| #[trigger] history.contains_key(t) ==> !history[t]
}

/// Whether `high` is the first sample that saw a change and `low` the sample before it: no
/// sample lies strictly between them, and every sample up to `low` saw no change.
pub open spec fn first_change_at(history: Map<int, bool>, low: int, high: int) -> bool {
    forall|t: int| #[trigger]
        history.contains_key(t) ==> !(low < t < high) && (t <= low ==> !history[t])
}

impl CrossingSearch {
    /// The instant one step before the first sample, taken to be in the initial state.
    pub open spec fn origin(self) -> int {
        self.first - self.step
    }

    /// Whether the fields agree with one another and with what has been sampled.
    pub open spec fn wf(self) -> bool {
        &&& 0 < self.step <= INSTANT_BOUND
        &&& 0 < self.tolerance
        &&& -INSTANT_BOUND <= self.first <= INSTANT_BOUND
        &&& -INSTANT_BOUND <= self.limit <= INSTANT_BOUND
        &&& match self.phase {
            SearchPhase::Scanning { at } => {
                &&& self.first <= at < self.limit
                &&& unchanged_at(self.history@, self.origin(), at - self.step)
                &&& all_unchanged(self.history@)
                &&& forall|t: int| #[trigger]
                    self.history@.contains_key(t) ==> self.first <= t <= at - self.step
            },
            SearchPhase::Refining { low, high } => {
                &&& self.origin() <= low
                &&& high < self.limit
                &&& self.tolerance < high - low <= self.step
                &&& self.history@.contains_key(high as int)
                &&& self.history@[high as int]
                &&& unchanged_at(self.history@, self.origin(), low as int)
                &&& first_change_at(self.history@, low as int, high as int)
            },
            SearchPhase::Found { low, at } => {
                &&& self.origin() <= low < at < self.limit
                &&& at - low <= self.tolerance
                &&& self.history@.contains_key(at as int)
                &&& self.history@[at as int]
                &&& unchanged_at(self.history@, self.origin(), low as int)
                &&& first_change_at(self.history@, low as int, at as int)
            },
            SearchPhase::Exhausted => all_unchanged(self.history@),
        }
    }

    /// The instant at which the condition must be sampled next, if the search goes on.
    pub open spec fn spec_query(self) -> Option<i64> {
        match self.phase {
            SearchPhase::Scanning { at } => Some(at),
            SearchPhase::Refining { low, high } => Some((low + (high - low) / 2) as i64),
            _ => None,
        }
    }

    /// The phase after the sample at `spec_query()` reported `changed`.
    pub open spec fn next_phase(self, changed: bool) -> SearchPhase {
        match self.phase {
            SearchPhase::Scanning { at } => {
                if changed {
                    bracket(at - self.step, at as int, self.tolerance as int)
                } else if at + self.step < self.limit {
                    SearchPhase::Scanning { at: (at + self.step) as i64 }
                } else {
                    SearchPhase::Exhausted
                }
            },
            SearchPhase::Refining { low, high } => {
                let mid = low + (high - low) / 2;
                if changed {
                    bracket(low as int, mid, self.tolerance as int)
                } else {
                    bracket(mid, high as int, self.tolerance as int)
                }
            },
            _ => self.phase,
        }
    }

    /// A bound on the number of samples the search may still ask for.
    pub open spec fn measure(self) -> int {
        match self.phase {
            SearchPhase::Scanning { at } => self.limit - at + self.step + 1,
            SearchPhase::Refining { low, high } => high - low,
            _ => 0,
        }
    }

    /// The reported crossing, once the search has found one.
    pub open spec fn spec_found(self) -> Option<i64> {
        match self.phase {
            SearchPhase::Found { low, at } => Some(at),
            _ => None,
        }
    }

    /// A search whose scan samples `first`, `first + step`, ... while below `limit`.
    pub fn new(first: i64, limit: i64, step: i64, tolerance: i64) -> (r: CrossingSearch)
        requires
            0 < step <= INSTANT_BOUND,
            0 < tolerance,
            -INSTANT_BOUND <= first <= INSTANT_BOUND,
            -INSTANT_BOUND <= limit <= INSTANT_BOUND,
        ensures
            r.wf(),
            r.first == first,
            r.limit == limit,
            r.step == step,
            r.tolerance == tolerance,
            r.phase == (if first < limit {
                SearchPhase::Scanning { at: first }
            } else {
                SearchPhase::Exhausted
            }),
            r.history@ == Map::<int, bool>::empty(),
    {
        let phase = if first < limit {
            SearchPhase::Scanning { at: first }
        } else {
            SearchPhase::Exhausted
        };
        CrossingSearch { first, limit, step, tolerance, phase, history: Ghost(Map::empty()) }
    }

    fn bracket_phase(low: i64, high: i64, tolerance: i64) -> (r: SearchPhase)
        requires
            -2 * INSTANT_BOUND <= low <= high <= INSTANT_BOUND,
        ensures
            r == bracket(low as int, high as int, tolerance as int),
    {
        if high - low > tolerance {
            SearchPhase::Refining { low, high }
        } else {
            SearchPhase::Found { low, at: high }
        }
    }

    /// The instant at which the condition must be sampled next; `None` once the search is over.
    pub fn query(&self) -> (r: Option<i64>)
        requires
            self.wf(),
        ensures
            r == self.spec_query(),
            r.is_some() ==> self.first - self.step < r.unwrap() < self.limit,
    {
        match self.phase {
            SearchPhase::Scanning { at } => Some(at),
            SearchPhase::Refining { low, high } => Some(low + (high - low) / 2),
            _ => None,
        }
    }

    /// Takes in whether the condition had changed at the instant `query` named.
    pub fn advance(&mut self, changed: bool)
        requires
            old(self).wf(),
            old(self).spec_query().is_some(),
        ensures
            final(self).wf(),
            final(self).phase == old(self).next_phase(changed),
            final(self).history@ == old(self).history@.insert(
                old(self).spec_query().unwrap() as int,
                changed,
            ),
            final(self).first == old(self).first,
            final(self).limit == old(self).limit,
            final(self).step == old(self).step,
            final(self).tolerance == old(self).tolerance,
            0 <= final(self).measure() < old(self).measure(),
    {
        let ghost q = self.spec_query().unwrap() as int;
        let ghost h0 = self.history@;
        match self.phase {
            SearchPhase::Scanning { at } => {
                if changed {
                    self.phase = Self::bracket_phase(at - self.step, at, self.tolerance);
                } else if at + self.step < self.limit {
                    self.phase = SearchPhase::Scanning { at: at + self.step };
                } else {
                    self.phase = SearchPhase::Exhausted;
                }
            },
            SearchPhase::Refining { low, high } => {
                let mid = low + (high - low) / 2;
                if changed {
                    self.phase = Self::bracket_phase(low, mid, self.tolerance);
                } else {
                    self.phase = Self::bracket_phase(mid, high, self.tolerance);
                }
            },
            _ => {},
        }
        self.history = Ghost(h0.insert(q, changed));
    }
}

} // verus!
