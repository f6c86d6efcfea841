//! Stellium: astrological and astronomical calculations with verified contracts.
//!
//! The core is two components. The event search engine (`search`, `events`) finds when a
//! body enters a sign, stations, or when the Moon reaches a phase, from samples of a
//! position oracle that the caller supplies. The chart store (`storage`) keeps natal
//! charts keyed by (name, birth date). Around them stand the zodiac, aspect, house and
//! chart models they work on.
//!
//! Angles are fixed-point integers (`zodiac::UNITS_PER_DEGREE` units per degree) and
//! instants are fixed-point day counts (`search::TICKS_PER_DAY` ticks per day).

pub mod aspects;
pub mod events;
pub mod houses;
pub mod life_area;
pub mod lunar;
pub mod natal_chart;
pub mod position;
pub mod search;
pub mod storage;
pub mod synastry;
pub mod text;
pub mod transits;
pub mod zodiac;
