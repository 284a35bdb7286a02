//! A localized spoken phrase for a distance ("two hundred meters",
//! "three quarter mile").
//!
//! A raw distance is first re-expressed in the natural unit for speech:
//! below a quarter kilometer (or mile) it is spoken in meters (or feet),
//! otherwise in kilometers (or miles). The value is then rounded on a
//! unit-dependent grid and spelled out, followed by the unit word chosen
//! for the exact, unrounded magnitude.

use vstd::arithmetic::div_mod::lemma_div_is_ordered;
use vstd::arithmetic::div_mod::lemma_div_is_ordered_by_denominator;
use vstd::prelude::*;

use crate::distance::BASE_PER_KILOMETER;
use crate::distance::BASE_PER_MILE;
use crate::distance::Distance;
use crate::distance::MAX_BASE;
use crate::distance::Unit;
use crate::distance::spec_base_per_unit;
use crate::distance::spec_micro_factor;
use crate::distance::spec_micro_in_range;
use crate::distance::spec_round_div;
use crate::distance::spec_unit_word;
use crate::spoken_numbers::number_to_words;
use crate::spoken_numbers::spec_number_words;

verus! {

/// The natural unit for speech: meters (or feet) below a quarter
/// kilometer (or mile), kilometers (or miles) from there on.
pub open spec fn spec_converted_unit(base: int, metric: bool) -> Unit {
    if metric {
        if base < BASE_PER_KILOMETER as int / 4 {
            Unit::Meters
        } else {
            Unit::Kilometers
        }
    } else {
        if base < BASE_PER_MILE as int / 4 {
            Unit::Feet
        } else {
            Unit::Miles
        }
    }
}

/// The spoken value in thousandths of `u`, after rounding. Meters and
/// feet round to one decimal below 1, to a whole number below 10, to the
/// nearest 5 below 50 and to the nearest 50 from there on; kilometers and
/// miles round to one decimal below 1 and to a whole number otherwise.
/// Halves round away from zero.
pub open spec fn spec_rounded_milli(base: int, u: Unit) -> int {
    let f = spec_base_per_unit(u);
    let g = f / 1000;
    match u {
        Unit::Feet | Unit::Meters => {
            if base < f {
                spec_round_div(base, 100 * g) * 100
            } else if base < 10 * f {
                spec_round_div(base, 1000 * g) * 1000
            } else if base < 50 * f {
                spec_round_div(base, 5000 * g) * 5000
            } else {
                spec_round_div(base, 50000 * g) * 50000
            }
        },
        _ => {
            if base < f {
                spec_round_div(base, 100 * g) * 100
            } else {
                spec_round_div(base, 1000 * g) * 1000
            }
        },
    }
}

/// The whole spoken phrase for a magnitude of `base` base units under the
/// metric/imperial `metric` flag: the rounded value in words, a space, and
/// the unit word for the unrounded magnitude.
pub open spec fn spec_spoken(base: int, metric: bool) -> Seq<char> {
    let u = spec_converted_unit(base, metric);
    spec_number_words(spec_rounded_milli(base, u)) + " "@ + spec_unit_word(u, base)
}

/// Base units in one thousandth of `u`.
fn milli_factor(u: Unit) -> (r: i64)
    ensures
        r == spec_base_per_unit(u) / 1000,
        3_048_000 <= r <= 16_093_440_000,
        r % 2 == 0,
{
    match u {
        Unit::Meters => 10_000_000,
        Unit::Kilometers => 10_000_000_000,
        Unit::Miles => 16_093_440_000,
        Unit::Feet => 3_048_000,
    }
}

/// Rounds `b` to the nearest multiple of `step_milli` thousandths of a
/// unit whose thousandth measures `g` base units, and returns the result
/// in thousandths. Halves round away from zero.
fn round_scaled(b: i64, g: i64, step_milli: i64) -> (milli: i64)
    requires
        -MAX_BASE <= b <= MAX_BASE,
        3_048_000 <= g <= 16_093_440_000,
        g % 2 == 0,
        step_milli == 100 || step_milli == 1000 || step_milli == 5000 || step_milli == 50000,
    ensures
        milli == spec_round_div(b as int, step_milli * g) * step_milli,
        -20_000_000_000_000 <= milli <= 20_000_000_000_000,
{
    let sb = step_milli * g;
    let half = sb / 2;
    let q = if b >= 0 {
        (b + half) / sb
    } else {
        -((-b + half) / sb)
    };
    proof {
        let x: int = if b >= 0 {
            b as int
        } else {
            -(b as int)
        };
        lemma_div_is_ordered(x + half, MAX_BASE + half, sb as int);
        lemma_div_is_ordered_by_denominator(MAX_BASE + half, 304_800_000, sb as int);
        lemma_div_is_ordered(MAX_BASE + half, MAX_BASE + 450_000_000_000_000, 304_800_000);
        assert((MAX_BASE + 450_000_000_000_000) / 304_800_000int <= 300_000_000);
    }
    q * step_milli
}

pub struct SpokenDistance {
    distance: Distance,
    is_metric: bool,
}

impl SpokenDistance {
    /// The raw distance to speak.
    pub closed spec fn spec_distance(self) -> Distance {
        self.distance
    }

    /// Whether the phrase uses metric units.
    pub closed spec fn spec_is_metric(self) -> bool {
        self.is_metric
    }

    /// Wraps a distance; the metric flag follows the distance's own unit.
    pub fn from_distance(distance: Distance) -> (s: SpokenDistance)
        ensures
            s.spec_distance() == distance,
            s.spec_is_metric() == (distance.unit == Unit::Meters || distance.unit
                == Unit::Kilometers),
    {
        let is_metric = distance.is_metric();
        SpokenDistance { distance, is_metric }
    }

    /// Wraps a raw meter distance (in micro-meters) with an explicit
    /// metric/imperial flag.
    pub fn from_meters(value: i64, metric: bool) -> (s: SpokenDistance)
        requires
            spec_micro_in_range(value as int, Unit::Meters),
        ensures
            s.spec_distance().base == value * spec_micro_factor(Unit::Meters),
            s.spec_distance().unit == Unit::Meters,
            s.spec_distance().wf(),
            s.spec_is_metric() == metric,
    {
        SpokenDistance { distance: Distance::from_meters(value), is_metric: metric }
    }

    /// Re-expresses the distance in its natural unit for speech.
    fn converted(&self) -> (d: Distance)
        ensures
            d.base == self.spec_distance().base,
            d.unit == spec_converted_unit(
                self.spec_distance().base as int,
                self.spec_is_metric(),
            ),
    {
        if self.is_metric {
            let km = self.distance.to(Unit::Kilometers);
            if km < Distance::new(250_000, Unit::Kilometers) {
                self.distance.to(Unit::Meters)
            } else {
                km
            }
        } else {
            let mi = self.distance.to(Unit::Miles);
            if mi < Distance::new(250_000, Unit::Miles) {
                self.distance.to(Unit::Feet)
            } else {
                mi
            }
        }
    }

    /// The spoken phrase for this distance.
    pub fn spoken(&self) -> (r: String)
        requires
            self.spec_distance().wf(),
        ensures
            r@ == spec_spoken(self.spec_distance().base as int, self.spec_is_metric()),
    {
        let distance = self.converted();
        let spoken_unit = distance.spoken_unit();
        let u = distance.unit();
        let base = distance.base_units();
        let g = milli_factor(u);
        let f = g * 1000;
        let step_milli: i64 = match u {
            Unit::Feet | Unit::Meters => {
                if base < f {
                    100
                } else if base < 10 * f {
                    1000
                } else if base < 50 * f {
                    5000
                } else {
                    50000
                }
            },
            _ => {
                if base < f {
                    100
                } else {
                    1000
                }
            },
        };
        let milli = round_scaled(base, g, step_milli);
        let mut result = number_to_words(milli);
        result.append(" ");
        result.append(spoken_unit.as_str());
        result
    }
}

/// Spoken-distance idempotence: the phrase is a function of the raw
/// magnitude and the flag alone, so formatting the same value twice with
/// the same flag yields identical text.
pub proof fn lemma_spoken_deterministic(a: Seq<char>, b: Seq<char>, base: int, metric: bool)
    requires
        a == spec_spoken(base, metric),
        b == spec_spoken(base, metric),
    ensures
        a == b,
{
}

} // verus!
