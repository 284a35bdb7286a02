//! A value-with-unit distance type with lossless conversion among meters,
//! kilometers, miles and feet.
//!
//! A `Distance` stores its value normalized to a base grid of 10^-10 meters,
//! so 1 meter = 10^10 base units. On that grid one millionth of each
//! supported unit is a whole number of base units, which makes conversion a
//! pure re-labelling: `to` keeps the base value and only changes the unit
//! tag, so converting back and forth is exact. Comparisons, minima and
//! maxima all read the base value, i.e. they compare meter-normalized
//! magnitudes, as the unit tag carries no quantity.

use vstd::prelude::*;

verus! {

/// Base units (10^-10 m) in one meter.
pub const BASE_PER_METER: i64 = 10_000_000_000;

/// Base units in one kilometer (1 km = 1000 m).
pub const BASE_PER_KILOMETER: i64 = 10_000_000_000_000;

/// Base units in one mile (1 mile = 1609.344 m).
pub const BASE_PER_MILE: i64 = 16_093_440_000_000;

/// Base units in one foot (1 foot = 0.3048 m).
pub const BASE_PER_FOOT: i64 = 3_048_000_000;

/// Largest magnitude a well-formed `Distance` may hold: 9 * 10^6 km.
/// Keeping this far below `i64::MAX` lets percentages and rounding be
/// computed without overflow.
pub const MAX_BASE: i64 = 90_000_000_000_000_000;

#[derive(Debug, Clone, Copy, PartialEq, Eq, Structural)]
pub enum Unit {
    Meters,
    Kilometers,
    Miles,
    Feet,
}

/// Base units in one `u`.
pub open spec fn spec_base_per_unit(u: Unit) -> int {
    match u {
        Unit::Meters => BASE_PER_METER as int,
        Unit::Kilometers => BASE_PER_KILOMETER as int,
        Unit::Miles => BASE_PER_MILE as int,
        Unit::Feet => BASE_PER_FOOT as int,
    }
}

/// Base units in one millionth of `u` (the granularity of the public API).
pub open spec fn spec_micro_factor(u: Unit) -> int {
    match u {
        Unit::Meters => 10_000int,
        Unit::Kilometers => 10_000_000int,
        Unit::Miles => 16_093_440int,
        Unit::Feet => 3_048int,
    }
}

/// Division of `a` by positive `b`, rounded to the nearest whole number
/// with halves rounded away from zero.
pub open spec fn spec_round_div(a: int, b: int) -> int {
    if a >= 0 {
        (a + b / 2) / b
    } else {
        -((-a + b / 2) / b)
    }
}

/// The micro-unit count that a constructor may accept for `u` without
/// leaving the well-formed range.
pub open spec fn spec_micro_in_range(value: int, u: Unit) -> bool {
    -(MAX_BASE as int) <= value * spec_micro_factor(u) <= MAX_BASE as int
}

fn micro_factor(u: Unit) -> (r: i64)
    ensures
        r == spec_micro_factor(u),
        0 < r <= 16_093_440,
        r % 2 == 0,
{
    match u {
        Unit::Meters => 10_000,
        Unit::Kilometers => 10_000_000,
        Unit::Miles => 16_093_440,
        Unit::Feet => 3_048,
    }
}

/// A magnitude on the base grid of 10^-10 m (`base`), presented under a
/// unit tag (`unit`). The fields are public so that specifications can
/// build and inspect distances directly; executable code goes through
/// the constructors, which keep the magnitude well-formed.
#[derive(Debug, Clone, Copy)]
pub struct Distance {
    pub base: i64,
    pub unit: Unit,
}

/// The distance with magnitude `base` (truncated onto the `i64` grid)
/// under `unit`.
pub open spec fn spec_distance(base: int, unit: Unit) -> Distance {
    Distance { base: base as i64, unit }
}

impl Distance {
    /// A distance the arithmetic of this module can work on without
    /// overflow.
    pub open spec fn wf(self) -> bool {
        -(MAX_BASE as int) <= self.base <= MAX_BASE as int
    }

    /// Builds a distance of `value` millionths of `unit`.
    pub fn new(value: i64, unit: Unit) -> (d: Distance)
        requires
            spec_micro_in_range(value as int, unit),
        ensures
            d.base == value * spec_micro_factor(unit),
            d.unit == unit,
            d.wf(),
    {
        let f = micro_factor(unit);
        Distance { base: value * f, unit }
    }

    /// Builds a distance of `value` micro-meters.
    pub fn from_meters(value: i64) -> (d: Distance)
        requires
            spec_micro_in_range(value as int, Unit::Meters),
        ensures
            d.base == value * spec_micro_factor(Unit::Meters),
            d.unit == Unit::Meters,
            d.wf(),
    {
        Distance::new(value, Unit::Meters)
    }

    /// Builds a distance of `value` micro-kilometers.
    pub fn from_kilometers(value: i64) -> (d: Distance)
        requires
            spec_micro_in_range(value as int, Unit::Kilometers),
        ensures
            d.base == value * spec_micro_factor(Unit::Kilometers),
            d.unit == Unit::Kilometers,
            d.wf(),
    {
        Distance::new(value, Unit::Kilometers)
    }

    /// Builds a distance of `value` micro-miles.
    pub fn from_miles(value: i64) -> (d: Distance)
        requires
            spec_micro_in_range(value as int, Unit::Miles),
        ensures
            d.base == value * spec_micro_factor(Unit::Miles),
            d.unit == Unit::Miles,
            d.wf(),
    {
        Distance::new(value, Unit::Miles)
    }

    /// Builds a distance of `value` micro-feet.
    pub fn from_feet(value: i64) -> (d: Distance)
        requires
            spec_micro_in_range(value as int, Unit::Feet),
        ensures
            d.base == value * spec_micro_factor(Unit::Feet),
            d.unit == Unit::Feet,
            d.wf(),
    {
        Distance::new(value, Unit::Feet)
    }

    /// The meter-normalized magnitude in base units of 10^-10 m, for
    /// callers that compute on the base grid directly.
    pub fn base_units(&self) -> (b: i64)
        ensures
            b == self.base,
    {
        self.base
    }

    /// Builds a distance directly from a base-grid magnitude. This is the
    /// low-level companion of `new`; `base` counts units of 10^-10 m.
    pub fn from_base_units(base: i64, unit: Unit) -> (d: Distance)
        ensures
            d.base == base,
            d.unit == unit,
    {
        Distance { base, unit }
    }

    /// Re-expresses the same magnitude under `target_unit`. The conversion
    /// is routed through the meter-normalized base value and is lossless:
    /// nothing but the unit tag changes.
    pub fn to(&self, target_unit: Unit) -> (d: Distance)
        ensures
            d.base == self.base,
            d.unit == target_unit,
            self.wf() ==> d.wf(),
    {
        Distance { base: self.base, unit: target_unit }
    }

    /// The magnitude in millionths of this distance's own unit, rounded to
    /// the nearest whole micro-unit (halves away from zero).
    pub fn value(&self) -> (v: i64)
        requires
            self.wf(),
        ensures
            v == spec_round_div(self.base as int, spec_micro_factor(self.unit)),
    {
        let f = micro_factor(self.unit);
        if self.base >= 0 {
            (self.base + f / 2) / f
        } else {
            -((-self.base + f / 2) / f)
        }
    }

    /// The unit tag.
    pub fn unit(&self) -> (u: Unit)
        ensures
            u == self.unit,
    {
        self.unit
    }

    /// Whether the unit tag is a metric one.
    pub fn is_metric(&self) -> (r: bool)
        ensures
            r == (self.unit == Unit::Meters || self.unit == Unit::Kilometers),
    {
        matches!(self.unit, Unit::Meters | Unit::Kilometers)
    }

    /// The spoken form of the unit for this exact magnitude: singular when
    /// the value is exactly one meter/kilometer/foot, and for miles when it
    /// is at most one mile (that asymmetry is deliberate and preserved).
    pub fn spoken_unit(&self) -> (r: String)
        ensures
            r@ == spec_unit_word(self.unit, self.base as int),
    {
        match self.unit {
            Unit::Meters => {
                if self.base == BASE_PER_METER {
                    String::from_str("meter")
                } else {
                    String::from_str("meters")
                }
            },
            Unit::Kilometers => {
                if self.base == BASE_PER_KILOMETER {
                    String::from_str("kilometer")
                } else {
                    String::from_str("kilometers")
                }
            },
            Unit::Miles => {
                if self.base <= BASE_PER_MILE {
                    String::from_str("mile")
                } else {
                    String::from_str("miles")
                }
            },
            Unit::Feet => {
                if self.base == BASE_PER_FOOT {
                    String::from_str("foot")
                } else {
                    String::from_str("feet")
                }
            },
        }
    }

    /// The smaller of the two distances by meter-normalized magnitude; on a
    /// tie the receiver is kept.
    pub fn min(self, other: Distance) -> (r: Distance)
        ensures
            r == (if self.base <= other.base {
                self
            } else {
                other
            }),
    {
        if self <= other {
            self
        } else {
            other
        }
    }

    /// The larger of the two distances by meter-normalized magnitude; on a
    /// tie the receiver is kept.
    pub fn max(self, other: Distance) -> (r: Distance)
        ensures
            r == (if self.base >= other.base {
                self
            } else {
                other
            }),
    {
        if self >= other {
            self
        } else {
            other
        }
    }
}

/// The unit word chosen by `Distance::spoken_unit` for a magnitude of
/// `base` base units under `u`.
pub open spec fn spec_unit_word(u: Unit, base: int) -> Seq<char> {
    match u {
        Unit::Meters => if base == BASE_PER_METER as int {
            "meter"@
        } else {
            "meters"@
        },
        Unit::Kilometers => if base == BASE_PER_KILOMETER as int {
            "kilometer"@
        } else {
            "kilometers"@
        },
        Unit::Miles => if base <= BASE_PER_MILE as int {
            "mile"@
        } else {
            "miles"@
        },
        Unit::Feet => if base == BASE_PER_FOOT as int {
            "foot"@
        } else {
            "feet"@
        },
    }
}

/// The unit word chosen by `Unit::spoken_form` for a count of
/// `count_micro` millionths of the unit.
pub open spec fn spec_spoken_form(u: Unit, count_micro: int) -> Seq<char> {
    match u {
        Unit::Meters => if count_micro == 1_000_000 {
            "meter"@
        } else {
            "meters"@
        },
        Unit::Kilometers => if count_micro == 1_000_000 {
            "kilometer"@
        } else {
            "kilometers"@
        },
        Unit::Miles => if count_micro <= 1_000_000 {
            "mile"@
        } else {
            "miles"@
        },
        Unit::Feet => if count_micro == 1_000_000 {
            "foot"@
        } else {
            "feet"@
        },
    }
}

impl Unit {
    /// The unit word for a count given in millionths of this unit.
    pub fn spoken_form(&self, count: i64) -> (r: String)
        ensures
            r@ == spec_spoken_form(*self, count as int),
    {
        match self {
            Unit::Meters => SpokenMeter::get_form(count),
            Unit::Kilometers => SpokenKilometer::get_form(count),
            Unit::Miles => SpokenMile::get_form(count),
            Unit::Feet => SpokenFoot::get_form(count),
        }
    }
}

#[derive(Debug, Clone, Copy)]
pub struct SpokenMile;

impl SpokenMile {
    /// Singular for a count of at most one mile, plural above.
    pub fn get_form(count: i64) -> (r: String)
        ensures
            r@ == spec_spoken_form(Unit::Miles, count as int),
    {
        if count <= 1_000_000 {
            String::from_str("mile")
        } else {
            String::from_str("miles")
        }
    }
}

#[derive(Debug, Clone, Copy)]
pub struct SpokenFoot;

impl SpokenFoot {
    /// Singular only for a count of exactly one foot.
    pub fn get_form(count: i64) -> (r: String)
        ensures
            r@ == spec_spoken_form(Unit::Feet, count as int),
    {
        if count == 1_000_000 {
            String::from_str("foot")
        } else {
            String::from_str("feet")
        }
    }
}

#[derive(Debug, Clone, Copy)]
pub struct SpokenKilometer;

impl SpokenKilometer {
    /// Singular only for a count of exactly one kilometer.
    pub fn get_form(count: i64) -> (r: String)
        ensures
            r@ == spec_spoken_form(Unit::Kilometers, count as int),
    {
        if count == 1_000_000 {
            String::from_str("kilometer")
        } else {
            String::from_str("kilometers")
        }
    }
}

#[derive(Debug, Clone, Copy)]
pub struct SpokenMeter;

impl SpokenMeter {
    /// Singular only for a count of exactly one meter.
    pub fn get_form(count: i64) -> (r: String)
        ensures
            r@ == spec_spoken_form(Unit::Meters, count as int),
    {
        if count == 1_000_000 {
            String::from_str("meter")
        } else {
            String::from_str("meters")
        }
    }
}

impl PartialEq for Distance {
    /// Distances are equal when their meter-normalized magnitudes are,
    /// regardless of unit tag.
    fn eq(&self, other: &Distance) -> (r: bool) {
        self.base == other.base
    }
}

impl vstd::std_specs::cmp::PartialEqSpecImpl for Distance {
    open spec fn obeys_eq_spec() -> bool {
        true
    }

    open spec fn eq_spec(&self, other: &Distance) -> bool {
        self.base == other.base
    }
}

impl PartialOrd for Distance {
    /// Distances are ordered by their meter-normalized magnitudes.
    fn partial_cmp(&self, other: &Distance) -> (r: Option<core::cmp::Ordering>) {
        if self.base < other.base {
            Some(core::cmp::Ordering::Less)
        } else if self.base == other.base {
            Some(core::cmp::Ordering::Equal)
        } else {
            Some(core::cmp::Ordering::Greater)
        }
    }
}

impl vstd::std_specs::cmp::PartialOrdSpecImpl for Distance {
    open spec fn obeys_partial_cmp_spec() -> bool {
        true
    }

    open spec fn partial_cmp_spec(&self, other: &Distance) -> Option<core::cmp::Ordering> {
        if self.base < other.base {
            Some(core::cmp::Ordering::Less)
        } else if self.base == other.base {
            Some(core::cmp::Ordering::Equal)
        } else {
            Some(core::cmp::Ordering::Greater)
        }
    }
}

/// Unit conversion round trip: for any `d`, `d.to(u2).to(d.unit())` is `d`
/// itself, exactly. The two hypotheses are the postconditions of the two
/// `to` calls, so a caller can apply this lemma directly to their results.
pub proof fn lemma_conversion_round_trip(d: Distance, d2: Distance, d3: Distance, u2: Unit)
    requires
        d2.base == d.base,
        d2.unit == u2,
        d3.base == d2.base,
        d3.unit == d.unit,
    ensures
        d3 == d,
{
}

} // verus!
