//! A three-level categorization of instantaneous speed, used to adapt
//! announcement timing thresholds.

use vstd::prelude::*;

verus! {

#[derive(Debug, PartialEq, Eq, Structural)]
pub enum SpeedClass {
    Slow,
    Medium,
    Fast,
}

/// The label `SpeedClass::as_str` returns.
pub open spec fn spec_speed_class_str(s: SpeedClass) -> Seq<char> {
    match s {
        SpeedClass::Slow => "slow"@,
        SpeedClass::Medium => "medium"@,
        SpeedClass::Fast => "fast"@,
    }
}

/// The class for a speed in thousandths of a meter per second: none when
/// the speed is absent or negative, slow below 14 m/s, medium below
/// 22 m/s, fast from there on.
pub open spec fn spec_speed_class(milli_mps: Option<i64>) -> Option<SpeedClass> {
    match milli_mps {
        Option::None => None,
        Option::Some(v) => if v < 0 {
            None
        } else if v < 14_000 {
            Some(SpeedClass::Slow)
        } else if v < 22_000 {
            Some(SpeedClass::Medium)
        } else {
            Some(SpeedClass::Fast)
        },
    }
}

impl SpeedClass {
    /// A lowercase label for the class.
    pub fn as_str(&self) -> (r: &'static str)
        ensures
            r@ == spec_speed_class_str(*self),
    {
        match self {
            SpeedClass::Slow => "slow",
            SpeedClass::Medium => "medium",
            SpeedClass::Fast => "fast",
        }
    }

    /// Classifies a speed given in thousandths of a meter per second.
    pub fn from_meters_per_second(meters_per_second: Option<i64>) -> (r: Option<SpeedClass>)
        ensures
            r == spec_speed_class(meters_per_second),
    {
        match meters_per_second {
            None => None,
            Some(speed) => {
                if speed < 0 {
                    None
                } else if speed < 14_000 {
                    Some(SpeedClass::Slow)
                } else if speed < 22_000 {
                    Some(SpeedClass::Medium)
                } else {
                    Some(SpeedClass::Fast)
                }
            },
        }
    }
}

} // verus!
