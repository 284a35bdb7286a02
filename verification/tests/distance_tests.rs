//! Distance conversions, spoken formatting, number words and speed
//! classes, exercised through the public API.
//!
//! Distances enter in millionths of a unit (micro-units); numbers for
//! spelling enter in thousandths.

use osrm_instructions::distance::Distance;
use osrm_instructions::distance::SpokenFoot;
use osrm_instructions::distance::SpokenKilometer;
use osrm_instructions::distance::SpokenMeter;
use osrm_instructions::distance::SpokenMile;
use osrm_instructions::distance::Unit;
use osrm_instructions::speed_class::SpeedClass;
use osrm_instructions::spoken_distance::SpokenDistance;
use osrm_instructions::spoken_numbers::number_to_words;
use osrm_instructions::spoken_numbers::whole_number_to_words;

#[test]
fn test_basic_conversions() {
    let distance = Distance::new(1_000_000, Unit::Kilometers);

    assert_eq!(distance.to(Unit::Meters).value(), 1_000_000_000);
    // 1 km = 0.621371... miles, rounded to the nearest micro-mile.
    assert_eq!(distance.to(Unit::Miles).value(), 621_371);
    // 1 km = 3280.839895... feet, rounded to the nearest micro-foot.
    assert_eq!(distance.to(Unit::Feet).value(), 3_280_839_895);
}

#[test]
fn test_same_unit() {
    let distance = Distance::new(5_000_000, Unit::Meters);
    assert_eq!(distance.to(Unit::Meters).value(), 5_000_000);
}

#[test]
fn test_spoken_form() {
    let single_meter = Distance::new(1_000_000, Unit::Meters);
    let multiple_meters = Distance::new(2_000_000, Unit::Meters);

    assert_eq!(single_meter.spoken_unit(), "meter");
    assert_eq!(multiple_meters.spoken_unit(), "meters");
}

#[test]
fn test_conversion_round_trip() {
    // Any unit pair round-trips exactly.
    let units = [Unit::Meters, Unit::Kilometers, Unit::Miles, Unit::Feet];
    for &u1 in &units {
        for &u2 in &units {
            let d = Distance::new(123_456, u1);
            let back = d.to(u2).to(u1);
            assert_eq!(back, d);
            assert_eq!(back.value(), d.value());
            assert!(matches!(back.unit(), u if u == u1));
        }
    }
}

#[test]
fn test_comparison_is_meter_normalized() {
    let km = Distance::new(1_000_000, Unit::Kilometers);
    let m = Distance::new(1_000_000_000, Unit::Meters);
    let mile = Distance::new(1_000_000, Unit::Miles);
    assert!(km == m);
    assert!(km < mile);
    assert!(mile > m);
    assert_eq!(km.min(mile).value(), km.value());
    assert_eq!(km.max(mile).unit(), Unit::Miles);
}

#[test]
fn test_mile_singular_asymmetry() {
    // Miles are singular up to and including one; the others only at
    // exactly one.
    assert_eq!(SpokenMile::get_form(500_000), "mile");
    assert_eq!(SpokenMile::get_form(1_000_000), "mile");
    assert_eq!(SpokenMile::get_form(1_000_001), "miles");
    assert_eq!(SpokenMeter::get_form(500_000), "meters");
    assert_eq!(SpokenMeter::get_form(1_000_000), "meter");
    assert_eq!(SpokenKilometer::get_form(999_999), "kilometers");
    assert_eq!(SpokenKilometer::get_form(1_000_000), "kilometer");
    assert_eq!(SpokenFoot::get_form(999_999), "feet");
    assert_eq!(SpokenFoot::get_form(1_000_000), "foot");
    assert_eq!(Unit::Miles.spoken_form(900_000), "mile");
    assert_eq!(Unit::Feet.spoken_form(900_000), "feet");
}

#[test]
fn test_metric_under_250m() {
    let distance = SpokenDistance::from_meters(200_000_000, true);
    assert_eq!(distance.spoken(), "two hundred meters");
}

#[test]
fn test_metric_over_250m() {
    let distance = SpokenDistance::from_meters(3_000_000_000, true);
    assert_eq!(distance.spoken(), "three kilometers");
}

#[test]
fn test_imperial_under_quarter_mile() {
    // 400 meters is about 1312 feet (under a quarter mile).
    let distance = SpokenDistance::from_meters(400_000_000, false);
    assert_eq!(distance.spoken(), "one thousand three hundred feet");
}

#[test]
fn test_imperial_over_quarter_mile() {
    // 5000 meters is about 3.1 miles.
    let distance = SpokenDistance::from_meters(5_000_000_000, false);
    assert_eq!(distance.spoken(), "three miles");
}

#[test]
fn test_small_metric_distance() {
    // 0.7 meters.
    let distance = SpokenDistance::from_meters(700_000, true);
    assert_eq!(distance.spoken(), "three quarter meters");
}

#[test]
fn test_smallest_imperial_distance() {
    // 0.1 meters is about 0.3 feet.
    let distance = SpokenDistance::from_meters(100_000, false);
    assert_eq!(distance.spoken(), "one quarter feet");
}

#[test]
fn test_smaller_imperial_distance() {
    // 0.7 meters is about 2.3 feet.
    let distance = SpokenDistance::from_meters(700_000, false);
    assert_eq!(distance.spoken(), "two feet");
}

#[test]
fn test_small_imperial_distance() {
    // 2 meters is about 6.6 feet.
    let distance = SpokenDistance::from_meters(2_000_000, false);
    assert_eq!(distance.spoken(), "seven feet");
}

#[test]
fn test_fractional_kilometer() {
    let distance = SpokenDistance::from_meters(750_000_000, true);
    assert_eq!(distance.spoken(), "three quarter kilometers");
}

#[test]
fn test_fractional_mile() {
    // 1207 meters is about 0.75 miles.
    let distance = SpokenDistance::from_meters(1_207_000_000, false);
    assert_eq!(distance.spoken(), "three quarter mile");
}

#[test]
fn test_spoken_distance_idempotent() {
    // Formatting the same raw value with the same flag twice yields
    // identical text.
    for &(micro, metric) in &[
        (200_000_000i64, true),
        (1_207_000_000, false),
        (700_000, true),
        (5_000_000_000, false),
    ] {
        let a = SpokenDistance::from_meters(micro, metric).spoken();
        let b = SpokenDistance::from_meters(micro, metric).spoken();
        assert_eq!(a, b);
    }
}

#[test]
fn test_number_conversions() {
    // Values in thousandths.
    assert_eq!(number_to_words(0), "one eighth");
    assert_eq!(number_to_words(100), "one eighth");
    assert_eq!(number_to_words(124), "one eighth");
    assert_eq!(number_to_words(125), "one quarter");
    assert_eq!(number_to_words(374), "one quarter");
    assert_eq!(number_to_words(375), "one half");
    assert_eq!(number_to_words(500), "one half");
    assert_eq!(number_to_words(624), "one half");
    assert_eq!(number_to_words(625), "three quarter");
    assert_eq!(number_to_words(800), "three quarter");
    assert_eq!(number_to_words(874), "three quarter");
    assert_eq!(number_to_words(875), "one");
    assert_eq!(number_to_words(999), "one");
    assert_eq!(number_to_words(1_000), "one");
    assert_eq!(number_to_words(2_000), "two");
    assert_eq!(number_to_words(10_000), "ten");
    assert_eq!(number_to_words(11_000), "eleven");
    assert_eq!(number_to_words(19_000), "nineteen");
    assert_eq!(number_to_words(20_000), "twenty");
    assert_eq!(number_to_words(21_000), "twenty one");
    assert_eq!(number_to_words(45_000), "forty five");
    assert_eq!(number_to_words(67_000), "sixty seven");
    assert_eq!(number_to_words(89_000), "eighty nine");
    assert_eq!(number_to_words(99_000), "ninety nine");
    assert_eq!(number_to_words(100_000), "one hundred");
    assert_eq!(number_to_words(101_000), "one hundred one");
    assert_eq!(number_to_words(110_000), "one hundred ten");
    assert_eq!(number_to_words(111_000), "one hundred eleven");
    assert_eq!(number_to_words(199_000), "one hundred ninety nine");
    assert_eq!(number_to_words(200_000), "two hundred");
    assert_eq!(number_to_words(999_000), "nine hundred ninety nine");
    assert_eq!(number_to_words(1_000_000), "one thousand");
    assert_eq!(number_to_words(1_001_000), "one thousand one");
    assert_eq!(number_to_words(1_100_000), "one thousand one hundred");
    assert_eq!(number_to_words(1_111_000), "one thousand one hundred eleven");
    assert_eq!(
        number_to_words(1_999_000),
        "one thousand nine hundred ninety nine"
    );
    assert_eq!(number_to_words(2_000_000), "two thousand");
    assert_eq!(
        number_to_words(9_999_000),
        "nine thousand nine hundred ninety nine"
    );
}

#[test]
fn test_edge_cases() {
    // The sign is handled once at the top level.
    assert_eq!(number_to_words(-100_000), "negative one hundred");
    assert_eq!(number_to_words(-1_000), "negative one");
    assert_eq!(number_to_words(-500), "negative one half");
    assert_eq!(number_to_words(-1_000_000), "negative one thousand");
    // Just under and over one half.
    assert_eq!(number_to_words(490), "one half");
    assert_eq!(number_to_words(510), "one half");
    // Whole-number spelling by itself; zero spells as the empty string.
    assert_eq!(whole_number_to_words(0), "");
    assert_eq!(whole_number_to_words(1999), "one thousand nine hundred ninety nine");
}

#[test]
fn test_as_str() {
    assert_eq!(SpeedClass::Slow.as_str(), "slow");
    assert_eq!(SpeedClass::Medium.as_str(), "medium");
    assert_eq!(SpeedClass::Fast.as_str(), "fast");
}

#[test]
fn test_from_meters_per_second_none() {
    assert_eq!(SpeedClass::from_meters_per_second(None), None);
}

#[test]
fn test_from_meters_per_second_negative() {
    assert_eq!(SpeedClass::from_meters_per_second(Some(-1_000)), None);
}

#[test]
fn test_from_meters_per_second_zero() {
    assert_eq!(
        SpeedClass::from_meters_per_second(Some(0)),
        Some(SpeedClass::Slow)
    );
}

#[test]
fn test_from_meters_per_second_slow() {
    assert_eq!(
        SpeedClass::from_meters_per_second(Some(10_000)),
        Some(SpeedClass::Slow)
    );
    assert_eq!(
        SpeedClass::from_meters_per_second(Some(13_900)),
        Some(SpeedClass::Slow)
    );
}

#[test]
fn test_from_meters_per_second_medium() {
    assert_eq!(
        SpeedClass::from_meters_per_second(Some(14_000)),
        Some(SpeedClass::Medium)
    );
    assert_eq!(
        SpeedClass::from_meters_per_second(Some(18_000)),
        Some(SpeedClass::Medium)
    );
    assert_eq!(
        SpeedClass::from_meters_per_second(Some(21_900)),
        Some(SpeedClass::Medium)
    );
}

#[test]
fn test_from_meters_per_second_fast() {
    assert_eq!(
        SpeedClass::from_meters_per_second(Some(22_000)),
        Some(SpeedClass::Fast)
    );
    assert_eq!(
        SpeedClass::from_meters_per_second(Some(30_000)),
        Some(SpeedClass::Fast)
    );
}

#[test]
fn test_speed_class_equality() {
    assert_eq!(SpeedClass::Slow, SpeedClass::Slow);
    assert_eq!(SpeedClass::Medium, SpeedClass::Medium);
    assert_eq!(SpeedClass::Fast, SpeedClass::Fast);

    assert_ne!(SpeedClass::Slow, SpeedClass::Medium);
    assert_ne!(SpeedClass::Medium, SpeedClass::Fast);
    assert_ne!(SpeedClass::Slow, SpeedClass::Fast);
}
