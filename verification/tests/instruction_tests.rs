//! Field extraction, maneuver names, banners, the announcement planner,
//! voice instructions, the step bundler and the whole-route assembler.

use osrm_instructions::banner_instruction::BannerInstructionsFactory;
use osrm_instructions::bundler::get_step_bundles;
use osrm_instructions::extensions::RouteStepExt;
use osrm_instructions::extensions::StepManeuverExt;
use osrm_instructions::instructions::InstructionsFactory;
use osrm_instructions::models::Annotation;
use osrm_instructions::models::ManeuverModifier;
use osrm_instructions::models::ManeuverType;
use osrm_instructions::models::Route;
use osrm_instructions::models::RouteLeg;
use osrm_instructions::models::RouteStep;
use osrm_instructions::models::RouteStepBundle;
use osrm_instructions::models::StepManeuver;
use osrm_instructions::utilities::step_maneuver_name;
use osrm_instructions::voice_announcements::AnnounceAt;
use osrm_instructions::voice_announcements::VoiceAnnouncements;
use osrm_instructions::voice_instructions::VoiceInstructionFactory;

/// A three-point encoded path (precision 5) whose segments measure about
/// 50.75 m and 45.11 m.
const THREE_POINTS: &str = "epxkF|`miVfAfA~@~@";

/// A single-point encoded path (precision 5).
const ONE_POINT: &str = "_p~iF~ps|U";

fn text_value(s: &str) -> serde_json::Value {
    serde_json::Value::String(s.to_string())
}

fn empty_annotation() -> Annotation {
    Annotation {
        distance: None,
        duration: None,
        datasources: None,
        nodes: None,
        weight: None,
        speed: None,
        maxspeed: None,
        metadata: None,
    }
}

// Extraction of strings from loosely-typed step fields.

#[test]
fn test_geometry_string_with_string() {
    let mut step = RouteStep::default();
    step.geometry = Some(text_value("abc123polyline"));
    assert_eq!(
        step.geometry_string().unwrap(),
        Some("abc123polyline".to_string())
    );
}

#[test]
fn test_geometry_string_with_null() {
    let mut step = RouteStep::default();
    step.geometry = Some(serde_json::Value::Null);
    assert_eq!(step.geometry_string().unwrap(), None);
}

#[test]
fn test_geometry_string_with_none() {
    let step = RouteStep::default();
    assert_eq!(step.geometry_string().unwrap(), None);
}

#[test]
fn test_geometry_string_with_object_returns_error() {
    let mut map = serde_json::Map::new();
    map.insert("type".to_string(), text_value("LineString"));
    map.insert(
        "coordinates".to_string(),
        serde_json::Value::Array(vec![serde_json::Value::Array(vec![
            serde_json::Value::Number(serde_json::Number::from(0)),
            serde_json::Value::Number(serde_json::Number::from(0)),
        ])]),
    );
    let mut step = RouteStep::default();
    step.geometry = Some(serde_json::Value::Object(map));
    assert!(step.geometry_string().is_err());
    assert!(step
        .geometry_string()
        .unwrap_err()
        .contains("not yet supported"));
}

#[test]
fn test_geometry_string_with_array_returns_error() {
    let mut step = RouteStep::default();
    step.geometry = Some(serde_json::Value::Array(vec![
        text_value("point1"),
        text_value("point2"),
    ]));
    assert!(step.geometry_string().is_err());
}

#[test]
fn test_destinations_string_with_string() {
    let mut step = RouteStep::default();
    step.destinations = Some(text_value("New York"));
    assert_eq!(
        step.destinations_string().unwrap(),
        Some("New York".to_string())
    );
}

#[test]
fn test_exits_string_with_string() {
    let mut step = RouteStep::default();
    step.exits = Some(text_value("Exit 23"));
    assert_eq!(step.exits_string().unwrap(), Some("Exit 23".to_string()));
}

#[test]
fn test_geometry_string_with_number() {
    let mut step = RouteStep::default();
    step.geometry = Some(serde_json::Value::Number(serde_json::Number::from(42)));
    assert_eq!(step.geometry_string().unwrap(), Some("42".to_string()));
}

#[test]
fn test_geometry_string_with_bool() {
    let mut step = RouteStep::default();
    step.geometry = Some(serde_json::Value::Bool(true));
    assert_eq!(step.geometry_string().unwrap(), Some("true".to_string()));
}

#[test]
fn test_instruction_string() {
    let mut maneuver = StepManeuver::default();
    maneuver.instruction = Some("Turn right".to_string());
    assert_eq!(
        maneuver.instruction_string().unwrap(),
        Some("Turn right".to_string())
    );
    assert_eq!(StepManeuver::default().instruction_string().unwrap(), None);
}

// The maneuver display name.

#[test]
fn test_step_maneuver_label_with_name() {
    let mut step = RouteStep::default();
    step.name = Some("Main Street".to_string());
    assert_eq!(step_maneuver_name(&step), "Main Street");
}

#[test]
fn test_step_maneuver_label_with_ref() {
    let mut step = RouteStep::default();
    step.reference = Some("I-95".to_string());
    assert_eq!(step_maneuver_name(&step), "I-95");
}

#[test]
fn test_step_maneuver_label_with_destinations_only() {
    let mut step = RouteStep::default();
    step.destinations = Some(text_value("Boston"));
    assert_eq!(step_maneuver_name(&step), "Boston");
}

#[test]
fn test_step_maneuver_label_with_exits_and_destinations() {
    let mut step = RouteStep::default();
    step.exits = Some(text_value("Exit 23"));
    step.destinations = Some(text_value("New York"));
    assert_eq!(step_maneuver_name(&step), "Exit 23 New York");
}

#[test]
fn test_step_maneuver_label_with_all_none() {
    let step = RouteStep::default();
    assert_eq!(step_maneuver_name(&step), "");
}

#[test]
fn test_step_maneuver_label_precedence() {
    // The name takes precedence over the reference and the destinations.
    let mut step = RouteStep::default();
    step.name = Some("Main Street".to_string());
    step.reference = Some("I-95".to_string());
    step.exits = Some(text_value("Exit 1"));
    step.destinations = Some(text_value("Boston"));
    assert_eq!(step_maneuver_name(&step), "Main Street");
}

// Banners.

#[test]
fn test_banner_with_next_step() {
    let mut next_step = RouteStep::default();
    next_step.distance = Some(100_000_000);
    next_step.name = Some("Main Street".to_string());
    let mut maneuver = StepManeuver::default();
    maneuver.maneuver_type = Some(ManeuverType::Turn);
    maneuver.modifier = Some(ManeuverModifier::Right);
    next_step.maneuver = Some(maneuver);

    let mut current_step = RouteStep::default();
    current_step.distance = Some(50_000_000);

    let factory = BannerInstructionsFactory::new(Some(&next_step), Some(&current_step));
    let banners = factory.build();
    assert_eq!(banners.len(), 1);
    let banner = &banners[0];
    assert_eq!(banner.distance_along_geometry, 50_000_000);
    assert_eq!(banner.primary.text, "Main Street");
    assert_eq!(banner.primary.maneuver_type, Some(ManeuverType::Turn));
    assert_eq!(banner.primary.modifier, Some(ManeuverModifier::Right));
    let components = banner.primary.components.as_ref().unwrap();
    assert_eq!(components.len(), 1);
    assert_eq!(components[0].component_type.as_deref(), Some("text"));
    assert_eq!(components[0].text.as_deref(), Some("Main Street"));
    assert!(banner.secondary.is_none());
}

#[test]
fn test_banner_arrival() {
    let factory = BannerInstructionsFactory::new(None, None);
    let banners = factory.build();
    assert_eq!(banners.len(), 1);
    let banner = &banners[0];
    assert_eq!(banner.distance_along_geometry, 0);
    assert_eq!(banner.primary.text, "arrive");
    assert_eq!(banner.primary.maneuver_type, Some(ManeuverType::Arrive));
    assert!(banner.primary.modifier.is_none());
}

#[test]
fn test_banner_no_current_step_distance() {
    let mut next_step = RouteStep::default();
    next_step.distance = Some(100_000_000);
    next_step.name = Some("Main Street".to_string());
    let mut maneuver = StepManeuver::default();
    maneuver.maneuver_type = Some(ManeuverType::Merge);
    maneuver.modifier = Some(ManeuverModifier::SlightLeft);
    next_step.maneuver = Some(maneuver);

    let current_step = RouteStep::default();

    let factory = BannerInstructionsFactory::new(Some(&next_step), Some(&current_step));
    let banners = factory.build();
    assert_eq!(banners[0].distance_along_geometry, 0);
    assert_eq!(banners[0].primary.maneuver_type, Some(ManeuverType::Merge));
    assert_eq!(
        banners[0].primary.modifier,
        Some(ManeuverModifier::SlightLeft)
    );
}

// The announcement planner.

fn bundle(step: &RouteStep) -> RouteStepBundle<'_> {
    RouteStepBundle {
        step,
        annotation: None,
        start_index: 0,
        end_index: -1,
    }
}

#[test]
fn test_and_then_step() {
    // A very short next step must yield ManeuverAndThen and must not
    // yield Maneuver for the same step.
    let mut current = RouteStep::default();
    current.distance = Some(95_864_942);
    let mut next = RouteStep::default();
    next.distance = Some(50_000_000);

    let current_bundle = bundle(&current);
    let next_bundle = bundle(&next);
    let planner = VoiceAnnouncements::new(&current_bundle, Some(&next_bundle), true, 5);
    let plan = planner.build();
    assert!(plan
        .iter()
        .any(|a| matches!(a, AnnounceAt::ManeuverAndThen(_))));
    assert!(!plan.iter().any(|a| matches!(a, AnnounceAt::Maneuver(_))));
}

#[test]
fn test_basic_step() {
    // A next step of ordinary length yields a plain Maneuver and no
    // ManeuverAndThen; a short current step gets nothing else.
    let mut current = RouteStep::default();
    current.distance = Some(95_864_942);
    let mut next = RouteStep::default();
    next.distance = Some(200_000_000);

    let current_bundle = bundle(&current);
    let next_bundle = bundle(&next);
    let planner = VoiceAnnouncements::new(&current_bundle, Some(&next_bundle), true, 5);
    let plan = planner.build();
    assert_eq!(plan.len(), 1);
    match &plan[0] {
        AnnounceAt::Maneuver(d) => {
            // No telemetry: the default 70 m budget applies.
            assert_eq!(d.value(), 70_000_000);
        }
        other => panic!("expected a maneuver announcement, got {:?}", other),
    }
}

#[test]
fn test_depart_announcement() {
    // A depart maneuver announces at 98% of the step.
    let mut current = RouteStep::default();
    current.distance = Some(100_000_000);
    let mut maneuver = StepManeuver::default();
    maneuver.maneuver_type = Some(ManeuverType::Depart);
    current.maneuver = Some(maneuver);
    let mut next = RouteStep::default();
    next.distance = Some(200_000_000);

    let current_bundle = bundle(&current);
    let next_bundle = bundle(&next);
    let planner = VoiceAnnouncements::new(&current_bundle, Some(&next_bundle), true, 5);
    let plan = planner.build();
    assert!(matches!(plan[0], AnnounceAt::Depart(_)));
    match &plan[0] {
        AnnounceAt::Depart(d) => assert_eq!(d.value(), 98_000_000),
        _ => unreachable!(),
    }
}

#[test]
fn test_long_step() {
    // A five-kilometer step gets the whole ladder: continue, a
    // pre-approach wake-up, an approach, and the maneuver notice.
    let mut current = RouteStep::default();
    current.distance = Some(5_000_000_000);
    let mut next = RouteStep::default();
    next.distance = Some(200_000_000);

    let current_bundle = bundle(&current);
    let next_bundle = bundle(&next);
    let planner = VoiceAnnouncements::new(&current_bundle, Some(&next_bundle), true, 5);
    let plan = planner.build();
    assert_eq!(plan.len(), 4);
    match &plan[0] {
        AnnounceAt::Continue(d) => assert_eq!(d.value(), 4_900_000_000),
        other => panic!("expected continue, got {:?}", other),
    }
    match &plan[1] {
        AnnounceAt::PreApproach(d) => {
            // Not above five units: announced one kilometer early.
            assert_eq!(d.value(), 1_000_000);
            assert_eq!(
                d.unit(),
                osrm_instructions::distance::Unit::Kilometers
            );
        }
        other => panic!("expected pre-approach, got {:?}", other),
    }
    match &plan[2] {
        AnnounceAt::Approach(d) => {
            // No telemetry: not slow, so half a unit early.
            assert_eq!(d.value(), 500_000);
        }
        other => panic!("expected approach, got {:?}", other),
    }
    assert!(matches!(plan[3], AnnounceAt::Maneuver(_)));
}

// Voice instructions.

#[test]
fn test_depart() {
    let mut current = RouteStep::default();
    current.distance = Some(100_000_000);
    let mut current_maneuver = StepManeuver::default();
    current_maneuver.maneuver_type = Some(ManeuverType::Depart);
    current_maneuver.instruction = Some("Head north".to_string());
    current.maneuver = Some(current_maneuver);

    let mut next = RouteStep::default();
    next.distance = Some(200_000_000);
    let mut next_maneuver = StepManeuver::default();
    next_maneuver.maneuver_type = Some(ManeuverType::Turn);
    next_maneuver.instruction = Some("Turn right".to_string());
    next.maneuver = Some(next_maneuver);

    let current_bundle = bundle(&current);
    let next_bundle = bundle(&next);
    let factory = VoiceInstructionFactory::new(&current_bundle, &next_bundle, None, true, 5);
    let instructions = factory.build();
    assert_eq!(instructions.len(), 2);
    assert_eq!(instructions[0].announcement, "Head north");
    assert_eq!(instructions[0].distance_along_geometry, 98_000_000);
    assert!(instructions[0].ssml_announcement.is_none());
    assert_eq!(instructions[1].announcement, "Turn right");
    assert_eq!(instructions[1].distance_along_geometry, 70_000_000);
}

#[test]
fn test_long_step_metric() {
    let mut current = RouteStep::default();
    current.distance = Some(5_000_000_000);
    current.name = Some("Main Street".to_string());
    let mut next = RouteStep::default();
    next.distance = Some(200_000_000);
    let mut next_maneuver = StepManeuver::default();
    next_maneuver.instruction = Some("Turn Right onto High Street".to_string());
    next.maneuver = Some(next_maneuver);

    let current_bundle = bundle(&current);
    let next_bundle = bundle(&next);
    let factory = VoiceInstructionFactory::new(&current_bundle, &next_bundle, None, true, 5);
    let instructions = factory.build();
    assert_eq!(instructions.len(), 4);
    assert_eq!(
        instructions[0].announcement,
        "Continue on Main Street for five kilometers"
    );
    assert_eq!(
        instructions[1].announcement,
        "In one kilometer, turn right onto high street"
    );
    assert_eq!(
        instructions[2].announcement,
        "In one half kilometers, turn right onto high street"
    );
    assert_eq!(instructions[3].announcement, "Turn Right onto High Street");
}

#[test]
fn test_long_step_imperial() {
    let mut current = RouteStep::default();
    current.distance = Some(5_000_000_000);
    current.name = Some("Main Street".to_string());
    let mut next = RouteStep::default();
    next.distance = Some(200_000_000);
    let mut next_maneuver = StepManeuver::default();
    next_maneuver.instruction = Some("Turn right".to_string());
    next.maneuver = Some(next_maneuver);

    let current_bundle = bundle(&current);
    let next_bundle = bundle(&next);
    let factory = VoiceInstructionFactory::new(&current_bundle, &next_bundle, None, false, 5);
    let instructions = factory.build();
    // Five kilometers is about 3.1 miles: continue, pre-approach,
    // approach, maneuver.
    assert_eq!(instructions.len(), 4);
    assert_eq!(
        instructions[0].announcement,
        "Continue on Main Street for three miles"
    );
    assert_eq!(instructions[1].announcement, "In one mile, turn right");
    assert_eq!(instructions[2].announcement, "In one half mile, turn right");
    assert_eq!(instructions[3].announcement, "Turn right");
}

#[test]
fn test_and_then_step_metric() {
    // A very short next step narrates both maneuvers in one notice.
    let mut current = RouteStep::default();
    current.distance = Some(95_864_942);
    let mut next = RouteStep::default();
    next.distance = Some(50_000_000);
    let mut next_maneuver = StepManeuver::default();
    next_maneuver.instruction = Some("Turn right".to_string());
    next.maneuver = Some(next_maneuver);
    let mut after = RouteStep::default();
    let mut after_maneuver = StepManeuver::default();
    after_maneuver.instruction = Some("Turn left".to_string());
    after.maneuver = Some(after_maneuver);

    let current_bundle = bundle(&current);
    let next_bundle = bundle(&next);
    let after_bundle = bundle(&after);
    let factory = VoiceInstructionFactory::new(
        &current_bundle,
        &next_bundle,
        Some(&after_bundle),
        true,
        5,
    );
    let instructions = factory.build();
    assert_eq!(instructions.len(), 1);
    assert_eq!(instructions[0].announcement, "Turn right Then Turn left");
    assert_eq!(instructions[0].distance_along_geometry, 70_000_000);
}

#[test]
fn test_and_then_step_imperial() {
    // 150 meters is below a tenth of a mile as well.
    let mut current = RouteStep::default();
    current.distance = Some(95_864_942);
    let mut next = RouteStep::default();
    next.distance = Some(150_000_000);
    let mut next_maneuver = StepManeuver::default();
    next_maneuver.instruction = Some("Turn right".to_string());
    next.maneuver = Some(next_maneuver);

    let current_bundle = bundle(&current);
    let next_bundle = bundle(&next);
    let factory = VoiceInstructionFactory::new(&current_bundle, &next_bundle, None, false, 5);
    let instructions = factory.build();
    assert_eq!(instructions.len(), 1);
    // No step after next: the notice is the plain instruction.
    assert_eq!(instructions[0].announcement, "Turn right");
}

#[test]
fn test_no_next_instruction_yields_no_voice() {
    // Without instruction text on the next step there is nothing to say.
    let mut current = RouteStep::default();
    current.distance = Some(5_000_000_000);
    let mut next = RouteStep::default();
    next.distance = Some(200_000_000);

    let current_bundle = bundle(&current);
    let next_bundle = bundle(&next);
    let factory = VoiceInstructionFactory::new(&current_bundle, &next_bundle, None, true, 5);
    assert_eq!(factory.build().len(), 0);
}

// The step bundler.

fn two_step_route() -> Route {
    let mut step1 = RouteStep::default();
    step1.distance = Some(95_864_942);
    step1.geometry = Some(text_value(THREE_POINTS));
    let mut step2 = RouteStep::default();
    step2.distance = Some(50_000_000);
    step2.geometry = Some(text_value(ONE_POINT));

    let mut annotation = empty_annotation();
    annotation.distance = Some(vec![50_751_985, 45_112_957]);
    annotation.speed = Some(vec![10_000, 12_000]);

    Route {
        legs: Some(vec![RouteLeg {
            steps: Some(vec![step1, step2]),
            annotation: Some(annotation),
        }]),
    }
}

#[test]
fn test_get_step_bundle_index_ranges() {
    let route = two_step_route();
    let bundles = get_step_bundles(&route, 5).unwrap();
    assert_eq!(bundles.len(), 2);
    // The three-point path has two segments (inclusive range [0, 1]);
    // the one-point path none, so its range ends before it starts.
    assert_eq!((bundles[0].start_index, bundles[0].end_index), (0, 1));
    assert_eq!((bundles[1].start_index, bundles[1].end_index), (2, 1));
    // Contiguity: each range starts one past where the previous ends.
    assert_eq!(bundles[0].end_index + 1, bundles[1].start_index);
}

#[test]
fn test_zero_sample_first_step() {
    // A first step that consumes no samples has the degenerate inclusive
    // range [0, -1] and no slice; the next step still starts at zero.
    let mut step1 = RouteStep::default();
    step1.geometry = Some(text_value(ONE_POINT));
    let mut step2 = RouteStep::default();
    step2.geometry = Some(text_value(THREE_POINTS));

    let route = Route {
        legs: Some(vec![RouteLeg {
            steps: Some(vec![step1, step2]),
            annotation: None,
        }]),
    };
    let bundles = get_step_bundles(&route, 5).unwrap();
    assert_eq!((bundles[0].start_index, bundles[0].end_index), (0, -1));
    assert!(bundles[0].annotation.is_none());
    assert_eq!((bundles[1].start_index, bundles[1].end_index), (0, 1));
}

#[test]
fn test_get_step_bundle_annotations() {
    let route = two_step_route();
    let bundles = get_step_bundles(&route, 5).unwrap();
    let sliced = bundles[0].annotation.as_ref().unwrap();
    assert_eq!(sliced.speed.as_ref().unwrap(), &vec![10_000, 12_000]);
    assert_eq!(
        sliced.distance.as_ref().unwrap(),
        &vec![50_751_985, 45_112_957]
    );
    assert!(sliced.duration.is_none());
    // A step with no samples gets no slice at all.
    assert!(bundles[1].annotation.is_none());
}

#[test]
fn test_get_step_bundles_without_legs() {
    let route = Route { legs: None };
    assert!(get_step_bundles(&route, 5).is_none());
}

// The whole-route assembler.

#[test]
fn test_instructions_factory() {
    let mut step1 = RouteStep::default();
    step1.distance = Some(95_864_942);
    step1.geometry = Some(text_value(THREE_POINTS));
    step1.segment_lengths = Some(vec![50_751_985, 45_112_957]);
    let mut maneuver1 = StepManeuver::default();
    maneuver1.maneuver_type = Some(ManeuverType::Depart);
    maneuver1.instruction = Some("Head north".to_string());
    step1.maneuver = Some(maneuver1);

    let mut step2 = RouteStep::default();
    step2.distance = Some(50_000_000);
    step2.name = Some("Main Street".to_string());
    let mut maneuver2 = StepManeuver::default();
    maneuver2.maneuver_type = Some(ManeuverType::Turn);
    maneuver2.modifier = Some(ManeuverModifier::Right);
    maneuver2.instruction = Some("Turn right".to_string());
    step2.maneuver = Some(maneuver2);

    let mut annotation = empty_annotation();
    annotation.speed = Some(vec![10_000, 10_000]);

    let route = Route {
        legs: Some(vec![RouteLeg {
            steps: Some(vec![step1, step2]),
            annotation: Some(annotation),
        }]),
    };

    let factory = InstructionsFactory::new(5, true);
    let annotated = factory.apply(route).unwrap();
    let legs = annotated.legs.unwrap();
    assert_eq!(legs.len(), 1);
    let steps = legs[0].steps.as_ref().unwrap();
    assert_eq!(steps.len(), 2);

    // The first step announces the departure and the short next step's
    // maneuver in one notice.
    let voice = steps[0].voice_instructions.as_ref().unwrap();
    assert_eq!(voice.len(), 2);
    assert_eq!(voice[0].announcement, "Head north");
    assert_eq!(voice[0].distance_along_geometry, 93_947_643);
    assert_eq!(voice[1].announcement, "Turn right");
    assert_eq!(voice[1].distance_along_geometry, 70_000_000);

    // Its banner shows the next step's name over the current length.
    let banner = steps[0].banner_instructions.as_ref().unwrap();
    assert_eq!(banner.len(), 1);
    assert_eq!(banner[0].primary.text, "Main Street");
    assert_eq!(banner[0].distance_along_geometry, 95_864_942);
    assert_eq!(banner[0].primary.maneuver_type, Some(ManeuverType::Turn));

    // The last step has an arrival banner and no voice instructions.
    assert!(steps[1].voice_instructions.is_none());
    let last_banner = steps[1].banner_instructions.as_ref().unwrap();
    assert_eq!(last_banner[0].primary.text, "arrive");
    assert_eq!(last_banner[0].distance_along_geometry, 0);

    // Untouched fields carry over.
    assert_eq!(steps[0].distance, Some(95_864_942));
    assert_eq!(steps[1].name.as_deref(), Some("Main Street"));
}

#[test]
fn test_instructions_factory_imperial() {
    let mut step1 = RouteStep::default();
    step1.distance = Some(5_000_000_000);
    step1.name = Some("Main Street".to_string());
    let mut step2 = RouteStep::default();
    step2.distance = Some(200_000_000);
    let mut maneuver2 = StepManeuver::default();
    maneuver2.instruction = Some("Turn right".to_string());
    step2.maneuver = Some(maneuver2);

    let route = Route {
        legs: Some(vec![RouteLeg {
            steps: Some(vec![step1, step2]),
            annotation: None,
        }]),
    };

    let factory = InstructionsFactory::new(5, false);
    let annotated = factory.apply(route).unwrap();
    let legs = annotated.legs.unwrap();
    let steps = legs[0].steps.as_ref().unwrap();
    let voice = steps[0].voice_instructions.as_ref().unwrap();
    assert_eq!(voice.len(), 4);
    assert_eq!(
        voice[0].announcement,
        "Continue on Main Street for three miles"
    );
    assert_eq!(voice[1].announcement, "In one mile, turn right");
    assert_eq!(voice[2].announcement, "In one half mile, turn right");
    assert_eq!(voice[3].announcement, "Turn right");
}

#[test]
fn test_apply_without_legs() {
    let factory = InstructionsFactory::new(5, true);
    assert!(factory.apply(Route { legs: None }).is_none());
}
