use lab_telemetry::notification::{compute_notification_type, Measurement, NotificationType};
use lab_telemetry::stage::ExperimentStage;
use lab_telemetry::temperature::{TempRange, TemperatureSample};

fn inside() -> TemperatureSample {
    TemperatureSample::new(26_000_000, TempRange::new(25_500_000, 26_500_000).unwrap())
}

fn outside() -> TemperatureSample {
    TemperatureSample::new(27_000_000, TempRange::new(25_500_000, 26_500_000).unwrap())
}

#[test]
fn stabilization_announces_the_entry_into_the_range() {
    assert_eq!(
        compute_notification_type(inside(), Some(outside()), &ExperimentStage::Stabilization),
        Some(NotificationType::Stabilized)
    );
}

#[test]
fn stabilization_announces_a_first_sample_inside_the_range() {
    assert_eq!(
        compute_notification_type(inside(), None, &ExperimentStage::Stabilization),
        Some(NotificationType::Stabilized)
    );
}

#[test]
fn carry_out_announces_the_exit_from_the_range() {
    assert_eq!(
        compute_notification_type(outside(), Some(inside()), &ExperimentStage::CarryOut),
        Some(NotificationType::OutOfRange)
    );
}

#[test]
fn carry_out_announces_a_first_sample_outside_the_range() {
    assert_eq!(
        compute_notification_type(outside(), None, &ExperimentStage::CarryOut),
        Some(NotificationType::OutOfRange)
    );
}

#[test]
fn every_other_combination_announces_nothing() {
    let stages = [
        ExperimentStage::Uninitialized,
        ExperimentStage::Configuration,
        ExperimentStage::Stabilization,
        ExperimentStage::CarryOut,
        ExperimentStage::Terminated,
    ];
    let previous = [None, Some(inside()), Some(outside())];
    let current = [inside(), outside()];
    let mut announced = 0;
    for stage in stages {
        for prev in previous {
            for curr in current {
                let expected = match (stage, prev.map(|p| p.is_out_of_range()), curr.is_out_of_range()) {
                    (ExperimentStage::Stabilization, Some(true), false) => Some(NotificationType::Stabilized),
                    (ExperimentStage::Stabilization, None, false) => Some(NotificationType::Stabilized),
                    (ExperimentStage::CarryOut, Some(false), true) => Some(NotificationType::OutOfRange),
                    (ExperimentStage::CarryOut, None, true) => Some(NotificationType::OutOfRange),
                    _ => None,
                };
                if expected.is_some() {
                    announced += 1;
                }
                assert_eq!(compute_notification_type(curr, prev, &stage), expected);
            }
        }
    }
    assert_eq!(announced, 4);
}

#[test]
fn notification_is_edge_triggered() {
    assert_eq!(compute_notification_type(inside(), Some(inside()), &ExperimentStage::Stabilization), None);
    assert_eq!(compute_notification_type(outside(), Some(outside()), &ExperimentStage::CarryOut), None);
    assert_eq!(compute_notification_type(outside(), Some(inside()), &ExperimentStage::Stabilization), None);
    assert_eq!(compute_notification_type(inside(), Some(outside()), &ExperimentStage::CarryOut), None);
}

#[test]
fn notification_names() {
    assert_eq!(NotificationType::OutOfRange.name(), "OutOfRange");
    assert_eq!(NotificationType::Stabilized.name(), "Stabilized");
}

#[test]
fn measurement_takes_the_value_and_the_notification_of_its_sample() {
    let m = Measurement::take(outside(), Some(inside()), &ExperimentStage::CarryOut, "m-1".to_string(), 1_700_000_000_000_000);
    assert_eq!(m.measurement_id, "m-1");
    assert_eq!(m.timestamp, 1_700_000_000_000_000);
    assert_eq!(m.temperature, 27_000_000);
    assert_eq!(m.notification_type, Some(NotificationType::OutOfRange));
    let quiet = Measurement::take(inside(), Some(inside()), &ExperimentStage::CarryOut, "m-2".to_string(), 5);
    assert_eq!(quiet.notification_type, None);
}

#[test]
fn envelope_content_binds_the_measurement_to_its_experiment() {
    let m = Measurement::take(inside(), None, &ExperimentStage::Stabilization, "m-1".to_string(), 42);
    let h = m.hash_data("e-1", "d.landau@uu.nl");
    assert_eq!(h.notification_type, Some(NotificationType::Stabilized));
    assert_eq!(h.timestamp, 42);
    assert_eq!(h.experiment_id, "e-1");
    assert_eq!(h.measurement_id, "m-1");
    assert_eq!(h.researcher, "d.landau@uu.nl");
}
