use lab_telemetry::events::{Event, EventKind};
use lab_telemetry::experiment::{
    Action, Experiment, ExperimentConfiguration, Input, Outside, MAX_SENSORS, TEMPERATURE_LIMIT,
};
use lab_telemetry::notification::NotificationType;
use lab_telemetry::stage::ExperimentStage;
use lab_telemetry::temperature::{TempRange, BOUNDARY_MARGIN, DEGREE};

fn micro(degrees: f64) -> i64 {
    (degrees * 1_000_000.0).round() as i64
}

fn configuration(stabilization: u16, carry_out: u16, document: Option<&str>) -> ExperimentConfiguration {
    ExperimentConfiguration::new(
        "d.landau@uu.nl".to_string(),
        2,
        1000,
        TempRange::new(micro(25.5), micro(26.5)).unwrap(),
        stabilization,
        carry_out,
        "QJUHsPhnA0eiqHuJqsPgzhDozYO4f1zh".to_string(),
        "experiment".to_string(),
        document.map(|d| d.to_string()),
    )
}

fn fixed(stabilization: u16, carry_out: u16, document: Option<&str>) -> ExperimentConfiguration {
    ExperimentConfiguration::with_ids(
        "e-1".to_string(),
        vec!["s-1".to_string(), "s-2".to_string()],
        "d.landau@uu.nl".to_string(),
        1000,
        TempRange::new(micro(25.5), micro(26.5)).unwrap(),
        stabilization,
        carry_out,
        "key".to_string(),
        "experiment".to_string(),
        document.map(|d| d.to_string()),
    )
}

fn outside(now: u64, id: &str, draw: i64, offsets: Vec<i64>) -> Outside {
    Outside { now, fresh_id: id.to_string(), draw, offsets }
}

fn is_uuid(text: &str) -> bool {
    let bytes = text.as_bytes();
    bytes.len() == 36
        && bytes.iter().enumerate().all(|(i, b)| {
            if i == 8 || i == 13 || i == 18 || i == 23 {
                *b == b'-'
            } else {
                b.is_ascii_digit() || (b'a'..=b'f').contains(b)
            }
        })
        && bytes[14] == b'4'
        && matches!(bytes[19], b'8' | b'9' | b'a' | b'b')
}

fn run(mut experiment: Experiment) -> (Vec<String>, Vec<Action>, Experiment) {
    let mut names = Vec::new();
    let mut actions = Vec::new();
    let mut input = Input::Proceed;
    loop {
        let action = experiment.step(input).expect("the clock is past the epoch");
        input = Input::Proceed;
        match &action {
            Action::Send { record, .. } => names.push(record.payload.kind().record_name().to_string()),
            Action::Seal { hash_data, .. } => {
                names.push("seal".to_string());
                input = Input::Sealed(format!("sealed:{}", hash_data.measurement_id));
            }
            Action::Publish { .. } => names.push("publish".to_string()),
            Action::Finished => {
                actions.push(action);
                break;
            }
        }
        actions.push(action);
        assert!(actions.len() < 10_000);
    }
    (names, actions, experiment)
}

fn expected_names(stabilization: usize, carry_out: usize, document: bool) -> Vec<String> {
    let mut names = vec!["experiment_configured".to_string(), "stabilization_started".to_string()];
    for _ in 0..stabilization {
        names.push("seal".to_string());
        names.push("publish".to_string());
    }
    names.push("experiment_started".to_string());
    for _ in 0..carry_out {
        names.push("seal".to_string());
        names.push("publish".to_string());
    }
    names.push("experiment_terminated".to_string());
    if document {
        names.push("experiment_document".to_string());
    }
    names
}

#[test]
fn configuration_draws_fresh_identifiers() {
    let config = configuration(2, 20, None);
    assert!(is_uuid(config.experiment_id()));
    assert_eq!(config.experiment_id(), config.experiment_id);
    assert_eq!(config.sensors().len(), 2);
    assert!(config.sensors().iter().all(|s| is_uuid(s)));
    assert_ne!(config.sensors()[0], config.sensors()[1]);
    assert_ne!(config.sensors()[0], config.experiment_id);
    assert_ne!(configuration(2, 20, None).experiment_id, config.experiment_id);
}

#[test]
fn configuration_keeps_what_it_was_given() {
    let config = configuration(2, 20, Some("documents"));
    assert_eq!(config.researcher(), "d.landau@uu.nl");
    assert_eq!(config.sample_rate(), 1000);
    assert_eq!(config.temp_range(), TempRange::new(micro(25.5), micro(26.5)).unwrap());
    assert_eq!(config.stabilization_samples(), 2);
    assert_eq!(config.carry_out_samples(), 20);
    assert_eq!(config.secret_key(), "QJUHsPhnA0eiqHuJqsPgzhDozYO4f1zh");
    assert_eq!(config.topic(), "experiment");
    assert_eq!(config.topic_document(), Some("documents"));
    assert_eq!(configuration(2, 20, None).topic_document(), None);
}

#[test]
fn configuration_without_sensors_has_none() {
    let config = ExperimentConfiguration::new(
        "r".to_string(),
        0,
        1,
        TempRange::new(0, 1).unwrap(),
        0,
        0,
        "k".to_string(),
        "t".to_string(),
        None,
    );
    assert!(config.sensors().is_empty());
    assert!(!config.is_supported());
}

#[test]
fn supported_configurations() {
    assert!(configuration(2, 20, None).is_supported());
    assert!(Experiment::supports(micro(16.0), &configuration(2, 20, None)));
    assert!(Experiment::supports(TEMPERATURE_LIMIT, &configuration(2, 20, None)));
    assert!(!Experiment::supports(TEMPERATURE_LIMIT + 1, &configuration(2, 20, None)));
    assert!(!Experiment::supports(-TEMPERATURE_LIMIT - 1, &configuration(2, 20, None)));
    let with_range = |lower: i64, upper: i64, sensors: usize| {
        ExperimentConfiguration::with_ids(
            "e".to_string(),
            vec![String::new(); sensors],
            "r".to_string(),
            1,
            TempRange { lower_threshold: lower, upper_threshold: upper },
            1,
            1,
            "k".to_string(),
            "t".to_string(),
            None,
        )
    };
    assert!(with_range(-TEMPERATURE_LIMIT, TEMPERATURE_LIMIT, 1).is_supported());
    assert!(!with_range(-TEMPERATURE_LIMIT - 1, 0, 1).is_supported());
    assert!(!with_range(0, TEMPERATURE_LIMIT + 1, 1).is_supported());
    assert!(!with_range(5, 4, 1).is_supported());
    assert!(!with_range(0, 1, 0).is_supported());
    assert_eq!(MAX_SENSORS, 1_000_000);
}

#[test]
fn experiment_emits_its_events_in_order() {
    let experiment = Experiment::new(micro(16.0), configuration(2, 20, None), false);
    assert_eq!(experiment.stage(), ExperimentStage::Uninitialized);
    let (names, actions, experiment) = run(experiment);
    assert_eq!(names, expected_names(2, 20, false));
    assert_eq!(experiment.stage(), ExperimentStage::Terminated);
    assert_eq!(experiment.measurements().len(), 20);
    let published: usize = actions
        .iter()
        .map(|a| match a {
            Action::Publish { plan } => plan.records.len(),
            _ => 0,
        })
        .sum();
    assert_eq!(published, 2 * (2 + 20));
    assert!(matches!(actions.last(), Some(Action::Finished)));
}

#[test]
fn experiment_with_a_document_topic_ends_with_one_document() {
    let experiment = Experiment::new(micro(16.0), configuration(2, 20, Some("documents")), false);
    let (names, actions, mut experiment) = run(experiment);
    assert_eq!(names, expected_names(2, 20, true));
    let documents: Vec<&Action> = actions
        .iter()
        .filter(|a| matches!(a, Action::Send { record, .. } if record.payload.kind() == EventKind::ExperimentDocument))
        .collect();
    assert_eq!(documents.len(), 1);
    match documents[0] {
        Action::Send { record, topic } => {
            assert_eq!(topic, "documents");
            match &record.payload {
                Event::ExperimentDocument { measurements, temperature_range, experiment: id } => {
                    assert_eq!(measurements.len(), 20);
                    assert_eq!(*temperature_range, TempRange::new(micro(25.5), micro(26.5)).unwrap());
                    assert_eq!(id, experiment.config().experiment_id());
                    for (entry, m) in measurements.iter().zip(experiment.measurements()) {
                        assert_eq!(entry.timestamp, m.timestamp);
                        assert_eq!(entry.temperature, m.temperature);
                    }
                }
                other => panic!("{:?}", other),
            }
        }
        other => panic!("{:?}", other),
    }
    assert!(matches!(experiment.step(Input::Proceed), Some(Action::Finished)));
    assert!(matches!(experiment.step(Input::Proceed), Some(Action::Finished)));
    assert_eq!(experiment.stage(), ExperimentStage::Terminated);
}

#[test]
fn experiment_without_samples_still_passes_every_stage() {
    let (names, _, experiment) = run(Experiment::new(0, configuration(0, 0, Some("documents")), true));
    assert_eq!(names, expected_names(0, 0, true));
    assert!(experiment.measurements().is_empty());
}

#[test]
fn experiment_stages_only_move_forward() {
    let mut experiment = Experiment::new(micro(16.0), configuration(3, 4, None), false);
    let rank = |stage: ExperimentStage| match stage {
        ExperimentStage::Uninitialized => 0,
        ExperimentStage::Configuration => 1,
        ExperimentStage::Stabilization => 2,
        ExperimentStage::CarryOut => 3,
        ExperimentStage::Terminated => 4,
    };
    let mut last = 0;
    let mut input = Input::Proceed;
    for _ in 0..40 {
        let action = experiment.step(input).unwrap();
        input = match action {
            Action::Seal { .. } => Input::Sealed("t".to_string()),
            _ => Input::Proceed,
        };
        let now = rank(experiment.stage());
        assert!(now == last || now == last + 1);
        last = now;
    }
    assert_eq!(last, 4);
}

#[test]
fn experiment_stamps_its_events_with_the_current_time() {
    let mut experiment = Experiment::new(micro(16.0), configuration(1, 0, None), false);
    experiment.step(Input::Proceed).unwrap();
    match experiment.step(Input::Proceed).unwrap() {
        Action::Send { record, .. } => match record.payload {
            Event::StabilizationStarted { timestamp, .. } => {
                assert!(timestamp > 1_600_000_000_000_000);
                assert!(timestamp < 32_503_680_000_000_000);
            }
            other => panic!("{:?}", other),
        },
        other => panic!("{:?}", other),
    }
    match experiment.step(Input::Proceed).unwrap() {
        Action::Seal { hash_data, secret_key } => {
            assert!(is_uuid(&hash_data.measurement_id));
            assert!(hash_data.timestamp > 1_600_000_000_000_000);
            assert_eq!(secret_key, "QJUHsPhnA0eiqHuJqsPgzhDozYO4f1zh");
        }
        other => panic!("{:?}", other),
    }
}

#[test]
fn steps_in_given_surroundings_are_determined() {
    let mut experiment = Experiment::new(micro(16.0), fixed(2, 1, Some("documents")), true);
    assert!(!experiment.awaits_seal());

    match experiment.step_with(Input::Proceed, outside(1, "unused", 0, vec![0])) {
        Action::Send { record, topic } => {
            assert_eq!(topic, "experiment");
            assert_eq!(record.key.as_deref(), Some("e-1"));
            assert_eq!(record.headers[0].value, "experiment_configured");
            match record.payload {
                Event::ExperimentConfigured { experiment, researcher, sensors, temperature_range } => {
                    assert_eq!(experiment, "e-1");
                    assert_eq!(researcher, "d.landau@uu.nl");
                    assert_eq!(sensors, vec!["s-1".to_string(), "s-2".to_string()]);
                    assert_eq!(temperature_range, TempRange::new(micro(25.5), micro(26.5)).unwrap());
                }
                other => panic!("{:?}", other),
            }
        }
        other => panic!("{:?}", other),
    }
    assert_eq!(experiment.stage(), ExperimentStage::Configuration);

    match experiment.step_with(Input::Proceed, outside(2, "unused", 0, vec![0])) {
        Action::Send { record, .. } => match record.payload {
            Event::StabilizationStarted { experiment, timestamp } => {
                assert_eq!(experiment, "e-1");
                assert_eq!(timestamp, 2);
            }
            other => panic!("{:?}", other),
        },
        other => panic!("{:?}", other),
    }
    assert_eq!(experiment.stage(), ExperimentStage::Stabilization);

    // First stabilization sample: 16 + (26 - 16) / 2 = 21, out of range.
    match experiment.step_with(Input::Proceed, outside(3, "m-1", 123, vec![0])) {
        Action::Seal { hash_data, secret_key } => {
            assert_eq!(secret_key, "key");
            assert_eq!(hash_data.notification_type, None);
            assert_eq!(hash_data.timestamp, 3);
            assert_eq!(hash_data.experiment_id, "e-1");
            assert_eq!(hash_data.measurement_id, "m-1");
            assert_eq!(hash_data.researcher, "d.landau@uu.nl");
        }
        other => panic!("{:?}", other),
    }
    assert!(experiment.awaits_seal());

    // A step without the token asks for the same envelope again.
    match experiment.step_with(Input::Proceed, outside(4, "m-x", 0, vec![0])) {
        Action::Seal { hash_data, .. } => {
            assert_eq!(hash_data.measurement_id, "m-1");
            assert_eq!(hash_data.timestamp, 3);
        }
        other => panic!("{:?}", other),
    }
    assert!(experiment.awaits_seal());

    match experiment.step_with(Input::Sealed("token-1".to_string()), outside(5, "unused", 0, vec![250_000])) {
        Action::Publish { plan } => {
            assert_eq!(plan.topic, "experiment");
            assert_eq!(plan.period_millis, 1000);
            assert!(plan.ground_truth.is_none());
            assert_eq!(plan.records.len(), 2);
            let expected = [("s-1", micro(21.25)), ("s-2", micro(20.75))];
            for (record, (sensor_id, value)) in plan.records.iter().zip(expected) {
                assert_eq!(record.key.as_deref(), Some("e-1"));
                assert_eq!(record.headers[0].key, "record_name");
                assert_eq!(record.headers[0].value, "sensor_temperature_measured");
                match &record.payload {
                    Event::SensorTemperatureMeasured { experiment, sensor, measurement_id, temperature, timestamp, measurement_hash } => {
                        assert_eq!(experiment, "e-1");
                        assert_eq!(sensor, sensor_id);
                        assert_eq!(measurement_id, "m-1");
                        assert_eq!(*temperature, value);
                        assert_eq!(*timestamp, 3);
                        assert_eq!(measurement_hash, "token-1");
                    }
                    other => panic!("{:?}", other),
                }
            }
        }
        other => panic!("{:?}", other),
    }
    assert!(!experiment.awaits_seal());

    // Second stabilization sample: 26, in range after one out of range.
    match experiment.step_with(Input::Proceed, outside(6, "m-2", 0, vec![0])) {
        Action::Seal { hash_data, .. } => {
            assert_eq!(hash_data.notification_type, Some(NotificationType::Stabilized));
            assert_eq!(hash_data.measurement_id, "m-2");
        }
        other => panic!("{:?}", other),
    }
    match experiment.step_with(Input::Sealed("token-2".to_string()), outside(7, "unused", 0, vec![-1_000_000])) {
        Action::Publish { plan } => {
            // A stabilization notification is no ground truth.
            assert!(plan.ground_truth.is_none());
            match (&plan.records[0].payload, &plan.records[1].payload) {
                (
                    Event::SensorTemperatureMeasured { temperature: first, .. },
                    Event::SensorTemperatureMeasured { temperature: second, .. },
                ) => {
                    assert_eq!(*first, micro(25.0));
                    assert_eq!(*second, micro(27.0));
                }
                other => panic!("{:?}", other),
            }
        }
        other => panic!("{:?}", other),
    }
    assert!(experiment.measurements().is_empty());

    match experiment.step_with(Input::Proceed, outside(8, "unused", 0, vec![0])) {
        Action::Send { record, .. } => match record.payload {
            Event::ExperimentStarted { timestamp, .. } => assert_eq!(timestamp, 8),
            other => panic!("{:?}", other),
        },
        other => panic!("{:?}", other),
    }
    assert_eq!(experiment.stage(), ExperimentStage::CarryOut);

    // The carry-out sample moves by 100% of the width: 26 + 1 = 27, out of range.
    match experiment.step_with(Input::Proceed, outside(9, "m-3", 999_999, vec![0])) {
        Action::Seal { hash_data, .. } => {
            assert_eq!(hash_data.notification_type, Some(NotificationType::OutOfRange));
            assert_eq!(hash_data.timestamp, 9);
        }
        other => panic!("{:?}", other),
    }
    match experiment.step_with(Input::Sealed("token-3".to_string()), outside(10, "unused", 0, vec![0])) {
        Action::Publish { plan } => {
            let truth = plan.ground_truth.unwrap();
            assert_eq!(truth.experiment_id, "e-1");
            assert_eq!(truth.measurement_id, "m-3");
        }
        other => panic!("{:?}", other),
    }
    assert_eq!(experiment.measurements().len(), 1);
    assert_eq!(experiment.measurements()[0].measurement_id, "m-3");
    assert_eq!(experiment.measurements()[0].temperature, micro(27.0) - 1);
    assert_eq!(experiment.measurements()[0].notification_type, Some(NotificationType::OutOfRange));

    match experiment.step_with(Input::Proceed, outside(11, "unused", 0, vec![0])) {
        Action::Send { record, topic } => {
            assert_eq!(topic, "experiment");
            match record.payload {
                Event::ExperimentTerminated { timestamp, .. } => assert_eq!(timestamp, 11),
                other => panic!("{:?}", other),
            }
        }
        other => panic!("{:?}", other),
    }
    assert_eq!(experiment.stage(), ExperimentStage::Terminated);

    match experiment.step_with(Input::Proceed, outside(12, "unused", 0, vec![0])) {
        Action::Send { record, topic } => {
            assert_eq!(topic, "documents");
            assert_eq!(record.key.as_deref(), Some("e-1"));
            assert_eq!(record.headers[0].value, "experiment_document");
            match record.payload {
                Event::ExperimentDocument { measurements, .. } => {
                    assert_eq!(measurements.len(), 1);
                    assert_eq!(measurements[0].timestamp, 9);
                    assert_eq!(measurements[0].temperature, micro(27.0) - 1);
                }
                other => panic!("{:?}", other),
            }
        }
        other => panic!("{:?}", other),
    }
    assert!(matches!(experiment.step_with(Input::Proceed, outside(13, "unused", 0, vec![0])), Action::Finished));
    assert!(matches!(
        experiment.step_with(Input::Sealed("late".to_string()), outside(14, "unused", 0, vec![0])),
        Action::Finished
    ));
}

#[test]
fn ground_truth_is_not_kept_unless_asked_for() {
    let mut experiment = Experiment::new(micro(26.0), fixed(0, 1, None), false);
    experiment.step_with(Input::Proceed, outside(1, "u", 0, vec![0]));
    experiment.step_with(Input::Proceed, outside(2, "u", 0, vec![0]));
    experiment.step_with(Input::Proceed, outside(3, "u", 0, vec![0]));
    match experiment.step_with(Input::Proceed, outside(4, "m-1", -999_999, vec![0])) {
        Action::Seal { hash_data, .. } => {
            assert_eq!(hash_data.notification_type, Some(NotificationType::OutOfRange))
        }
        other => panic!("{:?}", other),
    }
    match experiment.step_with(Input::Sealed("t".to_string()), outside(5, "u", 0, vec![0])) {
        Action::Publish { plan } => assert!(plan.ground_truth.is_none()),
        other => panic!("{:?}", other),
    }
}

#[test]
fn measurements_stay_clear_of_the_thresholds() {
    let (_, actions, experiment) = run(Experiment::new(micro(16.0), configuration(50, 500, None), false));
    assert_eq!(experiment.measurements().len(), 500);
    let range = experiment.config().temp_range();
    for m in experiment.measurements() {
        assert!((m.temperature - range.upper_threshold).abs() > BOUNDARY_MARGIN);
        assert!((m.temperature - range.lower_threshold).abs() > BOUNDARY_MARGIN);
    }
    for action in &actions {
        if let Action::Publish { plan } = action {
            let mut total: i128 = 0;
            let mut first = 0;
            for (i, record) in plan.records.iter().enumerate() {
                match &record.payload {
                    Event::SensorTemperatureMeasured { temperature, .. } => {
                        total += *temperature as i128;
                        if i == 0 {
                            first = *temperature;
                        }
                    }
                    other => panic!("{:?}", other),
                }
            }
            assert_eq!(plan.records.len(), 2);
            assert_eq!(total % 2, 0);
            assert!((first as i128 - total / 2).abs() <= DEGREE as i128);
        }
    }
}
