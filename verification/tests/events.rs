use lab_telemetry::events::{
    copy_strings, temperature_events, DocumentEntry, Event, EventKind, EventWrapper,
    ExperimentSchemas, RecordData,
};
use lab_telemetry::fields::{entry_fields, range_fields, FieldValue};
use lab_telemetry::notification::{Measurement, NotificationType};
use lab_telemetry::temperature::TempRange;

fn range() -> TempRange {
    TempRange::new(25_500_000, 26_500_000).unwrap()
}

fn measurement(id: &str, timestamp: u64, temperature: i64, notification_type: Option<NotificationType>) -> Measurement {
    Measurement { measurement_id: id.to_string(), timestamp, temperature, notification_type }
}

#[test]
fn wrapper_hands_back_its_bytes() {
    let wrapper = EventWrapper::new(vec![1, 2, 3]);
    assert_eq!(wrapper.to_bytes(), &[1u8, 2, 3]);
    assert!(EventWrapper::new(Vec::new()).to_bytes().is_empty());
}

#[test]
fn event_kinds_have_their_record_names() {
    assert_eq!(EventKind::ExperimentConfigured.record_name(), "experiment_configured");
    assert_eq!(EventKind::StabilizationStarted.record_name(), "stabilization_started");
    assert_eq!(EventKind::ExperimentStarted.record_name(), "experiment_started");
    assert_eq!(EventKind::ExperimentTerminated.record_name(), "experiment_terminated");
    assert_eq!(EventKind::SensorTemperatureMeasured.record_name(), "sensor_temperature_measured");
    assert_eq!(EventKind::ExperimentDocument.record_name(), "experiment_document");
}

#[test]
fn schemas_are_found_by_kind() {
    let schemas = ExperimentSchemas::new();
    assert_eq!(schemas.directory, "experiment-producer/schemas");
    assert_eq!(
        schemas.schema_path(EventKind::SensorTemperatureMeasured),
        "experiment-producer/schemas/sensor_temperature_measured.avsc"
    );
    assert_eq!(
        schemas.schema_path(EventKind::ExperimentTerminated),
        "experiment-producer/schemas/experiment_terminated.avsc"
    );
}

#[test]
fn configured_event_holds_the_configuration() {
    let sensors = vec!["s-1".to_string(), "s-2".to_string()];
    let event = ExperimentSchemas::new().experiment_configured_event("e-1", "d.landau@uu.nl", &sensors, range());
    assert_eq!(event.kind(), EventKind::ExperimentConfigured);
    match event {
        Event::ExperimentConfigured { experiment, researcher, sensors, temperature_range } => {
            assert_eq!(experiment, "e-1");
            assert_eq!(researcher, "d.landau@uu.nl");
            assert_eq!(sensors, vec!["s-1".to_string(), "s-2".to_string()]);
            assert_eq!(temperature_range, range());
        }
        other => panic!("{:?}", other),
    }
}

#[test]
fn stage_events_hold_the_experiment_and_the_time() {
    let schemas = ExperimentSchemas::new();
    match schemas.stabilization_started_event("e-1", 11) {
        Event::StabilizationStarted { experiment, timestamp } => {
            assert_eq!(experiment, "e-1");
            assert_eq!(timestamp, 11);
        }
        other => panic!("{:?}", other),
    }
    match schemas.experiment_started_event("e-2", 12) {
        Event::ExperimentStarted { experiment, timestamp } => {
            assert_eq!(experiment, "e-2");
            assert_eq!(timestamp, 12);
        }
        other => panic!("{:?}", other),
    }
    match schemas.experiment_terminated_event("e-3", 13) {
        Event::ExperimentTerminated { experiment, timestamp } => {
            assert_eq!(experiment, "e-3");
            assert_eq!(timestamp, 13);
        }
        other => panic!("{:?}", other),
    }
}

#[test]
fn measured_event_holds_its_six_fields() {
    let event = ExperimentSchemas::new().temperature_measured_event("e-1", "m-1", "s-1", 26_100_000, 99, "sealed");
    assert_eq!(event.kind(), EventKind::SensorTemperatureMeasured);
    match event {
        Event::SensorTemperatureMeasured { experiment, sensor, measurement_id, temperature, timestamp, measurement_hash } => {
            assert_eq!(experiment, "e-1");
            assert_eq!(sensor, "s-1");
            assert_eq!(measurement_id, "m-1");
            assert_eq!(temperature, 26_100_000);
            assert_eq!(timestamp, 99);
            assert_eq!(measurement_hash, "sealed");
        }
        other => panic!("{:?}", other),
    }
}

#[test]
fn document_event_lists_the_measurements_in_order() {
    let measurements = vec![
        measurement("m-1", 10, 26_000_000, None),
        measurement("m-2", 20, 27_000_000, Some(NotificationType::OutOfRange)),
        measurement("m-3", 30, 25_000_000, None),
    ];
    match ExperimentSchemas::new().experiment_document_event("e-1", &measurements, range()) {
        Event::ExperimentDocument { experiment, measurements, temperature_range } => {
            assert_eq!(experiment, "e-1");
            assert_eq!(
                measurements,
                vec![
                    DocumentEntry { timestamp: 10, temperature: 26_000_000 },
                    DocumentEntry { timestamp: 20, temperature: 27_000_000 },
                    DocumentEntry { timestamp: 30, temperature: 25_000_000 },
                ]
            );
            assert_eq!(temperature_range, range());
        }
        other => panic!("{:?}", other),
    }
}

#[test]
fn document_event_of_no_measurements_is_empty() {
    match ExperimentSchemas::new().experiment_document_event("e-1", &[], range()) {
        Event::ExperimentDocument { measurements, .. } => assert!(measurements.is_empty()),
        other => panic!("{:?}", other),
    }
}

#[test]
fn record_is_keyed_by_the_experiment_and_names_its_kind() {
    let event = ExperimentSchemas::new().experiment_started_event("e-1", 12);
    let record = RecordData::for_event(event, "e-1");
    assert_eq!(record.key.as_deref(), Some("e-1"));
    assert_eq!(record.headers.len(), 1);
    assert_eq!(record.headers[0].key, "record_name");
    assert_eq!(record.headers[0].value, "experiment_started");
    assert_eq!(record.payload.kind(), EventKind::ExperimentStarted);
}

#[test]
fn one_event_per_sensor_reading() {
    let m = measurement("m-1", 77, 26_000_000, None);
    let readings = vec![("s-1", 26_300_000i64), ("s-2", 25_700_000)];
    let events = temperature_events(&ExperimentSchemas::new(), "e-1", &m, &readings, "sealed");
    assert_eq!(events.len(), 2);
    for (i, event) in events.iter().enumerate() {
        match event {
            Event::SensorTemperatureMeasured { experiment, sensor, measurement_id, temperature, timestamp, measurement_hash } => {
                assert_eq!(experiment, "e-1");
                assert_eq!(sensor, readings[i].0);
                assert_eq!(measurement_id, "m-1");
                assert_eq!(*temperature, readings[i].1);
                assert_eq!(*timestamp, 77);
                assert_eq!(measurement_hash, "sealed");
            }
            other => panic!("{:?}", other),
        }
    }
}

#[test]
fn plan_publishes_every_event_and_paces_by_the_period() {
    let m = measurement("m-1", 77, 27_000_000, Some(NotificationType::OutOfRange));
    let readings = vec![("s-1", 27_300_000i64), ("s-2", 26_700_000)];
    let events = temperature_events(&ExperimentSchemas::new(), "e-1", &m, &readings, "sealed");
    let plan = m.persist_sensor_events(true, "experiment", "e-1", events, 1000);
    assert_eq!(plan.topic, "experiment");
    assert_eq!(plan.period_millis, 1000);
    assert_eq!(plan.records.len(), 2);
    for (i, record) in plan.records.iter().enumerate() {
        assert_eq!(record.key.as_deref(), Some("e-1"));
        assert_eq!(record.headers.len(), 1);
        assert_eq!(record.headers[0].key, "record_name");
        assert_eq!(record.headers[0].value, "sensor_temperature_measured");
        match &record.payload {
            Event::SensorTemperatureMeasured { sensor, .. } => assert_eq!(sensor, readings[i].0),
            other => panic!("{:?}", other),
        }
    }
    let truth = plan.ground_truth.unwrap();
    assert_eq!(truth.experiment_id, "e-1");
    assert_eq!(truth.measurement_id, "m-1");
}

#[test]
fn ground_truth_needs_a_notification_and_a_request_for_it() {
    let loud = measurement("m-1", 77, 27_000_000, Some(NotificationType::OutOfRange));
    let quiet = measurement("m-2", 78, 26_000_000, None);
    assert!(loud.persist_sensor_events(false, "t", "e-1", Vec::new(), 5).ground_truth.is_none());
    assert!(quiet.persist_sensor_events(true, "t", "e-1", Vec::new(), 5).ground_truth.is_none());
    assert!(quiet.persist_sensor_events(false, "t", "e-1", Vec::new(), 5).ground_truth.is_none());
    let plan = loud.persist_sensor_events(true, "t", "e-1", Vec::new(), 5);
    assert!(plan.ground_truth.is_some());
    assert!(plan.records.is_empty());
}

#[test]
fn strings_are_copied_in_order() {
    let strings = vec!["a".to_string(), "".to_string(), "c".to_string()];
    assert_eq!(copy_strings(&strings), strings);
    assert!(copy_strings(&[]).is_empty());
}

#[test]
fn measured_event_has_its_fields_in_schema_order() {
    let event = ExperimentSchemas::new().temperature_measured_event("e-1", "m-1", "s-1", 26_100_000, 99, "sealed");
    let fields = event.fields();
    let names: Vec<&str> = fields.iter().map(|f| f.name).collect();
    assert_eq!(names, vec!["experiment", "sensor", "measurement_id", "temperature", "timestamp", "measurement_hash"]);
    assert!(matches!(&fields[0].value, FieldValue::Text(t) if t == "e-1"));
    assert!(matches!(&fields[1].value, FieldValue::Text(t) if t == "s-1"));
    assert!(matches!(&fields[2].value, FieldValue::Text(t) if t == "m-1"));
    assert!(matches!(&fields[3].value, FieldValue::Temperature(26_100_000)));
    assert!(matches!(&fields[4].value, FieldValue::Timestamp(99)));
    assert!(matches!(&fields[5].value, FieldValue::Text(t) if t == "sealed"));
}

#[test]
fn lifecycle_events_have_their_fields_in_schema_order() {
    let schemas = ExperimentSchemas::new();
    let sensors = vec!["s-1".to_string(), "s-2".to_string()];
    let configured = schemas.experiment_configured_event("e-1", "r", &sensors, range()).fields();
    let names: Vec<&str> = configured.iter().map(|f| f.name).collect();
    assert_eq!(names, vec!["experiment", "researcher", "sensors", "temperature_range"]);
    assert!(matches!(&configured[2].value, FieldValue::TextList(list) if *list == sensors));
    assert!(matches!(&configured[3].value, FieldValue::Range(r) if *r == range()));
    for event in [
        schemas.stabilization_started_event("e-1", 5),
        schemas.experiment_started_event("e-1", 5),
        schemas.experiment_terminated_event("e-1", 5),
    ] {
        let fields = event.fields();
        assert_eq!(fields.len(), 2);
        assert_eq!(fields[0].name, "experiment");
        assert!(matches!(&fields[0].value, FieldValue::Text(t) if t == "e-1"));
        assert_eq!(fields[1].name, "timestamp");
        assert!(matches!(&fields[1].value, FieldValue::Timestamp(5)));
    }
}

#[test]
fn document_event_has_its_fields_in_schema_order() {
    let measurements = vec![measurement("m-1", 10, 26_000_000, None), measurement("m-2", 20, 27_000_000, None)];
    let fields = ExperimentSchemas::new().experiment_document_event("e-1", &measurements, range()).fields();
    let names: Vec<&str> = fields.iter().map(|f| f.name).collect();
    assert_eq!(names, vec!["experiment", "measurements", "temperature_range"]);
    match &fields[1].value {
        FieldValue::Entries(entries) => {
            assert_eq!(entries.len(), 2);
            let entry = entry_fields(entries[1]);
            assert_eq!(entry[0].name, "timestamp");
            assert!(matches!(&entry[0].value, FieldValue::Timestamp(20)));
            assert_eq!(entry[1].name, "temperature");
            assert!(matches!(&entry[1].value, FieldValue::Temperature(27_000_000)));
        }
        other => panic!("{:?}", other),
    }
    let thresholds = range_fields(range());
    assert_eq!(thresholds[0].name, "upper_threshold");
    assert!(matches!(&thresholds[0].value, FieldValue::Temperature(26_500_000)));
    assert_eq!(thresholds[1].name, "lower_threshold");
    assert!(matches!(&thresholds[1].value, FieldValue::Temperature(25_500_000)));
}
