//! The events of an experiment as records of fields, and the broker records
//! that carry them.
//!
//! An `Event` holds the fields of one wire event. Turning it into bytes, under
//! the schema of its kind, is left to the caller; `EventWrapper` holds the bytes.

use vstd::prelude::*;
use vstd::string::StringExecFns;

use crate::notification::{measurement_views, Measurement, MeasurementView};
use crate::temperature::TempRange;

verus! {

/// The views of a sequence of strings.
pub open spec fn texts(strings: Seq<String>) -> Seq<Seq<char>> {
    strings.map_values(|s: String| s@)
}

/// An encoded event: the bytes that travel as a record's payload.
#[derive(Debug)]
pub struct EventWrapper(Vec<u8>);

impl View for EventWrapper {
    type V = Seq<u8>;

    closed spec fn view(&self) -> Seq<u8> {
        self.0@
    }
}

impl EventWrapper {
    pub fn new(bytes: Vec<u8>) -> (wrapper: Self)
        ensures
            wrapper@ == bytes@,
    {
        EventWrapper(bytes)
    }

    pub fn to_bytes(&self) -> (bytes: &[u8])
        ensures
            bytes@ == self@,
    {
        self.0.as_slice()
    }
}

/// The kinds of event that an experiment emits.
#[derive(Clone, Copy, Debug, PartialEq, Eq, Hash, Structural)]
pub enum EventKind {
    ExperimentConfigured,
    StabilizationStarted,
    ExperimentStarted,
    ExperimentTerminated,
    SensorTemperatureMeasured,
    ExperimentDocument,
}

impl EventKind {
    /// The name of the kind, as the `record_name` header of a record gives it.
    pub open spec fn label(self) -> Seq<char> {
        match self {
            EventKind::ExperimentConfigured => "experiment_configured"@,
            EventKind::StabilizationStarted => "stabilization_started"@,
            EventKind::ExperimentStarted => "experiment_started"@,
            EventKind::ExperimentTerminated => "experiment_terminated"@,
            EventKind::SensorTemperatureMeasured => "sensor_temperature_measured"@,
            EventKind::ExperimentDocument => "experiment_document"@,
        }
    }

    pub fn record_name(&self) -> (name: &'static str)
        ensures
            name@ == self.label(),
    {
        match self {
            EventKind::ExperimentConfigured => "experiment_configured",
            EventKind::StabilizationStarted => "stabilization_started",
            EventKind::ExperimentStarted => "experiment_started",
            EventKind::ExperimentTerminated => "experiment_terminated",
            EventKind::SensorTemperatureMeasured => "sensor_temperature_measured",
            EventKind::ExperimentDocument => "experiment_document",
        }
    }
}

/// One entry of an experiment document.
#[derive(Clone, Copy, Debug, PartialEq, Eq, Structural)]
pub struct DocumentEntry {
    /// Microseconds since the Unix epoch.
    pub timestamp: u64,
    pub temperature: i64,
}

/// The document entries of a sequence of measurements, in their order.
pub open spec fn document_entries(measurements: Seq<MeasurementView>) -> Seq<DocumentEntry> {
    measurements.map_values(
        |m: MeasurementView| DocumentEntry { timestamp: m.timestamp, temperature: m.temperature },
    )
}

/// The fields of one event. Timestamps count microseconds since the Unix epoch.
#[derive(Debug)]
pub enum Event {
    ExperimentConfigured {
        experiment: String,
        researcher: String,
        sensors: Vec<String>,
        temperature_range: TempRange,
    },
    StabilizationStarted { experiment: String, timestamp: u64 },
    ExperimentStarted { experiment: String, timestamp: u64 },
    ExperimentTerminated { experiment: String, timestamp: u64 },
    SensorTemperatureMeasured {
        experiment: String,
        sensor: String,
        measurement_id: String,
        temperature: i64,
        timestamp: u64,
        measurement_hash: String,
    },
    ExperimentDocument {
        experiment: String,
        measurements: Vec<DocumentEntry>,
        temperature_range: TempRange,
    },
}

/// An event as a mathematical value.
pub enum EventView {
    ExperimentConfigured {
        experiment: Seq<char>,
        researcher: Seq<char>,
        sensors: Seq<Seq<char>>,
        temperature_range: TempRange,
    },
    StabilizationStarted { experiment: Seq<char>, timestamp: u64 },
    ExperimentStarted { experiment: Seq<char>, timestamp: u64 },
    ExperimentTerminated { experiment: Seq<char>, timestamp: u64 },
    SensorTemperatureMeasured {
        experiment: Seq<char>,
        sensor: Seq<char>,
        measurement_id: Seq<char>,
        temperature: i64,
        timestamp: u64,
        measurement_hash: Seq<char>,
    },
    ExperimentDocument {
        experiment: Seq<char>,
        measurements: Seq<DocumentEntry>,
        temperature_range: TempRange,
    },
}

impl EventView {
    pub open spec fn kind(self) -> EventKind {
        match self {
            EventView::ExperimentConfigured { .. } => EventKind::ExperimentConfigured,
            EventView::StabilizationStarted { .. } => EventKind::StabilizationStarted,
            EventView::ExperimentStarted { .. } => EventKind::ExperimentStarted,
            EventView::ExperimentTerminated { .. } => EventKind::ExperimentTerminated,
            EventView::SensorTemperatureMeasured { .. } => EventKind::SensorTemperatureMeasured,
            EventView::ExperimentDocument { .. } => EventKind::ExperimentDocument,
        }
    }
}

impl View for Event {
    type V = EventView;

    open spec fn view(&self) -> EventView {
        match *self {
            Event::ExperimentConfigured { experiment, researcher, sensors, temperature_range } => {
                EventView::ExperimentConfigured {
                    experiment: experiment@,
                    researcher: researcher@,
                    sensors: texts(sensors@),
                    temperature_range,
                }
            },
            Event::StabilizationStarted { experiment, timestamp } => {
                EventView::StabilizationStarted { experiment: experiment@, timestamp }
            },
            Event::ExperimentStarted { experiment, timestamp } => {
                EventView::ExperimentStarted { experiment: experiment@, timestamp }
            },
            Event::ExperimentTerminated { experiment, timestamp } => {
                EventView::ExperimentTerminated { experiment: experiment@, timestamp }
            },
            Event::SensorTemperatureMeasured {
                experiment,
                sensor,
                measurement_id,
                temperature,
                timestamp,
                measurement_hash,
            } => {
                EventView::SensorTemperatureMeasured {
                    experiment: experiment@,
                    sensor: sensor@,
                    measurement_id: measurement_id@,
                    temperature,
                    timestamp,
                    measurement_hash: measurement_hash@,
                }
            },
            Event::ExperimentDocument { experiment, measurements, temperature_range } => {
                EventView::ExperimentDocument {
                    experiment: experiment@,
                    measurements: measurements@,
                    temperature_range,
                }
            },
        }
    }
}

impl Event {
    pub fn kind(&self) -> (kind: EventKind)
        ensures
            kind == self@.kind(),
    {
        match self {
            Event::ExperimentConfigured { .. } => EventKind::ExperimentConfigured,
            Event::StabilizationStarted { .. } => EventKind::StabilizationStarted,
            Event::ExperimentStarted { .. } => EventKind::ExperimentStarted,
            Event::ExperimentTerminated { .. } => EventKind::ExperimentTerminated,
            Event::SensorTemperatureMeasured { .. } => EventKind::SensorTemperatureMeasured,
            Event::ExperimentDocument { .. } => EventKind::ExperimentDocument,
        }
    }
}

/// A copy of a list of strings.
pub fn copy_strings(strings: &[String]) -> (copy: Vec<String>)
    ensures
        texts(copy@) == texts(strings@),
{
    let mut copy: Vec<String> = Vec::new();
    let mut i: usize = 0;
    while i < strings.len()
        invariant
            i <= strings.len(),
            copy.len() == i,
            forall|j: int| 0 <= j < i ==> (#[trigger] copy[j])@ == strings[j]@,
        decreases strings.len() - i,
    {
        copy.push(strings[i].clone());
        i = i + 1;
    }
    copy
}

/// The catalogue of event kinds: where the schema of each kind is found, and
/// which fields an event of each kind holds.
#[derive(Debug)]
pub struct ExperimentSchemas {
    pub directory: String,
}

impl ExperimentSchemas {
    /// The path of a kind's schema below `directory`.
    pub open spec fn schema_location(directory: Seq<char>, kind: EventKind) -> Seq<char> {
        directory + "/"@ + kind.label() + ".avsc"@
    }

    /// The catalogue over the schema definitions of the experiment producer.
    pub fn new() -> (schemas: Self)
        ensures
            schemas.directory@ == "experiment-producer/schemas"@,
    {
        ExperimentSchemas { directory: "experiment-producer/schemas".to_owned() }
    }

    /// Where the schema definition of `kind` is found.
    pub fn schema_path(&self, kind: EventKind) -> (path: String)
        ensures
            path@ == Self::schema_location(self.directory@, kind),
    {
        let mut path = self.directory.clone();
        path.append("/");
        path.append(kind.record_name());
        path.append(".avsc");
        path
    }

    pub fn experiment_configured_event(
        &self,
        experiment_id: &str,
        researcher: &str,
        sensors: &[String],
        temp_range: TempRange,
    ) -> (event: Event)
        ensures
            event@ == (EventView::ExperimentConfigured {
                experiment: experiment_id@,
                researcher: researcher@,
                sensors: texts(sensors@),
                temperature_range: temp_range,
            }),
    {
        Event::ExperimentConfigured {
            experiment: experiment_id.to_owned(),
            researcher: researcher.to_owned(),
            sensors: copy_strings(sensors),
            temperature_range: temp_range,
        }
    }

    pub fn stabilization_started_event(&self, experiment_id: &str, timestamp: u64) -> (event: Event)
        ensures
            event@ == (EventView::StabilizationStarted { experiment: experiment_id@, timestamp }),
    {
        Event::StabilizationStarted { experiment: experiment_id.to_owned(), timestamp }
    }

    pub fn experiment_started_event(&self, experiment_id: &str, timestamp: u64) -> (event: Event)
        ensures
            event@ == (EventView::ExperimentStarted { experiment: experiment_id@, timestamp }),
    {
        Event::ExperimentStarted { experiment: experiment_id.to_owned(), timestamp }
    }

    pub fn experiment_terminated_event(&self, experiment_id: &str, timestamp: u64) -> (event: Event)
        ensures
            event@ == (EventView::ExperimentTerminated { experiment: experiment_id@, timestamp }),
    {
        Event::ExperimentTerminated { experiment: experiment_id.to_owned(), timestamp }
    }

    pub fn temperature_measured_event(
        &self,
        experiment: &str,
        measurement_id: &str,
        sensor: &str,
        temperature: i64,
        timestamp: u64,
        measurement_hash: &str,
    ) -> (event: Event)
        ensures
            event@ == (EventView::SensorTemperatureMeasured {
                experiment: experiment@,
                sensor: sensor@,
                measurement_id: measurement_id@,
                temperature,
                timestamp,
                measurement_hash: measurement_hash@,
            }),
    {
        Event::SensorTemperatureMeasured {
            experiment: experiment.to_owned(),
            sensor: sensor.to_owned(),
            measurement_id: measurement_id.to_owned(),
            temperature,
            timestamp,
            measurement_hash: measurement_hash.to_owned(),
        }
    }

    /// The summary of an experiment: the time and temperature of each of its
    /// measurements, in their order, and the range they were judged against.
    pub fn experiment_document_event(
        &self,
        experiment_id: &str,
        measurements: &[Measurement],
        temp_range: TempRange,
    ) -> (event: Event)
        ensures
            event@ == (EventView::ExperimentDocument {
                experiment: experiment_id@,
                measurements: document_entries(measurement_views(measurements@)),
                temperature_range: temp_range,
            }),
    {
        let mut entries: Vec<DocumentEntry> = Vec::new();
        let mut i: usize = 0;
        while i < measurements.len()
            invariant
                i <= measurements.len(),
                entries.len() == i,
                forall|j: int|
                    0 <= j < i ==> #[trigger] entries[j] == (DocumentEntry {
                        timestamp: measurements[j].timestamp,
                        temperature: measurements[j].temperature,
                    }),
            decreases measurements.len() - i,
        {
            entries.push(
                DocumentEntry {
                    timestamp: measurements[i].timestamp,
                    temperature: measurements[i].temperature,
                },
            );
            i = i + 1;
        }
        assert(entries@ =~= document_entries(measurement_views(measurements@)));
        Event::ExperimentDocument {
            experiment: experiment_id.to_owned(),
            measurements: entries,
            temperature_range: temp_range,
        }
    }
}

/// One header of a broker record.
#[derive(Debug)]
pub struct Header {
    pub key: String,
    pub value: String,
}

/// What is handed to the broker: an event, the key that picks its partition,
/// and its headers.
#[derive(Debug)]
pub struct RecordData {
    pub payload: Event,
    pub key: Option<String>,
    pub headers: Vec<Header>,
}

/// A broker record as a mathematical value.
pub struct RecordDataView {
    pub payload: EventView,
    pub key: Option<Seq<char>>,
    pub headers: Seq<(Seq<char>, Seq<char>)>,
}

impl View for RecordData {
    type V = RecordDataView;

    open spec fn view(&self) -> RecordDataView {
        RecordDataView {
            payload: self.payload@,
            key: match self.key {
                Some(key) => Some(key@),
                None => None,
            },
            headers: self.headers@.map_values(|h: Header| (h.key@, h.value@)),
        }
    }
}

/// The record of an event of the experiment `experiment_id`: keyed by the
/// experiment, with one header, `record_name`, that names the event's kind.
pub open spec fn record_of(payload: EventView, experiment_id: Seq<char>) -> RecordDataView {
    RecordDataView {
        payload,
        key: Some(experiment_id),
        headers: seq![("record_name"@, payload.kind().label())],
    }
}

/// The records of a sequence of events, in their order.
pub open spec fn records_of(events: Seq<Event>, experiment_id: Seq<char>) -> Seq<RecordDataView> {
    events.map_values(|e: Event| record_of(e@, experiment_id))
}

impl RecordData {
    pub fn for_event(payload: Event, experiment_id: &str) -> (record: Self)
        ensures
            record@ == record_of(payload@, experiment_id@),
    {
        let name = payload.kind().record_name();
        let mut headers: Vec<Header> = Vec::new();
        headers.push(Header { key: "record_name".to_owned(), value: name.to_owned() });
        let record = RecordData { payload, key: Some(experiment_id.to_owned()), headers };
        assert(record@.headers =~= seq![("record_name"@, payload@.kind().label())]);
        record
    }
}

/// The events of one logical sample: one per sensor reading, in the order of
/// the readings, each with the measurement's identity, time and sealed envelope.
pub fn temperature_events(
    experiment_schemas: &ExperimentSchemas,
    experiment_id: &str,
    measurement: &Measurement,
    readings: &Vec<(&str, i64)>,
    measurement_hash: &str,
) -> (events: Vec<Event>)
    ensures
        events.len() == readings.len(),
        forall|i: int|
            0 <= i < events.len() ==> (#[trigger] events[i])@
                == (EventView::SensorTemperatureMeasured {
                experiment: experiment_id@,
                sensor: readings[i].0@,
                measurement_id: measurement.measurement_id@,
                temperature: readings[i].1,
                timestamp: measurement.timestamp,
                measurement_hash: measurement_hash@,
            }),
{
    let mut events: Vec<Event> = Vec::new();
    let mut i: usize = 0;
    while i < readings.len()
        invariant
            i <= readings.len(),
            events.len() == i,
            forall|j: int|
                0 <= j < i ==> (#[trigger] events[j])@ == (EventView::SensorTemperatureMeasured {
                    experiment: experiment_id@,
                    sensor: readings[j].0@,
                    measurement_id: measurement.measurement_id@,
                    temperature: readings[j].1,
                    timestamp: measurement.timestamp,
                    measurement_hash: measurement_hash@,
                }),
        decreases readings.len() - i,
    {
        let event = experiment_schemas.temperature_measured_event(
            experiment_id,
            measurement.measurement_id.as_str(),
            readings[i].0,
            readings[i].1,
            measurement.timestamp,
            measurement_hash,
        );
        events.push(event);
        i = i + 1;
    }
    events
}

/// The record that confirms that a measurement carried a notification.
#[derive(Debug)]
pub struct GroundTruth {
    pub experiment_id: String,
    pub measurement_id: String,
}

/// What is to be done with one logical sample: publish its records, all at
/// once, and let no less than `period_millis` pass before the next sample.
#[derive(Debug)]
pub struct DispatchPlan {
    pub records: Vec<RecordData>,
    pub topic: String,
    pub period_millis: u64,
    pub ground_truth: Option<GroundTruth>,
}

/// A dispatch plan as a mathematical value.
pub struct DispatchPlanView {
    pub records: Seq<RecordDataView>,
    pub topic: Seq<char>,
    pub period_millis: u64,
    /// The experiment and the measurement of the ground-truth record.
    pub ground_truth: Option<(Seq<char>, Seq<char>)>,
}

impl View for DispatchPlan {
    type V = DispatchPlanView;

    open spec fn view(&self) -> DispatchPlanView {
        DispatchPlanView {
            records: self.records@.map_values(|r: RecordData| r@),
            topic: self.topic@,
            period_millis: self.period_millis,
            ground_truth: match self.ground_truth {
                Some(truth) => Some((truth.experiment_id@, truth.measurement_id@)),
                None => None,
            },
        }
    }
}

impl Measurement {
    /// Plans the publication of this measurement's sensor events on `topic`:
    /// one record per event, in their order; the sampling period as the pace;
    /// and a ground-truth record if one is asked for and the measurement
    /// carries a notification.
    pub fn persist_sensor_events(
        &self,
        record_ground_truth: bool,
        topic: &str,
        experiment_id: &str,
        sensor_events: Vec<Event>,
        period_millis: u64,
    ) -> (plan: DispatchPlan)
        ensures
            plan@ == (DispatchPlanView {
                records: records_of(sensor_events@, experiment_id@),
                topic: topic@,
                period_millis,
                ground_truth: if record_ground_truth && self.notification_type is Some {
                    Some((experiment_id@, self.measurement_id@))
                } else {
                    None
                },
            }),
    {
        let ground_truth = if record_ground_truth && self.notification_type.is_some() {
            Some(
                GroundTruth {
                    experiment_id: experiment_id.to_owned(),
                    measurement_id: self.measurement_id.clone(),
                },
            )
        } else {
            None
        };
        let ghost all = sensor_events@;
        let mut records: Vec<RecordData> = Vec::new();
        for event in it: sensor_events
            invariant
                it.seq() == all,
                records.len() == it.index(),
                forall|j: int|
                    0 <= j < records.len() ==> (#[trigger] records[j])@ == record_of(
                        all[j]@,
                        experiment_id@,
                    ),
        {
            records.push(RecordData::for_event(event, experiment_id));
        }
        let plan = DispatchPlan { records, topic: topic.to_owned(), period_millis, ground_truth };
        assert(plan@.records =~= records_of(all, experiment_id@));
        plan
    }
}

} // verus!
