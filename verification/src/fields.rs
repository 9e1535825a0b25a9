//! The fields of the events on the wire: their names, their order and the
//! kind of value that each holds.

use vstd::prelude::*;

use crate::events::{copy_strings, texts, DocumentEntry, Event, EventView};
use crate::temperature::TempRange;

verus! {

/// The value of one field of an event.
#[derive(Debug)]
pub enum FieldValue {
    /// A string.
    Text(String),
    /// An array of strings.
    TextList(Vec<String>),
    /// A temperature, which the wire holds in degrees, in single precision.
    Temperature(i64),
    /// A time, which the wire holds in seconds since the Unix epoch, in
    /// double precision.
    Timestamp(u64),
    /// A record of the two thresholds of a range: `upper_threshold` and
    /// `lower_threshold`, both temperatures.
    Range(TempRange),
    /// An array of records of a `timestamp` and a `temperature`.
    Entries(Vec<DocumentEntry>),
}

/// The value of a field as a mathematical value.
pub enum FieldValueView {
    Text(Seq<char>),
    TextList(Seq<Seq<char>>),
    Temperature(i64),
    Timestamp(u64),
    Range(TempRange),
    Entries(Seq<DocumentEntry>),
}

impl View for FieldValue {
    type V = FieldValueView;

    open spec fn view(&self) -> FieldValueView {
        match self {
            FieldValue::Text(text) => FieldValueView::Text(text@),
            FieldValue::TextList(list) => FieldValueView::TextList(texts(list@)),
            FieldValue::Temperature(temperature) => FieldValueView::Temperature(*temperature),
            FieldValue::Timestamp(timestamp) => FieldValueView::Timestamp(*timestamp),
            FieldValue::Range(range) => FieldValueView::Range(*range),
            FieldValue::Entries(entries) => FieldValueView::Entries(entries@),
        }
    }
}

/// One field of an event: its name and its value.
#[derive(Debug)]
pub struct Field {
    pub name: &'static str,
    pub value: FieldValue,
}

/// Fields as pairs of a name and a value.
pub open spec fn field_views(fields: Seq<Field>) -> Seq<(Seq<char>, FieldValueView)> {
    fields.map_values(|f: Field| (f.name@, f.value@))
}

/// The fields of an event, in the order of its schema.
pub open spec fn fields_of(event: EventView) -> Seq<(Seq<char>, FieldValueView)> {
    match event {
        EventView::ExperimentConfigured { experiment, researcher, sensors, temperature_range } => {
            seq![
                ("experiment"@, FieldValueView::Text(experiment)),
                ("researcher"@, FieldValueView::Text(researcher)),
                ("sensors"@, FieldValueView::TextList(sensors)),
                ("temperature_range"@, FieldValueView::Range(temperature_range)),
            ]
        },
        EventView::StabilizationStarted { experiment, timestamp } => seq![
            ("experiment"@, FieldValueView::Text(experiment)),
            ("timestamp"@, FieldValueView::Timestamp(timestamp)),
        ],
        EventView::ExperimentStarted { experiment, timestamp } => seq![
            ("experiment"@, FieldValueView::Text(experiment)),
            ("timestamp"@, FieldValueView::Timestamp(timestamp)),
        ],
        EventView::ExperimentTerminated { experiment, timestamp } => seq![
            ("experiment"@, FieldValueView::Text(experiment)),
            ("timestamp"@, FieldValueView::Timestamp(timestamp)),
        ],
        EventView::SensorTemperatureMeasured {
            experiment,
            sensor,
            measurement_id,
            temperature,
            timestamp,
            measurement_hash,
        } => seq![
            ("experiment"@, FieldValueView::Text(experiment)),
            ("sensor"@, FieldValueView::Text(sensor)),
            ("measurement_id"@, FieldValueView::Text(measurement_id)),
            ("temperature"@, FieldValueView::Temperature(temperature)),
            ("timestamp"@, FieldValueView::Timestamp(timestamp)),
            ("measurement_hash"@, FieldValueView::Text(measurement_hash)),
        ],
        EventView::ExperimentDocument { experiment, measurements, temperature_range } => seq![
            ("experiment"@, FieldValueView::Text(experiment)),
            ("measurements"@, FieldValueView::Entries(measurements)),
            ("temperature_range"@, FieldValueView::Range(temperature_range)),
        ],
    }
}

fn put(fields: &mut Vec<Field>, name: &'static str, value: FieldValue)
    ensures
        field_views(final(fields)@) == field_views(old(fields)@).push((name@, value@)),
{
    fields.push(Field { name, value });
}

/// The fields of the record of a range.
pub open spec fn range_fields_of(range: TempRange) -> Seq<(Seq<char>, FieldValueView)> {
    seq![
        ("upper_threshold"@, FieldValueView::Temperature(range.upper_threshold)),
        ("lower_threshold"@, FieldValueView::Temperature(range.lower_threshold)),
    ]
}

/// The fields of the record of a document entry.
pub open spec fn entry_fields_of(entry: DocumentEntry) -> Seq<(Seq<char>, FieldValueView)> {
    seq![
        ("timestamp"@, FieldValueView::Timestamp(entry.timestamp)),
        ("temperature"@, FieldValueView::Temperature(entry.temperature)),
    ]
}

/// The fields of the record that a range is on the wire.
pub fn range_fields(range: TempRange) -> (fields: Vec<Field>)
    ensures
        field_views(fields@) == range_fields_of(range),
{
    let mut fields: Vec<Field> = Vec::new();
    put(&mut fields, "upper_threshold", FieldValue::Temperature(range.upper_threshold));
    put(&mut fields, "lower_threshold", FieldValue::Temperature(range.lower_threshold));
    fields
}

/// The fields of the record that a document entry is on the wire.
pub fn entry_fields(entry: DocumentEntry) -> (fields: Vec<Field>)
    ensures
        field_views(fields@) == entry_fields_of(entry),
{
    let mut fields: Vec<Field> = Vec::new();
    put(&mut fields, "timestamp", FieldValue::Timestamp(entry.timestamp));
    put(&mut fields, "temperature", FieldValue::Temperature(entry.temperature));
    fields
}

fn copy_entries(entries: &Vec<DocumentEntry>) -> (copy: Vec<DocumentEntry>)
    ensures
        copy@ == entries@,
{
    let mut copy: Vec<DocumentEntry> = Vec::new();
    let mut i: usize = 0;
    while i < entries.len()
        invariant
            i <= entries.len(),
            copy.len() == i,
            forall|j: int| 0 <= j < i ==> copy[j] == entries[j],
        decreases entries.len() - i,
    {
        copy.push(entries[i]);
        i = i + 1;
    }
    copy
}

impl Event {
    /// The fields of the event, in the order of its schema.
    pub fn fields(&self) -> (fields: Vec<Field>)
        ensures
            field_views(fields@) == fields_of(self@),
    {
        let mut fields: Vec<Field> = Vec::new();
        match self {
            Event::ExperimentConfigured { experiment, researcher, sensors, temperature_range } => {
                put(&mut fields, "experiment", FieldValue::Text(experiment.clone()));
                put(&mut fields, "researcher", FieldValue::Text(researcher.clone()));
                put(&mut fields, "sensors", FieldValue::TextList(copy_strings(sensors.as_slice())));
                put(&mut fields, "temperature_range", FieldValue::Range(*temperature_range));
            },
            Event::StabilizationStarted { experiment, timestamp } => {
                put(&mut fields, "experiment", FieldValue::Text(experiment.clone()));
                put(&mut fields, "timestamp", FieldValue::Timestamp(*timestamp));
            },
            Event::ExperimentStarted { experiment, timestamp } => {
                put(&mut fields, "experiment", FieldValue::Text(experiment.clone()));
                put(&mut fields, "timestamp", FieldValue::Timestamp(*timestamp));
            },
            Event::ExperimentTerminated { experiment, timestamp } => {
                put(&mut fields, "experiment", FieldValue::Text(experiment.clone()));
                put(&mut fields, "timestamp", FieldValue::Timestamp(*timestamp));
            },
            Event::SensorTemperatureMeasured {
                experiment,
                sensor,
                measurement_id,
                temperature,
                timestamp,
                measurement_hash,
            } => {
                put(&mut fields, "experiment", FieldValue::Text(experiment.clone()));
                put(&mut fields, "sensor", FieldValue::Text(sensor.clone()));
                put(&mut fields, "measurement_id", FieldValue::Text(measurement_id.clone()));
                put(&mut fields, "temperature", FieldValue::Temperature(*temperature));
                put(&mut fields, "timestamp", FieldValue::Timestamp(*timestamp));
                put(&mut fields, "measurement_hash", FieldValue::Text(measurement_hash.clone()));
            },
            Event::ExperimentDocument { experiment, measurements, temperature_range } => {
                put(&mut fields, "experiment", FieldValue::Text(experiment.clone()));
                put(&mut fields, "measurements", FieldValue::Entries(copy_entries(measurements)));
                put(&mut fields, "temperature_range", FieldValue::Range(*temperature_range));
            },
        }
        fields
    }
}

} // verus!
