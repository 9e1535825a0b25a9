//! An experiment: its configuration and its lifecycle.
//!
//! The lifecycle is a machine that is stepped from outside. Each step answers
//! with the one thing to do next: send a lifecycle event, seal the envelope of
//! a measurement, publish the sensor events of a measurement, or stop. The
//! caller does it and steps again.

use vstd::prelude::*;

use crate::events::{
    document_entries,
    record_of,
    temperature_events,
    texts,
    DispatchPlan,
    DispatchPlanView,
    Event,
    EventKind,
    EventView,
    ExperimentSchemas,
    RecordData,
    RecordDataView,
};
use crate::notification::{
    measurement_views,
    notification_for,
    out_of_range,
    HashData,
    HashDataView,
    Measurement,
    MeasurementView,
};
use crate::outside::{current_epoch, draw_between, fresh_id, is_random_uuid};
use crate::sensors::{
    as_ints,
    draw_offsets,
    lemma_last_sensor_balances,
    lemma_sensor_values_average,
    sensor_temperatures_with,
    sensor_values,
    total,
    valid_offset,
};
use crate::stage::ExperimentStage;
use crate::temperature::{
    jitter,
    lemma_emitted_clears_thresholds,
    lemma_jitter_within_range,
    lemma_no_jitter_without_range,
    lemma_quotient_bounds,
    lemma_steps_stay_short,
    magnitude,
    valid_draw,
    TempRange,
    TemperatureSample,
    CLAMP_OFFSET,
    DEGREE,
    JITTER_SCALE,
};

verus! {

/// The largest size of a threshold or of a start temperature that an
/// experiment takes: a million degrees.
pub const TEMPERATURE_LIMIT: i64 = 1_000_000_000_000;

/// The largest number of sensors that an experiment takes.
pub const MAX_SENSORS: usize = 1_000_000;

/// The bound that the running value of an experiment keeps: the temperature
/// limit, and twice that limit for each of the most samples a carry-out has.
pub const WALK_LIMIT: i64 = 131_071_000_000_000_000;

/// Whether `value` is within the temperature limit.
pub open spec fn in_domain(value: int) -> bool {
    -TEMPERATURE_LIMIT <= value <= TEMPERATURE_LIMIT
}

/// What an experiment is run with. It does not change once made.
#[derive(Debug)]
pub struct ExperimentConfiguration {
    pub experiment_id: String,
    researcher: String,
    sensors: Vec<String>,
    sample_rate: u64,
    temp_range: TempRange,
    stabilization_samples: u16,
    carry_out_samples: u16,
    secret_key: String,
    topic: String,
    topic_document: Option<String>,
}

/// A configuration as a mathematical value.
pub struct ExperimentConfigurationView {
    pub experiment_id: Seq<char>,
    pub researcher: Seq<char>,
    pub sensors: Seq<Seq<char>>,
    /// The sampling period, in milliseconds.
    pub sample_rate: u64,
    pub temp_range: TempRange,
    pub stabilization_samples: u16,
    pub carry_out_samples: u16,
    pub secret_key: Seq<char>,
    pub topic: Seq<char>,
    pub topic_document: Option<Seq<char>>,
}

impl ExperimentConfigurationView {
    /// An experiment can be run with the configuration: the thresholds are in
    /// order and within the temperature limit, and there are sensors, no more
    /// than the largest number.
    pub open spec fn supported(self) -> bool {
        &&& self.temp_range.wf()
        &&& in_domain(self.temp_range.lower_threshold as int)
        &&& in_domain(self.temp_range.upper_threshold as int)
        &&& 1 <= self.sensors.len() <= MAX_SENSORS
    }
}

/// The view of an optional string.
pub open spec fn optional_text(text: Option<String>) -> Option<Seq<char>> {
    match text {
        Some(t) => Some(t@),
        None => None,
    }
}

impl View for ExperimentConfiguration {
    type V = ExperimentConfigurationView;

    closed spec fn view(&self) -> ExperimentConfigurationView {
        ExperimentConfigurationView {
            experiment_id: self.experiment_id@,
            researcher: self.researcher@,
            sensors: texts(self.sensors@),
            sample_rate: self.sample_rate,
            temp_range: self.temp_range,
            stabilization_samples: self.stabilization_samples,
            carry_out_samples: self.carry_out_samples,
            secret_key: self.secret_key@,
            topic: self.topic@,
            topic_document: optional_text(self.topic_document),
        }
    }
}

impl ExperimentConfiguration {
    /// The configuration with the given identifiers of the experiment and of
    /// its sensors.
    pub fn with_ids(
        experiment_id: String,
        sensors: Vec<String>,
        researcher: String,
        sample_rate: u64,
        temp_range: TempRange,
        stabilization_samples: u16,
        carry_out_samples: u16,
        secret_key: String,
        topic: String,
        topic_document: Option<String>,
    ) -> (config: Self)
        ensures
            config@ == (ExperimentConfigurationView {
                experiment_id: experiment_id@,
                researcher: researcher@,
                sensors: texts(sensors@),
                sample_rate,
                temp_range,
                stabilization_samples,
                carry_out_samples,
                secret_key: secret_key@,
                topic: topic@,
                topic_document: optional_text(topic_document),
            }),
    {
        ExperimentConfiguration {
            experiment_id,
            researcher,
            sensors,
            sample_rate,
            temp_range,
            stabilization_samples,
            carry_out_samples,
            secret_key,
            topic,
            topic_document,
        }
    }

    /// A configuration with fresh identifiers: one for the experiment and one
    /// for each of `num_sensors` sensors, each a random UUID.
    pub fn new(
        researcher: String,
        num_sensors: usize,
        sample_rate: u64,
        temp_range: TempRange,
        stabilization_samples: u16,
        carry_out_samples: u16,
        secret_key: String,
        topic: String,
        topic_document: Option<String>,
    ) -> (config: Self)
        ensures
            is_random_uuid(config@.experiment_id),
            config@.sensors.len() == num_sensors,
            forall|i: int| 0 <= i < num_sensors ==> is_random_uuid(#[trigger] config@.sensors[i]),
            config@.researcher == researcher@,
            config@.sample_rate == sample_rate,
            config@.temp_range == temp_range,
            config@.stabilization_samples == stabilization_samples,
            config@.carry_out_samples == carry_out_samples,
            config@.secret_key == secret_key@,
            config@.topic == topic@,
            config@.topic_document == optional_text(topic_document),
    {
        let mut sensors: Vec<String> = Vec::new();
        let mut i: usize = 0;
        while i < num_sensors
            invariant
                i <= num_sensors,
                sensors.len() == i,
                forall|j: int| 0 <= j < i ==> is_random_uuid(#[trigger] sensors[j]@),
            decreases num_sensors - i,
        {
            sensors.push(fresh_id());
            i = i + 1;
        }
        Self::with_ids(
            fresh_id(),
            sensors,
            researcher,
            sample_rate,
            temp_range,
            stabilization_samples,
            carry_out_samples,
            secret_key,
            topic,
            topic_document,
        )
    }

    /// Whether an experiment can be run with this configuration.
    pub fn is_supported(&self) -> (b: bool)
        ensures
            b == self@.supported(),
    {
        self.temp_range.lower_threshold <= self.temp_range.upper_threshold
            && -TEMPERATURE_LIMIT <= self.temp_range.lower_threshold
            && self.temp_range.upper_threshold <= TEMPERATURE_LIMIT && 1 <= self.sensors.len()
            && self.sensors.len() <= MAX_SENSORS
    }

    pub fn experiment_id(&self) -> (id: &str)
        ensures
            id@ == self@.experiment_id,
    {
        self.experiment_id.as_str()
    }

    pub fn researcher(&self) -> (researcher: &str)
        ensures
            researcher@ == self@.researcher,
    {
        self.researcher.as_str()
    }

    pub fn sensors(&self) -> (sensors: &[String])
        ensures
            texts(sensors@) == self@.sensors,
    {
        self.sensors.as_slice()
    }

    pub fn sample_rate(&self) -> (rate: u64)
        ensures
            rate == self@.sample_rate,
    {
        self.sample_rate
    }

    pub fn temp_range(&self) -> (range: TempRange)
        ensures
            range == self@.temp_range,
    {
        self.temp_range
    }

    pub fn stabilization_samples(&self) -> (count: u16)
        ensures
            count == self@.stabilization_samples,
    {
        self.stabilization_samples
    }

    pub fn carry_out_samples(&self) -> (count: u16)
        ensures
            count == self@.carry_out_samples,
    {
        self.carry_out_samples
    }

    pub fn secret_key(&self) -> (key: &str)
        ensures
            key@ == self@.secret_key,
    {
        self.secret_key.as_str()
    }

    pub fn topic(&self) -> (topic: &str)
        ensures
            topic@ == self@.topic,
    {
        self.topic.as_str()
    }

    pub fn topic_document(&self) -> (topic: Option<&str>)
        ensures
            topic is Some <==> self@.topic_document is Some,
            topic matches Some(t) ==> Some(t@) == self@.topic_document,
    {
        match &self.topic_document {
            Some(t) => Some(t.as_str()),
            None => None,
        }
    }
}

/// What is handed to a step from outside.
#[derive(Debug)]
pub enum Input {
    /// The experiment starts, or what the last step asked for was done.
    Proceed,
    /// The envelope that the last step asked for was sealed into this token.
    Sealed(String),
}

/// An input as a mathematical value.
pub enum InputView {
    Proceed,
    Sealed(Seq<char>),
}

impl View for Input {
    type V = InputView;

    open spec fn view(&self) -> InputView {
        match self {
            Input::Proceed => InputView::Proceed,
            Input::Sealed(token) => InputView::Sealed(token@),
        }
    }
}

/// What a step takes from its surroundings: the time, a fresh identifier, the
/// fraction of the random range by which a sample moves, and the offsets of the
/// sensors. A step uses of these what it needs.
#[derive(Debug)]
pub struct Outside {
    /// Microseconds since the Unix epoch.
    pub now: u64,
    pub fresh_id: String,
    pub draw: i64,
    pub offsets: Vec<i64>,
}

/// The surroundings of a step as a mathematical value.
pub struct OutsideView {
    pub now: u64,
    pub fresh_id: Seq<char>,
    pub draw: int,
    pub offsets: Seq<int>,
}

impl View for Outside {
    type V = OutsideView;

    open spec fn view(&self) -> OutsideView {
        OutsideView {
            now: self.now,
            fresh_id: self.fresh_id@,
            draw: self.draw as int,
            offsets: as_ints(self.offsets@),
        }
    }
}

impl OutsideView {
    /// The draw is a valid fraction, and there is a valid offset for each
    /// sensor but the last.
    pub open spec fn valid_for(self, config: ExperimentConfigurationView) -> bool {
        &&& valid_draw(self.draw)
        &&& self.offsets.len() == config.sensors.len() - 1
        &&& forall|i: int| 0 <= i < self.offsets.len() ==> valid_offset(#[trigger] self.offsets[i])
    }
}

/// What a step asks its caller to do.
#[derive(Debug)]
pub enum Action {
    /// Send the record to the topic and wait until it is delivered.
    Send { record: RecordData, topic: String },
    /// Seal the envelope with the key, and hand the token to the next step.
    Seal { hash_data: HashData, secret_key: String },
    /// Publish the sensor events of one sample as the plan says.
    Publish { plan: DispatchPlan },
    /// Nothing is left to do.
    Finished,
}

/// An action as a mathematical value.
pub enum ActionView {
    Send { record: RecordDataView, topic: Seq<char> },
    Seal { hash_data: HashDataView, secret_key: Seq<char> },
    Publish { plan: DispatchPlanView },
    Finished,
}

impl View for Action {
    type V = ActionView;

    open spec fn view(&self) -> ActionView {
        match self {
            Action::Send { record, topic } => ActionView::Send { record: record@, topic: topic@ },
            Action::Seal { hash_data, secret_key } => ActionView::Seal {
                hash_data: hash_data@,
                secret_key: secret_key@,
            },
            Action::Publish { plan } => ActionView::Publish { plan: plan@ },
            Action::Finished => ActionView::Finished,
        }
    }
}

/// What kind of thing a step asks for.
#[derive(Clone, Copy, Debug, PartialEq, Eq, Structural)]
pub enum StepKind {
    Send(EventKind),
    Seal,
    Publish,
    Finished,
}

impl ActionView {
    pub open spec fn kind(self) -> StepKind {
        match self {
            ActionView::Send { record, .. } => StepKind::Send(record.payload.kind()),
            ActionView::Seal { .. } => StepKind::Seal,
            ActionView::Publish { .. } => StepKind::Publish,
            ActionView::Finished => StepKind::Finished,
        }
    }
}

/// What the step at position `position` of an experiment asks for, the
/// experiment having `stabilization` stabilization samples and `carry_out`
/// carry-out samples, and a document topic or none.
///
/// In order: the configuration event; the start of the stabilization; for each
/// stabilization sample a sealing and a publication; the start of the
/// experiment; for each carry-out sample a sealing and a publication; the
/// termination; the document, if there is a topic for it; and then nothing.
pub open spec fn schedule(
    stabilization: nat,
    carry_out: nat,
    has_document: bool,
    position: nat,
) -> StepKind {
    let started = 2 + 2 * stabilization;
    let terminated = started + 1 + 2 * carry_out;
    if position == 0 {
        StepKind::Send(EventKind::ExperimentConfigured)
    } else if position == 1 {
        StepKind::Send(EventKind::StabilizationStarted)
    } else if position < started {
        if (position - 2) % 2 == 0 {
            StepKind::Seal
        } else {
            StepKind::Publish
        }
    } else if position == started {
        StepKind::Send(EventKind::ExperimentStarted)
    } else if position < terminated {
        if (position - started - 1) % 2 == 0 {
            StepKind::Seal
        } else {
            StepKind::Publish
        }
    } else if position == terminated {
        StepKind::Send(EventKind::ExperimentTerminated)
    } else if position == terminated + 1 && has_document {
        StepKind::Send(EventKind::ExperimentDocument)
    } else {
        StepKind::Finished
    }
}

/// The state of an experiment as a mathematical value.
pub struct ExperimentView {
    pub config: ExperimentConfigurationView,
    pub stage: ExperimentStage,
    /// The running value of the sample generator.
    pub cur: i64,
    /// The measurements of the carry-out so far.
    pub measurements: Seq<MeasurementView>,
    /// The per-step change of the stage's samples.
    pub delta: i64,
    /// The random range of the stage's samples.
    pub random_range: i64,
    /// The samples of the stage that are still to be taken.
    pub remaining: u16,
    /// The sample before, if the stage has had one.
    pub prev_sample: Option<TemperatureSample>,
    /// The measurement whose envelope is being sealed.
    pub pending: Option<MeasurementView>,
    pub document_sent: bool,
    /// Whether ground-truth records are kept.
    pub record_ground_truth: bool,
}

/// The sensor records of the measurement `m`, sealed into `token`, for the
/// given offsets of the sensors.
pub open spec fn sensor_records(
    config: ExperimentConfigurationView,
    m: MeasurementView,
    token: Seq<char>,
    offsets: Seq<int>,
) -> Seq<RecordDataView> {
    Seq::new(
        config.sensors.len(),
        |i: int|
            record_of(
                EventView::SensorTemperatureMeasured {
                    experiment: config.experiment_id,
                    sensor: config.sensors[i],
                    measurement_id: m.measurement_id,
                    temperature: sensor_values(m.temperature as int, offsets)[i] as i64,
                    timestamp: m.timestamp,
                    measurement_hash: token,
                },
                config.experiment_id,
            ),
    )
}

impl ExperimentView {
    /// The state in which an experiment starts.
    pub open spec fn initial(
        config: ExperimentConfigurationView,
        start: i64,
        record_ground_truth: bool,
    ) -> ExperimentView {
        ExperimentView {
            config,
            stage: ExperimentStage::Uninitialized,
            cur: start,
            measurements: Seq::empty(),
            delta: 0,
            random_range: 0,
            remaining: 0,
            prev_sample: None,
            pending: None,
            document_sent: false,
            record_ground_truth,
        }
    }

    pub open spec fn sample(self) -> TemperatureSample {
        TemperatureSample { cur: self.cur, temp_range: self.config.temp_range }
    }

    /// Whether the stage is one in which samples are taken.
    pub open spec fn sampling(self) -> bool {
        self.stage == ExperimentStage::Stabilization || self.stage == ExperimentStage::CarryOut
    }

    /// No measurement that the experiment holds lies within the boundary
    /// margin of a threshold.
    pub open spec fn clear_of_thresholds(self) -> bool {
        &&& self.pending matches Some(m) ==> self.config.temp_range.clears(m.temperature as int)
        &&& forall|i: int|
            0 <= i < self.measurements.len() ==> self.config.temp_range.clears(
                (#[trigger] self.measurements[i]).temperature as int,
            )
    }

    /// What holds of every state that an experiment reaches.
    pub open spec fn wf(self) -> bool {
        &&& self.config.supported()
        &&& self.pending is Some ==> self.sampling()
        &&& self.pending matches Some(m) ==> -WALK_LIMIT - CLAMP_OFFSET <= m.temperature
            <= WALK_LIMIT + CLAMP_OFFSET
        &&& self.config.temp_range.separable() ==> self.clear_of_thresholds()
        &&& match self.stage {
            ExperimentStage::Uninitialized | ExperimentStage::Configuration => {
                &&& in_domain(self.cur as int)
                &&& self.measurements.len() == 0
                &&& !self.document_sent
            },
            ExperimentStage::Stabilization => {
                &&& self.random_range == 0
                &&& self.remaining + (if self.pending is Some {
                    1int
                } else {
                    0int
                }) <= self.config.stabilization_samples
                &&& in_domain(self.cur as int)
                &&& in_domain(self.cur + self.remaining * self.delta)
                &&& self.measurements.len() == 0
                &&& !self.document_sent
            },
            ExperimentStage::CarryOut => {
                &&& self.delta == 0
                &&& self.random_range == self.config.temp_range.width()
                &&& magnitude(self.cur as int) + self.remaining * self.config.temp_range.width()
                    <= WALK_LIMIT
                &&& self.measurements.len() + self.remaining + (if self.pending is Some {
                    1int
                } else {
                    0int
                }) == self.config.carry_out_samples
                &&& !self.document_sent
            },
            ExperimentStage::Terminated => {
                &&& self.remaining == 0
                &&& self.measurements.len() == self.config.carry_out_samples
            },
        }
    }

    /// How many steps the experiment has taken.
    pub open spec fn position(self) -> nat {
        let stabilization = self.config.stabilization_samples as int;
        let carry_out = self.config.carry_out_samples as int;
        let waiting: int = if self.pending is Some {
            1
        } else {
            0
        };
        (match self.stage {
            ExperimentStage::Uninitialized => 0,
            ExperimentStage::Configuration => 1,
            ExperimentStage::Stabilization => 2 + 2 * (stabilization - self.remaining - waiting)
                + waiting,
            ExperimentStage::CarryOut => 3 + 2 * stabilization + 2 * (carry_out - self.remaining
                - waiting) + waiting,
            ExperimentStage::Terminated => 4 + 2 * stabilization + 2 * carry_out + (if self.document_sent {
                1int
            } else {
                0int
            }),
        }) as nat
    }

    /// Whether `input` is what the state waits for: a token while an envelope
    /// is being sealed, and the go-ahead otherwise.
    pub open spec fn expects(self, input: InputView) -> bool {
        self.pending is Some <==> input is Sealed
    }

    /// The record of a lifecycle event on the experiment's topic.
    pub open spec fn send(self, event: EventView) -> ActionView {
        ActionView::Send {
            record: record_of(event, self.config.experiment_id),
            topic: self.config.topic,
        }
    }

    /// The envelope to seal for the measurement `m`.
    pub open spec fn seal(self, m: MeasurementView) -> ActionView {
        ActionView::Seal {
            hash_data: HashDataView {
                notification_type: m.notification_type,
                timestamp: m.timestamp,
                experiment_id: self.config.experiment_id,
                measurement_id: m.measurement_id,
                researcher: self.config.researcher,
            },
            secret_key: self.config.secret_key,
        }
    }

    /// The next state and what is to be done, for an input and the
    /// surroundings of the step.
    pub open spec fn step(self, input: InputView, outside: OutsideView) -> (
        ExperimentView,
        ActionView,
    ) {
        match self.pending {
            Some(m) => match input {
                InputView::Sealed(token) => {
                    let plan = DispatchPlanView {
                        records: sensor_records(self.config, m, token, outside.offsets),
                        topic: self.config.topic,
                        period_millis: self.config.sample_rate,
                        ground_truth: if self.record_ground_truth && self.stage
                            == ExperimentStage::CarryOut && m.notification_type is Some {
                            Some((self.config.experiment_id, m.measurement_id))
                        } else {
                            None
                        },
                    };
                    let next = ExperimentView {
                        pending: None,
                        prev_sample: Some(
                            TemperatureSample {
                                cur: m.temperature,
                                temp_range: self.config.temp_range,
                            },
                        ),
                        measurements: if self.stage == ExperimentStage::CarryOut {
                            self.measurements.push(m)
                        } else {
                            self.measurements
                        },
                        ..self
                    };
                    (next, ActionView::Publish { plan })
                },
                InputView::Proceed => (self, self.seal(m)),
            },
            None => match self.stage {
                ExperimentStage::Uninitialized => (
                    ExperimentView { stage: ExperimentStage::Configuration, ..self },
                    self.send(
                        EventView::ExperimentConfigured {
                            experiment: self.config.experiment_id,
                            researcher: self.config.researcher,
                            sensors: self.config.sensors,
                            temperature_range: self.config.temp_range,
                        },
                    ),
                ),
                ExperimentStage::Configuration => (
                    ExperimentView {
                        stage: ExperimentStage::Stabilization,
                        delta: self.sample().stabilization_delta(
                            self.config.stabilization_samples as nat,
                        ) as i64,
                        random_range: 0,
                        remaining: self.config.stabilization_samples,
                        prev_sample: None,
                        ..self
                    },
                    self.send(
                        EventView::StabilizationStarted {
                            experiment: self.config.experiment_id,
                            timestamp: outside.now,
                        },
                    ),
                ),
                ExperimentStage::Stabilization | ExperimentStage::CarryOut => if self.remaining
                    > 0 {
                    let moved = self.cur + self.delta + jitter(
                        outside.draw,
                        self.random_range as int,
                    );
                    let yielded = self.config.temp_range.emitted(moved);
                    let m = MeasurementView {
                        measurement_id: outside.fresh_id,
                        timestamp: outside.now,
                        temperature: yielded as i64,
                        notification_type: notification_for(
                            self.stage,
                            out_of_range(self.prev_sample),
                            self.config.temp_range.excludes(yielded),
                        ),
                    };
                    (
                        ExperimentView {
                            cur: moved as i64,
                            remaining: (self.remaining - 1) as u16,
                            pending: Some(m),
                            ..self
                        },
                        self.seal(m),
                    )
                } else if self.stage == ExperimentStage::Stabilization {
                    (
                        ExperimentView {
                            stage: ExperimentStage::CarryOut,
                            delta: 0,
                            random_range: self.config.temp_range.width() as i64,
                            remaining: self.config.carry_out_samples,
                            prev_sample: None,
                            ..self
                        },
                        self.send(
                            EventView::ExperimentStarted {
                                experiment: self.config.experiment_id,
                                timestamp: outside.now,
                            },
                        ),
                    )
                } else {
                    (
                        ExperimentView { stage: ExperimentStage::Terminated, ..self },
                        self.send(
                            EventView::ExperimentTerminated {
                                experiment: self.config.experiment_id,
                                timestamp: outside.now,
                            },
                        ),
                    )
                },
                ExperimentStage::Terminated => match self.config.topic_document {
                    Some(topic) if !self.document_sent => (
                        ExperimentView { document_sent: true, ..self },
                        ActionView::Send {
                            record: record_of(
                                EventView::ExperimentDocument {
                                    experiment: self.config.experiment_id,
                                    measurements: document_entries(self.measurements),
                                    temperature_range: self.config.temp_range,
                                },
                                self.config.experiment_id,
                            ),
                            topic,
                        },
                    ),
                    _ => (self, ActionView::Finished),
                },
            },
        }
    }
}

/// A value between two values of the domain is in the domain: the value `k`
/// steps along a walk of `n` steps that starts and ends in the domain.
pub proof fn lemma_walk_stays_in_domain(cur: int, delta: int, n: int, k: int)
    requires
        0 <= k <= n,
        in_domain(cur),
        in_domain(cur + n * delta),
    ensures
        in_domain(cur + k * delta),
{
    if delta >= 0 {
        assert(0 <= k * delta <= n * delta) by (nonlinear_arith)
            requires
                0 <= k <= n,
                delta >= 0,
        ;
    } else {
        assert(n * delta <= k * delta <= 0) by (nonlinear_arith)
            requires
                0 <= k <= n,
                delta < 0,
        ;
    }
}

/// A stabilization that starts in the domain, toward the midpoint of a range
/// in the domain, ends in the domain, and its per-step change is an `i64`.
pub proof fn lemma_stabilization_in_domain(sample: TemperatureSample, len: nat)
    requires
        sample.temp_range.wf(),
        in_domain(sample.cur as int),
        in_domain(sample.temp_range.lower_threshold as int),
        in_domain(sample.temp_range.upper_threshold as int),
    ensures
        in_domain(sample.temp_range.midpoint()),
        in_domain(sample.cur + len * sample.stabilization_delta(len)),
        -2 * TEMPERATURE_LIMIT <= sample.stabilization_delta(len) <= 2 * TEMPERATURE_LIMIT,
{
    let range = sample.temp_range;
    lemma_quotient_bounds(range.width(), 2);
    let gap = range.midpoint() - sample.cur;
    if len > 0 {
        lemma_steps_stay_short(gap, len as int, len as int);
        lemma_steps_stay_short(gap, len as int, 1);
    }
}

/// Every step takes a well-formed state to a well-formed state. The stage
/// stays or advances by one, and never goes back.
pub proof fn lemma_step_preserves_wf(s: ExperimentView, input: InputView, outside: OutsideView)
    requires
        s.wf(),
        valid_draw(outside.draw),
    ensures
        s.step(input, outside).0.wf(),
        s.step(input, outside).0.config == s.config,
        s.stage.rank() <= s.step(input, outside).0.stage.rank() <= s.stage.rank() + 1,
{
    let range = s.config.temp_range;
    if range.separable() && s.pending is None && s.sampling() && s.remaining > 0 {
        lemma_emitted_clears_thresholds(
            range,
            s.cur + s.delta + jitter(outside.draw, s.random_range as int),
        );
    }
    if s.pending is Some {
    } else {
        match s.stage {
            ExperimentStage::Uninitialized => {},
            ExperimentStage::Configuration => {
                lemma_stabilization_in_domain(s.sample(), s.config.stabilization_samples as nat);
            },
            ExperimentStage::Stabilization => {
                if s.remaining > 0 {
                    lemma_no_jitter_without_range(outside.draw);
                    lemma_walk_stays_in_domain(
                        s.cur as int,
                        s.delta as int,
                        s.remaining as int,
                        1,
                    );
                    assert(s.remaining * s.delta == (s.remaining - 1) * s.delta + s.delta)
                        by (nonlinear_arith);
                } else {
                    assert(s.config.carry_out_samples * range.width() <= 65535 * (2
                        * TEMPERATURE_LIMIT)) by (nonlinear_arith)
                        requires
                            0 <= s.config.carry_out_samples <= 65535,
                            0 <= range.width() <= 2 * TEMPERATURE_LIMIT,
                    ;
                }
            },
            ExperimentStage::CarryOut => {
                if s.remaining > 0 {
                    lemma_jitter_within_range(outside.draw, s.random_range as int);
                    assert(s.remaining * range.width() == (s.remaining - 1) * range.width()
                        + range.width()) by (nonlinear_arith);
                    assert((s.remaining - 1) * range.width() >= 0) by (nonlinear_arith)
                        requires
                            s.remaining >= 1,
                            range.width() >= 0,
                    ;
                }
            },
            ExperimentStage::Terminated => {},
        }
    }
}

/// An experiment that is handed what it waits for follows the schedule: each
/// step asks for what the schedule names at the step's position, and moves on
/// by one position unless the experiment is finished.
pub proof fn lemma_step_follows_schedule(s: ExperimentView, input: InputView, outside: OutsideView)
    requires
        s.wf(),
        s.expects(input),
    ensures
        s.step(input, outside).1.kind() == schedule(
            s.config.stabilization_samples as nat,
            s.config.carry_out_samples as nat,
            s.config.topic_document is Some,
            s.position(),
        ),
        s.step(input, outside).0.position() == s.position() + (if s.step(input, outside).1
            is Finished {
            0int
        } else {
            1int
        }),
{
}

/// The temperature that a sensor record holds.
pub open spec fn reading_of(record: RecordDataView) -> int {
    match record.payload {
        EventView::SensorTemperatureMeasured { temperature, .. } => temperature as int,
        _ => 0,
    }
}

/// The sensor readings that are published for a measurement average to the
/// measurement's temperature: they sum to that temperature times the number
/// of sensors.
pub proof fn lemma_published_readings_average(
    s: ExperimentView,
    m: MeasurementView,
    token: Seq<char>,
    outside: OutsideView,
)
    requires
        s.wf(),
        s.pending == Some(m),
        outside.valid_for(s.config),
    ensures
        sensor_records(s.config, m, token, outside.offsets).len() == s.config.sensors.len(),
        total(sensor_records(s.config, m, token, outside.offsets).map_values(|r| reading_of(r)))
            == s.config.sensors.len() * m.temperature,
{
    let offsets = outside.offsets;
    let average = m.temperature as int;
    let values = sensor_values(average, offsets);
    let readings = sensor_records(s.config, m, token, offsets).map_values(|r| reading_of(r));
    lemma_sensor_values_average(average, offsets);
    lemma_last_sensor_balances(average, offsets);
    assert(offsets.len() * DEGREE <= MAX_SENSORS * DEGREE) by (nonlinear_arith)
        requires
            0 <= offsets.len() <= MAX_SENSORS,
    ;
    assert forall|i: int| 0 <= i < values.len() implies i64::MIN <= #[trigger] values[i]
        <= i64::MAX by {
        if i < offsets.len() {
            assert(values[i] == average + offsets[i]);
        }
    }
    assert(readings =~= values);
}

/// The state that a sequence of steps leads to, each step given as its input
/// and its surroundings.
pub open spec fn state_after(s: ExperimentView, steps: Seq<(InputView, OutsideView)>) -> ExperimentView
    decreases steps.len(),
{
    if steps.len() == 0 {
        s
    } else {
        state_after(s, steps.drop_last()).step(steps.last().0, steps.last().1).0
    }
}

/// Whether every step of the sequence draws a valid fraction and hands the
/// experiment what it waits for at that point.
pub open spec fn in_protocol(s: ExperimentView, steps: Seq<(InputView, OutsideView)>) -> bool {
    forall|i: int|
        0 <= i < steps.len() ==> {
            &&& valid_draw((#[trigger] steps[i]).1.draw)
            &&& state_after(s, steps.take(i)).expects(steps[i].0)
        }
}

/// The number of steps of an experiment that ask for something.
pub open spec fn schedule_length(config: ExperimentConfigurationView) -> nat {
    (4 + 2 * config.stabilization_samples + 2 * config.carry_out_samples + (if config.topic_document
        is Some {
        1int
    } else {
        0int
    })) as nat
}

/// An experiment that is stepped from its start, in protocol, has taken as
/// many steps of its schedule as it was stepped, up to the schedule's length.
pub proof fn lemma_run_keeps_pace(s: ExperimentView, steps: Seq<(InputView, OutsideView)>)
    requires
        s.wf(),
        s.stage == ExperimentStage::Uninitialized,
        s.pending is None,
        in_protocol(s, steps),
    ensures
        state_after(s, steps).wf(),
        state_after(s, steps).config == s.config,
        state_after(s, steps).position() == if steps.len() <= schedule_length(s.config) {
            steps.len()
        } else {
            schedule_length(s.config)
        },
    decreases steps.len(),
{
    if steps.len() > 0 {
        let prefix = steps.drop_last();
        assert forall|i: int| 0 <= i < prefix.len() implies valid_draw((#[trigger] prefix[i]).1.draw)
            && state_after(s, prefix.take(i)).expects(prefix[i].0) by {
            assert(prefix.take(i) =~= steps.take(i));
            assert(prefix[i] == steps[i]);
        }
        lemma_run_keeps_pace(s, prefix);
        let before = state_after(s, prefix);
        let last = steps.last();
        lemma_step_preserves_wf(before, last.0, last.1);
        lemma_step_follows_schedule(before, last.0, last.1);
    }
}

/// An experiment that is stepped from its start, in protocol, asks at each
/// step for what its schedule names there: the configuration event, the start
/// of the stabilization, a sealing and a publication for each stabilization
/// sample, the start of the experiment, a sealing and a publication for each
/// carry-out sample, the termination, the document if there is a topic for
/// it, and nothing from then on.
pub proof fn lemma_run_follows_schedule(
    s: ExperimentView,
    steps: Seq<(InputView, OutsideView)>,
    i: int,
)
    requires
        s.wf(),
        s.stage == ExperimentStage::Uninitialized,
        s.pending is None,
        in_protocol(s, steps),
        0 <= i < steps.len(),
    ensures
        state_after(s, steps.take(i)).step(steps[i].0, steps[i].1).1.kind() == schedule(
            s.config.stabilization_samples as nat,
            s.config.carry_out_samples as nat,
            s.config.topic_document is Some,
            i as nat,
        ),
{
    let prefix = steps.take(i);
    assert forall|j: int| 0 <= j < prefix.len() implies valid_draw((#[trigger] prefix[j]).1.draw)
        && state_after(s, prefix.take(j)).expects(prefix[j].0) by {
        assert(prefix.take(j) =~= steps.take(j));
        assert(prefix[j] == steps[j]);
    }
    lemma_run_keeps_pace(s, prefix);
    lemma_step_follows_schedule(state_after(s, prefix), steps[i].0, steps[i].1);
}

/// The document of an experiment holds one entry for each carry-out sample.
pub proof fn lemma_document_is_complete(s: ExperimentView, input: InputView, outside: OutsideView)
    requires
        s.wf(),
    ensures
        s.step(input, outside).1 matches ActionView::Send { record, .. } ==> (record.payload
            matches EventView::ExperimentDocument { measurements, .. } ==> measurements.len()
            == s.config.carry_out_samples),
{
}

/// The view of an optional measurement.
pub open spec fn optional_measurement(m: Option<Measurement>) -> Option<MeasurementView> {
    match m {
        Some(m) => Some(m@),
        None => None,
    }
}

/// One experiment: its configuration, the stage it is in, and the sample
/// generator and the measurements it owns.
#[derive(Debug)]
pub struct Experiment {
    experiment_schemas: ExperimentSchemas,
    sample: TemperatureSample,
    measurements: Vec<Measurement>,
    stage: ExperimentStage,
    config: ExperimentConfiguration,
    record_ground_truth: bool,
    delta: i64,
    random_range: i64,
    remaining: u16,
    prev_sample: Option<TemperatureSample>,
    pending: Option<Measurement>,
    document_sent: bool,
}

impl View for Experiment {
    type V = ExperimentView;

    closed spec fn view(&self) -> ExperimentView {
        ExperimentView {
            config: self.config@,
            stage: self.stage,
            cur: self.sample.cur,
            measurements: measurement_views(self.measurements@),
            delta: self.delta,
            random_range: self.random_range,
            remaining: self.remaining,
            prev_sample: self.prev_sample,
            pending: optional_measurement(self.pending),
            document_sent: self.document_sent,
            record_ground_truth: self.record_ground_truth,
        }
    }
}

impl Experiment {
    /// The experiment is in a state that the lifecycle reaches.
    pub closed spec fn wf(&self) -> bool {
        &&& self@.wf()
        &&& self.sample.temp_range == self.config.temp_range
    }

    /// An experiment that the lifecycle reaches is in a state of which the
    /// invariants of the lifecycle hold.
    pub proof fn lemma_state_is_well_formed(&self)
        requires
            self.wf(),
        ensures
            self@.wf(),
    {
    }

    /// An experiment that has not started, with its generator at `start`.
    /// Ground-truth records are asked for where `record_ground_truth` is set.
    pub fn new(start: i64, config: ExperimentConfiguration, record_ground_truth: bool) -> (experiment:
        Self)
        requires
            config@.supported(),
            in_domain(start as int),
        ensures
            experiment.wf(),
            experiment@ == ExperimentView::initial(config@, start, record_ground_truth),
    {
        let sample = TemperatureSample::new(start, config.temp_range);
        let experiment = Experiment {
            experiment_schemas: ExperimentSchemas::new(),
            stage: ExperimentStage::Uninitialized,
            measurements: Vec::new(),
            sample,
            config,
            record_ground_truth,
            delta: 0,
            random_range: 0,
            remaining: 0,
            prev_sample: None,
            pending: None,
            document_sent: false,
        };
        assert(experiment@.measurements =~= Seq::<MeasurementView>::empty());
        experiment
    }

    /// Whether `new` takes the start temperature and the configuration.
    pub fn supports(start: i64, config: &ExperimentConfiguration) -> (b: bool)
        ensures
            b == (config@.supported() && in_domain(start as int)),
    {
        config.is_supported() && -TEMPERATURE_LIMIT <= start && start <= TEMPERATURE_LIMIT
    }

    pub fn stage(&self) -> (stage: ExperimentStage)
        ensures
            stage == self@.stage,
    {
        self.stage
    }

    pub fn config(&self) -> (config: &ExperimentConfiguration)
        ensures
            config@ == self@.config,
    {
        &self.config
    }

    /// The measurements of the carry-out so far, in their order.
    pub fn measurements(&self) -> (measurements: &[Measurement])
        ensures
            measurement_views(measurements@) == self@.measurements,
    {
        self.measurements.as_slice()
    }

    /// Whether the experiment waits for the token of a sealed envelope.
    pub fn awaits_seal(&self) -> (b: bool)
        ensures
            b == (self@.pending is Some),
            b == !self@.expects(InputView::Proceed),
    {
        self.pending.is_some()
    }

    /// The record of a lifecycle event on the experiment's topic.
    fn send(&self, event: Event) -> (action: Action)
        ensures
            action@ == self@.send(event@),
    {
        Action::Send {
            record: RecordData::for_event(event, self.config.experiment_id.as_str()),
            topic: self.config.topic.clone(),
        }
    }

    /// The envelope to seal for a measurement.
    fn seal(&self, measurement: &Measurement) -> (action: Action)
        ensures
            action@ == self@.seal(measurement@),
    {
        Action::Seal {
            hash_data: measurement.hash_data(
                self.config.experiment_id.as_str(),
                self.config.researcher.as_str(),
            ),
            secret_key: self.config.secret_key.clone(),
        }
    }

    /// Takes the next sample of the stage and asks for its envelope.
    fn take_sample(&mut self, outside: Outside) -> (action: Action)
        requires
            old(self).wf(),
            old(self)@.pending is None,
            old(self)@.sampling(),
            old(self)@.remaining > 0,
            valid_draw(outside@.draw),
        ensures
            final(self).wf(),
            final(self)@ == old(self)@.step(InputView::Proceed, outside@).0,
            action@ == old(self)@.step(InputView::Proceed, outside@).1,
    {
        proof {
            lemma_step_preserves_wf(self@, InputView::Proceed, outside@);
            if self.stage == ExperimentStage::Stabilization {
                lemma_walk_stays_in_domain(
                    self.sample.cur as int,
                    self.delta as int,
                    self.remaining as int,
                    1,
                );
            }
        }
        let mut generator = self.sample.iter_mut(self.delta, 1, self.random_range);
        let sample = generator.next_with(outside.draw);
        let measurement = Measurement::take(
            sample,
            self.prev_sample,
            &self.stage,
            outside.fresh_id,
            outside.now,
        );
        let action = self.seal(&measurement);
        self.remaining = self.remaining - 1;
        self.pending = Some(measurement);
        action
    }

    /// Plans the publication of the measurement whose envelope was sealed.
    fn publish(&mut self, token: String, outside: Outside) -> (action: Action)
        requires
            old(self).wf(),
            old(self)@.pending is Some,
            outside@.valid_for(old(self)@.config),
        ensures
            final(self).wf(),
            final(self)@ == old(self)@.step(InputView::Sealed(token@), outside@).0,
            action@ == old(self)@.step(InputView::Sealed(token@), outside@).1,
    {
        proof {
            lemma_step_preserves_wf(self@, InputView::Sealed(token@), outside@);
        }
        let ghost before = self@;
        let measurement = self.pending.take().unwrap();
        let count = self.config.sensors.len();
        proof {
            assert((count - 1) * DEGREE <= MAX_SENSORS * DEGREE) by (nonlinear_arith)
                requires
                    1 <= count <= MAX_SENSORS,
            ;
            assert forall|i: int| 0 <= i < outside.offsets.len() implies valid_offset(
                #[trigger] outside.offsets[i] as int,
            ) by {
                assert(outside@.offsets[i] == outside.offsets[i] as int);
            }
        }
        let readings = sensor_temperatures_with(
            self.config.sensors.as_slice(),
            measurement.temperature,
            &outside.offsets,
        );
        let events = temperature_events(
            &self.experiment_schemas,
            self.config.experiment_id.as_str(),
            &measurement,
            &readings,
            token.as_str(),
        );
        let in_carry_out = match self.stage {
            ExperimentStage::CarryOut => true,
            _ => false,
        };
        let plan = measurement.persist_sensor_events(
            self.record_ground_truth && in_carry_out,
            self.config.topic.as_str(),
            self.config.experiment_id.as_str(),
            events,
            self.config.sample_rate,
        );
        proof {
            assert(plan@.records =~= sensor_records(
                before.config,
                measurement@,
                token@,
                outside@.offsets,
            ));
        }
        self.prev_sample = Some(
            TemperatureSample::new(measurement.temperature, self.config.temp_range),
        );
        if in_carry_out {
            self.measurements.push(measurement);
            proof {
                assert(self@.measurements =~= before.measurements.push(measurement@));
            }
        }
        Action::Publish { plan }
    }

    /// Takes one step of the lifecycle in the given surroundings: brings the
    /// experiment to its next state and says what is to be done.
    pub fn step_with(&mut self, input: Input, outside: Outside) -> (action: Action)
        requires
            old(self).wf(),
            outside@.valid_for(old(self)@.config),
        ensures
            final(self).wf(),
            final(self)@ == old(self)@.step(input@, outside@).0,
            action@ == old(self)@.step(input@, outside@).1,
            final(self)@.config == old(self)@.config,
            old(self)@.stage.rank() <= final(self)@.stage.rank() <= old(self)@.stage.rank() + 1,
            old(self)@.expects(input@) ==> action@.kind() == schedule(
                old(self)@.config.stabilization_samples as nat,
                old(self)@.config.carry_out_samples as nat,
                old(self)@.config.topic_document is Some,
                old(self)@.position(),
            ),
    {
        proof {
            lemma_step_preserves_wf(self@, input@, outside@);
            if self@.expects(input@) {
                lemma_step_follows_schedule(self@, input@, outside@);
            }
        }
        if let Some(measurement) = &self.pending {
            match input {
                Input::Proceed => self.seal(measurement),
                Input::Sealed(token) => self.publish(token, outside),
            }
        } else {
            match self.stage {
                ExperimentStage::Uninitialized => {
                    let event = self.experiment_schemas.experiment_configured_event(
                        self.config.experiment_id.as_str(),
                        self.config.researcher.as_str(),
                        self.config.sensors.as_slice(),
                        self.config.temp_range,
                    );
                    let action = self.send(event);
                    self.stage = ExperimentStage::Configuration;
                    action
                },
                ExperimentStage::Configuration => {
                    let event = self.experiment_schemas.stabilization_started_event(
                        self.config.experiment_id.as_str(),
                        outside.now,
                    );
                    let action = self.send(event);
                    proof {
                        lemma_stabilization_in_domain(
                            self.sample,
                            self.config.stabilization_samples as nat,
                        );
                    }
                    let len: usize = self.config.stabilization_samples as usize;
                    let delta = self.sample.stabilization_samples(len).delta;
                    self.stage = ExperimentStage::Stabilization;
                    self.delta = delta;
                    self.random_range = 0;
                    self.remaining = self.config.stabilization_samples;
                    self.prev_sample = None;
                    action
                },
                ExperimentStage::Stabilization => {
                    if self.remaining > 0 {
                        self.take_sample(outside)
                    } else {
                        let event = self.experiment_schemas.experiment_started_event(
                            self.config.experiment_id.as_str(),
                            outside.now,
                        );
                        let action = self.send(event);
                        self.stage = ExperimentStage::CarryOut;
                        self.delta = 0;
                        self.random_range = self.config.temp_range.upper_threshold
                            - self.config.temp_range.lower_threshold;
                        self.remaining = self.config.carry_out_samples;
                        self.prev_sample = None;
                        action
                    }
                },
                ExperimentStage::CarryOut => {
                    if self.remaining > 0 {
                        self.take_sample(outside)
                    } else {
                        let event = self.experiment_schemas.experiment_terminated_event(
                            self.config.experiment_id.as_str(),
                            outside.now,
                        );
                        let action = self.send(event);
                        self.stage = ExperimentStage::Terminated;
                        action
                    }
                },
                ExperimentStage::Terminated => {
                    if self.document_sent {
                        return Action::Finished;
                    }
                    match &self.config.topic_document {
                        Some(topic_document) => {
                            let event = self.experiment_schemas.experiment_document_event(
                                self.config.experiment_id.as_str(),
                                self.measurements.as_slice(),
                                self.config.temp_range,
                            );
                            let action = Action::Send {
                                record: RecordData::for_event(
                                    event,
                                    self.config.experiment_id.as_str(),
                                ),
                                topic: topic_document.clone(),
                            };
                            self.document_sent = true;
                            action
                        },
                        None => Action::Finished,
                    }
                },
            }
        }
    }

    /// What a step takes from its surroundings at the time `now`: that time, a
    /// fresh identifier, which is a random UUID, and a fraction and the
    /// sensors' offsets, which are drawn at random.
    fn look_outside(&self, now: u64) -> (outside: Outside)
        requires
            self.wf(),
        ensures
            outside@.now == now,
            is_random_uuid(outside@.fresh_id),
            outside@.valid_for(self@.config),
    {
        let offsets = draw_offsets(self.config.sensors.len() - 1);
        Outside {
            now,
            fresh_id: fresh_id(),
            draw: draw_between(-JITTER_SCALE, JITTER_SCALE),
            offsets,
        }
    }

    /// Takes one step of the lifecycle. The time is read from the system
    /// clock, the measurement's identifier is a fresh random UUID, and the
    /// sample's move and the sensors' offsets are drawn at random. Where the
    /// clock stands before the Unix epoch, nothing happens and `None` is
    /// returned.
    pub fn step(&mut self, input: Input) -> (action: Option<Action>)
        requires
            old(self).wf(),
        ensures
            final(self).wf(),
            action is None ==> final(self)@ == old(self)@,
            action matches Some(a) ==> exists|outside: OutsideView|
                {
                    &&& outside.valid_for(old(self)@.config)
                    &&& is_random_uuid(outside.fresh_id)
                    &&& final(self)@ == (#[trigger] old(self)@.step(input@, outside)).0
                    &&& a@ == old(self)@.step(input@, outside).1
                },
            action matches Some(a) ==> (old(self)@.expects(input@) ==> a@.kind() == schedule(
                old(self)@.config.stabilization_samples as nat,
                old(self)@.config.carry_out_samples as nat,
                old(self)@.config.topic_document is Some,
                old(self)@.position(),
            )),
    {
        match current_epoch() {
            Some(now) => {
                let outside = self.look_outside(now);
                Some(self.step_with(input, outside))
            },
            None => None,
        }
    }
}

} // verus!
