//! What a measurement may announce, and the rule that decides it.

use vstd::prelude::*;

use crate::stage::ExperimentStage;
use crate::temperature::TemperatureSample;

verus! {

/// The two threshold crossings that are announced.
#[derive(Clone, Copy, Debug, PartialEq, Eq, Structural)]
pub enum NotificationType {
    OutOfRange,
    Stabilized,
}

impl NotificationType {
    /// The name under which the notification service knows the crossing.
    pub open spec fn label(self) -> Seq<char> {
        match self {
            NotificationType::OutOfRange => "OutOfRange"@,
            NotificationType::Stabilized => "Stabilized"@,
        }
    }

    pub fn name(&self) -> (s: &'static str)
        ensures
            s@ == self.label(),
    {
        match self {
            NotificationType::OutOfRange => "OutOfRange",
            NotificationType::Stabilized => "Stabilized",
        }
    }
}

/// The crossing that a sample announces, from the stage, from whether the
/// previous sample of the stage (if there was one) was out of range, and from
/// whether the sample itself is.
///
/// A stabilization announces the entry into the range, a carry-out the exit
/// from it; the first sample of a stage counts as coming from the other side.
pub open spec fn notification_for(
    stage: ExperimentStage,
    prev_out: Option<bool>,
    curr_out: bool,
) -> Option<NotificationType> {
    match stage {
        ExperimentStage::Stabilization => if !curr_out && prev_out != Some(false) {
            Some(NotificationType::Stabilized)
        } else {
            None
        },
        ExperimentStage::CarryOut => if curr_out && prev_out != Some(true) {
            Some(NotificationType::OutOfRange)
        } else {
            None
        },
        _ => None,
    }
}

/// Whether a sample, if there is one, is out of its range.
pub open spec fn out_of_range(sample: Option<TemperatureSample>) -> Option<bool> {
    match sample {
        Some(s) => Some(s.temp_range.excludes(s.cur as int)),
        None => None,
    }
}

/// Decides the notification of the sample `curr_sample`, which follows
/// `prev_sample` in the stage `stage`.
pub fn compute_notification_type(
    curr_sample: TemperatureSample,
    prev_sample: Option<TemperatureSample>,
    stage: &ExperimentStage,
) -> (r: Option<NotificationType>)
    ensures
        r == notification_for(
            *stage,
            out_of_range(prev_sample),
            curr_sample.temp_range.excludes(curr_sample.cur as int),
        ),
{
    match (stage, prev_sample) {
        (ExperimentStage::Stabilization, Some(prev_sample)) => {
            if !curr_sample.is_out_of_range() && prev_sample.is_out_of_range() {
                Some(NotificationType::Stabilized)
            } else {
                None
            }
        },
        (ExperimentStage::CarryOut, Some(prev_sample)) => {
            if curr_sample.is_out_of_range() && !prev_sample.is_out_of_range() {
                Some(NotificationType::OutOfRange)
            } else {
                None
            }
        },
        (ExperimentStage::Stabilization, None) => {
            if !curr_sample.is_out_of_range() {
                Some(NotificationType::Stabilized)
            } else {
                None
            }
        },
        (ExperimentStage::CarryOut, None) => {
            if curr_sample.is_out_of_range() {
                Some(NotificationType::OutOfRange)
            } else {
                None
            }
        },
        (_, _) => None,
    }
}

/// What an envelope binds together: the notification decision and the
/// identity of the measurement it was taken for.
#[derive(Clone, Debug)]
pub struct HashData {
    pub notification_type: Option<NotificationType>,
    /// Microseconds since the Unix epoch.
    pub timestamp: u64,
    pub experiment_id: String,
    pub measurement_id: String,
    pub researcher: String,
}

/// One logical sample of an experiment.
#[derive(Clone, Debug)]
pub struct Measurement {
    pub measurement_id: String,
    /// Microseconds since the Unix epoch.
    pub timestamp: u64,
    pub temperature: i64,
    pub notification_type: Option<NotificationType>,
}

/// An envelope's content as a mathematical value.
pub struct HashDataView {
    pub notification_type: Option<NotificationType>,
    pub timestamp: u64,
    pub experiment_id: Seq<char>,
    pub measurement_id: Seq<char>,
    pub researcher: Seq<char>,
}

impl View for HashData {
    type V = HashDataView;

    open spec fn view(&self) -> HashDataView {
        HashDataView {
            notification_type: self.notification_type,
            timestamp: self.timestamp,
            experiment_id: self.experiment_id@,
            measurement_id: self.measurement_id@,
            researcher: self.researcher@,
        }
    }
}

/// A measurement as a mathematical value.
pub struct MeasurementView {
    pub measurement_id: Seq<char>,
    pub timestamp: u64,
    pub temperature: i64,
    pub notification_type: Option<NotificationType>,
}

impl View for Measurement {
    type V = MeasurementView;

    open spec fn view(&self) -> MeasurementView {
        MeasurementView {
            measurement_id: self.measurement_id@,
            timestamp: self.timestamp,
            temperature: self.temperature,
            notification_type: self.notification_type,
        }
    }
}

/// The views of a sequence of measurements.
pub open spec fn measurement_views(measurements: Seq<Measurement>) -> Seq<MeasurementView> {
    measurements.map_values(|m: Measurement| m@)
}

impl Measurement {
    /// The measurement that the sample `sample` gives rise to: it carries the
    /// sample's value and the notification that the classifier decides.
    pub fn take(
        sample: TemperatureSample,
        prev_sample: Option<TemperatureSample>,
        stage: &ExperimentStage,
        measurement_id: String,
        timestamp: u64,
    ) -> (measurement: Measurement)
        ensures
            measurement@ == (MeasurementView {
                measurement_id: measurement_id@,
                timestamp,
                temperature: sample.cur,
                notification_type: notification_for(
                    *stage,
                    out_of_range(prev_sample),
                    sample.temp_range.excludes(sample.cur as int),
                ),
            }),
    {
        let notification_type = compute_notification_type(sample, prev_sample, stage);
        Measurement { measurement_id, temperature: sample.cur(), timestamp, notification_type }
    }

    /// What the envelope of this measurement binds together.
    pub fn hash_data(&self, experiment_id: &str, researcher: &str) -> (hash_data: HashData)
        ensures
            hash_data@ == (HashDataView {
                notification_type: self.notification_type,
                timestamp: self.timestamp,
                experiment_id: experiment_id@,
                measurement_id: self.measurement_id@,
                researcher: researcher@,
            }),
    {
        HashData {
            notification_type: self.notification_type,
            timestamp: self.timestamp,
            experiment_id: experiment_id.to_owned(),
            measurement_id: self.measurement_id.clone(),
            researcher: researcher.to_owned(),
        }
    }
}

} // verus!
