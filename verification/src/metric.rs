//! The labels under which produced events are counted.

use vstd::prelude::*;

verus! {

/// The labels of an event counter: the topic an event went to and the key it
/// went under, if it had one.
#[derive(Clone, Debug, Hash, PartialEq, Eq)]
pub struct EventCountLabels {
    pub key: Option<String>,
    pub topic: String,
}

impl EventCountLabels {
    /// The labels of a record sent to `topic` under `key`.
    pub fn for_record(topic: &str, key: Option<&str>) -> (labels: Self)
        ensures
            labels.topic@ == topic@,
            labels.key is Some <==> key is Some,
            key matches Some(k) ==> labels.key matches Some(l) && l@ == k@,
    {
        EventCountLabels {
            key: match key {
                Some(k) => Some(k.to_owned()),
                None => None,
            },
            topic: topic.to_owned(),
        }
    }
}

} // verus!
