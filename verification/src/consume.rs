//! The decisions of the consumer: which messages it looks at, and what it
//! does with the envelope of a measurement.

use vstd::prelude::*;
use vstd::string::StringExecFns;

use crate::broker::{consumer_settings, consumer_settings_of, setting_views, Setting};
use crate::events::EventKind;
use crate::notification::{HashData, HashDataView};
use crate::outside::draw_between;

verus! {

/// The number of whole seconds below which the delay of a notification lies.
pub const MAX_DELAY_SECONDS: u64 = 5;

/// What the consumer is run with.
#[derive(Debug)]
pub struct ConsumeConfiguration {
    secret_key: String,
    group_id: String,
    brokers: String,
    topic: String,
    notifications_host: String,
    token: String,
}

/// A consumer configuration as a mathematical value.
pub struct ConsumeConfigurationView {
    pub secret_key: Seq<char>,
    pub group_id: Seq<char>,
    pub brokers: Seq<char>,
    pub topic: Seq<char>,
    pub notifications_host: Seq<char>,
    pub token: Seq<char>,
}

impl View for ConsumeConfiguration {
    type V = ConsumeConfigurationView;

    closed spec fn view(&self) -> ConsumeConfigurationView {
        ConsumeConfigurationView {
            secret_key: self.secret_key@,
            group_id: self.group_id@,
            brokers: self.brokers@,
            topic: self.topic@,
            notifications_host: self.notifications_host@,
            token: self.token@,
        }
    }
}

impl ConsumeConfiguration {
    pub fn new(
        secret_key: String,
        group_id: String,
        brokers: String,
        topic: String,
        notifications_host: String,
        token: String,
    ) -> (config: Self)
        ensures
            config@ == (ConsumeConfigurationView {
                secret_key: secret_key@,
                group_id: group_id@,
                brokers: brokers@,
                topic: topic@,
                notifications_host: notifications_host@,
                token: token@,
            }),
    {
        ConsumeConfiguration { secret_key, group_id, brokers, topic, notifications_host, token }
    }

    pub fn secret_key(&self) -> (key: &str)
        ensures
            key@ == self@.secret_key,
    {
        self.secret_key.as_str()
    }

    pub fn group_id(&self) -> (group_id: &str)
        ensures
            group_id@ == self@.group_id,
    {
        self.group_id.as_str()
    }

    pub fn brokers(&self) -> (brokers: &str)
        ensures
            brokers@ == self@.brokers,
    {
        self.brokers.as_str()
    }

    pub fn topic(&self) -> (topic: &str)
        ensures
            topic@ == self@.topic,
    {
        self.topic.as_str()
    }

    pub fn notifications_host(&self) -> (host: &str)
        ensures
            host@ == self@.notifications_host,
    {
        self.notifications_host.as_str()
    }

    pub fn token(&self) -> (token: &str)
        ensures
            token@ == self@.token,
    {
        self.token.as_str()
    }
}

/// The body of a notification.
#[derive(Debug)]
pub struct NotificationBody {
    pub researcher: String,
    pub measurement_id: String,
    pub experiment_id: String,
    /// The sealed envelope as it was received.
    pub cipher_data: String,
    pub notification_type: String,
}

/// One request to the notification service: a POST to `url` with `token` as
/// the query parameter of that name and `body` as JSON, to be made after
/// `delay_millis` milliseconds.
#[derive(Debug)]
pub struct NotificationRequest {
    pub url: String,
    pub token: String,
    pub body: NotificationBody,
    pub delay_millis: u64,
}

/// A notification request as a mathematical value.
pub struct NotificationRequestView {
    pub url: Seq<char>,
    pub token: Seq<char>,
    pub researcher: Seq<char>,
    pub measurement_id: Seq<char>,
    pub experiment_id: Seq<char>,
    pub cipher_data: Seq<char>,
    pub notification_type: Seq<char>,
    pub delay_millis: u64,
}

impl View for NotificationRequest {
    type V = NotificationRequestView;

    open spec fn view(&self) -> NotificationRequestView {
        NotificationRequestView {
            url: self.url@,
            token: self.token@,
            researcher: self.body.researcher@,
            measurement_id: self.body.measurement_id@,
            experiment_id: self.body.experiment_id@,
            cipher_data: self.body.cipher_data@,
            notification_type: self.body.notification_type@,
            delay_millis: self.delay_millis,
        }
    }
}

/// What the consumer does with the envelope of one measurement.
#[derive(Debug)]
pub enum Decision {
    /// The envelope could not be opened: the key is wrong, and the consumer
    /// must stop.
    Fatal,
    /// The envelope carries no notification: nothing is sent, and the rest of
    /// the message is passed over.
    Skip,
    /// The envelope carries a notification: the request is to be made, without
    /// holding up the messages that follow.
    Notify(NotificationRequest),
}

/// A decision as a mathematical value.
pub enum DecisionView {
    Fatal,
    Skip,
    Notify(NotificationRequestView),
}

impl View for Decision {
    type V = DecisionView;

    open spec fn view(&self) -> DecisionView {
        match self {
            Decision::Fatal => DecisionView::Fatal,
            Decision::Skip => DecisionView::Skip,
            Decision::Notify(request) => DecisionView::Notify(request@),
        }
    }
}

/// The address of the notification service on `host`.
pub open spec fn notify_url(host: Seq<char>) -> Seq<char> {
    "http://"@ + host + ":3000/api/notify"@
}

/// The view of an optional envelope.
pub open spec fn optional_envelope(opened: Option<HashData>) -> Option<HashDataView> {
    match opened {
        Some(h) => Some(h@),
        None => None,
    }
}

/// What is done with an envelope that was opened into `opened`, or could not
/// be opened, given the sealed form `cipher` and a delay in seconds.
pub open spec fn decision_for(
    config: ConsumeConfigurationView,
    opened: Option<HashDataView>,
    cipher: Seq<char>,
    delay_seconds: u64,
) -> DecisionView {
    match opened {
        None => DecisionView::Fatal,
        Some(hash_data) => match hash_data.notification_type {
            None => DecisionView::Skip,
            Some(notification_type) => DecisionView::Notify(
                NotificationRequestView {
                    url: notify_url(config.notifications_host),
                    token: config.token,
                    researcher: hash_data.researcher,
                    measurement_id: hash_data.measurement_id,
                    experiment_id: hash_data.experiment_id,
                    cipher_data: cipher,
                    notification_type: notification_type.label(),
                    delay_millis: (delay_seconds * 1000) as u64,
                },
            ),
        },
    }
}

/// Whether a message with the given `record_name` header, or without one,
/// holds a sensor measurement.
pub open spec fn holds_measurement(record_name: Option<Seq<char>>) -> bool {
    record_name == Some(EventKind::SensorTemperatureMeasured.label())
}

/// The consumer of the measurement stream.
#[derive(Debug)]
pub struct Consume {
    config: ConsumeConfiguration,
}

impl View for Consume {
    type V = ConsumeConfigurationView;

    closed spec fn view(&self) -> ConsumeConfigurationView {
        self.config@
    }
}

impl Consume {
    pub fn new(config: ConsumeConfiguration) -> (consume: Self)
        ensures
            consume@ == config@,
    {
        Consume { config }
    }

    pub fn config(&self) -> (config: &ConsumeConfiguration)
        ensures
            config@ == self@,
    {
        &self.config
    }

    /// The settings of the consumer's broker client.
    pub fn settings(&self) -> (settings: Vec<Setting>)
        ensures
            setting_views(settings@) == consumer_settings_of(self@.group_id, self@.brokers),
    {
        consumer_settings(self.config.group_id.as_str(), self.config.brokers.as_str())
    }

    /// The topic that the consumer subscribes to.
    pub fn subscription(&self) -> (topic: &str)
        ensures
            topic@ == self@.topic,
    {
        self.config.topic.as_str()
    }

    /// Whether the consumer looks at a message: it does where the message's
    /// `record_name` header names a sensor measurement. A message it does not
    /// look at is passed over, and its offset is not committed.
    pub fn accepts(record_name: Option<&str>) -> (b: bool)
        ensures
            b == holds_measurement(
                match record_name {
                    Some(name) => Some(name@),
                    None => None,
                },
            ),
    {
        match record_name {
            Some(name) => {
                let name = name.to_owned();
                let wanted = EventKind::SensorTemperatureMeasured.record_name().to_owned();
                name == wanted
            },
            None => false,
        }
    }

    /// Decides what is done with the envelope of one measurement, for a delay
    /// of `delay_seconds` seconds.
    pub fn decide_with(&self, opened: Option<HashData>, cipher: String, delay_seconds: u64) -> (decision:
        Decision)
        requires
            delay_seconds < MAX_DELAY_SECONDS,
        ensures
            decision@ == decision_for(self@, optional_envelope(opened), cipher@, delay_seconds),
    {
        let hash_data = match opened {
            Some(hash_data) => hash_data,
            None => {
                return Decision::Fatal;
            },
        };
        let notification_type = match hash_data.notification_type {
            Some(notification_type) => notification_type,
            None => {
                return Decision::Skip;
            },
        };
        let mut url = "http://".to_owned();
        url.append(self.config.notifications_host.as_str());
        url.append(":3000/api/notify");
        Decision::Notify(
            NotificationRequest {
                url,
                token: self.config.token.clone(),
                body: NotificationBody {
                    researcher: hash_data.researcher,
                    measurement_id: hash_data.measurement_id,
                    experiment_id: hash_data.experiment_id,
                    cipher_data: cipher,
                    notification_type: notification_type.name().to_owned(),
                },
                delay_millis: delay_seconds * 1000,
            },
        )
    }

    /// Decides what is done with the envelope of one measurement. The delay
    /// of a notification is a whole number of seconds drawn at random, less
    /// than five.
    pub fn decide(&self, opened: Option<HashData>, cipher: String) -> (decision: Decision)
        ensures
            exists|delay_seconds: u64|
                delay_seconds < MAX_DELAY_SECONDS && decision@ == #[trigger] decision_for(
                    self@,
                    optional_envelope(opened),
                    cipher@,
                    delay_seconds,
                ),
            opened is None <==> decision is Fatal,
            decision matches Decision::Notify(request) ==> request.delay_millis < 1000
                * MAX_DELAY_SECONDS,
    {
        let sleep_secs: i64 = draw_between(0, 5);
        self.decide_with(opened, cipher, sleep_secs as u64)
    }
}

} // verus!
