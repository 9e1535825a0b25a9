//! How the clients of the broker are set up.

use vstd::prelude::*;

verus! {

/// One setting of a broker client.
#[derive(Debug)]
pub struct Setting {
    pub key: String,
    pub value: String,
}

/// Settings as pairs of texts.
pub open spec fn setting_views(settings: Seq<Setting>) -> Seq<(Seq<char>, Seq<char>)> {
    settings.map_values(|s: Setting| (s.key@, s.value@))
}

/// The settings that every producer has.
pub open spec fn plain_producer_settings(brokers: Seq<char>) -> Seq<(Seq<char>, Seq<char>)> {
    seq![
        ("bootstrap.servers"@, brokers),
        ("message.timeout.ms"@, "5000"@),
        ("linger.ms"@, "100"@),
        ("queue.buffering.max.kbytes"@, "8388608"@),
        ("queue.buffering.max.messages"@, "1000000"@),
    ]
}

/// The settings that a producer has besides to reach the brokers over SSL.
pub open spec fn ssl_producer_settings() -> Seq<(Seq<char>, Seq<char>)> {
    seq![
        ("security.protocol"@, "SSL"@),
        ("ssl.ca.location"@, "experiment-producer/auth/ca.crt"@),
        ("ssl.keystore.location"@, "experiment-producer/auth/kafka.keystore.pkcs12"@),
        ("ssl.keystore.password"@, "cc2023"@),
    ]
}

/// The settings of the consumer of the group `group_id`.
pub open spec fn consumer_settings_of(group_id: Seq<char>, brokers: Seq<char>) -> Seq<
    (Seq<char>, Seq<char>),
> {
    seq![
        ("group.id"@, group_id),
        ("bootstrap.servers"@, brokers),
        ("enable.partition.eof"@, "false"@),
        ("session.timeout.ms"@, "6000"@),
        ("enable.auto.commit"@, "true"@),
        ("security.protocol"@, "SSL"@),
        ("ssl.ca.location"@, "auth/ca.crt"@),
        ("ssl.keystore.location"@, "auth/kafka.keystore.pkcs12"@),
        ("ssl.keystore.password"@, "cc2023"@),
    ]
}

fn put(settings: &mut Vec<Setting>, key: &str, value: &str)
    ensures
        setting_views(final(settings)@) == setting_views(old(settings)@).push((key@, value@)),
{
    settings.push(Setting { key: key.to_owned(), value: value.to_owned() });
}

/// The settings of a producer that reaches the brokers `brokers`, over SSL if
/// `use_ssl` is set.
pub fn producer_settings(brokers: &str, use_ssl: bool) -> (settings: Vec<Setting>)
    ensures
        setting_views(settings@) == if use_ssl {
            plain_producer_settings(brokers@) + ssl_producer_settings()
        } else {
            plain_producer_settings(brokers@)
        },
{
    let mut settings: Vec<Setting> = Vec::new();
    put(&mut settings, "bootstrap.servers", brokers);
    put(&mut settings, "message.timeout.ms", "5000");
    put(&mut settings, "linger.ms", "100");
    put(&mut settings, "queue.buffering.max.kbytes", "8388608");
    put(&mut settings, "queue.buffering.max.messages", "1000000");
    if use_ssl {
        put(&mut settings, "security.protocol", "SSL");
        put(&mut settings, "ssl.ca.location", "experiment-producer/auth/ca.crt");
        put(&mut settings, "ssl.keystore.location", "experiment-producer/auth/kafka.keystore.pkcs12");
        put(&mut settings, "ssl.keystore.password", "cc2023");
    }
    settings
}

/// The settings of the consumer of the group `group_id` that reaches the
/// brokers `brokers`.
pub fn consumer_settings(group_id: &str, brokers: &str) -> (settings: Vec<Setting>)
    ensures
        setting_views(settings@) == consumer_settings_of(group_id@, brokers@),
{
    let mut settings: Vec<Setting> = Vec::new();
    put(&mut settings, "group.id", group_id);
    put(&mut settings, "bootstrap.servers", brokers);
    put(&mut settings, "enable.partition.eof", "false");
    put(&mut settings, "session.timeout.ms", "6000");
    put(&mut settings, "enable.auto.commit", "true");
    put(&mut settings, "security.protocol", "SSL");
    put(&mut settings, "ssl.ca.location", "auth/ca.crt");
    put(&mut settings, "ssl.keystore.location", "auth/kafka.keystore.pkcs12");
    put(&mut settings, "ssl.keystore.password", "cc2023");
    settings
}

} // verus!
